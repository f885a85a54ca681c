use bluenrg::driver::{ready_header, writable_header, Driver, Op, Phase};
use bluenrg::hci::bluenrg::{BlueNrg, BlueNrgCommand, BlueNrgReturnParameters, FirmwareBuildNumber};
use bluenrg::hci::{CoreEvent, HciCommand, HciEvent, HciPacket, HciReturnParameters};
use bluenrg::interface::{firmware_build_version, match_response, Error, Interface};
use bluenrg::queue::PacketQueue;

fn pair() -> (Driver, Interface) {
    let requests: &'static mut PacketQueue = Box::leak(Box::new(PacketQueue::new()));
    let responses: &'static mut PacketQueue = Box::leak(Box::new(PacketQueue::new()));
    Driver::new(requests, responses)
}

fn initialize(driver: &mut Driver) {
    let _ = driver.process_irq();
    let _ = driver.exchanged(&[0x02, 0x7F, 0x00, 0x06, 0x00]);
    let _ = driver.exchanged(&[0x04, 0xFF, 0x03, 0x01, 0x00, 0x01]);
}

fn get_build() -> HciCommand<BlueNrg> {
    HciCommand::Vendor(BlueNrgCommand::GetFirmwareBuildNumber)
}

#[test]
fn header_counts_are_little_endian() {
    assert_eq!(ready_header(&[0x02, 0x34, 0x12, 0x78, 0x56]), Some((0x1234, 0x5678)));
    assert_eq!(writable_header(&[0x02, 0x34, 0x12, 0x78, 0x56], 4), Some((0x1234, 0x5678)));
    assert_eq!(ready_header(&[0x02, 0xFF, 0x00, 0x00, 0x01]), Some((0x00FF, 0x0100)));
}

#[test]
fn header_without_ready_marker_is_not_usable() {
    assert_eq!(ready_header(&[0x00, 0x34, 0x12, 0x78, 0x56]), None);
    assert_eq!(writable_header(&[0xFF, 0x34, 0x12, 0x78, 0x56], 1), None);
    assert_eq!(ready_header(&[0x02, 0x34, 0x12, 0x78]), None);
    assert_eq!(ready_header(&[0x02, 0x34, 0x12, 0x78, 0x56, 0x00]), None);
    assert_eq!(ready_header(&[]), None);
}

#[test]
fn writable_header_needs_room_for_the_frame() {
    assert_eq!(writable_header(&[0x02, 0x04, 0x00, 0x00, 0x00], 4), Some((4, 0)));
    assert_eq!(writable_header(&[0x02, 0x03, 0x00, 0x00, 0x00], 4), None);
    assert_eq!(writable_header(&[0x02, 0x00, 0x01, 0x00, 0x00], 259), None);
    assert_eq!(writable_header(&[0x02, 0x03, 0x01, 0x00, 0x00], 259), Some((259, 0)));
}

#[test]
fn reset_holds_the_line_for_five_milliseconds() {
    let (driver, _interface) = pair();
    let action = driver.reset();
    assert_eq!(action.ops, vec![Op::Stop, Op::Delay(5), Op::Start]);
    assert!(action.data.is_empty());
}

#[test]
fn new_driver_is_idle_and_not_initialized() {
    let (driver, _interface) = pair();
    assert!(!driver.is_initialized());
    assert_eq!(driver.phase(), Phase::Idle);
}

#[test]
fn read_cycle_starts_with_the_read_probe() {
    let (mut driver, _interface) = pair();
    let action = driver.process_irq();
    assert_eq!(action.ops, vec![Op::Select, Op::Transfer]);
    assert_eq!(action.data, vec![0x0B, 0, 0, 0, 0]);
    assert_eq!(driver.phase(), Phase::AwaitReady);
}

#[test]
fn unusable_header_is_retried_after_a_millisecond() {
    let (mut driver, _interface) = pair();
    let _ = driver.process_irq();
    let action = driver.exchanged(&[0x00, 0x00, 0x00, 0x00, 0x00]);
    assert_eq!(action.ops, vec![Op::Deselect, Op::Delay(1), Op::Select, Op::Transfer]);
    assert_eq!(action.data, vec![0x0B, 0, 0, 0, 0]);
    assert_eq!(driver.phase(), Phase::AwaitReady);
}

#[test]
fn nothing_to_read_before_initialization_keeps_asking() {
    let (mut driver, _interface) = pair();
    let _ = driver.process_irq();
    let action = driver.exchanged(&[0x02, 0x7F, 0x00, 0x00, 0x00]);
    assert_eq!(action.ops, vec![Op::Deselect, Op::Select, Op::Transfer]);
    assert_eq!(action.data, vec![0x0B, 0, 0, 0, 0]);
    assert_eq!(driver.phase(), Phase::AwaitReady);
}

#[test]
fn nothing_to_read_after_initialization_ends_the_cycle() {
    let (mut driver, _interface) = pair();
    initialize(&mut driver);
    let _ = driver.process_irq();
    let action = driver.exchanged(&[0x02, 0x7F, 0x00, 0x00, 0x00]);
    assert_eq!(action.ops, vec![Op::Deselect]);
    assert!(action.data.is_empty());
    assert_eq!(driver.phase(), Phase::Idle);
}

#[test]
fn readable_bytes_are_read_in_full() {
    let (mut driver, _interface) = pair();
    let _ = driver.process_irq();
    let action = driver.exchanged(&[0x02, 0x7F, 0x00, 0x06, 0x00]);
    assert_eq!(action.ops, vec![Op::Transfer]);
    assert_eq!(action.data, vec![0u8; 6]);
    assert_eq!(driver.phase(), Phase::Reading);
    let action = driver.exchanged(&[0x02, 0x7F, 0x00, 0x2C, 0x01]);
    assert_eq!(action.ops, vec![Op::Deselect]);
    let _ = driver.process_irq();
    let action = driver.exchanged(&[0x02, 0x7F, 0x00, 0x2C, 0x01]);
    assert_eq!(action.data, vec![0u8; 300]);
}

#[test]
fn initialization_event_initializes_the_driver() {
    let (mut driver, _interface) = pair();
    let _ = driver.process_irq();
    let _ = driver.exchanged(&[0x02, 0x7F, 0x00, 0x06, 0x00]);
    let action = driver.exchanged(&[0x04, 0xFF, 0x03, 0x01, 0x00, 0x01]);
    assert_eq!(action.ops, vec![Op::Deselect]);
    assert!(driver.is_initialized());
    assert_eq!(driver.phase(), Phase::Idle);
}

#[test]
fn other_events_do_not_initialize_the_driver() {
    let (mut driver, _interface) = pair();
    let _ = driver.process_irq();
    let _ = driver.exchanged(&[0x02, 0x7F, 0x00, 0x06, 0x00]);
    let _ = driver.exchanged(&[0x04, 0x0E, 0x03, 0x01, 0x00, 0x00]);
    assert!(!driver.is_initialized());
}

#[test]
fn undecodable_bytes_are_dropped() {
    let (mut driver, mut interface) = pair();
    let _ = driver.process_irq();
    let _ = driver.exchanged(&[0x02, 0x7F, 0x00, 0x06, 0x00]);
    let action = driver.exchanged(&[0x04, 0xFF, 0x03, 0x01, 0x00, 0x09]);
    assert_eq!(action.ops, vec![Op::Deselect]);
    assert!(!driver.is_initialized());
    assert_eq!(driver.phase(), Phase::Idle);
    assert_eq!(interface.send_command(get_build(), 3).unwrap_err(), Error::Timeout);
}

#[test]
fn fifo_does_nothing_before_initialization() {
    let (mut driver, mut interface) = pair();
    assert_eq!(interface.send_command(get_build(), 0).unwrap_err(), Error::Timeout);
    let action = driver.process_fifo();
    assert!(action.ops.is_empty());
    assert!(action.data.is_empty());
    assert_eq!(driver.phase(), Phase::Idle);
}

#[test]
fn fifo_without_requests_goes_on_to_read() {
    let (mut driver, _interface) = pair();
    initialize(&mut driver);
    let action = driver.process_fifo();
    assert_eq!(action.ops, vec![Op::Select, Op::Transfer]);
    assert_eq!(action.data, vec![0x0B, 0, 0, 0, 0]);
    assert_eq!(driver.phase(), Phase::AwaitReady);
}

#[test]
fn queued_command_is_written_then_the_answer_is_read() {
    let (mut driver, mut interface) = pair();
    initialize(&mut driver);
    assert_eq!(interface.send_command(get_build(), 1).unwrap_err(), Error::Timeout);

    let action = driver.process_fifo();
    assert_eq!(action.ops, vec![Op::Select, Op::Transfer]);
    assert_eq!(action.data, vec![0x0A, 0, 0, 0, 0]);
    assert_eq!(driver.phase(), Phase::AwaitWritable);

    let action = driver.exchanged(&[0x02, 0x03, 0x00, 0x00, 0x00]);
    assert_eq!(action.ops, vec![Op::Deselect, Op::Delay(1), Op::Select, Op::Transfer]);
    assert_eq!(action.data, vec![0x0A, 0, 0, 0, 0]);

    let action = driver.exchanged(&[0x02, 0x04, 0x00, 0x00, 0x00]);
    assert_eq!(action.ops, vec![Op::Transfer]);
    assert_eq!(action.data, vec![0x01, 0x00, 0xFC, 0x00]);
    assert_eq!(driver.phase(), Phase::Writing);

    let action = driver.exchanged(&[0x00, 0x00, 0x00, 0x00]);
    assert_eq!(action.ops, vec![Op::Deselect, Op::Select, Op::Transfer]);
    assert_eq!(action.data, vec![0x0B, 0, 0, 0, 0]);
    assert_eq!(driver.phase(), Phase::AwaitReady);

    let action = driver.exchanged(&[0x02, 0x7F, 0x00, 0x09, 0x00]);
    assert_eq!(action.data, vec![0u8; 9]);
    let action = driver.exchanged(&[0x04, 0x0E, 0x06, 0x01, 0x00, 0xFC, 0x00, 0x34, 0x12]);
    assert_eq!(action.ops, vec![Op::Deselect]);
    assert_eq!(driver.phase(), Phase::Idle);

    let parameters = interface.send_command(get_build(), 2).unwrap();
    assert!(matches!(
        parameters,
        HciReturnParameters::Vendor(BlueNrgReturnParameters::FirmwareBuildNumber {
            status: 0x00,
            build_number: 0x1234,
        })
    ));
}

#[test]
fn two_queued_commands_are_written_one_after_the_other() {
    let (mut driver, mut interface) = pair();
    initialize(&mut driver);
    let _ = interface.send_command(get_build(), 0);
    let _ = interface.send_command(get_build(), 0);
    let _ = driver.process_fifo();
    let _ = driver.exchanged(&[0x02, 0x10, 0x00, 0x00, 0x00]);
    let action = driver.exchanged(&[0x00, 0x00, 0x00, 0x00]);
    assert_eq!(action.ops, vec![Op::Deselect, Op::Select, Op::Transfer]);
    assert_eq!(action.data, vec![0x0A, 0, 0, 0, 0]);
    assert_eq!(driver.phase(), Phase::AwaitWritable);
    let action = driver.exchanged(&[0x02, 0x10, 0x00, 0x00, 0x00]);
    assert_eq!(action.data, vec![0x01, 0x00, 0xFC, 0x00]);
    let action = driver.exchanged(&[0x00, 0x00, 0x00, 0x00]);
    assert_eq!(action.data, vec![0x0B, 0, 0, 0, 0]);
}

#[test]
fn idle_driver_ignores_stray_bytes() {
    let (mut driver, _interface) = pair();
    let action = driver.exchanged(&[0x02, 0x7F, 0x00, 0x06, 0x00]);
    assert!(action.ops.is_empty());
    assert!(action.data.is_empty());
    assert_eq!(driver.phase(), Phase::Idle);
}

#[test]
fn send_command_times_out_without_an_answer() {
    let (_driver, mut interface) = pair();
    assert_eq!(interface.send_command(get_build(), 4).unwrap_err(), Error::Timeout);
}

#[test]
fn send_command_skips_events_that_do_not_match() {
    let (mut driver, mut interface) = pair();
    initialize(&mut driver);
    for answer in [
        &[0x04, 0x0E, 0x03, 0x01, 0x00, 0x00][..],
        &[0x04, 0x0F, 0x04, 0x01, 0x01, 0x00, 0xFC][..],
        &[0x04, 0x0E, 0x06, 0x01, 0x00, 0xFC, 0x05, 0x01, 0x02][..],
    ] {
        let _ = driver.process_irq();
        let _ = driver.exchanged(&[0x02, 0x7F, 0x00, 0x09, 0x00]);
        let _ = driver.exchanged(answer);
    }
    assert_eq!(interface.send_command(get_build(), 3).unwrap_err(), Error::Timeout);
    let parameters = interface.send_command(get_build(), 1).unwrap();
    assert!(matches!(
        parameters,
        HciReturnParameters::Vendor(BlueNrgReturnParameters::FirmwareBuildNumber {
            status: 0x05,
            build_number: 0x0201,
        })
    ));
}

#[test]
fn send_command_stops_at_the_first_match() {
    let (mut driver, mut interface) = pair();
    initialize(&mut driver);
    for answer in [
        &[0x04, 0x0E, 0x06, 0x01, 0x00, 0xFC, 0x00, 0x01, 0x00][..],
        &[0x04, 0x0E, 0x06, 0x01, 0x00, 0xFC, 0x00, 0x02, 0x00][..],
    ] {
        let _ = driver.process_irq();
        let _ = driver.exchanged(&[0x02, 0x7F, 0x00, 0x09, 0x00]);
        let _ = driver.exchanged(answer);
    }
    let first = interface.get_firmware_build_version(8).unwrap();
    assert_eq!(first, FirmwareBuildNumber { status: 0, build_number: 1 });
    let second = interface.get_firmware_build_version(8).unwrap();
    assert_eq!(second, FirmwareBuildNumber { status: 0, build_number: 2 });
}

#[test]
fn seventeenth_request_is_refused() {
    let (_driver, mut interface) = pair();
    for _ in 0..16 {
        assert_eq!(interface.send_command(get_build(), 0).unwrap_err(), Error::Timeout);
    }
    assert_eq!(interface.send_command(get_build(), 0).unwrap_err(), Error::QueueFull);
    assert_eq!(interface.send_command(get_build(), 5).unwrap_err(), Error::QueueFull);
}

#[test]
fn full_response_queue_drops_the_newest_packet() {
    let (mut driver, mut interface) = pair();
    initialize(&mut driver);
    for build in 0..16u8 {
        let _ = driver.process_irq();
        let _ = driver.exchanged(&[0x02, 0x7F, 0x00, 0x09, 0x00]);
        let _ = driver.exchanged(&[0x04, 0x0E, 0x06, 0x01, 0x00, 0xFC, 0x00, build, 0x00]);
    }
    for build in 0..15u16 {
        let found = interface.get_firmware_build_version(2).unwrap();
        assert_eq!(found, FirmwareBuildNumber { status: 0, build_number: build });
    }
    assert_eq!(interface.get_firmware_build_version(4).unwrap_err(), Error::Timeout);
}

#[test]
fn match_response_takes_only_the_matching_completion() {
    let complete = |opcode: u16| {
        Some(HciPacket::<BlueNrg>::Event(HciEvent::Core(CoreEvent::CommandComplete {
            packets: 1,
            opcode,
            return_parameters: HciReturnParameters::Hci,
        })))
    };
    assert!(matches!(match_response(0x0003, complete(0x0003)), Some(HciReturnParameters::Hci)));
    assert!(match_response(0x0003, complete(0x0004)).is_none());
    assert!(match_response(0x0003, None).is_none());
    assert!(match_response(0xFC00, Some(HciPacket::Command(get_build()))).is_none());
}

#[test]
fn build_version_needs_vendor_parameters() {
    assert_eq!(
        firmware_build_version(Ok(HciReturnParameters::Vendor(BlueNrgReturnParameters::FirmwareBuildNumber {
            status: 1,
            build_number: 0x0708,
        }))),
        Ok(FirmwareBuildNumber { status: 1, build_number: 0x0708 })
    );
    assert_eq!(firmware_build_version(Ok(HciReturnParameters::Hci)), Err(Error::UnexpectedParameters));
    assert_eq!(firmware_build_version(Err(Error::Timeout)), Err(Error::Timeout));
    assert_eq!(firmware_build_version(Err(Error::QueueFull)), Err(Error::QueueFull));
}
