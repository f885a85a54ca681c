//! The decoder for what the controller sends.
//!
//! ```text
//! packet           := 0x04 event
//! event            := vendor_event | core_event
//! core_event       := command_complete | command_status
//! command_complete := 0x0E len packets opcode [return parameters]
//! command_status   := 0x0F len packets status opcode
//! command_packet   := 0x01 opcode count parameters
//! ```
//!
//! An alternative that answers `MalformedFrame` hands over to the next one;
//! every other error ends the decoding. Each decoder returns the bytes it
//! left untouched beside its value.

use vstd::prelude::*;
use crate::hci::vendor::Vendor;
use crate::hci::wire::{byte, bytes, decoded, marker, parsed, word, le_u16_value, lemma_le_u16_value, lemma_split_u16, DecodeError};
use crate::hci::{CommandStatusCode, CoreEvent, HciEvent, HciPacket, HciReturnParameters};
use crate::packet::{command_frame, COMMAND_PACKET};

verus! {

/// The first byte of an event packet.
pub const EVENT_PACKET: u8 = 0x04;

/// The event code of a command-complete event.
pub const COMMAND_COMPLETE: u8 = 0x0E;

/// The event code of a command-status event.
pub const COMMAND_STATUS: u8 = 0x0F;

/// A command-complete event: its code, a length byte that is passed over,
/// the packet count and the opcode. Return parameters follow, and are the
/// vendor's to decode, exactly when the opcode's high byte is not zero.
pub open spec fn hci_event_command_complete_spec<V: Vendor>(i: Seq<u8>) -> Result<(Seq<u8>, CoreEvent<V>), DecodeError> {
    if i.len() >= 5 && i[0] == COMMAND_COMPLETE {
        let opcode = le_u16_value(i[3], i[4]);
        if i[4] != 0 {
            match V::return_parameters_spec(opcode, i.skip(5)) {
                Ok((rest, parameters)) => Ok(
                    (
                        rest,
                        CoreEvent::CommandComplete {
                            packets: i[2],
                            opcode,
                            return_parameters: HciReturnParameters::Vendor(parameters),
                        },
                    ),
                ),
                Err(e) => Err(e),
            }
        } else {
            Ok(
                (
                    i.skip(5),
                    CoreEvent::CommandComplete {
                        packets: i[2],
                        opcode,
                        return_parameters: HciReturnParameters::Hci,
                    },
                ),
            )
        }
    } else {
        Err(DecodeError::MalformedFrame)
    }
}

/// A command-status event: its code, a length byte that is passed over, the
/// packet count, a status byte that names one of the known statuses, and the opcode.
pub open spec fn hci_event_command_status_spec<V: Vendor>(i: Seq<u8>) -> Result<(Seq<u8>, CoreEvent<V>), DecodeError> {
    if i.len() >= 6 && i[0] == COMMAND_STATUS {
        match CommandStatusCode::from_code_spec(i[3]) {
            Some(status) => Ok(
                (
                    i.skip(6),
                    CoreEvent::CommandStatus { status, packets: i[2], opcode: le_u16_value(i[4], i[5]) },
                ),
            ),
            None => Err(DecodeError::MalformedFrame),
        }
    } else {
        Err(DecodeError::MalformedFrame)
    }
}

/// A core event: command complete or, if that does not fit, command status.
pub open spec fn core_event_spec<V: Vendor>(i: Seq<u8>) -> Result<(Seq<u8>, CoreEvent<V>), DecodeError> {
    match hci_event_command_complete_spec::<V>(i) {
        Err(e) if e.backtracks() => hci_event_command_status_spec::<V>(i),
        r => r,
    }
}

/// An event: the vendor's or, if that does not fit, a core event.
pub open spec fn event_spec<V: Vendor>(i: Seq<u8>) -> Result<(Seq<u8>, HciEvent<V>), DecodeError> {
    match V::vendor_event_spec(i) {
        Ok((rest, event)) => Ok((rest, HciEvent::Vendor(event))),
        Err(e) if e.backtracks() => match core_event_spec::<V>(i) {
            Ok((rest, event)) => Ok((rest, HciEvent::Core(event))),
            Err(e) => Err(e),
        },
        Err(e) => Err(e),
    }
}

/// An event packet: the marker byte, then an event.
pub open spec fn event_packet_spec<V: Vendor>(i: Seq<u8>) -> Result<(Seq<u8>, HciPacket<V>), DecodeError> {
    if i.len() >= 1 && i[0] == EVENT_PACKET {
        match event_spec::<V>(i.skip(1)) {
            Ok((rest, event)) => Ok((rest, HciPacket::Event(event))),
            Err(e) => Err(e),
        }
    } else {
        Err(DecodeError::MalformedFrame)
    }
}

/// A packet from the controller; only event packets come from there.
pub open spec fn packet_spec<V: Vendor>(i: Seq<u8>) -> Result<(Seq<u8>, HciPacket<V>), DecodeError> {
    event_packet_spec::<V>(i)
}

/// The packet at the front of `i`, whatever follows it.
pub open spec fn parse_packet_spec<V: Vendor>(i: Seq<u8>) -> Result<HciPacket<V>, DecodeError> {
    match packet_spec::<V>(i) {
        Ok((_, packet)) => Ok(packet),
        Err(e) => Err(e),
    }
}

/// Decodes the packet at the front of `i`.
pub fn parse_packet<V: Vendor>(i: &[u8]) -> (r: Result<HciPacket<V>, DecodeError>)
    ensures
        r == parse_packet_spec::<V>(i@),
{
    match packet(i) {
        Ok((_i, packet)) => Ok(packet),
        Err(e) => Err(e),
    }
}

/// Decodes a packet and hands back the bytes after it.
pub fn packet<'a, V: Vendor>(i: &'a [u8]) -> (r: Result<(&'a [u8], HciPacket<V>), DecodeError>)
    ensures
        parsed(r) == packet_spec::<V>(i@),
{
    event_packet(i)
}

/// Decodes an event packet: the marker byte, then the event.
pub fn event_packet<'a, V: Vendor>(i: &'a [u8]) -> (r: Result<(&'a [u8], HciPacket<V>), DecodeError>)
    ensures
        parsed(r) == event_packet_spec::<V>(i@),
{
    let i1 = marker(EVENT_PACKET, i)?;
    let (i2, event) = event(i1)?;
    Ok((i2, HciPacket::Event(event)))
}

/// Decodes an event: the vendor's grammar is tried first, the core
/// grammar if the vendor's does not fit.
pub fn event<'a, V: Vendor>(i: &'a [u8]) -> (r: Result<(&'a [u8], HciEvent<V>), DecodeError>)
    ensures
        parsed(r) == event_spec::<V>(i@),
{
    match V::vendor_event(i) {
        Ok((rest, event)) => Ok((rest, HciEvent::Vendor(event))),
        Err(e) => {
            if e.recoverable() {
                match core_event(i) {
                    Ok((rest, event)) => Ok((rest, HciEvent::Core(event))),
                    Err(e) => Err(e),
                }
            } else {
                Err(e)
            }
        },
    }
}

/// Decodes a core event: command complete, or command status if that does
/// not fit.
pub fn core_event<'a, V: Vendor>(i: &'a [u8]) -> (r: Result<(&'a [u8], CoreEvent<V>), DecodeError>)
    ensures
        parsed(r) == core_event_spec::<V>(i@),
{
    match hci_event_command_complete(i) {
        Ok(found) => Ok(found),
        Err(e) => {
            if e.recoverable() {
                hci_event_command_status(i)
            } else {
                Err(e)
            }
        },
    }
}

/// Decodes a command-complete event.
pub fn hci_event_command_complete<'a, V: Vendor>(i: &'a [u8]) -> (r: Result<(&'a [u8], CoreEvent<V>), DecodeError>)
    ensures
        parsed(r) == hci_event_command_complete_spec::<V>(i@),
{
    let i1 = marker(COMMAND_COMPLETE, i)?;
    let (i2, _len) = byte(i1)?;
    let (i3, packets) = byte(i2)?;
    let (i4, opcode) = word(i3)?;
    proof {
        assert(i4@ == i@.skip(5));
        lemma_le_u16_value(i@[3], i@[4]);
        lemma_split_u16(opcode);
    }
    if (opcode & 0xFF00) != 0 {
        let (i5, parameters) = V::return_parameters(opcode, i4)?;
        Ok(
            (
                i5,
                CoreEvent::CommandComplete {
                    packets,
                    opcode,
                    return_parameters: HciReturnParameters::Vendor(parameters),
                },
            ),
        )
    } else {
        Ok((i4, CoreEvent::CommandComplete { packets, opcode, return_parameters: HciReturnParameters::Hci }))
    }
}

/// Decodes a command-status event.
pub fn hci_event_command_status<'a, V: Vendor>(i: &'a [u8]) -> (r: Result<(&'a [u8], CoreEvent<V>), DecodeError>)
    ensures
        parsed(r) == hci_event_command_status_spec::<V>(i@),
{
    let i1 = marker(COMMAND_STATUS, i)?;
    let (i2, _len) = byte(i1)?;
    let (i3, packets) = byte(i2)?;
    let (i4, status) = byte(i3)?;
    let (i5, opcode) = word(i4)?;
    assert(i5@ == i@.skip(6));
    match CommandStatusCode::from_code(status) {
        Some(status) => Ok((i5, CoreEvent::CommandStatus { packets, status, opcode })),
        None => Err(DecodeError::MalformedFrame),
    }
}

/// A command frame: the marker, the opcode, the number of parameter bytes
/// and as many parameter bytes. The value is the opcode and the parameters.
pub open spec fn command_packet_spec(i: Seq<u8>) -> Result<(Seq<u8>, (u16, Seq<u8>)), DecodeError> {
    if i.len() >= 4 && i[0] == COMMAND_PACKET && i.len() >= 4 + i[3] {
        Ok((i.skip(4 + i[3]), (le_u16_value(i[1], i[2]), i.subrange(4, 4 + i[3]))))
    } else {
        Err(DecodeError::MalformedFrame)
    }
}

/// Reads back a frame that is on its way to the controller.
pub fn command_packet<'a>(i: &'a [u8]) -> (r: Result<(&'a [u8], (u16, &'a [u8])), DecodeError>)
    ensures
        r matches Ok((rest, (opcode, parameters))) ==> command_packet_spec(i@) == decoded(
            rest@,
            (opcode, parameters@),
        ),
        r matches Err(e) ==> command_packet_spec(i@) is Err && e == DecodeError::MalformedFrame,
{
    let i1 = marker(COMMAND_PACKET, i)?;
    let (i2, opcode) = word(i1)?;
    let (i3, count) = byte(i2)?;
    let (i4, parameters) = bytes(count as usize, i3)?;
    proof {
        assert(i4@ == i@.skip(4 + i@[3]));
        assert(parameters@ == i@.subrange(4, 4 + i@[3]));
    }
    Ok((i4, (opcode, parameters)))
}

/// Encoding a command and decoding the frame gives back the opcode and the
/// parameters, and leaves no byte over.
pub proof fn lemma_command_round_trip(opcode: u16, parameters: Seq<u8>)
    requires
        parameters.len() <= 255,
    ensures
        command_packet_spec(command_frame(opcode, parameters)) == decoded(
            Seq::<u8>::empty(),
            (opcode, parameters),
        ),
{
    let frame = command_frame(opcode, parameters);
    lemma_split_u16(opcode);
    assert(frame.skip(4 + frame[3]) == Seq::<u8>::empty());
    assert(frame.subrange(4, 4 + frame[3]) == parameters);
}

/// Decoding recognises a frame however many bytes follow it: they are
/// handed back untouched.
pub proof fn lemma_command_frame_prefix(opcode: u16, parameters: Seq<u8>, tail: Seq<u8>)
    requires
        parameters.len() <= 255,
    ensures
        command_packet_spec(command_frame(opcode, parameters) + tail) == decoded(tail, (opcode, parameters)),
{
    let frame = command_frame(opcode, parameters);
    let i = frame + tail;
    lemma_split_u16(opcode);
    assert(i.skip(4 + i[3]) == tail);
    assert(i.subrange(4, 4 + i[3]) == parameters);
}

} // verus!
