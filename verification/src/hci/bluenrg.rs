//! The BlueNRG vendor extension: the controller-initialized event and the
//! command that asks for the firmware build number.

use vstd::prelude::*;
use crate::hci::command::Command;
use crate::hci::vendor::Vendor;
use crate::hci::parser::packet_spec;
use crate::hci::wire::{byte, decoded, marker, parsed, word, le_u16_value, lemma_le_u16_value, DecodeError};
use crate::hci::{CoreEvent, HciEvent, HciPacket, HciReturnParameters};

verus! {

/// The opcode of the command that asks for the firmware build number.
pub const GET_FIRMWARE_BUILD_NUMBER: u16 = 0xFC00;

/// The first byte of every vendor event.
pub const VENDOR_EVENT: u8 = 0xFF;

/// The event code of the controller-initialized event.
pub const BLUE_INITIALIZED: u16 = 0x0001;

/// The BlueNRG family of controllers.
#[derive(Debug, PartialEq)]
pub struct BlueNrg {}

impl BlueNrg {
    /// What `blue_initialization_reason` makes of `i`: the first byte names the reason.
    pub open spec fn blue_initialization_reason_spec(i: Seq<u8>) -> Result<(Seq<u8>, BlueInitializedReason), DecodeError> {
        if i.len() < 1 {
            Err(DecodeError::MalformedFrame)
        } else if i[0] == 0x01 {
            Ok((i.skip(1), BlueInitializedReason::FirmwareStartedProperly))
        } else if i[0] == 0x05 {
            Ok((i.skip(1), BlueInitializedReason::Reset(ResetCause::Watchdog)))
        } else {
            Err(DecodeError::InvalidReasonCode)
        }
    }

    /// What `blue_initialized_event` makes of `i`: the event code, then the reason.
    pub open spec fn blue_initialized_event_spec(i: Seq<u8>) -> Result<(Seq<u8>, BlueNrgEvent), DecodeError> {
        if i.len() >= 2 && le_u16_value(i[0], i[1]) == BLUE_INITIALIZED {
            match Self::blue_initialization_reason_spec(i.skip(2)) {
                Ok((rest, reason)) => Ok((rest, BlueNrgEvent::BlueInitialized(reason))),
                Err(e) => Err(e),
            }
        } else {
            Err(DecodeError::MalformedFrame)
        }
    }

    /// Decodes the controller-initialized event that follows the vendor
    /// marker and the length byte.
    pub fn blue_initialized_event<'a>(i: &'a [u8]) -> (r: Result<(&'a [u8], BlueNrgEvent), DecodeError>)
        ensures
            parsed(r) == Self::blue_initialized_event_spec(i@),
    {
        let (i1, code) = word(i)?;
        if code != BLUE_INITIALIZED {
            return Err(DecodeError::MalformedFrame);
        }
        let (i2, reason) = Self::blue_initialization_reason(i1)?;
        Ok((i2, BlueNrgEvent::BlueInitialized(reason)))
    }

    /// Decodes the reason byte of the controller-initialized event. A byte
    /// that names no known reason is an error, not a panic.
    pub fn blue_initialization_reason<'a>(i: &'a [u8]) -> (r: Result<(&'a [u8], BlueInitializedReason), DecodeError>)
        ensures
            parsed(r) == Self::blue_initialization_reason_spec(i@),
    {
        let (i1, reason_code) = byte(i)?;
        let reason = match reason_code {
            0x01 => BlueInitializedReason::FirmwareStartedProperly,
            0x05 => BlueInitializedReason::Reset(ResetCause::Watchdog),
            _ => {
                return Err(DecodeError::InvalidReasonCode);
            },
        };
        Ok((i1, reason))
    }
}

impl Vendor for BlueNrg {
    type Opcode = BlueNrgOpcode;

    type Event = BlueNrgEvent;

    type Command = BlueNrgCommand;

    type ReturnParameters = BlueNrgReturnParameters;

    /// The vendor marker, a length byte that is passed over, then the
    /// controller-initialized event.
    open spec fn vendor_event_spec(i: Seq<u8>) -> Result<(Seq<u8>, BlueNrgEvent), DecodeError> {
        if i.len() >= 2 && i[0] == VENDOR_EVENT {
            Self::blue_initialized_event_spec(i.skip(2))
        } else {
            Err(DecodeError::MalformedFrame)
        }
    }

    /// For the firmware build number: a status byte and the build number,
    /// low byte first. No other opcode is known.
    open spec fn return_parameters_spec(opcode: u16, i: Seq<u8>) -> Result<(Seq<u8>, BlueNrgReturnParameters), DecodeError> {
        if opcode != GET_FIRMWARE_BUILD_NUMBER {
            Err(DecodeError::UnsupportedOpcode)
        } else if i.len() >= 3 {
            Ok(
                (
                    i.skip(3),
                    BlueNrgReturnParameters::FirmwareBuildNumber {
                        status: i[0],
                        build_number: le_u16_value(i[1], i[2]),
                    },
                ),
            )
        } else {
            Err(DecodeError::MalformedFrame)
        }
    }

    fn vendor_event<'a>(i: &'a [u8]) -> (r: Result<(&'a [u8], BlueNrgEvent), DecodeError>) {
        let i1 = marker(VENDOR_EVENT, i)?;
        let (i2, _len) = byte(i1)?;
        assert(i2@ == i@.skip(2));
        Self::blue_initialized_event(i2)
    }

    fn return_parameters<'a>(opcode: u16, i: &'a [u8]) -> (r: Result<(&'a [u8], BlueNrgReturnParameters), DecodeError>) {
        match opcode {
            0xFC00 => {
                let (i1, status) = byte(i)?;
                let (i2, build_number) = word(i1)?;
                assert(i2@ == i@.skip(3));
                Ok((i2, BlueNrgReturnParameters::FirmwareBuildNumber { status, build_number }))
            },
            _ => Err(DecodeError::UnsupportedOpcode),
        }
    }
}

/// The vendor's commands.
#[derive(Debug, Clone, Copy, PartialEq, Eq)]
pub enum BlueNrgCommand {
    GetFirmwareBuildNumber,
}

impl Command for BlueNrgCommand {
    type ReturnParameters = BlueNrgReturnParameters;

    open spec fn opcode_spec(&self) -> u16 {
        GET_FIRMWARE_BUILD_NUMBER
    }

    open spec fn parameters_spec(&self) -> Option<Seq<u8>> {
        None
    }

    fn opcode(&self) -> (opcode: u16) {
        match self {
            BlueNrgCommand::GetFirmwareBuildNumber => GET_FIRMWARE_BUILD_NUMBER,
        }
    }

    fn parameters(&self) -> (parameters: Option<&[u8]>) {
        match self {
            BlueNrgCommand::GetFirmwareBuildNumber => None,
        }
    }
}

/// What the vendor's commands return.
#[derive(Debug, Clone, Copy, PartialEq, Eq)]
pub enum BlueNrgReturnParameters {
    FirmwareBuildNumber { status: u8, build_number: u16 },
}

/// The vendor's opcodes.
#[derive(Debug, Clone, Copy, PartialEq, Eq)]
pub enum BlueNrgOpcode {
    GetFirmwareBuildNumber,
}

impl From<BlueNrgOpcode> for u16 {
    fn from(opcode: BlueNrgOpcode) -> (code: u16) {
        match opcode {
            BlueNrgOpcode::GetFirmwareBuildNumber => GET_FIRMWARE_BUILD_NUMBER,
        }
    }
}

impl vstd::std_specs::convert::FromSpecImpl<BlueNrgOpcode> for u16 {
    open spec fn obeys_from_spec() -> bool {
        true
    }

    open spec fn from_spec(opcode: BlueNrgOpcode) -> u16 {
        GET_FIRMWARE_BUILD_NUMBER
    }
}

/// The answer to the command that asks for the firmware build number.
#[derive(Debug, Clone, Copy, PartialEq, Eq)]
pub struct FirmwareBuildNumber {
    pub status: u8,
    pub build_number: u16,
}

/// The vendor's events.
#[derive(Debug, Clone, Copy, PartialEq, Eq)]
pub enum BlueNrgEvent {
    BlueInitialized(BlueInitializedReason),
}

/// Why the controller announces that it is initialized.
#[derive(Debug, Clone, Copy, PartialEq, Eq)]
pub enum BlueInitializedReason {
    FirmwareStartedProperly,
    UpdaterModeEntered(UpdaterModeCause),
    Reset(ResetCause),
}

/// Why the controller entered its updater mode.
#[derive(Debug, Clone, Copy, PartialEq, Eq)]
pub enum UpdaterModeCause {
    AciUpdaterStart,
    BadBlueFlag,
    IrqPin,
}

/// Why the controller was reset.
#[derive(Debug, Clone, Copy, PartialEq, Eq)]
pub enum ResetCause {
    Watchdog,
    Lockup,
    Brownout,
    Crash,
    EccError,
}

/// A command-complete event whose opcode is zero decodes to the packet
/// count, the opcode zero and core return parameters. Six bytes are used:
/// whatever follows them is handed back.
pub proof fn lemma_command_complete_core(len: u8, packets: u8, tail: Seq<u8>)
    ensures
        packet_spec::<BlueNrg>(seq![0x04u8, 0x0Eu8, len, packets, 0x00u8, 0x00u8] + tail) == decoded(
            tail,
            HciPacket::<BlueNrg>::Event(
                HciEvent::Core(
                    CoreEvent::CommandComplete {
                        packets,
                        opcode: 0,
                        return_parameters: HciReturnParameters::Hci,
                    },
                ),
            ),
        ),
{
    let i = seq![0x04u8, 0x0Eu8, len, packets, 0x00u8, 0x00u8] + tail;
    let event = i.skip(1);
    lemma_le_u16_value(0, 0);
    assert(event.skip(5) == tail);
}

/// The return parameters of the firmware build number command are a status
/// byte and the build number, low byte first. Three bytes are used: whatever
/// follows them is handed back.
pub proof fn lemma_firmware_build_number(status: u8, build_lo: u8, build_hi: u8, tail: Seq<u8>)
    ensures
        BlueNrg::return_parameters_spec(GET_FIRMWARE_BUILD_NUMBER, seq![status, build_lo, build_hi] + tail)
            == decoded(
            tail,
            BlueNrgReturnParameters::FirmwareBuildNumber {
                status,
                build_number: le_u16_value(build_lo, build_hi),
            },
        ),
        le_u16_value(build_lo, build_hi) == build_lo + 256 * build_hi,
{
    let i = seq![status, build_lo, build_hi] + tail;
    lemma_le_u16_value(build_lo, build_hi);
    assert(i.skip(3) == tail);
}

/// What a controller-initialized event decodes to, by its reason byte.
pub open spec fn blue_initialized(reason: u8, tail: Seq<u8>) -> Result<(Seq<u8>, BlueNrgEvent), DecodeError> {
    if reason == 0x01 {
        Ok((tail, BlueNrgEvent::BlueInitialized(BlueInitializedReason::FirmwareStartedProperly)))
    } else if reason == 0x05 {
        Ok((tail, BlueNrgEvent::BlueInitialized(BlueInitializedReason::Reset(ResetCause::Watchdog))))
    } else {
        Err(DecodeError::InvalidReasonCode)
    }
}

/// A vendor event with the event code 1 is the controller-initialized event:
/// reason 1 says that the firmware started properly, reason 5 that the
/// watchdog reset the controller, and every other reason is an error of its
/// own kind, for the vendor decoder and for the packet decoder alike.
pub proof fn lemma_blue_initialized(len: u8, reason: u8, tail: Seq<u8>)
    ensures
        BlueNrg::vendor_event_spec(seq![0xFFu8, len, 0x01u8, 0x00u8, reason] + tail) == blue_initialized(
            reason,
            tail,
        ),
        packet_spec::<BlueNrg>(seq![0x04u8, 0xFFu8, len, 0x01u8, 0x00u8, reason] + tail)
            == match blue_initialized(reason, tail) {
            Ok((rest, event)) => Ok((rest, HciPacket::<BlueNrg>::Event(HciEvent::Vendor(event)))),
            Err(e) => Err(e),
        },
{
    let i = seq![0xFFu8, len, 0x01u8, 0x00u8, reason] + tail;
    let body = i.skip(2);
    lemma_le_u16_value(1, 0);
    assert(body.skip(2).skip(1) == tail);
    let p = seq![0x04u8, 0xFFu8, len, 0x01u8, 0x00u8, reason] + tail;
    assert(p.skip(1) == i);
}

} // verus!
