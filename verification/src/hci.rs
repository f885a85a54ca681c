//! The HCI-style packet model shared by the codec, the driver and the interface.

use vstd::prelude::*;

pub mod bluenrg;
pub mod command;
pub mod opcode;
pub mod parser;
pub mod vendor;
pub mod wire;

use crate::hci::command::Command;
use crate::hci::vendor::Vendor;

verus! {

/// What travels through the queues: a command on its way to the controller
/// or an event on its way back.
#[derive(Debug)]
pub enum HciPacket<V: Vendor> {
    Command(HciCommand<V>),
    Event(HciEvent<V>),
}

/// An outgoing command: a core command or one of the vendor's.
#[derive(Debug)]
pub enum HciCommand<V: Vendor> {
    Hci,
    Vendor(V::Command),
}

impl<V: Vendor> HciCommand<V> {
    /// The opcode of a vendor command; a core command has none, and zero
    /// stands for it.
    pub open spec fn opcode_spec(&self) -> u16 {
        match self {
            HciCommand::Hci => 0,
            HciCommand::Vendor(vc) => vc.opcode_spec(),
        }
    }

    /// The parameter bytes of a vendor command.
    pub open spec fn parameters_spec(&self) -> Option<Seq<u8>> {
        match self {
            HciCommand::Hci => None,
            HciCommand::Vendor(vc) => vc.parameters_spec(),
        }
    }

    /// The opcode. Only a vendor command has one.
    pub fn opcode(&self) -> (opcode: u16)
        requires
            self is Vendor,
        ensures
            opcode == self.opcode_spec(),
    {
        match self {
            HciCommand::Hci => 0,
            HciCommand::Vendor(vc) => vc.opcode(),
        }
    }

    /// The parameter bytes. Only a vendor command has them.
    pub fn parameters(&self) -> (parameters: Option<&[u8]>)
        requires
            self is Vendor,
        ensures
            parameters is Some <==> self.parameters_spec() is Some,
            parameters matches Some(bytes) ==> self.parameters_spec() == Some(bytes@) && bytes@.len() <= 255,
    {
        match self {
            HciCommand::Hci => None,
            HciCommand::Vendor(vc) => vc.parameters(),
        }
    }
}

/// An incoming event: one of the core events or one of the vendor's.
#[derive(Debug)]
pub enum HciEvent<V: Vendor> {
    Core(CoreEvent<V>),
    Vendor(V::Event),
}

/// The core events that are decoded.
#[derive(Debug)]
pub enum CoreEvent<V: Vendor> {
    CommandComplete { packets: u8, opcode: u16, return_parameters: HciReturnParameters<V> },
    CommandStatus { status: CommandStatusCode, packets: u8, opcode: u16 },
}

/// What a completed command returned.
#[derive(Debug)]
pub enum HciReturnParameters<V: Vendor> {
    Hci,
    Vendor(V::ReturnParameters),
}

/// The status carried by a command-status event.
#[derive(Debug, Clone, Copy, PartialEq, Eq, Structural)]
pub enum CommandStatusCode {
    UnknownHciCommand,
    UnknownConnectionIdentifier,
    HardwareFailure,
    PageTimeout,
    AuthenticationFailure,
}

impl CommandStatusCode {
    /// The byte that stands for this status on the wire.
    pub open spec fn code_spec(self) -> u8 {
        match self {
            CommandStatusCode::UnknownHciCommand => 0x01,
            CommandStatusCode::UnknownConnectionIdentifier => 0x02,
            CommandStatusCode::HardwareFailure => 0x03,
            CommandStatusCode::PageTimeout => 0x04,
            CommandStatusCode::AuthenticationFailure => 0x05,
        }
    }

    /// The status that `code` stands for, if it is one of the five.
    pub open spec fn from_code_spec(code: u8) -> Option<CommandStatusCode> {
        if code == 0x01 {
            Some(CommandStatusCode::UnknownHciCommand)
        } else if code == 0x02 {
            Some(CommandStatusCode::UnknownConnectionIdentifier)
        } else if code == 0x03 {
            Some(CommandStatusCode::HardwareFailure)
        } else if code == 0x04 {
            Some(CommandStatusCode::PageTimeout)
        } else if code == 0x05 {
            Some(CommandStatusCode::AuthenticationFailure)
        } else {
            None
        }
    }

    /// The byte that stands for this status on the wire.
    pub fn code(&self) -> (code: u8)
        ensures
            code == self.code_spec(),
    {
        match self {
            CommandStatusCode::UnknownHciCommand => 0x01,
            CommandStatusCode::UnknownConnectionIdentifier => 0x02,
            CommandStatusCode::HardwareFailure => 0x03,
            CommandStatusCode::PageTimeout => 0x04,
            CommandStatusCode::AuthenticationFailure => 0x05,
        }
    }

    /// The status for a wire byte; `None` for a byte that names no status.
    pub fn from_code(code: u8) -> (status: Option<CommandStatusCode>)
        ensures
            status == Self::from_code_spec(code),
    {
        match code {
            0x01 => Some(CommandStatusCode::UnknownHciCommand),
            0x02 => Some(CommandStatusCode::UnknownConnectionIdentifier),
            0x03 => Some(CommandStatusCode::HardwareFailure),
            0x04 => Some(CommandStatusCode::PageTimeout),
            0x05 => Some(CommandStatusCode::AuthenticationFailure),
            _ => None,
        }
    }

    /// A status and its wire byte determine each other.
    pub proof fn lemma_code_round_trip(self)
        ensures
            Self::from_code_spec(self.code_spec()) == Some(self),
    {
    }
}

} // verus!
