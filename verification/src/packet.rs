//! Frames as they go over the bus, and the encoding of commands into them.
//!
//! A command frame is the marker `0x01`, the opcode with its low byte first,
//! the number of parameter bytes, and the parameter bytes.

use vstd::prelude::*;
use heapless::consts::U259;
use crate::hci::command::Command;
use crate::hci::wire::{lo_byte, hi_byte, u16_le_bytes};

verus! {

/// The first byte of a command frame.
pub const COMMAND_PACKET: u8 = 0x01;

/// The bytes in front of a command's parameters.
pub const COMMAND_HEADER_LEN: usize = 4;

/// The most bytes a frame can have: the header and 255 parameter bytes.
pub const MAX_FRAME_LEN: usize = 259;

/// The bytes of a frame, in a buffer with room for the longest one.
#[verifier::external_body]
#[derive(Debug)]
pub struct Payload {
    bytes: heapless::Vec<u8, U259>,
}

/// The bytes that `payload` holds, first to last.
pub uninterp spec fn payload_bytes(payload: Payload) -> Seq<u8>;

impl View for Payload {
    type V = Seq<u8>;

    open spec fn view(&self) -> Seq<u8> {
        payload_bytes(*self)
    }
}

impl Payload {
    /// `heapless::Vec::new`: a buffer that holds nothing.
    #[verifier::external_body]
    pub(crate) fn new() -> (payload: Payload)
        ensures
            payload_bytes(payload) == Seq::<u8>::empty(),
    {
        Payload { bytes: heapless::Vec::new() }
    }

    /// `heapless::Vec::push`: appends `byte` while fewer than 259 bytes are
    /// held; a full buffer stays as it is and the byte comes back.
    #[verifier::external_body]
    pub(crate) fn push(&mut self, byte: u8) -> (r: Result<(), u8>)
        ensures
            payload_bytes(*old(self)).len() < MAX_FRAME_LEN ==> r is Ok
                && payload_bytes(*final(self)) == payload_bytes(*old(self)).push(byte),
            payload_bytes(*old(self)).len() >= MAX_FRAME_LEN ==> r is Err && r->Err_0 == byte
                && payload_bytes(*final(self)) == payload_bytes(*old(self)),
    {
        self.bytes.push(byte)
    }

    /// `heapless::Vec::extend_from_slice`: appends all of `other` if the
    /// buffer then holds at most 259 bytes; otherwise it stays as it is.
    #[verifier::external_body]
    pub(crate) fn extend_from_slice(&mut self, other: &[u8]) -> (r: Result<(), ()>)
        ensures
            payload_bytes(*old(self)).len() + other@.len() <= MAX_FRAME_LEN ==> r is Ok
                && payload_bytes(*final(self)) == payload_bytes(*old(self)) + other@,
            payload_bytes(*old(self)).len() + other@.len() > MAX_FRAME_LEN ==> r is Err
                && payload_bytes(*final(self)) == payload_bytes(*old(self)),
    {
        self.bytes.extend_from_slice(other)
    }

    /// The slice that a `heapless::Vec` dereferences to: the bytes held.
    #[verifier::external_body]
    pub(crate) fn as_slice(&self) -> (bytes: &[u8])
        ensures
            bytes@ == payload_bytes(*self),
    {
        &self.bytes
    }
}

/// The wire-level container: the bytes of a command or of an event.
#[derive(Debug)]
pub enum RawPacket {
    Command(Payload),
    Event(Payload),
}

/// The parameter bytes of a command; a command without parameters has none.
pub open spec fn parameter_bytes(parameters: Option<Seq<u8>>) -> Seq<u8> {
    match parameters {
        Some(bytes) => bytes,
        None => Seq::empty(),
    }
}

/// The frame of the command with this opcode and these parameters.
pub open spec fn command_frame(opcode: u16, parameters: Seq<u8>) -> Seq<u8>
    recommends
        parameters.len() <= 255,
{
    seq![COMMAND_PACKET, lo_byte(opcode), hi_byte(opcode), parameters.len() as u8] + parameters
}

/// The frame of `command`.
pub open spec fn frame_of<C: Command>(command: &C) -> Seq<u8> {
    command_frame(command.opcode_spec(), parameter_bytes(command.parameters_spec()))
}

/// The frame of `command`, ready to be written to the bus.
pub fn encode_command<C: Command>(command: &C) -> (frame: Vec<u8>)
    ensures
        frame@ == frame_of(command),
        COMMAND_HEADER_LEN <= frame@.len() <= MAX_FRAME_LEN,
{
    let (lo, hi) = u16_le_bytes(command.opcode());
    let mut frame: Vec<u8> = Vec::new();
    frame.push(COMMAND_PACKET);
    frame.push(lo);
    frame.push(hi);
    match command.parameters() {
        Some(parameters) => {
            frame.push(parameters.len() as u8);
            let ghost header = frame@;
            let mut k: usize = 0;
            while k < parameters.len()
                invariant
                    k <= parameters@.len(),
                    frame@ == header + parameters@.take(k as int),
                decreases parameters@.len() - k,
            {
                frame.push(parameters[k]);
                k += 1;
            }
        },
        None => {
            frame.push(0);
        },
    }
    frame
}

impl RawPacket {
    /// The bytes held, whichever the kind.
    pub open spec fn bytes(&self) -> Seq<u8> {
        match self {
            RawPacket::Command(payload) => payload@,
            RawPacket::Event(payload) => payload@,
        }
    }

    /// The command packet that holds the frame of `command`.
    pub fn from<C: Command>(command: C) -> (packet: RawPacket)
        ensures
            packet is Command,
            packet.bytes() == frame_of(&command),
    {
        let (lo, hi) = u16_le_bytes(command.opcode());
        let mut payload = Payload::new();
        let _ = payload.push(COMMAND_PACKET);
        let _ = payload.push(lo);
        let _ = payload.push(hi);
        if let Some(parameters) = command.parameters() {
            let _ = payload.push(parameters.len() as u8);
            let _ = payload.extend_from_slice(parameters);
        } else {
            let _ = payload.push(0);
        }
        RawPacket::Command(payload)
    }

    /// The bytes held, whichever the kind.
    pub fn payload(&self) -> (bytes: &[u8])
        ensures
            bytes@ == self.bytes(),
    {
        match self {
            RawPacket::Command(payload) => payload.as_slice(),
            RawPacket::Event(payload) => payload.as_slice(),
        }
    }
}

} // verus!
