//! The seam through which a chip vendor supplies its opcodes, events, commands
//! and return parameters, and the two decoders the codec calls for them.

use vstd::prelude::*;
use core::fmt::Debug;
use crate::hci::command::Command;
use crate::hci::wire::{DecodeError, parsed};

verus! {

/// A chip vendor's extension of the packet grammar.
pub trait Vendor: Debug + Sized {
    type Opcode: Into<u16> + Debug;
    type Event: Debug;
    type ReturnParameters: Debug;
    type Command: Debug + Command;

    /// What `vendor_event` makes of a byte string: the undecoded rest and the
    /// event, or the reason for giving up.
    spec fn vendor_event_spec(i: Seq<u8>) -> Result<(Seq<u8>, Self::Event), DecodeError>;

    /// What `return_parameters` makes of the bytes that follow `opcode`.
    spec fn return_parameters_spec(opcode: u16, i: Seq<u8>) -> Result<(Seq<u8>, Self::ReturnParameters), DecodeError>;

    /// Decodes a vendor event off the front of `i`.
    fn vendor_event<'a>(i: &'a [u8]) -> (r: Result<(&'a [u8], Self::Event), DecodeError>)
        ensures
            parsed(r) == Self::vendor_event_spec(i@),
    ;

    /// Decodes the return parameters of the command `opcode` off the front
    /// of `i`.
    fn return_parameters<'a>(opcode: u16, i: &'a [u8]) -> (r: Result<(&'a [u8], Self::ReturnParameters), DecodeError>)
        ensures
            parsed(r) == Self::return_parameters_spec(opcode, i@),
    ;
}

} // verus!
