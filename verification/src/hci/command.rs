//! What every outgoing command provides: its opcode and its parameter bytes.

use vstd::prelude::*;
use core::fmt::Debug;

verus! {

/// A command for the controller.
pub trait Command {
    /// What the controller returns when the command completes.
    type ReturnParameters: Debug;

    /// The 16-bit opcode.
    spec fn opcode_spec(&self) -> u16;

    /// The parameter bytes; `None` where the command carries none.
    spec fn parameters_spec(&self) -> Option<Seq<u8>>;

    /// The 16-bit opcode.
    fn opcode(&self) -> (opcode: u16)
        ensures
            opcode == self.opcode_spec(),
    ;

    /// The parameter bytes. Their number travels in one byte of the frame,
    /// so no command has more than 255 of them.
    fn parameters(&self) -> (parameters: Option<&[u8]>)
        ensures
            parameters is Some <==> self.parameters_spec() is Some,
            parameters matches Some(bytes) ==> self.parameters_spec() == Some(bytes@) && bytes@.len() <= 255,
    ;
}

} // verus!
