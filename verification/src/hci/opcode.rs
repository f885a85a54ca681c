//! Opcodes, by who defines them.

use vstd::prelude::*;
use crate::hci::vendor::Vendor;

verus! {

/// An opcode of the core catalogue or one of the vendor's.
#[derive(Debug)]
pub enum Opcode<V: Vendor> {
    Spec(SpecOpcode),
    Vendor(V::Opcode),
}

/// The opcodes of the core catalogue. Only the no-operation opcode, zero,
/// is listed: no core command is implemented.
#[derive(Debug)]
pub enum SpecOpcode {
    Nop,
}

} // verus!
