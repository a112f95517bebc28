//! What the unwind protocol fixes for AArch64.

use vstd::prelude::*;

verus! {

/// A DWARF register number.
pub type Register = u16;

/// The registers and sizes that AArch64 gives to the unwind protocol.
pub struct Arch;

impl Arch {
    /// The stack pointer.
    pub const SP: Register = 31;

    /// The register that holds the return address.
    pub const RA: Register = 30;

    /// The register in which a landing pad gets the exception.
    pub const UNWIND_DATA_REG_0: Register = 0;

    /// The register in which a landing pad gets the selector.
    pub const UNWIND_DATA_REG_1: Register = 1;

    /// Words that an exception reserves for the unwinder.
    pub const UNWIND_PRIVATE_DATA_SIZE: usize = 2;
}

/// The registers that the protocol needs have the numbers that DWARF gives them.
pub proof fn law_protocol_registers()
    ensures
        Arch::UNWIND_DATA_REG_0 == 0,
        Arch::UNWIND_DATA_REG_1 == 1,
        Arch::RA == 30,
        Arch::SP == 31,
        Arch::UNWIND_PRIVATE_DATA_SIZE == 2,
{
}

} // verus!
