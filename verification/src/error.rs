//! Ways in which unwinding can end early.

use vstd::prelude::*;

verus! {

/// `gimli::Error`. Nothing is read from one but that there is one.
#[verifier::external_type_specification]
#[verifier::external_body]
pub struct ExGimliError(gimli::Error);

/// An error in the data that describes a frame.
#[derive(Clone, Copy, PartialEq, Eq, Structural, Debug)]
pub enum UnwindError {
    /// The bytes end too early, or do not hold what should stand there.
    Malformed,
    /// A byte that is no pointer encoding.
    UnknownPointerEncoding(u8),
    /// A pointer was to be read where the encoding says that there is none.
    CannotParseOmitPointerEncoding,
    /// A rule holds an expression, and expressions are switched off.
    UnsupportedEvaluation,
    /// An expression left nothing on its stack.
    PopWithEmptyStack,
    /// An expression left more than one piece.
    StackFull,
    /// A row holds more register rules than there is room for.
    TooManyRegisterRules,
}

/// A state that no sound frame description leads to. There is no way on from it.
#[derive(Clone, Copy, PartialEq, Eq, Structural, Debug)]
pub enum Fault {
    /// A register that a context does not hold.
    UnknownRegister(u16),
    /// An address left the address space, or a size is not a number of 64 bits.
    Overflow,
    /// A section is shorter than a length or an offset into it says.
    OutOfBounds,
    /// A register rule that this architecture does not define.
    ArchitecturalRule,
    /// An expression asks for something that unwinding cannot give.
    UnsupportedRequest,
    /// An expression ends in something that is not an address.
    NotAnAddress,
    /// A resumed unwind ended without a landing pad to enter.
    NothingToResume,
}

/// Why a computation stopped before its result.
#[derive(Clone, Copy, PartialEq, Eq, Structural, Debug)]
pub enum Halt {
    /// The word at this address must be read first.
    Missing(usize),
    /// The frame's description is in error.
    Failed(UnwindError),
    /// There is no way on.
    Fault(Fault),
}

} // verus!
