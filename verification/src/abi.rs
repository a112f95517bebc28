//! Codes and flags of the two-phase unwind protocol.
//!
//! Phase 1 asks the personality routine of each frame whether it catches the
//! exception. Phase 2 walks the same frames again and runs their landing pads.
//! A forced unwind has no phase 1: a stop function decides where it ends.

use vstd::prelude::*;
use vstd::std_specs::ops::BitOrSpec;

verus! {

/// The C `int` of the unwind interface.
#[allow(non_camel_case_types)]
pub type c_int = i32;

/// Status code of the two-phase unwind protocol.
#[derive(Clone, Copy, PartialEq, Eq, Structural, Debug)]
pub struct UnwindReasonCode(pub c_int);

impl UnwindReasonCode {
    /// From a stop or trace function: this is not the last frame yet.
    #[verifier::allow_in_spec]
    pub fn no_reason() -> Self
        returns
            UnwindReasonCode(0),
    {
        UnwindReasonCode(0)
    }

    /// To an exception's cleanup function: another runtime caught the exception.
    #[verifier::allow_in_spec]
    pub fn foreign_exception_caught() -> Self
        returns
            UnwindReasonCode(1),
    {
        UnwindReasonCode(1)
    }

    /// Phase 2 cannot go on.
    #[verifier::allow_in_spec]
    pub fn fatal_phase2_error() -> Self
        returns
            UnwindReasonCode(2),
    {
        UnwindReasonCode(2)
    }

    /// Phase 1 cannot go on.
    #[verifier::allow_in_spec]
    pub fn fatal_phase1_error() -> Self
        returns
            UnwindReasonCode(3),
    {
        UnwindReasonCode(3)
    }

    /// From a stop function: the forced unwind has reached its frame.
    #[verifier::allow_in_spec]
    pub fn normal_stop() -> Self
        returns
            UnwindReasonCode(4),
    {
        UnwindReasonCode(4)
    }

    /// The walk ran off the outermost frame.
    #[verifier::allow_in_spec]
    pub fn end_of_stack() -> Self
        returns
            UnwindReasonCode(5),
    {
        UnwindReasonCode(5)
    }

    /// From a personality routine in phase 1: this frame catches the exception.
    #[verifier::allow_in_spec]
    pub fn handler_found() -> Self
        returns
            UnwindReasonCode(6),
    {
        UnwindReasonCode(6)
    }

    /// From a personality routine in phase 2: the context now enters a landing pad.
    #[verifier::allow_in_spec]
    pub fn install_context() -> Self
        returns
            UnwindReasonCode(7),
    {
        UnwindReasonCode(7)
    }

    /// From a personality routine: nothing to do in this frame.
    #[verifier::allow_in_spec]
    pub fn continue_unwind() -> Self
        returns
            UnwindReasonCode(8),
    {
        UnwindReasonCode(8)
    }
}

/// Flags that tell a personality routine or a stop function why it is called.
#[derive(Clone, Copy, PartialEq, Eq, Structural, Debug)]
pub struct UnwindAction(pub c_int);

impl UnwindAction {
    /// Phase 1: only look for a handler.
    #[verifier::allow_in_spec]
    pub fn search_phase() -> Self
        returns
            UnwindAction(1),
    {
        UnwindAction(1)
    }

    /// Phase 2: clean up, and enter landing pads.
    #[verifier::allow_in_spec]
    pub fn cleanup_phase() -> Self
        returns
            UnwindAction(2),
    {
        UnwindAction(2)
    }

    /// Phase 2: phase 1 found the handler in this frame.
    #[verifier::allow_in_spec]
    pub fn handler_frame() -> Self
        returns
            UnwindAction(4),
    {
        UnwindAction(4)
    }

    /// The unwind is forced: nothing may catch it.
    #[verifier::allow_in_spec]
    pub fn force_unwind() -> Self
        returns
            UnwindAction(8),
    {
        UnwindAction(8)
    }

    /// A forced unwind has no frame left.
    #[verifier::allow_in_spec]
    pub fn end_of_stack() -> Self
        returns
            UnwindAction(16),
    {
        UnwindAction(16)
    }

    /// No flag at all.
    #[verifier::allow_in_spec]
    pub fn empty() -> Self
        returns
            UnwindAction(0),
    {
        UnwindAction(0)
    }

    /// Whether this set and `other` share a flag.
    #[verifier::allow_in_spec]
    pub fn contains(&self, other: Self) -> bool
        returns
            self.0 & other.0 != 0,
    {
        self.0 & other.0 != 0
    }

    /// The flags of either set.
    pub open spec fn or(self, rhs: Self) -> Self {
        UnwindAction(self.0 | rhs.0)
    }
}

impl core::ops::BitOr for UnwindAction {
    type Output = Self;

    fn bitor(self, rhs: Self) -> (r: Self) {
        UnwindAction(self.0 | rhs.0)
    }
}

impl vstd::std_specs::ops::BitOrSpecImpl for UnwindAction {
    open spec fn obeys_bitor_spec() -> bool {
        true
    }

    open spec fn bitor_req(self, rhs: Self) -> bool {
        true
    }

    open spec fn bitor_spec(self, rhs: Self) -> Self {
        self.or(rhs)
    }
}

/// A union shares a flag with a set exactly where one of its parts does.
pub proof fn law_union_contains(a: UnwindAction, b: UnwindAction, c: UnwindAction)
    ensures
        a.or(b).contains(c) <==> a.contains(c) || b.contains(c),
{
    let x = a.0;
    let y = b.0;
    let z = c.0;
    assert((x | y) & z != 0 <==> x & z != 0 || y & z != 0) by (bit_vector);
}

/// The empty set shares no flag with any set, and adds none to a union.
pub proof fn law_empty(a: UnwindAction)
    ensures
        !UnwindAction::empty().contains(a),
        a.or(UnwindAction::empty()) == a,
{
    let x = a.0;
    assert(0i32 & x == 0) by (bit_vector);
    assert(x | 0i32 == x) by (bit_vector);
}

/// Every flag is contained in itself and in no other flag.
pub proof fn law_flags_apart()
    ensures
        UnwindAction::search_phase().contains(UnwindAction::search_phase()),
        UnwindAction::cleanup_phase().contains(UnwindAction::cleanup_phase()),
        UnwindAction::handler_frame().contains(UnwindAction::handler_frame()),
        UnwindAction::force_unwind().contains(UnwindAction::force_unwind()),
        UnwindAction::end_of_stack().contains(UnwindAction::end_of_stack()),
        !UnwindAction::search_phase().contains(UnwindAction::cleanup_phase()),
        !UnwindAction::search_phase().contains(UnwindAction::handler_frame()),
        !UnwindAction::search_phase().contains(UnwindAction::force_unwind()),
        !UnwindAction::search_phase().contains(UnwindAction::end_of_stack()),
        !UnwindAction::cleanup_phase().contains(UnwindAction::search_phase()),
        !UnwindAction::cleanup_phase().contains(UnwindAction::handler_frame()),
        !UnwindAction::cleanup_phase().contains(UnwindAction::force_unwind()),
        !UnwindAction::cleanup_phase().contains(UnwindAction::end_of_stack()),
        !UnwindAction::handler_frame().contains(UnwindAction::search_phase()),
        !UnwindAction::handler_frame().contains(UnwindAction::cleanup_phase()),
        !UnwindAction::handler_frame().contains(UnwindAction::force_unwind()),
        !UnwindAction::handler_frame().contains(UnwindAction::end_of_stack()),
        !UnwindAction::force_unwind().contains(UnwindAction::search_phase()),
        !UnwindAction::force_unwind().contains(UnwindAction::cleanup_phase()),
        !UnwindAction::force_unwind().contains(UnwindAction::handler_frame()),
        !UnwindAction::force_unwind().contains(UnwindAction::end_of_stack()),
        !UnwindAction::end_of_stack().contains(UnwindAction::search_phase()),
        !UnwindAction::end_of_stack().contains(UnwindAction::cleanup_phase()),
        !UnwindAction::end_of_stack().contains(UnwindAction::handler_frame()),
        !UnwindAction::end_of_stack().contains(UnwindAction::force_unwind()),
{
    assert(1i32 & 1 == 1 && 2i32 & 2 == 2 && 4i32 & 4 == 4 && 8i32 & 8 == 8 && 16i32 & 16 == 16)
        by (bit_vector);
    assert(1i32 & 2 == 0 && 1i32 & 4 == 0 && 1i32 & 8 == 0 && 1i32 & 16 == 0) by (bit_vector);
    assert(2i32 & 1 == 0 && 2i32 & 4 == 0 && 2i32 & 8 == 0 && 2i32 & 16 == 0) by (bit_vector);
    assert(4i32 & 1 == 0 && 4i32 & 2 == 0 && 4i32 & 8 == 0 && 4i32 & 16 == 0) by (bit_vector);
    assert(8i32 & 1 == 0 && 8i32 & 2 == 0 && 8i32 & 4 == 0 && 8i32 & 16 == 0) by (bit_vector);
    assert(16i32 & 1 == 0 && 16i32 & 2 == 0 && 16i32 & 4 == 0 && 16i32 & 8 == 0) by (bit_vector);
}

/// The codes have the numbers that the unwind interface fixes.
pub proof fn law_codes()
    ensures
        UnwindReasonCode::no_reason().0 == 0,
        UnwindReasonCode::foreign_exception_caught().0 == 1,
        UnwindReasonCode::fatal_phase2_error().0 == 2,
        UnwindReasonCode::fatal_phase1_error().0 == 3,
        UnwindReasonCode::normal_stop().0 == 4,
        UnwindReasonCode::end_of_stack().0 == 5,
        UnwindReasonCode::handler_found().0 == 6,
        UnwindReasonCode::install_context().0 == 7,
        UnwindReasonCode::continue_unwind().0 == 8,
{
}

/// The flags have the bits that the unwind interface fixes. A set contains a flag exactly
/// where the flag's bit is set in it, and a union has the bits of both of its parts.
pub proof fn law_flags(a: UnwindAction, b: UnwindAction, bit: c_int)
    requires
        bit == 1 || bit == 2 || bit == 4 || bit == 8 || bit == 16,
    ensures
        UnwindAction::search_phase().0 == 1,
        UnwindAction::cleanup_phase().0 == 2,
        UnwindAction::handler_frame().0 == 4,
        UnwindAction::force_unwind().0 == 8,
        UnwindAction::end_of_stack().0 == 16,
        UnwindAction::empty().0 == 0,
        a.contains(UnwindAction(bit)) <==> a.0 & bit == bit,
        a.contains(b) <==> b.contains(a),
        a.or(b).0 & bit == bit <==> a.0 & bit == bit || b.0 & bit == bit,
        a.or(b) == UnwindAction(a.0 | b.0),
        a.bitor_spec(b) == UnwindAction(a.0 | b.0),
{
    let (x, y) = (a.0, b.0);
    assert((bit == 1 || bit == 2 || bit == 4 || bit == 8 || bit == 16) ==> (x & bit != 0 <==> x
        & bit == bit)) by (bit_vector);
    assert(x & y == y & x) by (bit_vector);
    assert((bit == 1 || bit == 2 || bit == 4 || bit == 8 || bit == 16) ==> ((x | y) & bit == bit
        <==> x & bit == bit || y & bit == bit)) by (bit_vector);
}

} // verus!
