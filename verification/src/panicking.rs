//! Panics as exceptions: how one is marked, and how it is known again.

use vstd::prelude::*;
use crate::abi::UnwindReasonCode;
use crate::reader::{law_fixed_numbers_fit, little_endian, unsigned, ByteOrder};
use crate::unwinder::exception::{CleanupCall, UnwindException, _Unwind_DeleteException};

verus! {

/// The number that the eight bytes of an exception class stand for.
pub fn class_number(class: [u8; 8], order: ByteOrder) -> (r: u64)
    ensures
        r as nat == unsigned(class@, order),
{
    proof {
        reveal_with_fuel(little_endian, 9);
    }
    let c = match order {
        ByteOrder::Little => class,
        ByteOrder::Big => [
            class[7],
            class[6],
            class[5],
            class[4],
            class[3],
            class[2],
            class[1],
            class[0],
        ],
    };
    let low: u64 = c[0] as u64 + 0x100 * c[1] as u64 + 0x1_0000 * c[2] as u64 + 0x100_0000
        * c[3] as u64;
    let high: u64 = c[4] as u64 + 0x100 * c[5] as u64 + 0x1_0000 * c[6] as u64 + 0x100_0000
        * c[7] as u64;
    low + 0x1_0000_0000 * high
}

impl UnwindException {
    /// Belonging to the runtime with this class, which frees it by `cleanup`.
    pub open spec fn marked(self, class: Seq<u8>, order: ByteOrder, cleanup: usize) -> Self {
        UnwindException {
            exception_class: unsigned(class, order) as u64,
            exception_cleanup: Some(cleanup),
            ..self
        }
    }
}

/// Marks `exception` as a panic of the runtime with this class, before it is raised.
pub fn begin_panic(
    exception: &mut UnwindException,
    class: [u8; 8],
    order: ByteOrder,
    cleanup: usize,
)
    ensures
        *final(exception) == old(exception).marked(class@, order, cleanup),
{
    exception.exception_class = class_number(class, order);
    exception.exception_cleanup = Some(cleanup);
}

/// What was caught.
#[derive(Clone, Copy, PartialEq, Eq, Structural, Debug)]
pub enum Caught {
    /// A panic of the runtime that catches it: the payload can be taken out.
    Own,
    /// An exception of another runtime, with the call that frees it.
    Foreign { free: Option<CleanupCall> },
}

/// What `exception` is to the runtime with this class.
pub open spec fn caught_as(exception: UnwindException, class: Seq<u8>, order: ByteOrder) -> Caught {
    if exception.exception_class as nat == unsigned(class, order) {
        Caught::Own
    } else {
        Caught::Foreign { free: exception.deletion() }
    }
}

/// Finds out what the runtime with this class has caught.
pub fn do_catch(exception: &UnwindException, class: [u8; 8], order: ByteOrder) -> (r: Caught)
    ensures
        r == caught_as(*exception, class@, order),
{
    if exception.exception_class != class_number(class, order) {
        Caught::Foreign { free: _Unwind_DeleteException(exception) }
    } else {
        Caught::Own
    }
}

proof fn lemma_little_endian_injective(a: Seq<u8>, b: Seq<u8>)
    requires
        a.len() == b.len(),
        little_endian(a) == little_endian(b),
    ensures
        a == b,
    decreases a.len(),
{
    if a.len() > 0 {
        lemma_little_endian_injective(a.drop_first(), b.drop_first());
        assert(a == seq![a[0]] + a.drop_first());
        assert(b == seq![b[0]] + b.drop_first());
    }
}

/// A panic is known again by the runtime that began it, and by no other: whatever has
/// happened to its private data, a runtime with another class takes it for foreign, and
/// frees it by the function that it was marked with.
pub proof fn law_panics_are_known_again(
    exception: UnwindException,
    class: Seq<u8>,
    other: Seq<u8>,
    order: ByteOrder,
    cleanup: usize,
    private_1: Option<usize>,
    private_2: usize,
)
    requires
        class.len() == 8,
        other.len() == 8,
    ensures
        ({
            let thrown = UnwindException {
                private_1,
                private_2,
                ..exception.marked(class, order, cleanup)
            };
            caught_as(thrown, other, order) == if other == class {
                Caught::Own
            } else {
                Caught::Foreign {
                    free: Some(
                        CleanupCall { cleanup, code: UnwindReasonCode::foreign_exception_caught() },
                    ),
                }
            }
        }),
{
    law_fixed_numbers_fit(class, order);
    law_fixed_numbers_fit(other, order);
    if unsigned(class, order) == unsigned(other, order) {
        match order {
            ByteOrder::Little => lemma_little_endian_injective(class, other),
            ByteOrder::Big => {
                lemma_little_endian_injective(class.reverse(), other.reverse());
                assert(class == class.reverse().reverse());
                assert(other == other.reverse().reverse());
            },
        }
    }
}

/// A panic has the class and the cleanup function that it was marked with. What the
/// unwinder keeps in it stays as it was.
pub proof fn law_panics_are_marked(
    exception: UnwindException,
    class: Seq<u8>,
    order: ByteOrder,
    cleanup: usize,
)
    requires
        class.len() == 8,
    ensures
        ({
            let panic = exception.marked(class, order, cleanup);
            &&& panic.exception_class == unsigned(class, order)
            &&& panic.exception_cleanup == Some(cleanup)
            &&& panic.private_1 == exception.private_1
            &&& panic.private_2 == exception.private_2
        }),
{
    law_fixed_numbers_fit(class, order);
}

/// Any exception is a runtime's own exactly where it has the runtime's class. Any other is
/// foreign, and is freed by its own cleanup function, where it has one.
pub proof fn law_foreign_exceptions_are_freed(
    exception: UnwindException,
    class: Seq<u8>,
    order: ByteOrder,
)
    ensures
        exception.exception_class == unsigned(class, order) ==> caught_as(exception, class, order)
            == Caught::Own,
        exception.exception_class != unsigned(class, order) ==> {
            &&& exception.exception_cleanup is None ==> caught_as(exception, class, order)
                == (Caught::Foreign { free: None })
            &&& exception.exception_cleanup matches Some(cleanup) ==> caught_as(
                exception,
                class,
                order,
            ) == (Caught::Foreign {
                free: Some(CleanupCall { cleanup, code: UnwindReasonCode(1) }),
            })
        },
{
}

} // verus!
