//! Exceptions, as the unwinder sees them.

use vstd::prelude::*;
use crate::abi::UnwindReasonCode;

verus! {

/// An exception. Functions are given by their addresses.
#[derive(Clone, Copy, PartialEq, Eq, Structural, Debug)]
pub struct UnwindException {
    /// The runtime that the exception belongs to.
    pub exception_class: u64,
    /// The function that frees the exception.
    pub exception_cleanup: Option<usize>,
    /// The stop function, where the unwind is forced.
    pub private_1: Option<usize>,
    /// The stop function's argument, where the unwind is forced; else the address by
    /// which the handler's frame is known.
    pub private_2: usize,
}

impl UnwindException {
    /// On its way to the handler whose frame is known by `handler_cfa`.
    pub open spec fn for_handler(self, handler_cfa: usize) -> UnwindException {
        UnwindException { private_1: None, private_2: handler_cfa, ..self }
    }

    /// In a forced unwind that `stop` ends.
    pub open spec fn for_stop(self, stop: usize, stop_arg: usize) -> UnwindException {
        UnwindException { private_1: Some(stop), private_2: stop_arg, ..self }
    }
}

/// The call of an exception's cleanup function.
#[derive(Clone, Copy, PartialEq, Eq, Structural, Debug)]
pub struct CleanupCall {
    /// The function.
    pub cleanup: usize,
    /// Why it is called.
    pub code: UnwindReasonCode,
}

impl UnwindException {
    /// The call that frees the exception, where another runtime has caught it.
    pub open spec fn deletion(self) -> Option<CleanupCall> {
        match self.exception_cleanup {
            Some(cleanup) => Some(
                CleanupCall { cleanup, code: UnwindReasonCode::foreign_exception_caught() },
            ),
            None => None,
        }
    }
}

/// The call that frees `exception`, which another runtime has caught.
#[allow(non_snake_case)]
pub fn _Unwind_DeleteException(exception: &UnwindException) -> (r: Option<CleanupCall>)
    ensures
        r == exception.deletion(),
{
    match exception.exception_cleanup {
        Some(cleanup) => Some(
            CleanupCall { cleanup, code: UnwindReasonCode::foreign_exception_caught() },
        ),
        None => None,
    }
}

/// An exception on its way to a handler, or in a forced unwind, remembers that and nothing
/// else: its class and its cleanup function stay as they were.
pub proof fn law_exceptions_remember(
    exception: UnwindException,
    handler_cfa: usize,
    stop: usize,
    stop_arg: usize,
)
    ensures
        ({
            let searched = exception.for_handler(handler_cfa);
            &&& searched.private_1 is None
            &&& searched.private_2 == handler_cfa
            &&& searched.exception_class == exception.exception_class
            &&& searched.exception_cleanup == exception.exception_cleanup
        }),
        ({
            let forced = exception.for_stop(stop, stop_arg);
            &&& forced.private_1 == Some(stop)
            &&& forced.private_2 == stop_arg
            &&& forced.exception_class == exception.exception_class
            &&& forced.exception_cleanup == exception.exception_cleanup
        }),
{
}

/// An exception is freed by its own cleanup function, which is told that another runtime
/// has caught it. Without one there is nothing to call.
pub proof fn law_exceptions_are_freed_by_their_owner(exception: UnwindException, cleanup: usize)
    ensures
        exception.exception_cleanup == Some(cleanup) ==> exception.deletion() == Some(
            CleanupCall { cleanup, code: UnwindReasonCode(1) },
        ),
        exception.exception_cleanup is None ==> exception.deletion() is None,
{
}

} // verus!
