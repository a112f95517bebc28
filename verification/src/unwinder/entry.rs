//! Where walks begin.

use vstd::prelude::*;
use crate::features::Features;
use crate::unwinder::arch::aarch64::{Context, Registers};
use crate::unwinder::context::Cursor;
use crate::unwinder::exception::UnwindException;
use crate::unwinder::walk::{Phase, Stage, Walk, WalkModel};

verus! {

/// Begins phase 1 for an exception that is raised where the registers are
/// `saved_ctx`. Phase 2 follows by itself where phase 1 finds a handler.
#[allow(non_snake_case)]
pub fn _Unwind_RaiseException<'a>(saved_ctx: &Context) -> (r: Walk<'a>)
    ensures
        r@ == WalkModel::start(saved_ctx@, Phase::Search, false),
{
    Walk::start(saved_ctx, Phase::Search, false)
}

/// Begins phase 2 on the way to the handler whose frame is known by `handler_cfa`.
pub fn raise_exception_phase2<'a>(ctx: &Context, handler_cfa: usize, must_install: bool) -> (r:
    Walk<'a>)
    ensures
        r@ == WalkModel::start(ctx@, Phase::Cleanup { handler_cfa }, must_install),
{
    Walk::start(ctx, Phase::Cleanup { handler_cfa }, must_install)
}

/// Begins a forced unwind, which `stop` ends. There is no handler to be searched for.
/// The exception remembers `stop`, for landing pads that resume the unwind.
#[allow(non_snake_case)]
pub fn _Unwind_ForcedUnwind<'a>(
    exception: &mut UnwindException,
    ctx: &Context,
    stop: usize,
    stop_arg: usize,
) -> (r: Walk<'a>)
    ensures
        r@ == WalkModel::start(ctx@, Phase::Forced { stop, stop_arg }, false),
        *final(exception) == old(exception).for_stop(stop, stop_arg),
{
    exception.private_1 = Some(stop);
    exception.private_2 = stop_arg;
    force_unwind_phase2(ctx, stop, stop_arg, false)
}

/// Begins the cleanup of a forced unwind.
pub fn force_unwind_phase2<'a>(
    ctx: &Context,
    stop: usize,
    stop_arg: usize,
    must_install: bool,
) -> (r: Walk<'a>)
    ensures
        r@ == WalkModel::start(ctx@, Phase::Forced { stop, stop_arg }, must_install),
{
    Walk::start(ctx, Phase::Forced { stop, stop_arg }, must_install)
}

/// The phase in which the unwind of `exception` is resumed.
pub open spec fn resumed_phase(exception: UnwindException) -> Phase {
    match exception.private_1 {
        None => Phase::Cleanup { handler_cfa: exception.private_2 },
        Some(stop) => Phase::Forced { stop, stop_arg: exception.private_2 },
    }
}

/// Goes on with the unwind of `exception`, from a landing pad that has cleaned up. It
/// can only end in the next landing pad.
#[allow(non_snake_case)]
pub fn _Unwind_Resume<'a>(exception: &UnwindException, ctx: &Context) -> (r: Walk<'a>)
    ensures
        r@ == WalkModel::start(ctx@, resumed_phase(*exception), true),
        r@ == resumed(*exception, ctx@),
{
    match exception.private_1 {
        None => raise_exception_phase2(ctx, exception.private_2, true),
        Some(stop) => force_unwind_phase2(ctx, stop, exception.private_2, true),
    }
}

/// The walk that goes on with the unwind of `exception` from the registers `regs`.
pub open spec fn resumed(exception: UnwindException, regs: Registers) -> WalkModel {
    WalkModel::start(regs, resumed_phase(exception), true)
}

/// The walk that begins where `exception` is let go of with the registers `regs`.
pub open spec fn rethrown(exception: UnwindException, regs: Registers) -> WalkModel {
    match exception.private_1 {
        None => WalkModel::start(regs, Phase::Search, false),
        Some(_) => resumed(exception, regs),
    }
}

/// The walk of a backtrace that begins with the registers `regs`.
pub open spec fn traced(features: Features, regs: Registers, own: usize) -> WalkModel {
    WalkModel::start(
        regs,
        Phase::Trace {
            hidden_until: if features.hide_trace {
                Some(own)
            } else {
                None
            },
        },
        false,
    )
}

/// Lets go of `exception` in a landing pad that has caught it. A forced unwind goes on;
/// for any other exception the search for a handler begins again.
#[allow(non_snake_case)]
pub fn _Unwind_Resume_or_Rethrow<'a>(exception: &UnwindException, ctx: &Context) -> (r: Walk<'a>)
    ensures
        r@ == (match exception.private_1 {
            None => WalkModel::start(ctx@, Phase::Search, false),
            Some(_) => WalkModel::start(ctx@, resumed_phase(*exception), true),
        }),
        r@ == rethrown(*exception, ctx@),
{
    match exception.private_1 {
        None => _Unwind_RaiseException(ctx),
        Some(stop) => force_unwind_phase2(ctx, stop, exception.private_2, true),
    }
}

/// Begins a walk that only shows the frames. `own` is the address of the function that
/// was asked for the backtrace: its frame and those that it has called can be left out.
#[allow(non_snake_case)]
pub fn _Unwind_Backtrace<'a>(features: Features, ctx: &Context, own: usize) -> (r: Walk<'a>)
    ensures
        r@ == WalkModel::start(
            ctx@,
            Phase::Trace {
                hidden_until: if features.hide_trace {
                    Some(own)
                } else {
                    None
                },
            },
            false,
        ),
        r@ == traced(features, ctx@, own),
{
    let hidden_until = if features.hide_trace { Some(own) } else { None };
    Walk::start(ctx, Phase::Trace { hidden_until }, false)
}

/// A landing pad that resumes the unwind goes on from its own registers, with what the
/// exception remembers: on the way to the handler of phase 1, or with the stop function of
/// a forced unwind. There is no new search, and the walk can only end in a landing pad.
pub proof fn law_resumed_walks(exception: UnwindException, regs: Registers)
    ensures
        ({
            let walk = resumed(exception, regs);
            &&& walk.saved == regs
            &&& walk.cursor == (Cursor { frame: None, regs, signal: false })
            &&& walk.stage == Stage::Locate
            &&& walk.must_install
            &&& exception.private_1 is None ==> walk.phase == (Phase::Cleanup {
                handler_cfa: exception.private_2,
            })
            &&& exception.private_1 matches Some(stop) ==> walk.phase == (Phase::Forced {
                stop,
                stop_arg: exception.private_2,
            })
        }),
{
}

/// An exception that is let go of is searched a handler for again, from the registers of
/// the pad that lets it go, unless its unwind is forced: that goes on as one that is
/// resumed.
pub proof fn law_rethrown_walks(exception: UnwindException, regs: Registers)
    ensures
        exception.private_1 is Some ==> rethrown(exception, regs) == resumed(exception, regs),
        exception.private_1 is None ==> {
            let walk = rethrown(exception, regs);
            &&& walk.saved == regs
            &&& walk.cursor == (Cursor { frame: None, regs, signal: false })
            &&& walk.stage == Stage::Locate
            &&& walk.phase == Phase::Search
            &&& !walk.must_install
        },
{
}

/// A backtrace begins at the registers that it is given. It shows all frames, or where it
/// leaves out the unwinder's own those behind the function at `own`.
pub proof fn law_backtraces_begin(features: Features, regs: Registers, own: usize)
    ensures
        ({
            let walk = traced(features, regs, own);
            &&& walk.saved == regs
            &&& walk.cursor == (Cursor { frame: None, regs, signal: false })
            &&& walk.stage == Stage::Locate
            &&& !walk.must_install
            &&& features.hide_trace ==> walk.phase == (Phase::Trace { hidden_until: Some(own) })
            &&& !features.hide_trace ==> walk.phase == (Phase::Trace { hidden_until: None })
        }),
{
}

} // verus!
