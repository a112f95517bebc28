//! What holds of walks over the stack, whatever the stack and the callbacks are.

use vstd::prelude::*;
use crate::abi::{
    law_empty, law_flags_apart, law_union_contains, UnwindAction, UnwindReasonCode,
};
use crate::arch::{Arch, Register};
use crate::error::{Fault, Halt, UnwindError};
use crate::features::Features;
use crate::memory::Words;
use crate::personality::{entering, personality_outcome};
use crate::personality_laws::law_handler_keeps_its_word;
use crate::reader::ByteOrder;
use crate::unwinder::arch::aarch64::Registers;
use crate::unwinder::context::Cursor;
use crate::unwinder::entry::resumed_phase;
use crate::unwinder::exception::UnwindException;
use crate::unwinder::find_fde::GlobalFinder;
use crate::unwinder::frame::{frame_at, FrameModel};
use crate::unwinder::frame_laws::{law_pointers_stable, law_unwound_stable};
use crate::unwinder::walk::{
    cfa_tag, personality_actions, stop_actions, Action, Outcome, Phase, Stage, WalkModel,
};

verus! {

/// A walk that has passed one frame, whose callbacks let it go on and leave the
/// registers alone.
pub open spec fn lap(
    walk: WalkModel,
    finder: GlobalFinder,
    features: Features,
    words: Words,
    exception: UnwindException,
) -> WalkModel {
    let located = walk.stepped(finder, features, words).0;
    let consulted = if located.stage == Stage::Consult {
        located.answered(UnwindReasonCode::no_reason(), exception).0
    } else {
        located
    };
    let asked = if consulted.stage == Stage::Personality {
        let (next, action) = consulted.stepped(finder, features, words);
        if action is Personality {
            next.answered(UnwindReasonCode::continue_unwind(), exception).0
        } else {
            next
        }
    } else {
        consulted
    };
    asked.stepped(finder, features, words).0
}

/// A walk that has passed `n` frames in that way.
pub open spec fn laps(
    walk: WalkModel,
    n: nat,
    finder: GlobalFinder,
    features: Features,
    words: Words,
    exception: UnwindException,
) -> WalkModel
    decreases n,
{
    if n == 0 {
        walk
    } else {
        laps(
            lap(walk, finder, features, words, exception),
            (n - 1) as nat,
            finder,
            features,
            words,
            exception,
        )
    }
}

/// The registers `n` frames above those in `regs`, and whether a signal has interrupted
/// that frame, where all of them can be read.
pub open spec fn path(
    regs: Registers,
    signal: bool,
    n: nat,
    finder: GlobalFinder,
    features: Features,
    words: Words,
) -> Option<(Registers, bool)>
    decreases n,
{
    if n == 0 {
        Some((regs, signal))
    } else {
        match frame_at(finder, regs, signal) {
            Ok(Some(frame)) => match frame.unwound(features, regs, words) {
                Ok(caller) => if cfa_tag(regs, signal) is Ok && frame.personality(words) is Ok {
                    path(
                        caller,
                        frame.found.fde.signal_trampoline,
                        (n - 1) as nat,
                        finder,
                        features,
                        words,
                    )
                } else {
                    None
                },
                Err(_) => None,
            },
            _ => None,
        }
    }
}

/// A walk at the frame with the registers `regs`.
pub open spec fn moved(walk: WalkModel, regs: Registers, signal: bool) -> WalkModel {
    WalkModel { cursor: Cursor { frame: None, regs, signal }, ..walk }
}

/// Where the callbacks let it go on, a walk follows the frames of the stack one by one,
/// whether it searches for a handler, is on the way to one, is forced, or shows all
/// frames.
pub proof fn law_walks_follow_the_stack(
    walk: WalkModel,
    regs: Registers,
    signal: bool,
    n: nat,
    finder: GlobalFinder,
    features: Features,
    words: Words,
    exception: UnwindException,
    end: (Registers, bool),
)
    requires
        walk.stage == Stage::Locate,
        walk.phase is Trace ==> walk.phase == (Phase::Trace { hidden_until: None }),
        path(regs, signal, n, finder, features, words) == Some(end),
    ensures
        laps(moved(walk, regs, signal), n, finder, features, words, exception) == moved(
            walk,
            end.0,
            end.1,
        ),
    decreases n,
{
    let here = moved(walk, regs, signal);
    if n > 0 {
        let frame = frame_at(finder, regs, signal)->Ok_0->0;
        let caller = frame.unwound(features, regs, words)->Ok_0;
        let trampoline = frame.found.fde.signal_trampoline;
        assert(lap(here, finder, features, words, exception) == moved(walk, caller, trampoline));
        law_walks_follow_the_stack(
            walk,
            caller,
            trampoline,
            (n - 1) as nat,
            finder,
            features,
            words,
            exception,
            end,
        );
    }
}

/// On the way to a handler, the walk reaches the handler's frame: it calls the frame's
/// personality routine, tells it that this frame is the handler, and enters the landing
/// pad that the routine has set up. It does not matter where the walk has begun, at the
/// place of the exception or in a landing pad that resumes the unwind.
pub proof fn law_cleanup_reaches_the_handler(
    begin: Registers,
    must_install: bool,
    n: nat,
    finder: GlobalFinder,
    features: Features,
    words: Words,
    exception: UnwindException,
    regs: Registers,
    signal: bool,
    frame: FrameModel,
    routine: usize,
    tag: usize,
)
    requires
        path(begin, false, n, finder, features, words) == Some((regs, signal)),
        frame_at(finder, regs, signal) == Ok::<Option<FrameModel>, UnwindError>(Some(frame)),
        frame.personality(words) == Ok::<Option<usize>, Halt>(Some(routine)),
        cfa_tag(regs, signal) == Ok::<usize, Fault>(tag),
    ensures
        ({
            let cleanup = WalkModel::start(begin, Phase::Cleanup { handler_cfa: tag }, must_install);
            let reached = laps(cleanup, n, finder, features, words, exception).stepped(
                finder,
                features,
                words,
            ).0;
            &&& reached.cursor == (Cursor { frame: Some(frame), regs, signal })
            &&& reached.stepped(finder, features, words).1 == (Action::Personality {
                routine,
                actions: UnwindAction::cleanup_phase().or(UnwindAction::handler_frame()),
            })
            &&& reached.answered(UnwindReasonCode::install_context(), exception).0.stage
                == Stage::Finished(Outcome::Install)
        }),
{
    let cleanup = WalkModel::start(begin, Phase::Cleanup { handler_cfa: tag }, must_install);
    assert(cleanup == moved(cleanup, begin, false));
    law_walks_follow_the_stack(
        cleanup,
        begin,
        false,
        n,
        finder,
        features,
        words,
        exception,
        (regs, signal),
    );
}

/// Phase 2 visits the frames of phase 1 again. Where phase 1 found the handler `n` frames
/// up, phase 2 begins at the first frame, and `n` frames up it calls the same personality
/// routine in the same frame, and tells it that this frame is the handler. The exception
/// remembers by which address the frame is known.
pub proof fn law_phase2_reaches_the_handler(
    saved: Registers,
    n: nat,
    finder: GlobalFinder,
    features: Features,
    words: Words,
    exception: UnwindException,
    regs: Registers,
    signal: bool,
    frame: FrameModel,
    routine: usize,
    tag: usize,
)
    requires
        path(saved, false, n, finder, features, words) == Some((regs, signal)),
        frame_at(finder, regs, signal) == Ok::<Option<FrameModel>, UnwindError>(Some(frame)),
        frame.personality(words) == Ok::<Option<usize>, Halt>(Some(routine)),
        cfa_tag(regs, signal) == Ok::<usize, Fault>(tag),
    ensures
        ({
            let search = WalkModel::start(saved, Phase::Search, false);
            let found = laps(search, n, finder, features, words, exception).stepped(
                finder,
                features,
                words,
            ).0;
            let (cleanup, remembered) = found.answered(UnwindReasonCode::handler_found(), exception);
            let reached = laps(cleanup, n, finder, features, words, remembered).stepped(
                finder,
                features,
                words,
            ).0;
            &&& found.stepped(finder, features, words).1 == (Action::Personality {
                routine,
                actions: UnwindAction::search_phase(),
            })
            &&& remembered == exception.for_handler(tag)
            &&& cleanup == WalkModel::start(saved, Phase::Cleanup { handler_cfa: tag }, false)
            &&& reached.cursor == found.cursor
            &&& reached.stepped(finder, features, words).1 == (Action::Personality {
                routine,
                actions: UnwindAction::cleanup_phase().or(UnwindAction::handler_frame()),
            })
            &&& reached.answered(UnwindReasonCode::install_context(), remembered).0.stage
                == Stage::Finished(Outcome::Install)
        }),
{
    let search = WalkModel::start(saved, Phase::Search, false);
    assert(search == moved(search, saved, false));
    law_walks_follow_the_stack(
        search,
        saved,
        false,
        n,
        finder,
        features,
        words,
        exception,
        (regs, signal),
    );
    law_cleanup_reaches_the_handler(
        saved,
        false,
        n,
        finder,
        features,
        words,
        exception.for_handler(tag),
        regs,
        signal,
        frame,
        routine,
        tag,
    );
}

/// A panic is caught where phase 1 found that it would be. In the handler's frame, the
/// personality routine of Rust sets up the landing pad, and the walk ends with the
/// registers to enter it: the pad gets the exception, and the stack pointer is that of
/// the frame, without the arguments of its call.
pub proof fn law_rust_handler_is_entered(
    reached: WalkModel,
    frame: FrameModel,
    lsda: Seq<u8>,
    order: ByteOrder,
    words: Words,
    address: usize,
    exception: UnwindException,
    found: Option<usize>,
)
    requires
        reached.stage == Stage::Personality,
        reached.phase is Cleanup,
        reached.cursor.frame == Some(frame),
        personality_outcome(
            1,
            UnwindAction::search_phase(),
            reached.cursor,
            lsda,
            order,
            words,
        ) == Ok::<(UnwindReasonCode, Option<usize>), Halt>(
            (UnwindReasonCode::handler_found(), found),
        ),
    ensures
        personality_outcome(
            1,
            UnwindAction::cleanup_phase().or(UnwindAction::handler_frame()),
            reached.cursor,
            lsda,
            order,
            words,
        ) matches Ok((code, Some(lpad))) && {
            let called = WalkModel {
                cursor: entering(reached.cursor, address, Some(lpad)),
                ..reached
            };
            let ended = called.answered(code, exception).0;
            &&& ended.stage == Stage::Finished(Outcome::Install)
            &&& ended.cursor.regs[Arch::RA] == lpad
            &&& ended.cursor.regs[Arch::UNWIND_DATA_REG_0] == address
            &&& ended.cursor.regs[Arch::UNWIND_DATA_REG_1] == 0
            &&& ended.cursor.regs[Arch::SP] == reached.cursor.regs[Arch::SP].wrapping_add(
                frame.row.saved_args_size as usize,
            )
        },
{
    let search = UnwindAction::search_phase();
    let cleanup = UnwindAction::cleanup_phase().or(UnwindAction::handler_frame());
    lemma_flags(Phase::Cleanup { handler_cfa: 0 }, Ok(0), None);
    assert(personality_actions(Phase::Cleanup { handler_cfa: 0 }, Ok(0)) == cleanup);
    law_handler_keeps_its_word(reached.cursor, lsda, order, words, search, cleanup, found);
}

/// The phases are never mixed: a personality routine is told of the search phase or of
/// the cleanup phase, and a stop function only of the cleanup phase of a forced unwind.
pub proof fn law_phases_are_not_mixed(phase: Phase, tag: Result<usize, Fault>, frame: Option<FrameModel>)
    ensures
        personality_actions(phase, tag).contains(UnwindAction::search_phase())
            <==> !personality_actions(phase, tag).contains(UnwindAction::cleanup_phase()),
        personality_actions(phase, tag).contains(UnwindAction::cleanup_phase())
            <==> phase.cleans_up(),
        personality_actions(phase, tag).contains(UnwindAction::force_unwind()) <==> phase is Forced,
        stop_actions(frame).contains(UnwindAction::cleanup_phase()),
        stop_actions(frame).contains(UnwindAction::force_unwind()),
        !stop_actions(frame).contains(UnwindAction::search_phase()),
{
    lemma_flags(phase, tag, frame);
}

/// A personality routine is told that its frame is the handler exactly on the way to a
/// handler, in frames that are known by the handler's address.
pub proof fn law_handler_frame_is_told(phase: Phase, tag: Result<usize, Fault>)
    ensures
        personality_actions(phase, tag).contains(UnwindAction::handler_frame()) <==> {
            &&& phase matches Phase::Cleanup { handler_cfa }
            &&& tag == Ok::<usize, Fault>(handler_cfa)
        },
{
    lemma_flags(phase, tag, None);
}

/// A stop function is told of the end of the stack exactly where there is no frame.
pub proof fn law_end_of_stack_is_told(frame: Option<FrameModel>)
    ensures
        stop_actions(frame).contains(UnwindAction::end_of_stack()) <==> frame is None,
{
    lemma_flags(Phase::Search, Ok(0), frame);
}

/// Which flags the callbacks are given, one by one.
proof fn lemma_flags(phase: Phase, tag: Result<usize, Fault>, frame: Option<FrameModel>)
    ensures
        forall|c: UnwindAction| #[trigger]
            personality_actions(phase, tag).contains(c) <==> match phase {
                Phase::Cleanup { handler_cfa } => UnwindAction::cleanup_phase().contains(c) || (tag
                    == Ok::<usize, Fault>(handler_cfa) && UnwindAction::handler_frame().contains(c)),
                Phase::Forced { .. } => UnwindAction::force_unwind().contains(c)
                    || UnwindAction::cleanup_phase().contains(c),
                _ => UnwindAction::search_phase().contains(c),
            },
        forall|c: UnwindAction| #[trigger]
            stop_actions(frame).contains(c) <==> UnwindAction::force_unwind().contains(c)
                || UnwindAction::cleanup_phase().contains(c) || (frame is None
                && UnwindAction::end_of_stack().contains(c)),
        UnwindAction::search_phase().contains(UnwindAction::search_phase()),
        UnwindAction::cleanup_phase().contains(UnwindAction::cleanup_phase()),
        UnwindAction::handler_frame().contains(UnwindAction::handler_frame()),
        UnwindAction::force_unwind().contains(UnwindAction::force_unwind()),
        UnwindAction::end_of_stack().contains(UnwindAction::end_of_stack()),
        !UnwindAction::search_phase().contains(UnwindAction::cleanup_phase()),
        !UnwindAction::search_phase().contains(UnwindAction::handler_frame()),
        !UnwindAction::search_phase().contains(UnwindAction::force_unwind()),
        !UnwindAction::cleanup_phase().contains(UnwindAction::search_phase()),
        !UnwindAction::cleanup_phase().contains(UnwindAction::handler_frame()),
        !UnwindAction::cleanup_phase().contains(UnwindAction::force_unwind()),
        !UnwindAction::cleanup_phase().contains(UnwindAction::end_of_stack()),
        !UnwindAction::handler_frame().contains(UnwindAction::search_phase()),
        !UnwindAction::handler_frame().contains(UnwindAction::cleanup_phase()),
        !UnwindAction::handler_frame().contains(UnwindAction::force_unwind()),
        !UnwindAction::force_unwind().contains(UnwindAction::search_phase()),
        !UnwindAction::force_unwind().contains(UnwindAction::cleanup_phase()),
        !UnwindAction::force_unwind().contains(UnwindAction::handler_frame()),
        !UnwindAction::force_unwind().contains(UnwindAction::end_of_stack()),
        !UnwindAction::end_of_stack().contains(UnwindAction::search_phase()),
{
    law_flags_apart();
    let cleanup = UnwindAction::cleanup_phase();
    let forced = UnwindAction::force_unwind();
    let both = forced.or(cleanup);
    assert forall|c: UnwindAction| #[trigger]
        personality_actions(phase, tag).contains(c) <==> match phase {
            Phase::Cleanup { handler_cfa } => cleanup.contains(c) || (tag == Ok::<
                usize,
                Fault,
            >(handler_cfa) && UnwindAction::handler_frame().contains(c)),
            Phase::Forced { .. } => forced.contains(c) || cleanup.contains(c),
            _ => UnwindAction::search_phase().contains(c),
        } by {
        law_union_contains(cleanup, UnwindAction::handler_frame(), c);
        law_union_contains(forced, cleanup, c);
        law_empty(cleanup);
    }
    assert forall|c: UnwindAction| #[trigger]
        stop_actions(frame).contains(c) <==> forced.contains(c) || cleanup.contains(c) || (frame
            is None && UnwindAction::end_of_stack().contains(c)) by {
        law_union_contains(forced, cleanup, c);
        law_union_contains(both, UnwindAction::end_of_stack(), c);
        law_empty(both);
    }
}

/// Phase 1 leaves everything as it was: the registers from which phase 2 begins, and the
/// exception, until it has found a handler.
pub proof fn law_search_leaves_all_intact(
    walk: WalkModel,
    finder: GlobalFinder,
    features: Features,
    words: Words,
    code: UnwindReasonCode,
    exception: UnwindException,
)
    requires
        walk.phase == Phase::Search,
    ensures
        walk.stepped(finder, features, words).0.saved == walk.saved,
        walk.stepped(finder, features, words).0.phase == Phase::Search,
        walk.awaits_answer() ==> walk.answered(code, exception).0.saved == walk.saved,
        walk.awaits_answer() && code != UnwindReasonCode::handler_found() ==> walk.answered(
            code,
            exception,
        ).1 == exception && walk.answered(code, exception).0.phase == Phase::Search,
{
}

/// No callback changes the exception but by finding a handler in phase 1.
pub proof fn law_exception_changes_once(
    walk: WalkModel,
    code: UnwindReasonCode,
    exception: UnwindException,
)
    requires
        walk.awaits_answer(),
        walk.answered(code, exception).1 != exception,
    ensures
        walk.phase == Phase::Search,
        walk.stage == Stage::Personality,
        code == UnwindReasonCode::handler_found(),
{
}

/// A search that runs off the stack returns that code, and one on the way to a handler
/// fails. A forced unwind first tells its stop function, and then returns that code.
pub proof fn law_end_of_stack(
    walk: WalkModel,
    finder: GlobalFinder,
    features: Features,
    words: Words,
    exception: UnwindException,
)
    requires
        walk.stage == Stage::Locate,
        !walk.must_install,
        frame_at(finder, walk.cursor.regs, walk.cursor.signal) == Ok::<
            Option<FrameModel>,
            UnwindError,
        >(None),
    ensures
        ({
            let located = walk.stepped(finder, features, words).0;
            let ended = located.stepped(finder, features, words).0;
            let told = located.answered(UnwindReasonCode::no_reason(), exception).0;
            let forced = told.stepped(finder, features, words).0;
            &&& walk.phase == Phase::Search ==> ended.stage == Stage::Finished(
                Outcome::Return(UnwindReasonCode::end_of_stack()),
            )
            &&& walk.phase is Cleanup ==> ended.stage == Stage::Finished(
                Outcome::Return(UnwindReasonCode::fatal_phase2_error()),
            )
            &&& walk.phase matches Phase::Forced { stop, stop_arg } ==> located.stepped(
                finder,
                features,
                words,
            ).1 == (Action::Stop { stop, stop_arg, actions: stop_actions(None) }) && forced.stage
                == Stage::Finished(Outcome::Return(UnwindReasonCode::end_of_stack()))
        }),
{
}

/// A frame that cannot be read ends the walk, with the code of its phase.
pub proof fn law_unreadable_frame_is_fatal(
    walk: WalkModel,
    finder: GlobalFinder,
    features: Features,
    words: Words,
)
    requires
        walk.stage == Stage::Locate,
        !walk.must_install,
        frame_at(finder, walk.cursor.regs, walk.cursor.signal) is Err,
    ensures
        walk.stepped(finder, features, words).0.stage == Stage::Finished(
            Outcome::Return(
                if walk.phase.cleans_up() {
                    UnwindReasonCode::fatal_phase2_error()
                } else {
                    UnwindReasonCode::fatal_phase1_error()
                },
            ),
        ),
{
}

/// A code that a callback may not give ends the walk, with the code of its phase: any but
/// the one to go on from a stop or trace function, and from a personality routine any
/// but that one, the finding of a handler in phase 1, and the entry into a landing pad
/// in a cleanup.
pub proof fn law_other_codes_are_fatal(
    walk: WalkModel,
    code: UnwindReasonCode,
    exception: UnwindException,
)
    requires
        walk.awaits_answer(),
        !walk.must_install,
        walk.stage == Stage::Consult ==> code != UnwindReasonCode::no_reason(),
        walk.stage == Stage::Personality ==> {
            &&& code != UnwindReasonCode::continue_unwind()
            &&& code != UnwindReasonCode::handler_found() || walk.phase != Phase::Search
            &&& code != UnwindReasonCode::install_context() || !walk.phase.cleans_up()
        },
    ensures
        walk.answered(code, exception) == (
            walk.at(
                Stage::Finished(
                    Outcome::Return(
                        if walk.phase.cleans_up() {
                            UnwindReasonCode::fatal_phase2_error()
                        } else {
                            UnwindReasonCode::fatal_phase1_error()
                        },
                    ),
                ),
            ),
            exception,
        ),
{
}

/// A forced unwind asks its stop function in every frame, before the frame's personality
/// routine, and with the argument that it began with.
pub proof fn law_stop_function_comes_first(
    walk: WalkModel,
    finder: GlobalFinder,
    features: Features,
    words: Words,
    stop: usize,
    stop_arg: usize,
    frame: Option<FrameModel>,
)
    requires
        walk.stage == Stage::Locate,
        walk.phase == (Phase::Forced { stop, stop_arg }),
        frame_at(finder, walk.cursor.regs, walk.cursor.signal) == Ok::<
            Option<FrameModel>,
            UnwindError,
        >(frame),
    ensures
        ({
            let located = walk.stepped(finder, features, words).0;
            let action = located.stepped(finder, features, words).1;
            &&& located.cursor == (Cursor { frame, ..walk.cursor })
            &&& action == (Action::Stop { stop, stop_arg, actions: stop_actions(frame) })
        }),
{
}

/// A walk ends in a landing pad only where a personality routine says so, and then in a
/// cleanup. What it leaves in the registers is what is loaded, but for the stack pointer,
/// from which the arguments of the frame's call are popped.
pub proof fn law_landing_pads_are_entered_on_request(
    walk: WalkModel,
    finder: GlobalFinder,
    features: Features,
    words: Words,
    code: UnwindReasonCode,
    exception: UnwindException,
    frame: FrameModel,
    other: Register,
)
    requires
        walk.stage != Stage::Finished(Outcome::Install),
        walk.cursor.frame == Some(frame),
    ensures
        walk.stepped(finder, features, words).0.stage != Stage::Finished(Outcome::Install),
        walk.awaits_answer() ==> (walk.answered(code, exception).0.stage == Stage::Finished(
            Outcome::Install,
        ) <==> {
            &&& walk.stage == Stage::Personality
            &&& walk.phase.cleans_up()
            &&& code == UnwindReasonCode::install_context()
        }),
        walk.awaits_answer() && walk.answered(code, exception).0.stage == Stage::Finished(
            Outcome::Install,
        ) ==> {
            let regs = walk.answered(code, exception).0.cursor.regs;
            &&& regs[Arch::SP] == walk.cursor.regs[Arch::SP].wrapping_add(
                frame.row.saved_args_size as usize,
            )
            &&& other != Arch::SP ==> regs[other] == walk.cursor.regs[other]
        },
{
}

/// A resumed unwind ends in a landing pad or not at all: it never returns a code.
pub proof fn law_resumed_unwind_never_returns(
    walk: WalkModel,
    finder: GlobalFinder,
    features: Features,
    words: Words,
    code: UnwindReasonCode,
    exception: UnwindException,
    returned: UnwindReasonCode,
)
    requires
        walk.must_install,
        walk.stage != Stage::Finished(Outcome::Return(returned)),
    ensures
        walk.stepped(finder, features, words).0.must_install,
        walk.stepped(finder, features, words).0.stage != Stage::Finished(Outcome::Return(returned)),
        walk.awaits_answer() ==> walk.answered(code, exception).0.must_install,
        walk.awaits_answer() ==> walk.answered(code, exception).0.stage != Stage::Finished(
            Outcome::Return(returned),
        ),
{
}

/// A landing pad that resumes the unwind goes on with the phase that it interrupted: a
/// forced unwind with its stop function, any other with the handler of phase 1.
pub proof fn law_resume_goes_on(
    exception: UnwindException,
    stop: usize,
    stop_arg: usize,
    handler_cfa: usize,
)
    ensures
        resumed_phase(exception.for_stop(stop, stop_arg)) == (Phase::Forced { stop, stop_arg }),
        resumed_phase(exception.for_handler(handler_cfa)) == (Phase::Cleanup { handler_cfa }),
{
}

/// A walk that is over stays as it is.
pub proof fn law_finished_is_final(
    walk: WalkModel,
    finder: GlobalFinder,
    features: Features,
    words: Words,
    outcome: Outcome,
)
    requires
        walk.stage == Stage::Finished(outcome),
    ensures
        walk.stepped(finder, features, words) == (walk, Action::Finish(outcome)),
{
}

/// A backtrace calls nobody but the trace function, never enters a landing pad, and
/// shows no frame before it has passed the one behind which it begins.
pub proof fn law_backtrace_only_shows(
    walk: WalkModel,
    finder: GlobalFinder,
    features: Features,
    words: Words,
    code: UnwindReasonCode,
    exception: UnwindException,
)
    requires
        walk.phase is Trace,
        walk.stage != Stage::Personality,
        walk.phase == (Phase::Trace { hidden_until: None }) || walk.stage != Stage::Consult,
    ensures
        ({
            let (next, action) = walk.stepped(finder, features, words);
            &&& next.phase is Trace
            &&& next.stage != Stage::Personality
            &&& next.phase == (Phase::Trace { hidden_until: None }) || next.stage != Stage::Consult
            &&& !(action is Stop) && !(action is Personality)
            &&& action == Action::Trace ==> walk.phase == (Phase::Trace { hidden_until: None })
        }),
        walk.stage == Stage::Consult ==> {
            let (next, after) = walk.answered(code, exception);
            &&& next.phase == walk.phase
            &&& next.stage != Stage::Personality && next.stage != Stage::Consult
            &&& next.stage != Stage::Finished(Outcome::Install)
            &&& after == exception
        },
{
}

/// The registers `n` frames above those in `regs`, and whether a signal has interrupted
/// that frame, where all frames on the way can be unwound.
pub open spec fn callers(
    regs: Registers,
    signal: bool,
    n: nat,
    finder: GlobalFinder,
    features: Features,
    words: Words,
) -> Option<(Registers, bool)>
    decreases n,
{
    if n == 0 {
        Some((regs, signal))
    } else {
        match frame_at(finder, regs, signal) {
            Ok(Some(frame)) => match frame.unwound(features, regs, words) {
                Ok(caller) => callers(
                    caller,
                    frame.found.fde.signal_trampoline,
                    (n - 1) as nat,
                    finder,
                    features,
                    words,
                ),
                Err(_) => None,
            },
            _ => None,
        }
    }
}

/// What the trace function is to see `k` frames above `regs`: the frame there, or nothing
/// where the stack has ended.
pub open spec fn sight(
    regs: Registers,
    signal: bool,
    k: nat,
    finder: GlobalFinder,
    features: Features,
    words: Words,
) -> Option<Cursor> {
    match callers(regs, signal, k, finder, features, words) {
        Some((regs, signal)) => match frame_at(finder, regs, signal) {
            Ok(frame) => Some(Cursor { frame, regs, signal }),
            Err(_) => None,
        },
        None => None,
    }
}

/// What the trace function is shown in `steps` steps of a backtrace, where it lets the
/// backtrace go on, and the stage to which these steps lead.
pub open spec fn shown(
    walk: WalkModel,
    steps: nat,
    finder: GlobalFinder,
    features: Features,
    words: Words,
    exception: UnwindException,
) -> (Seq<Cursor>, Stage)
    decreases steps,
{
    if steps == 0 || walk.stage is Finished {
        (Seq::empty(), walk.stage)
    } else {
        let (next, action) = walk.stepped(finder, features, words);
        if action == Action::Trace {
            let after = next.answered(UnwindReasonCode::no_reason(), exception).0;
            let (rest, stage) = shown(
                after,
                (steps - 1) as nat,
                finder,
                features,
                words,
                exception,
            );
            (seq![next.cursor] + rest, stage)
        } else {
            shown(next, (steps - 1) as nat, finder, features, words, exception)
        }
    }
}

/// A backtrace over `n` frames calls the trace function `n + 1` times: for each frame,
/// the innermost one first, and for the end of the stack. It ends with the code for that.
pub proof fn law_backtrace_shows_every_frame(
    walk: WalkModel,
    regs: Registers,
    signal: bool,
    n: nat,
    steps: nat,
    finder: GlobalFinder,
    features: Features,
    words: Words,
    exception: UnwindException,
    end: (Registers, bool),
)
    requires
        walk.stage == Stage::Locate,
        walk.phase == (Phase::Trace { hidden_until: None }),
        !walk.must_install,
        callers(regs, signal, n, finder, features, words) == Some(end),
        frame_at(finder, end.0, end.1) == Ok::<Option<FrameModel>, UnwindError>(None),
        steps >= 3 * (n + 1),
    ensures
        ({
            let (cursors, stage) = shown(
                moved(walk, regs, signal),
                steps,
                finder,
                features,
                words,
                exception,
            );
            &&& cursors.len() == n + 1
            &&& forall|k: int|
                0 <= k <= n ==> Some(#[trigger] cursors[k]) == sight(
                    regs,
                    signal,
                    k as nat,
                    finder,
                    features,
                    words,
                )
            &&& cursors[n as int] == (Cursor { frame: None, regs: end.0, signal: end.1 })
            &&& stage == Stage::Finished(Outcome::Return(UnwindReasonCode::end_of_stack()))
        }),
    decreases n,
{
    let here = moved(walk, regs, signal);
    let located = here.stepped(finder, features, words).0;
    let told = located.answered(UnwindReasonCode::no_reason(), exception).0;
    let next = told.stepped(finder, features, words).0;
    let all = shown(here, steps, finder, features, words, exception);
    let behind = shown(told, (steps - 2) as nat, finder, features, words, exception);
    let rest = shown(next, (steps - 3) as nat, finder, features, words, exception);
    assert(all == shown(located, (steps - 1) as nat, finder, features, words, exception));
    assert(behind == rest);
    assert(all == (seq![located.cursor] + rest.0, rest.1));
    assert(callers(regs, signal, 0, finder, features, words) == Some((regs, signal)));
    assert(sight(regs, signal, 0, finder, features, words) == Some(located.cursor));
    if n > 0 {
        let frame = frame_at(finder, regs, signal)->Ok_0->0;
        let caller = frame.unwound(features, regs, words)->Ok_0;
        let trampoline = frame.found.fde.signal_trampoline;
        assert(next == moved(walk, caller, trampoline));
        law_backtrace_shows_every_frame(
            walk,
            caller,
            trampoline,
            (n - 1) as nat,
            (steps - 3) as nat,
            finder,
            features,
            words,
            exception,
            end,
        );
        assert forall|k: int| 0 <= k <= n implies Some(#[trigger] all.0[k]) == sight(
            regs,
            signal,
            k as nat,
            finder,
            features,
            words,
        ) by {
            if k > 0 {
                assert(all.0[k] == rest.0[k - 1]);
                assert(callers(regs, signal, k as nat, finder, features, words) == callers(
                    caller,
                    trampoline,
                    (k - 1) as nat,
                    finder,
                    features,
                    words,
                ));
            }
        }
        assert(all.0[n as int] == rest.0[n - 1]);
    } else {
        assert(rest == (Seq::<Cursor>::empty(), next.stage));
    }
}

/// Where the function of the frame `k` frames above `regs` starts.
pub open spec fn start_of(
    regs: Registers,
    signal: bool,
    k: nat,
    finder: GlobalFinder,
    features: Features,
    words: Words,
) -> Option<usize> {
    match sight(regs, signal, k, finder, features, words) {
        Some(Cursor { frame: Some(frame), .. }) => Some(frame.found.fde.initial_address as usize),
        _ => None,
    }
}

/// A backtrace that begins behind the frame of the function at `own` shows nothing up to
/// the first such frame, `m` frames up. From the next one on it goes as one that shows
/// all frames.
pub proof fn law_backtrace_hides_the_first_frames(
    walk: WalkModel,
    own: usize,
    regs: Registers,
    signal: bool,
    m: nat,
    steps: nat,
    finder: GlobalFinder,
    features: Features,
    words: Words,
    exception: UnwindException,
    behind: (Registers, bool),
)
    requires
        walk.stage == Stage::Locate,
        walk.phase == (Phase::Trace { hidden_until: Some(own) }),
        forall|k: nat|
            k < m ==> #[trigger] start_of(regs, signal, k, finder, features, words) != Some(own),
        start_of(regs, signal, m, finder, features, words) == Some(own),
        callers(regs, signal, m + 1, finder, features, words) == Some(behind),
        steps >= 2 * (m + 1),
    ensures
        shown(moved(walk, regs, signal), steps, finder, features, words, exception) == shown(
            moved(
                WalkModel { phase: Phase::Trace { hidden_until: None }, ..walk },
                behind.0,
                behind.1,
            ),
            (steps - 2 * (m + 1)) as nat,
            finder,
            features,
            words,
            exception,
        ),
    decreases m,
{
    let frame = frame_at(finder, regs, signal)->Ok_0->0;
    let caller = frame.unwound(features, regs, words)->Ok_0;
    let trampoline = frame.found.fde.signal_trampoline;
    let here = moved(walk, regs, signal);
    let located = here.stepped(finder, features, words).0;
    let next = located.stepped(finder, features, words).0;
    let all = shown(here, steps, finder, features, words, exception);
    assert(all == shown(located, (steps - 1) as nat, finder, features, words, exception));
    assert(all == shown(next, (steps - 2) as nat, finder, features, words, exception));
    assert(callers(regs, signal, 0, finder, features, words) == Some((regs, signal)));
    assert(callers(regs, signal, m + 1, finder, features, words) == callers(
        caller,
        trampoline,
        m,
        finder,
        features,
        words,
    ));
    if m > 0 {
        assert(start_of(regs, signal, 0, finder, features, words) != Some(own));
        assert(next == moved(walk, caller, trampoline));
        assert forall|k: nat| k < m implies #[trigger] start_of(
            caller,
            trampoline,
            k,
            finder,
            features,
            words,
        ) == start_of(regs, signal, k + 1, finder, features, words) by {}
        law_backtrace_hides_the_first_frames(
            walk,
            own,
            caller,
            trampoline,
            (m - 1) as nat,
            (steps - 2) as nat,
            finder,
            features,
            words,
            exception,
            behind,
        );
    }
}

/// A step asks only for words that are not known yet, and changes nothing where it does.
/// Knowing more of memory changes no step that asked for nothing.
pub proof fn law_steps_are_stable(
    walk: WalkModel,
    finder: GlobalFinder,
    features: Features,
    words: Words,
    more: Words,
)
    requires
        words.submap_of(more),
    ensures
        walk.stepped(finder, features, words).1 matches Action::Read(addr) ==> {
            &&& !words.contains_key(addr)
            &&& walk.stepped(finder, features, words).0 == walk
        },
        !(walk.stepped(finder, features, words).1 is Read) ==> walk.stepped(finder, features, words)
            == walk.stepped(finder, features, more),
{
    if let Some(frame) = walk.cursor.frame {
        law_pointers_stable(frame, words, more);
        law_unwound_stable(frame, features, walk.cursor.regs, words, more);
    }
}

} // verus!
