//! What each step of a walk does and what each answer to it does, in every stage and phase,
//! and what stays as it was.

use vstd::prelude::*;
use crate::abi::{UnwindAction, UnwindReasonCode};
use crate::encoding::Pointer;
use crate::error::{Fault, Halt, UnwindError};
use crate::features::Features;
use crate::memory::Words;
use crate::unwinder::arch::aarch64::Registers;
use crate::unwinder::context::Cursor;
use crate::unwinder::exception::UnwindException;
use crate::unwinder::find_fde::GlobalFinder;
use crate::unwinder::frame::{frame_at, FrameModel};
use crate::unwinder::walk::{
    cfa_tag, personality_actions, stop_actions, Action, Outcome, Phase, Stage, Walk, WalkModel,
};

verus! {

/// A walk that is over with `code`. One that can only end in a landing pad has nobody to
/// return the code to.
pub open spec fn over(walk: WalkModel, code: int) -> WalkModel {
    WalkModel {
        stage: Stage::Finished(
            if walk.must_install {
                Outcome::Fault(Fault::NothingToResume)
            } else {
                Outcome::Return(UnwindReasonCode(code as i32))
            },
        ),
        ..walk
    }
}

/// A walk begins with the registers that it is given, before its first frame is looked for.
pub proof fn law_walks_begin(regs: Registers, phase: Phase, must_install: bool)
    ensures
        ({
            let walk = WalkModel::start(regs, phase, must_install);
            &&& walk.saved == regs
            &&& walk.cursor.regs == regs
            &&& walk.cursor.frame is None
            &&& !walk.cursor.signal
            &&& walk.phase == phase
            &&& walk.stage == Stage::Locate
            &&& walk.must_install == must_install
        }),
{
}

/// Where the frame was looked for: a frame that cannot be read ends the walk, with the code
/// of its phase. Else the walk is at that frame, or at the end of the stack. A search or a
/// cleanup asks the personality routine next, a forced unwind its stop function, and a
/// backtrace its trace function, unless the frame is hidden.
pub proof fn law_frames_are_arrived_at(
    walk: WalkModel,
    found: Result<Option<FrameModel>, UnwindError>,
)
    ensures
        walk.arrived(found).1 == Action::Proceed,
        found is Err && (walk.phase is Search || walk.phase is Trace) ==> walk.arrived(found).0
            == over(walk, 3),
        found is Err && (walk.phase is Cleanup || walk.phase is Forced) ==> walk.arrived(found).0
            == over(walk, 2),
        found matches Ok(frame) ==> {
            let here = walk.arrived(found).0;
            &&& here == WalkModel {
                cursor: Cursor { frame, regs: walk.cursor.regs, signal: walk.cursor.signal },
                stage: here.stage,
                ..walk
            }
            &&& walk.phase is Search || walk.phase is Cleanup ==> here.stage == Stage::Personality
            &&& walk.phase is Forced ==> here.stage == Stage::Consult
            &&& walk.phase == (Phase::Trace { hidden_until: None }) ==> here.stage == Stage::Consult
            &&& walk.phase matches Phase::Trace { hidden_until: Some(_) } ==> here.stage
                == Stage::Advance
        },
{
}

/// The frame that is looked for is the one that the walk's registers belong to.
pub proof fn law_own_frame_is_looked_for(
    walk: WalkModel,
    finder: GlobalFinder,
    features: Features,
    words: Words,
)
    requires
        walk.stage == Stage::Locate,
    ensures
        walk.stepped(finder, features, words) == walk.arrived(
            frame_at(finder, walk.cursor.regs, walk.cursor.signal),
        ),
{
}

/// A stop function is called in every frame of a forced unwind, and at its end, with the
/// flags for a forced cleanup and at the end the flag for that. Nothing else happens.
pub proof fn law_stop_function_is_called(
    walk: WalkModel,
    finder: GlobalFinder,
    features: Features,
    words: Words,
    stop: usize,
    stop_arg: usize,
)
    requires
        walk.stage == Stage::Consult,
        walk.phase == (Phase::Forced { stop, stop_arg }),
    ensures
        walk.cursor.frame is Some ==> walk.stepped(finder, features, words) == (
            walk,
            Action::Stop { stop, stop_arg, actions: UnwindAction(10) },
        ),
        walk.cursor.frame is None ==> walk.stepped(finder, features, words) == (
            walk,
            Action::Stop { stop, stop_arg, actions: UnwindAction(26) },
        ),
{
    assert(8i32 | 2 == 10 && 10i32 | 0 == 10 && 10i32 | 16 == 26) by (bit_vector);
}

/// A trace function is called in every frame of a backtrace that is not hidden, and at its
/// end. Nothing else happens.
pub proof fn law_trace_function_is_called(
    walk: WalkModel,
    finder: GlobalFinder,
    features: Features,
    words: Words,
)
    requires
        walk.stage == Stage::Consult,
        walk.phase is Trace,
    ensures
        walk.stepped(finder, features, words) == (walk, Action::Trace),
{
}

/// The flags with which a personality routine is called: 1 for the search, 2 for the
/// cleanup, with 4 where the frame is the handler's, and 8 where the unwind is forced.
pub open spec fn asking_flags(phase: Phase, sp: usize, signal: bool) -> UnwindAction {
    match phase {
        Phase::Cleanup { handler_cfa } => if sp == handler_cfa + if signal {
            1int
        } else {
            0
        } {
            UnwindAction(6)
        } else {
            UnwindAction(2)
        },
        Phase::Forced { .. } => UnwindAction(10),
        _ => UnwindAction(1),
    }
}

proof fn lemma_asking_flags(phase: Phase, regs: Registers, signal: bool)
    requires
        !(signal && regs[31] == 0 && phase is Cleanup),
    ensures
        personality_actions(phase, cfa_tag(regs, signal)) == asking_flags(phase, regs[31], signal),
{
    assert(2i32 | 4 == 6 && 2i32 | 0 == 2 && 8i32 | 2 == 10) by (bit_vector);
}

/// Every frame that has a personality routine has it called, in the search, in a cleanup
/// and in a forced unwind, whether or not the walk was resumed, and whether or not the
/// frame is the handler's. The flags are those of the phase. Nothing else happens.
pub proof fn law_every_personality_routine_is_called(
    walk: WalkModel,
    finder: GlobalFinder,
    features: Features,
    words: Words,
    frame: FrameModel,
)
    requires
        walk.stage == Stage::Personality,
        walk.cursor.frame == Some(frame),
        !(walk.phase is Cleanup && walk.cursor.signal && walk.cursor.regs[31] == 0),
    ensures
        frame.found.fde.personality matches Some(Pointer::Direct(x)) ==> walk.stepped(
            finder,
            features,
            words,
        ) == (
            walk,
            Action::Personality {
                routine: x as usize,
                actions: asking_flags(walk.phase, walk.cursor.regs[31], walk.cursor.signal),
            },
        ),
        frame.found.fde.personality matches Some(Pointer::Indirect(x)) ==> words.contains_key(
            x as usize,
        ) ==> walk.stepped(finder, features, words) == (
            walk,
            Action::Personality {
                routine: words[x as usize],
                actions: asking_flags(walk.phase, walk.cursor.regs[31], walk.cursor.signal),
            },
        ),
        frame.found.fde.personality matches Some(Pointer::Indirect(x)) ==> !words.contains_key(
            x as usize,
        ) ==> walk.stepped(finder, features, words) == (walk, Action::Read(x as usize)),
        frame.found.fde.personality is None ==> walk.stepped(finder, features, words) == (
            WalkModel { stage: Stage::Advance, ..walk },
            Action::Proceed,
        ),
{
    lemma_asking_flags(walk.phase, walk.cursor.regs, walk.cursor.signal);
}

/// On the way to a handler, a frame that a signal has interrupted with an empty stack is
/// known by no address, and the walk cannot go on.
pub proof fn law_frames_without_an_address_are_faults(
    walk: WalkModel,
    finder: GlobalFinder,
    features: Features,
    words: Words,
)
    requires
        walk.stage == Stage::Personality,
        walk.cursor.frame is Some,
        walk.phase is Cleanup,
        walk.cursor.signal,
        walk.cursor.regs[31] == 0,
    ensures
        walk.stepped(finder, features, words) == (
            WalkModel { stage: Stage::Finished(Outcome::Fault(Fault::Overflow)), ..walk },
            Action::Proceed,
        ),
{
}

/// At the end of the stack a search, a forced unwind and a backtrace end with the code for
/// that, and a cleanup with that for its failure.
pub proof fn law_walks_end_with_the_stack(
    walk: WalkModel,
    finder: GlobalFinder,
    features: Features,
    words: Words,
)
    requires
        walk.stage == Stage::Personality || walk.stage == Stage::Advance,
        walk.cursor.frame is None,
    ensures
        walk.phase is Cleanup ==> walk.stepped(finder, features, words) == (
            over(walk, 2),
            Action::Proceed,
        ),
        !(walk.phase is Cleanup) ==> walk.stepped(finder, features, words) == (
            over(walk, 5),
            Action::Proceed,
        ),
{
}

/// Where the caller's registers were computed: the walk goes on with them, to find the
/// frame that they belong to. A signal has interrupted that frame where it has pushed the
/// one that is left. A backtrace shows its frames from then on where the one that is left
/// is that of the function up to which they are hidden. All else stays.
pub proof fn law_frames_are_departed_from(
    walk: WalkModel,
    frame: FrameModel,
    regs: Registers,
)
    ensures
        ({
            let (next, action) = walk.departed(frame, Ok(regs));
            &&& action == Action::Proceed
            &&& next.cursor == (Cursor {
                frame: None,
                regs,
                signal: frame.found.fde.signal_trampoline,
            })
            &&& next.stage == Stage::Locate
            &&& next.saved == walk.saved
            &&& next.must_install == walk.must_install
            &&& walk.phase == (Phase::Trace {
                hidden_until: Some(frame.found.fde.initial_address as usize),
            }) ==> next.phase == (Phase::Trace { hidden_until: None })
            &&& walk.phase != (Phase::Trace {
                hidden_until: Some(frame.found.fde.initial_address as usize),
            }) ==> next.phase == walk.phase
        }),
{
}

/// A step that needs a word asks for it and changes nothing. One that fails ends the walk,
/// with the code of its phase, and one that is at fault ends it without a code.
pub proof fn law_steps_that_halt(
    walk: WalkModel,
    frame: FrameModel,
    addr: usize,
    error: UnwindError,
    fault: Fault,
)
    ensures
        walk.halted(Halt::Missing(addr)) == (walk, Action::Read(addr)),
        walk.phase is Search || walk.phase is Trace ==> walk.halted(Halt::Failed(error)) == (
            over(walk, 3),
            Action::Proceed,
        ),
        walk.phase is Cleanup || walk.phase is Forced ==> walk.halted(Halt::Failed(error)) == (
            over(walk, 2),
            Action::Proceed,
        ),
        walk.halted(Halt::Fault(fault)) == (
            WalkModel { stage: Stage::Finished(Outcome::Fault(fault)), ..walk },
            Action::Proceed,
        ),
        forall|halt: Halt| #[trigger]
            walk.departed(frame, Err(halt)) == walk.halted(halt),
{
}

/// A walk that goes on from a frame goes on to the frame's caller.
pub proof fn law_callers_come_next(
    walk: WalkModel,
    finder: GlobalFinder,
    features: Features,
    words: Words,
    frame: FrameModel,
)
    requires
        walk.stage == Stage::Advance,
        walk.cursor.frame == Some(frame),
    ensures
        walk.stepped(finder, features, words) == walk.departed(
            frame,
            frame.unwound(features, walk.cursor.regs, words),
        ),
{
}

/// A stop or trace function that gives 0 lets the walk go on: a forced unwind to the
/// frame's personality routine, a backtrace to the next frame. Any other code ends it.
pub proof fn law_consulted_functions_are_obeyed(
    walk: WalkModel,
    code: UnwindReasonCode,
    exception: UnwindException,
)
    requires
        walk.stage == Stage::Consult,
    ensures
        walk.answered(code, exception).1 == exception,
        code.0 == 0 && walk.phase is Trace ==> walk.answered(code, exception).0 == (WalkModel {
            stage: Stage::Advance,
            ..walk
        }),
        code.0 == 0 && walk.phase is Forced ==> walk.answered(code, exception).0 == (WalkModel {
            stage: Stage::Personality,
            ..walk
        }),
        code.0 != 0 && walk.phase is Trace ==> walk.answered(code, exception).0 == over(walk, 3),
        code.0 != 0 && walk.phase is Forced ==> walk.answered(code, exception).0 == over(walk, 2),
{
}

/// A personality routine that gives 8 lets the walk go on to the next frame, in any phase.
pub proof fn law_frames_without_a_pad_are_passed(
    walk: WalkModel,
    exception: UnwindException,
)
    requires
        walk.stage == Stage::Personality,
    ensures
        walk.answered(UnwindReasonCode(8), exception) == (
            WalkModel { stage: Stage::Advance, ..walk },
            exception,
        ),
{
}

/// A personality routine that gives 6 in the search has found the handler. The cleanup
/// begins where the search began, on the way to the frame whose stack pointer is that of
/// this one, less 1 where a signal has interrupted it. The exception remembers that, as no
/// forced unwind, and keeps all else.
pub proof fn law_handler_begins_the_cleanup(
    walk: WalkModel,
    exception: UnwindException,
)
    requires
        walk.stage == Stage::Personality,
        walk.phase == Phase::Search,
    ensures
        ({
            let (next, remembered) = walk.answered(UnwindReasonCode(6), exception);
            let sp = walk.cursor.regs[31];
            &&& walk.cursor.signal && sp == 0 ==> next == (WalkModel {
                stage: Stage::Finished(Outcome::Fault(Fault::Overflow)),
                ..walk
            }) && remembered == exception
            &&& !walk.cursor.signal || sp > 0 ==> {
                &&& next.saved == walk.saved
                &&& next.cursor == (Cursor { frame: None, regs: walk.saved, signal: false })
                &&& next.stage == Stage::Locate
                &&& next.must_install == walk.must_install
                &&& next.phase matches Phase::Cleanup { handler_cfa }
                &&& handler_cfa == sp - if walk.cursor.signal {
                    1int
                } else {
                    0
                }
                &&& remembered.private_2 == handler_cfa
                &&& remembered.private_1 is None
                &&& remembered.exception_class == exception.exception_class
                &&& remembered.exception_cleanup == exception.exception_cleanup
            }
        }),
{
}

/// A personality routine that gives 7 in a cleanup or in a forced unwind has set up a
/// landing pad, which is entered: with the registers that it has left, and a stack pointer
/// from which the arguments of the frame's call are popped. All else stays.
pub proof fn law_landing_pads_are_entered(
    walk: WalkModel,
    exception: UnwindException,
    frame: FrameModel,
)
    requires
        walk.stage == Stage::Personality,
        walk.phase is Cleanup || walk.phase is Forced,
        walk.cursor.frame == Some(frame),
    ensures
        walk.answered(UnwindReasonCode(7), exception) == (
            WalkModel {
                cursor: Cursor {
                    regs: walk.cursor.regs.insert(
                        31,
                        walk.cursor.regs[31].wrapping_add(frame.row.saved_args_size as usize),
                    ),
                    ..walk.cursor
                },
                stage: Stage::Finished(Outcome::Install),
                ..walk
            },
            exception,
        ),
{
}

/// Any other code of a personality routine ends the walk, with that for the failure of its
/// phase. The exception stays as it was.
pub proof fn law_other_codes_end_the_walk(
    walk: WalkModel,
    code: UnwindReasonCode,
    exception: UnwindException,
)
    requires
        walk.stage == Stage::Personality,
        code.0 != 8,
        walk.phase is Search ==> code.0 != 6,
        walk.phase is Cleanup || walk.phase is Forced ==> code.0 != 7,
    ensures
        walk.phase is Search || walk.phase is Trace ==> walk.answered(code, exception) == (
            over(walk, 3),
            exception,
        ),
        walk.phase is Cleanup || walk.phase is Forced ==> walk.answered(code, exception) == (
            over(walk, 2),
            exception,
        ),
{
}

/// In a forced unwind and in a cleanup, every frame is asked for its landing pad before the
/// next frame is: from finding the frame to its personality routine no frame is left out.
pub proof fn law_no_cleanup_is_left_out(
    walk: WalkModel,
    finder: GlobalFinder,
    features: Features,
    words: Words,
    exception: UnwindException,
    frame: FrameModel,
    routine: usize,
)
    requires
        walk.stage == Stage::Locate,
        walk.phase is Cleanup || walk.phase is Forced,
        frame_at(finder, walk.cursor.regs, walk.cursor.signal) == Ok::<
            Option<FrameModel>,
            UnwindError,
        >(Some(frame)),
        frame.personality(words) == Ok::<Option<usize>, Halt>(Some(routine)),
        !(walk.phase is Cleanup && walk.cursor.signal && walk.cursor.regs[31] == 0),
    ensures
        ({
            let located = walk.stepped(finder, features, words).0;
            let ready = if walk.phase is Forced {
                located.answered(UnwindReasonCode(0), exception).0
            } else {
                located
            };
            &&& ready.cursor == (Cursor { frame: Some(frame), ..walk.cursor })
            &&& ready.stepped(finder, features, words) == (
                ready,
                Action::Personality {
                    routine,
                    actions: asking_flags(walk.phase, walk.cursor.regs[31], walk.cursor.signal),
                },
            )
        }),
{
    lemma_asking_flags(walk.phase, walk.cursor.regs, walk.cursor.signal);
}

/// By which address a frame is known, and with which flags callbacks are called.
pub proof fn law_tags_and_flags(
    regs: Registers,
    signal: bool,
    phase: Phase,
    tag: usize,
    fault: Fault,
    frame: Option<FrameModel>,
)
    ensures
        !signal ==> cfa_tag(regs, signal) == Ok::<usize, Fault>(regs[31]),
        signal && regs[31] > 0 ==> (cfa_tag(regs, signal) matches Ok(t) && t == regs[31] - 1),
        signal && regs[31] == 0 ==> cfa_tag(regs, signal) == Err::<usize, Fault>(Fault::Overflow),
        stop_actions(frame) == UnwindAction(
            if frame is Some {
                10
            } else {
                26
            },
        ),
        phase is Search || phase is Trace ==> personality_actions(phase, Ok(tag)) == UnwindAction(1)
            && personality_actions(phase, Err(fault)) == UnwindAction(1),
        phase is Forced ==> personality_actions(phase, Ok(tag)) == UnwindAction(10)
            && personality_actions(phase, Err(fault)) == UnwindAction(10),
        personality_actions(Phase::Cleanup { handler_cfa: tag }, Ok(tag)) == UnwindAction(6),
        phase matches Phase::Cleanup { handler_cfa } ==> handler_cfa != tag ==> personality_actions(
            phase,
            Ok(tag),
        ) == UnwindAction(2),
{
    assert(2i32 | 4 == 6 && 2i32 | 0 == 2 && 8i32 | 2 == 10) by (bit_vector);
    assert(10i32 | 0 == 10 && 10i32 | 16 == 26) by (bit_vector);
}

/// A walk's view shows all of it.
pub proof fn law_walks_are_shown(walk: Walk)
    ensures
        walk@.saved == walk.saved@,
        walk@.cursor == walk.cursor@,
        walk@.phase == walk.phase,
        walk@.stage == walk.stage,
        walk@.must_install == walk.must_install,
        walk.cursor@.regs == walk.cursor.ctx@,
        walk.cursor@.signal == walk.cursor.signal,
        walk.cursor.frame is None ==> walk.cursor@.frame is None,
        walk.cursor.frame matches Some(frame) ==> walk.cursor@.frame == Some(frame@),
{
}

} // verus!
