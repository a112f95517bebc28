//! Walking the stack.
//!
//! A walk is driven from outside: [`Walk::step`] says what is to be done next, and
//! [`Walk::answer`] takes the code that a callback has returned. The walk itself
//! reads no memory and calls nobody.

use vstd::prelude::*;
use crate::abi::{UnwindAction, UnwindReasonCode};
use crate::arch::Arch;
use crate::error::{Fault, Halt, UnwindError};
use crate::features::Features;
use crate::memory::{Memory, Words};
use crate::unwinder::arch::aarch64::{Context, Registers};
use crate::unwinder::context::{Cursor, UnwindContext};
use crate::unwinder::exception::UnwindException;
use crate::unwinder::find_fde::GlobalFinder;
use crate::unwinder::frame::{frame_at, frame_view, Frame, FrameModel};

verus! {

/// What a walk is for.
#[derive(Clone, Copy, PartialEq, Eq, Structural, Debug)]
pub enum Phase {
    /// To find the frame that handles an exception.
    Search,
    /// To clean up on the way to the frame with this address, which handles the
    /// exception.
    Cleanup { handler_cfa: usize },
    /// To clean up until the function `stop` ends it.
    Forced { stop: usize, stop_arg: usize },
    /// To show the frames: all of them, or those behind the frame of the function that
    /// starts at this address.
    Trace { hidden_until: Option<usize> },
}

/// How a walk ends.
#[derive(Clone, Copy, PartialEq, Eq, Structural, Debug)]
pub enum Outcome {
    /// Its registers are to be loaded, to enter a landing pad.
    Install,
    /// Whoever began it gets this code.
    Return(UnwindReasonCode),
    /// There is no way on.
    Fault(Fault),
}

/// What comes next in a walk.
#[derive(Clone, Copy, PartialEq, Eq, Structural, Debug)]
pub enum Stage {
    /// To find the frame that the registers belong to.
    Locate,
    /// To ask the stop or trace function.
    Consult,
    /// To ask the frame's personality routine.
    Personality,
    /// To go to the caller's frame.
    Advance,
    /// Nothing: the walk is over.
    Finished(Outcome),
}

/// What is to be done for a walk.
#[derive(Clone, Copy, PartialEq, Eq, Structural, Debug)]
pub enum Action {
    /// Nothing: take the next step.
    Proceed,
    /// Read the word at this address, and take the step again.
    Read(usize),
    /// Call the stop function, and answer with its code.
    Stop { stop: usize, stop_arg: usize, actions: UnwindAction },
    /// Call the trace function, and answer with its code.
    Trace,
    /// Call the personality routine at this address, and answer with its code.
    Personality { routine: usize, actions: UnwindAction },
    /// End the walk.
    Finish(Outcome),
}

/// A walk over the stack.
pub struct Walk<'a> {
    /// The registers at its beginning.
    pub saved: Context,
    /// Where it is.
    pub cursor: UnwindContext<'a>,
    /// What it is for.
    pub phase: Phase,
    /// What comes next.
    pub stage: Stage,
    /// Whether it can only end in a landing pad.
    pub must_install: bool,
}

/// A walk over the stack, by value.
#[verifier::ext_equal]
pub struct WalkModel {
    pub saved: Registers,
    pub cursor: Cursor,
    pub phase: Phase,
    pub stage: Stage,
    pub must_install: bool,
}

impl<'a> View for Walk<'a> {
    type V = WalkModel;

    open spec fn view(&self) -> WalkModel {
        WalkModel {
            saved: self.saved@,
            cursor: self.cursor@,
            phase: self.phase,
            stage: self.stage,
            must_install: self.must_install,
        }
    }
}

impl Phase {
    /// The code for a frame that cannot be read, or a callback that failed.
    pub open spec fn fatal(self) -> UnwindReasonCode {
        match self {
            Phase::Search | Phase::Trace { .. } => UnwindReasonCode::fatal_phase1_error(),
            Phase::Cleanup { .. } | Phase::Forced { .. } => UnwindReasonCode::fatal_phase2_error(),
        }
    }

    /// The code for the end of the stack. On the way to a handler it cannot come.
    pub open spec fn end(self) -> UnwindReasonCode {
        match self {
            Phase::Cleanup { .. } => UnwindReasonCode::fatal_phase2_error(),
            _ => UnwindReasonCode::end_of_stack(),
        }
    }

    /// The phase behind the frame of the function that starts at `start`.
    pub open spec fn behind(self, start: usize) -> Phase {
        match self {
            Phase::Trace { hidden_until } => if hidden_until == Some(start) {
                Phase::Trace { hidden_until: None }
            } else {
                self
            },
            _ => self,
        }
    }

    /// Whether landing pads are entered.
    pub open spec fn cleans_up(self) -> bool {
        self is Cleanup || self is Forced
    }

    /// What comes next where the frame is known.
    pub open spec fn first_stage(self) -> Stage {
        match self {
            Phase::Search | Phase::Cleanup { .. } => Stage::Personality,
            Phase::Forced { .. } => Stage::Consult,
            Phase::Trace { hidden_until } => if hidden_until is Some {
                Stage::Advance
            } else {
                Stage::Consult
            },
        }
    }

    /// What comes next where the stop or trace function lets the walk go on.
    pub open spec fn second_stage(self) -> Stage {
        match self {
            Phase::Trace { .. } => Stage::Advance,
            _ => Stage::Personality,
        }
    }
}

/// The address by which phase 1 and phase 2 know a frame: its stack pointer, or one
/// less where a signal has interrupted it, since a signal's frame can have the same
/// stack pointer as the next one.
pub open spec fn cfa_tag(regs: Registers, signal: bool) -> Result<usize, Fault> {
    if !signal {
        Ok(regs[Arch::SP])
    } else if regs[Arch::SP] == 0 {
        Err(Fault::Overflow)
    } else {
        Ok((regs[Arch::SP] - 1) as usize)
    }
}

/// The flags for the stop function.
pub open spec fn stop_actions(frame: Option<FrameModel>) -> UnwindAction {
    UnwindAction::force_unwind().or(UnwindAction::cleanup_phase()).or(
        if frame is None {
            UnwindAction::end_of_stack()
        } else {
            UnwindAction::empty()
        },
    )
}

/// The flags for the personality routine of the frame that is known by `tag`.
pub open spec fn personality_actions(phase: Phase, tag: Result<usize, Fault>) -> UnwindAction {
    match phase {
        Phase::Cleanup { handler_cfa } => UnwindAction::cleanup_phase().or(
            if tag == Ok::<usize, Fault>(handler_cfa) {
                UnwindAction::handler_frame()
            } else {
                UnwindAction::empty()
            },
        ),
        Phase::Forced { .. } => UnwindAction::force_unwind().or(UnwindAction::cleanup_phase()),
        _ => UnwindAction::search_phase(),
    }
}

impl WalkModel {
    /// A walk that begins with the registers `regs`.
    pub open spec fn start(regs: Registers, phase: Phase, must_install: bool) -> WalkModel {
        WalkModel {
            saved: regs,
            cursor: Cursor { frame: None, regs, signal: false },
            phase,
            stage: Stage::Locate,
            must_install,
        }
    }

    /// At another stage.
    pub open spec fn at(self, stage: Stage) -> WalkModel {
        WalkModel { stage, ..self }
    }

    /// Over, with `code` for whoever began it, who may not be able to take one.
    pub open spec fn returning(self, code: UnwindReasonCode) -> WalkModel {
        self.at(
            Stage::Finished(
                if self.must_install {
                    Outcome::Fault(Fault::NothingToResume)
                } else {
                    Outcome::Return(code)
                },
            ),
        )
    }

    /// Over, without a way on.
    pub open spec fn faulting(self, fault: Fault) -> WalkModel {
        self.at(Stage::Finished(Outcome::Fault(fault)))
    }

    /// The step where the frame was looked for and `found`.
    pub open spec fn arrived(self, found: Result<Option<FrameModel>, UnwindError>) -> (
        WalkModel,
        Action,
    ) {
        match found {
            Err(_) => (self.returning(self.phase.fatal()), Action::Proceed),
            Ok(frame) => (
                WalkModel { cursor: Cursor { frame, ..self.cursor }, ..self }.at(
                    self.phase.first_stage(),
                ),
                Action::Proceed,
            ),
        }
    }

    /// The step to the personality routine of `frame`.
    pub open spec fn asked(self, frame: FrameModel, words: Words) -> (WalkModel, Action) {
        match (self.phase, cfa_tag(self.cursor.regs, self.cursor.signal)) {
            (Phase::Cleanup { .. }, Err(fault)) => (self.faulting(fault), Action::Proceed),
            (phase, tag) => match frame.personality(words) {
                Err(halt) => self.halted(halt),
                Ok(None) => (self.at(Stage::Advance), Action::Proceed),
                Ok(Some(routine)) => (
                    self,
                    Action::Personality { routine, actions: personality_actions(phase, tag) },
                ),
            },
        }
    }

    /// The step that stopped with `halt`.
    pub open spec fn halted(self, halt: Halt) -> (WalkModel, Action) {
        match halt {
            Halt::Missing(addr) => (self, Action::Read(addr)),
            Halt::Failed(_) => (self.returning(self.phase.fatal()), Action::Proceed),
            Halt::Fault(fault) => (self.faulting(fault), Action::Proceed),
        }
    }

    /// The step from `frame` to its caller, whose registers are `caller`.
    pub open spec fn departed(self, frame: FrameModel, caller: Result<Registers, Halt>) -> (
        WalkModel,
        Action,
    ) {
        match caller {
            Err(halt) => self.halted(halt),
            Ok(regs) => (
                WalkModel {
                    cursor: Cursor {
                        frame: None,
                        regs,
                        signal: frame.found.fde.signal_trampoline,
                    },
                    phase: self.phase.behind(frame.found.fde.initial_address as usize),
                    stage: Stage::Locate,
                    ..self
                },
                Action::Proceed,
            ),
        }
    }

    /// The next step, and what is to be done for it.
    pub open spec fn stepped(self, finder: GlobalFinder, features: Features, words: Words) -> (
        WalkModel,
        Action,
    ) {
        match (self.stage, self.cursor.frame) {
            (Stage::Locate, _) => self.arrived(
                frame_at(finder, self.cursor.regs, self.cursor.signal),
            ),
            (Stage::Consult, frame) => (
                self,
                match self.phase {
                    Phase::Forced { stop, stop_arg } => Action::Stop {
                        stop,
                        stop_arg,
                        actions: stop_actions(frame),
                    },
                    _ => Action::Trace,
                },
            ),
            (Stage::Finished(outcome), _) => (self, Action::Finish(outcome)),
            (_, None) => (self.returning(self.phase.end()), Action::Proceed),
            (Stage::Personality, Some(frame)) => self.asked(frame, words),
            (Stage::Advance, Some(frame)) => self.departed(
                frame,
                frame.unwound(features, self.cursor.regs, words),
            ),
        }
    }

    /// Whether the walk waits for the code of a callback.
    pub open spec fn awaits_answer(self) -> bool {
        self.stage == Stage::Consult || self.stage == Stage::Personality
    }

    /// The registers in which the landing pad of the frame is entered: the arguments of
    /// the call that the frame has made are popped.
    pub open spec fn landing(self) -> Registers {
        match self.cursor.frame {
            Some(frame) => self.cursor.regs.insert(
                Arch::SP,
                self.cursor.regs[Arch::SP].wrapping_add(frame.row.saved_args_size as usize),
            ),
            None => self.cursor.regs,
        }
    }

    /// After the stop or trace function returned `code`.
    pub open spec fn consulted(self, code: UnwindReasonCode) -> WalkModel {
        if code == UnwindReasonCode::no_reason() {
            self.at(self.phase.second_stage())
        } else {
            self.returning(self.phase.fatal())
        }
    }

    /// With the registers to enter the landing pad of the frame.
    pub open spec fn installed(self) -> WalkModel {
        WalkModel { cursor: Cursor { regs: self.landing(), ..self.cursor }, ..self }.at(
            Stage::Finished(Outcome::Install),
        )
    }

    /// The walk, and its exception, where phase 1 has found the handler: phase 2 begins
    /// where phase 1 began, and the exception remembers the handler.
    pub open spec fn handled(self, exception: UnwindException) -> (WalkModel, UnwindException) {
        match cfa_tag(self.cursor.regs, self.cursor.signal) {
            Err(fault) => (self.faulting(fault), exception),
            Ok(handler_cfa) => (
                WalkModel::start(self.saved, Phase::Cleanup { handler_cfa }, self.must_install),
                exception.for_handler(handler_cfa),
            ),
        }
    }

    /// The walk, and the exception that it is for, after a callback returned `code`.
    pub open spec fn answered(self, code: UnwindReasonCode, exception: UnwindException) -> (
        WalkModel,
        UnwindException,
    ) {
        if self.stage == Stage::Consult {
            (self.consulted(code), exception)
        } else if code == UnwindReasonCode::continue_unwind() {
            (self.at(Stage::Advance), exception)
        } else if self.phase == Phase::Search && code == UnwindReasonCode::handler_found() {
            self.handled(exception)
        } else if self.phase.cleans_up() && code == UnwindReasonCode::install_context() {
            (self.installed(), exception)
        } else {
            (self.returning(self.phase.fatal()), exception)
        }
    }
}

impl Phase {
    /// The code for a frame that cannot be read, or a callback that failed.
    fn fatal_code(&self) -> (r: UnwindReasonCode)
        ensures
            r == self.fatal(),
    {
        match self {
            Phase::Search | Phase::Trace { .. } => UnwindReasonCode::fatal_phase1_error(),
            Phase::Cleanup { .. } | Phase::Forced { .. } => UnwindReasonCode::fatal_phase2_error(),
        }
    }

    /// The code for the end of the stack.
    fn end_code(&self) -> (r: UnwindReasonCode)
        ensures
            r == self.end(),
    {
        match self {
            Phase::Cleanup { .. } => UnwindReasonCode::fatal_phase2_error(),
            _ => UnwindReasonCode::end_of_stack(),
        }
    }
}

/// The address by which the frame of `unwind_ctx` is known.
fn frame_tag(unwind_ctx: &UnwindContext<'_>) -> (r: Result<usize, Fault>)
    ensures
        r == cfa_tag(unwind_ctx@.regs, unwind_ctx@.signal),
{
    let sp: usize = *unwind_ctx.ctx.index(Arch::SP);
    if !unwind_ctx.signal {
        Ok(sp)
    } else if sp == 0 {
        Err(Fault::Overflow)
    } else {
        Ok(sp - 1)
    }
}

impl<'a> Walk<'a> {
    /// A walk that begins with the registers `ctx`.
    pub fn start(ctx: &Context, phase: Phase, must_install: bool) -> (r: Self)
        ensures
            r@ == WalkModel::start(ctx@, phase, must_install),
    {
        Walk {
            saved: *ctx,
            cursor: UnwindContext { frame: None, ctx: *ctx, signal: false },
            phase,
            stage: Stage::Locate,
            must_install,
        }
    }

    /// Ends the walk with `code`.
    fn finish(&mut self, code: UnwindReasonCode)
        ensures
            final(self)@ == old(self)@.returning(code),
    {
        self.stage = Stage::Finished(
            if self.must_install {
                Outcome::Fault(Fault::NothingToResume)
            } else {
                Outcome::Return(code)
            },
        );
    }

    /// Ends the walk without a way on.
    fn fail(&mut self, fault: Fault)
        ensures
            final(self)@ == old(self)@.faulting(fault),
    {
        self.stage = Stage::Finished(Outcome::Fault(fault));
    }

    /// Takes the result of looking for the frame.
    pub fn arrive(&mut self, found: Result<Option<Frame<'a>>, UnwindError>) -> (r: Action)
        ensures
            (final(self)@, r) == old(self)@.arrived(frame_view(found)),
    {
        match found {
            Err(_) => {
                let code = self.phase.fatal_code();
                self.finish(code);
            },
            Ok(frame) => {
                self.cursor.frame = frame;
                self.stage = match self.phase {
                    Phase::Search | Phase::Cleanup { .. } => Stage::Personality,
                    Phase::Forced { .. } => Stage::Consult,
                    Phase::Trace { hidden_until } => if hidden_until.is_some() {
                        Stage::Advance
                    } else {
                        Stage::Consult
                    },
                };
            },
        }
        Action::Proceed
    }

    /// Takes the reason for which the step has stopped.
    fn halt(&mut self, halt: Halt) -> (r: Action)
        ensures
            (final(self)@, r) == old(self)@.halted(halt),
    {
        match halt {
            Halt::Missing(addr) => {
                return Action::Read(addr);
            },
            Halt::Failed(_) => {
                let code = self.phase.fatal_code();
                self.finish(code);
            },
            Halt::Fault(fault) => {
                self.fail(fault);
            },
        }
        Action::Proceed
    }

    /// Takes the registers of the caller.
    pub fn depart(&mut self, caller: Result<Context, Halt>) -> (r: Action)
        requires
            old(self)@.cursor.frame is Some,
        ensures
            (final(self)@, r) == old(self)@.departed(
                old(self)@.cursor.frame->0,
                match caller {
                    Ok(ctx) => Ok(ctx@),
                    Err(halt) => Err(halt),
                },
            ),
    {
        let ctx = match caller {
            Ok(ctx) => ctx,
            Err(halt) => {
                return self.halt(halt);
            },
        };
        let (start, signal) = match &self.cursor.frame {
            Some(frame) => (frame.initial_address(), frame.is_signal_trampoline()),
            None => (0, false),
        };
        if let Phase::Trace { hidden_until: Some(until) } = self.phase {
            if until == start {
                self.phase = Phase::Trace { hidden_until: None };
            }
        }
        self.cursor = UnwindContext { frame: None, ctx, signal };
        self.stage = Stage::Locate;
        Action::Proceed
    }

    /// Takes the step to the personality routine.
    fn ask(&mut self, memory: &Memory) -> (r: Action)
        requires
            old(self)@.cursor.frame is Some,
        ensures
            (final(self)@, r) == old(self)@.asked(old(self)@.cursor.frame->0, memory@),
    {
        let actions = match self.phase {
            Phase::Cleanup { handler_cfa } => match frame_tag(&self.cursor) {
                Ok(tag) => UnwindAction::cleanup_phase() | if tag == handler_cfa {
                    UnwindAction::handler_frame()
                } else {
                    UnwindAction::empty()
                },
                Err(fault) => {
                    self.fail(fault);
                    return Action::Proceed;
                },
            },
            Phase::Forced { .. } => UnwindAction::force_unwind() | UnwindAction::cleanup_phase(),
            _ => UnwindAction::search_phase(),
        };
        let routine = match &self.cursor.frame {
            Some(frame) => frame.personality(memory),
            None => Ok(None),
        };
        match routine {
            Ok(Some(routine)) => Action::Personality { routine, actions },
            Ok(None) => {
                self.stage = Stage::Advance;
                Action::Proceed
            },
            Err(halt) => self.halt(halt),
        }
    }

    /// Takes the next step, and says what is to be done for it.
    pub fn step(&mut self, finder: &GlobalFinder<'a>, features: Features, memory: &Memory) -> (r:
        Action)
        ensures
            (final(self)@, r) == old(self)@.stepped(*finder, features, memory@),
    {
        match self.stage {
            Stage::Locate => {
                let found = Frame::from_context(finder, &self.cursor.ctx, self.cursor.signal);
                self.arrive(found)
            },
            Stage::Consult => match self.phase {
                Phase::Forced { stop, stop_arg } => {
                    let actions = UnwindAction::force_unwind() | UnwindAction::cleanup_phase()
                        | if self.cursor.frame.is_none() {
                        UnwindAction::end_of_stack()
                    } else {
                        UnwindAction::empty()
                    };
                    Action::Stop { stop, stop_arg, actions }
                },
                _ => Action::Trace,
            },
            Stage::Finished(outcome) => Action::Finish(outcome),
            Stage::Personality => {
                if self.cursor.frame.is_none() {
                    let code = self.phase.end_code();
                    self.finish(code);
                    return Action::Proceed;
                }
                self.ask(memory)
            },
            Stage::Advance => {
                let caller = match &self.cursor.frame {
                    Some(frame) => frame.unwind(features, &self.cursor.ctx, memory),
                    None => {
                        let code = self.phase.end_code();
                        self.finish(code);
                        return Action::Proceed;
                    },
                };
                self.depart(caller)
            },
        }
    }

    /// Takes the code that the callback has returned.
    pub fn answer(&mut self, code: UnwindReasonCode, exception: &mut UnwindException)
        requires
            old(self)@.awaits_answer(),
        ensures
            (final(self)@, *final(exception)) == old(self)@.answered(code, *old(exception)),
    {
        if self.stage == Stage::Consult {
            if code == UnwindReasonCode::no_reason() {
                self.stage = match self.phase {
                    Phase::Trace { .. } => Stage::Advance,
                    _ => Stage::Personality,
                };
                return;
            }
        } else if code == UnwindReasonCode::continue_unwind() {
            self.stage = Stage::Advance;
            return;
        } else if self.phase == Phase::Search && code == UnwindReasonCode::handler_found() {
            match frame_tag(&self.cursor) {
                Ok(handler_cfa) => {
                    exception.private_1 = None;
                    exception.private_2 = handler_cfa;
                    let saved = self.saved;
                    *self = Walk::start(&saved, Phase::Cleanup { handler_cfa }, self.must_install);
                },
                Err(fault) => {
                    self.fail(fault);
                },
            }
            return;
        } else if code == UnwindReasonCode::install_context() {
            if let Phase::Cleanup { .. } | Phase::Forced { .. } = self.phase {
                if let Some(frame) = &self.cursor.frame {
                    frame.adjust_stack_for_args(&mut self.cursor.ctx);
                }
                self.stage = Stage::Finished(Outcome::Install);
                return;
            }
        }
        let code = self.phase.fatal_code();
        self.finish(code);
    }
}

} // verus!
