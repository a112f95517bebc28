use std::collections::HashMap;

use unwinding::abi::{UnwindAction, UnwindReasonCode};
use unwinding::error::{Fault, Halt, UnwindError};
use unwinding::features::Features;
use unwinding::memory::Memory;
use unwinding::personality::rust_eh_personality;
use unwinding::reader::ByteOrder;
use unwinding::unwinder::arch::aarch64::Context;
use unwinding::unwinder::context::{UnwindContext, _Unwind_GetCFA, _Unwind_GetIP, _Unwind_SetIP};
use unwinding::unwinder::entry::{
    _Unwind_Backtrace, _Unwind_ForcedUnwind, _Unwind_RaiseException, _Unwind_Resume,
    _Unwind_Resume_or_Rethrow, force_unwind_phase2, raise_exception_phase2,
};
use unwinding::unwinder::exception::UnwindException;
use unwinding::unwinder::find_fde::fixed::Image;
use unwinding::unwinder::find_fde::{get_finder, GlobalFinder};
use unwinding::unwinder::walk::{Action, Outcome, Phase, Stage, Walk};

const FEATURES: Features = Features { dwarf_expr: false, hide_trace: false };
const ROUTINE: usize = 0x7000;
const OTHER_ROUTINE: usize = 0x7777;

/// A frame table for functions of 0x100 bytes with frames of 32 bytes, whose return
/// address is saved 8 bytes below the caller's stack pointer.
fn table(functions: &[(u64, u64, bool)]) -> Vec<u8> {
    let mut bytes: Vec<u8> = Vec::new();
    let mut push = |mut body: Vec<u8>| {
        while (body.len() + 4) % 8 != 0 {
            body.push(0);
        }
        let at = bytes.len();
        bytes.extend((body.len() as u32).to_le_bytes());
        bytes.extend(body);
        at
    };
    let mut common = |augmentation: &[u8]| {
        let mut body = vec![0, 0, 0, 0, 1];
        body.extend(augmentation);
        body.extend([1, 0x78, 30, 11, 0x80]);
        body.extend(0x7800u64.to_le_bytes());
        body.extend([0x00, 0x00]);
        body.extend([0x0c, 31, 32, 0x9e, 1]);
        push(body)
    };
    let plain = common(b"zPLR\0");
    let signal = common(b"zPLRS\0");
    for &(start, lsda, trampoline) in functions {
        let common = if trampoline { signal } else { plain };
        let mut body = ((bytes.len() + 4 - common) as u32).to_le_bytes().to_vec();
        body.extend(start.to_le_bytes());
        body.extend(0x100u64.to_le_bytes());
        body.push(8);
        body.extend(lsda.to_le_bytes());
        body.extend([0x2e, 16]);
        while (body.len() + 4) % 8 != 0 {
            body.push(0);
        }
        bytes.extend((body.len() as u32).to_le_bytes());
        bytes.extend(body);
    }
    bytes.extend([0; 4]);
    bytes
}

fn image(section: &[u8]) -> Image<'_> {
    Image {
        text_start: 0x1000,
        text_end: 0x6000,
        eh_frame: 0xa000,
        section,
        order: ByteOrder::Little,
    }
}

/// Three functions, each called by the next, and one that is interrupted by a signal.
const FUNCTIONS: [(u64, u64, bool); 4] =
    [(0x2000, 0, false), (0x3000, 0, false), (0x4000, 0, false), (0x5000, 0, true)];

/// The registers in the function at 0x2000.
fn innermost() -> Context {
    let mut ctx = Context::default();
    *ctx.index_mut(30) = 0x2010;
    *ctx.index_mut(31) = 0x8000;
    *ctx.index_mut(19) = 0x1919;
    ctx
}

/// A stack on which 0x2000 was called by 0x3000, that by 0x4000, and that by nobody.
fn stack() -> HashMap<usize, usize> {
    HashMap::from([(0x7800, ROUTINE), (0x8018, 0x3010), (0x8038, 0x4010), (0x8058, 0)])
}

fn blank() -> UnwindException {
    UnwindException { exception_class: 1, exception_cleanup: None, private_1: Some(9), private_2: 9 }
}

/// Takes steps until the walk wants something else than words of memory.
fn run<'a>(
    walk: &mut Walk<'a>,
    finder: &GlobalFinder<'a>,
    features: Features,
    words: &HashMap<usize, usize>,
) -> Action {
    let mut memory = Memory::new();
    loop {
        match walk.step(finder, features, &memory) {
            Action::Proceed => (),
            Action::Read(addr) => {
                assert_eq!(memory.read(addr), Err(Halt::Missing(addr)));
                memory.insert(addr, words[&addr]);
            }
            action => return action,
        }
    }
}

/// Runs the walk to its end. Each callback is shown to `callback`.
fn drive<'a>(
    walk: &mut Walk<'a>,
    finder: &GlobalFinder<'a>,
    exception: &mut UnwindException,
    mut callback: impl FnMut(Action, &mut UnwindContext<'a>) -> UnwindReasonCode,
) -> Outcome {
    let words = stack();
    loop {
        match run(walk, finder, FEATURES, &words) {
            Action::Finish(outcome) => return outcome,
            action => {
                let code = callback(action, &mut walk.cursor);
                walk.answer(code, exception);
            }
        }
    }
}

fn personality_call(actions: UnwindAction) -> Action {
    Action::Personality { routine: ROUTINE, actions }
}

#[test]
fn a_search_without_a_handler_runs_off_the_stack() {
    let bytes = table(&FUNCTIONS);
    let finder = get_finder(image(&bytes));
    let mut walk = _Unwind_RaiseException(&innermost());
    let mut exception = blank();
    let mut frames = Vec::new();
    let outcome = drive(&mut walk, &finder, &mut exception, |action, ctx| {
        assert_eq!(action, personality_call(UnwindAction::search_phase()));
        frames.push((_Unwind_GetIP(ctx), _Unwind_GetCFA(ctx)));
        UnwindReasonCode::continue_unwind()
    });
    assert_eq!(outcome, Outcome::Return(UnwindReasonCode::end_of_stack()));
    assert_eq!(frames, [(0x2010, 0x8000), (0x3010, 0x8020), (0x4010, 0x8040)]);
    assert_eq!(exception, blank());
    assert_eq!(walk.saved.fields(), innermost().fields());
}

#[test]
fn the_handler_of_phase_1_is_told_in_phase_2() {
    let bytes = table(&FUNCTIONS);
    let finder = get_finder(image(&bytes));
    let mut walk = _Unwind_RaiseException(&innermost());
    let mut exception = blank();
    let mut seen = Vec::new();
    let outcome = drive(&mut walk, &finder, &mut exception, |action, ctx| {
        let actions = match action {
            Action::Personality { routine: ROUTINE, actions } => actions,
            other => panic!("{:?}", other),
        };
        let ip = _Unwind_GetIP(ctx);
        seen.push((actions, ip));
        if ip != 0x4010 {
            UnwindReasonCode::continue_unwind()
        } else if actions.contains(UnwindAction::search_phase()) {
            UnwindReasonCode::handler_found()
        } else {
            _Unwind_SetIP(ctx, 0x4080);
            UnwindReasonCode::install_context()
        }
    });
    assert_eq!(outcome, Outcome::Install);
    let search = UnwindAction::search_phase();
    let cleanup = UnwindAction::cleanup_phase();
    let handler = cleanup | UnwindAction::handler_frame();
    assert_eq!(
        seen,
        [
            (search, 0x2010),
            (search, 0x3010),
            (search, 0x4010),
            (cleanup, 0x2010),
            (cleanup, 0x3010),
            (handler, 0x4010),
        ]
    );
    // The exception knows the handler, and the arguments of its call are popped.
    assert_eq!(exception.private_1, None);
    assert_eq!(exception.private_2, 0x8040);
    assert_eq!(exception.exception_class, 1);
    assert_eq!(*walk.cursor.ctx.index(30), 0x4080);
    assert_eq!(*walk.cursor.ctx.index(31), 0x8050);
    assert_eq!(*walk.cursor.ctx.index(19), 0x1919);
}

#[test]
fn a_cleanup_on_the_way_is_entered_and_resumed() {
    let bytes = table(&FUNCTIONS);
    let finder = get_finder(image(&bytes));
    let mut exception = UnwindException { private_1: None, private_2: 0x8040, ..blank() };
    let mut walk = raise_exception_phase2(&innermost(), 0x8040, false);
    let outcome = drive(&mut walk, &finder, &mut exception, |action, ctx| {
        assert_eq!(action, personality_call(UnwindAction::cleanup_phase()));
        _Unwind_SetIP(ctx, 0x2080);
        UnwindReasonCode::install_context()
    });
    assert_eq!(outcome, Outcome::Install);
    assert_eq!(*walk.cursor.ctx.index(30), 0x2080);
    let mut walk = _Unwind_Resume(&exception, &innermost());
    assert_eq!(walk.phase, Phase::Cleanup { handler_cfa: 0x8040 });
    let outcome = drive(&mut walk, &finder, &mut exception, |action, _| match action {
        Action::Personality { actions, .. } if actions.contains(UnwindAction::handler_frame()) => {
            UnwindReasonCode::install_context()
        }
        _ => UnwindReasonCode::continue_unwind(),
    });
    assert_eq!(outcome, Outcome::Install);
    assert_eq!(*walk.cursor.ctx.index(30), 0x4010);
}

#[test]
fn phase_2_fails_at_the_end_of_the_stack() {
    let bytes = table(&FUNCTIONS);
    let finder = get_finder(image(&bytes));
    let mut walk = raise_exception_phase2(&innermost(), 0x1234, false);
    let outcome = drive(&mut walk, &finder, &mut blank(), |_, _| {
        UnwindReasonCode::continue_unwind()
    });
    assert_eq!(outcome, Outcome::Return(UnwindReasonCode::fatal_phase2_error()));
}

#[test]
fn a_resumed_unwind_that_finds_nothing_is_a_fault() {
    let bytes = table(&FUNCTIONS);
    let finder = get_finder(image(&bytes));
    let fault = Outcome::Fault(Fault::NothingToResume);
    let cleanup = UnwindException { private_1: None, private_2: 0, ..blank() };
    let mut walk = _Unwind_Resume(&cleanup, &innermost());
    let outcome = drive(&mut walk, &finder, &mut blank(), |_, _| {
        UnwindReasonCode::continue_unwind()
    });
    assert_eq!(outcome, fault);
    let mut walk = _Unwind_Resume_or_Rethrow(&blank(), &innermost());
    let outcome = drive(&mut walk, &finder, &mut blank(), |_, _| UnwindReasonCode::normal_stop());
    assert_eq!(outcome, fault);
}

#[test]
fn a_forced_unwind_asks_its_stop_function_first() {
    let bytes = table(&FUNCTIONS);
    let finder = get_finder(image(&bytes));
    let mut exception = blank();
    let mut walk = _Unwind_ForcedUnwind(&mut exception, &innermost(), 0x6000, 0x66);
    assert_eq!(exception, UnwindException { private_1: Some(0x6000), private_2: 0x66, ..blank() });
    let forced = UnwindAction::force_unwind() | UnwindAction::cleanup_phase();
    let mut calls = Vec::new();
    let outcome = drive(&mut walk, &finder, &mut exception, |action, ctx| {
        let ip = _Unwind_GetIP(ctx);
        calls.push((action, ip));
        match action {
            Action::Stop { .. } => UnwindReasonCode::no_reason(),
            _ => UnwindReasonCode::continue_unwind(),
        }
    });
    let stop = |actions| Action::Stop { stop: 0x6000, stop_arg: 0x66, actions };
    assert_eq!(
        calls,
        [
            (stop(forced), 0x2010),
            (personality_call(forced), 0x2010),
            (stop(forced), 0x3010),
            (personality_call(forced), 0x3010),
            (stop(forced), 0x4010),
            (personality_call(forced), 0x4010),
            (stop(forced | UnwindAction::end_of_stack()), 0),
        ]
    );
    assert_eq!(outcome, Outcome::Return(UnwindReasonCode::end_of_stack()));
}

#[test]
fn a_forced_unwind_goes_on_where_it_is_resumed() {
    let mut exception = blank();
    _Unwind_ForcedUnwind(&mut exception, &innermost(), 0x6000, 0x66);
    let forced = Phase::Forced { stop: 0x6000, stop_arg: 0x66 };
    let walk = _Unwind_Resume(&exception, &innermost());
    assert_eq!((walk.phase, walk.must_install), (forced, true));
    let walk = _Unwind_Resume_or_Rethrow(&exception, &innermost());
    assert_eq!((walk.phase, walk.must_install), (forced, true));
    let walk = force_unwind_phase2(&innermost(), 0x6000, 0x66, false);
    assert_eq!((walk.phase, walk.must_install), (forced, false));
}

#[test]
fn a_caught_exception_is_raised_again() {
    let exception = UnwindException { private_1: None, private_2: 5, ..blank() };
    let walk = _Unwind_Resume_or_Rethrow(&exception, &innermost());
    assert_eq!((walk.phase, walk.must_install), (Phase::Search, false));
    assert_eq!(walk.stage, Stage::Locate);
}

#[test]
fn a_forced_unwind_enters_landing_pads() {
    let bytes = table(&FUNCTIONS);
    let finder = get_finder(image(&bytes));
    let mut walk = force_unwind_phase2(&innermost(), 0x6000, 0, false);
    let outcome = drive(&mut walk, &finder, &mut blank(), |action, ctx| match action {
        Action::Stop { .. } => UnwindReasonCode::no_reason(),
        _ if _Unwind_GetIP(ctx) == 0x3010 => {
            _Unwind_SetIP(ctx, 0x3080);
            UnwindReasonCode::install_context()
        }
        _ => UnwindReasonCode::continue_unwind(),
    });
    assert_eq!(outcome, Outcome::Install);
    assert_eq!(*walk.cursor.ctx.index(30), 0x3080);
    assert_eq!(*walk.cursor.ctx.index(31), 0x8030);
}

/// How a walk ends whose callbacks all return `code`.
fn code_of<'a>(finder: &GlobalFinder<'a>, mut walk: Walk<'a>, code: UnwindReasonCode) -> Outcome {
    drive(&mut walk, finder, &mut blank(), move |_, _| code)
}

#[test]
fn any_other_code_is_fatal() {
    let bytes = table(&FUNCTIONS);
    let finder = get_finder(image(&bytes));
    let fatal1 = Outcome::Return(UnwindReasonCode::fatal_phase1_error());
    let fatal2 = Outcome::Return(UnwindReasonCode::fatal_phase2_error());
    for n in 0..12 {
        let code = UnwindReasonCode(n);
        let ctx = innermost();
        if code != UnwindReasonCode::continue_unwind() && code != UnwindReasonCode::handler_found() {
            assert_eq!(code_of(&finder, _Unwind_RaiseException(&ctx), code), fatal1);
        }
        if code != UnwindReasonCode::continue_unwind() && code != UnwindReasonCode::install_context()
        {
            assert_eq!(code_of(&finder, raise_exception_phase2(&ctx, 0, false), code), fatal2);
        }
        if code != UnwindReasonCode::no_reason() {
            assert_eq!(code_of(&finder, force_unwind_phase2(&ctx, 0, 0, false), code), fatal2);
            assert_eq!(code_of(&finder, _Unwind_Backtrace(FEATURES, &ctx, 0), code), fatal1);
        }
    }
    let mut walk = force_unwind_phase2(&innermost(), 0, 0, false);
    let outcome = drive(&mut walk, &finder, &mut blank(), |action, _| match action {
        Action::Stop { .. } => UnwindReasonCode::no_reason(),
        _ => UnwindReasonCode::handler_found(),
    });
    assert_eq!(outcome, fatal2);
}

#[test]
fn a_backtrace_shows_every_frame_and_the_end() {
    let bytes = table(&FUNCTIONS);
    let finder = get_finder(image(&bytes));
    let mut walk = _Unwind_Backtrace(FEATURES, &innermost(), 0x2000);
    let mut shown = Vec::new();
    let outcome = drive(&mut walk, &finder, &mut blank(), |action, ctx| {
        assert_eq!(action, Action::Trace);
        shown.push((_Unwind_GetIP(ctx), ctx.frame.is_some()));
        UnwindReasonCode::no_reason()
    });
    assert_eq!(outcome, Outcome::Return(UnwindReasonCode::end_of_stack()));
    assert_eq!(shown, [(0x2010, true), (0x3010, true), (0x4010, true), (0, false)]);
}

#[test]
fn a_backtrace_can_hide_the_frames_of_the_unwinder() {
    let bytes = table(&FUNCTIONS);
    let finder = get_finder(image(&bytes));
    let features = Features { hide_trace: true, ..FEATURES };
    let shown_from = |own| {
        let mut walk = _Unwind_Backtrace(features, &innermost(), own);
        let mut shown = Vec::new();
        let outcome = drive(&mut walk, &finder, &mut blank(), |_, ctx| {
            shown.push(_Unwind_GetIP(ctx));
            UnwindReasonCode::no_reason()
        });
        (shown, outcome)
    };
    let end = Outcome::Return(UnwindReasonCode::end_of_stack());
    assert_eq!(shown_from(0x2000), (vec![0x3010, 0x4010, 0], end));
    assert_eq!(shown_from(0x3000), (vec![0x4010, 0], end));
    assert_eq!(shown_from(0x1), (vec![], end));
}

#[test]
fn a_broken_frame_ends_the_walk() {
    let outcome = |mut walk: Walk<'static>| {
        walk.arrive(Err(UnwindError::Malformed));
        walk.step(&get_finder(image(&[])), FEATURES, &Memory::new())
    };
    let ctx = innermost();
    let fatal1 = Action::Finish(Outcome::Return(UnwindReasonCode::fatal_phase1_error()));
    let fatal2 = Action::Finish(Outcome::Return(UnwindReasonCode::fatal_phase2_error()));
    assert_eq!(outcome(_Unwind_RaiseException(&ctx)), fatal1);
    assert_eq!(outcome(_Unwind_Backtrace(FEATURES, &ctx, 0)), fatal1);
    assert_eq!(outcome(raise_exception_phase2(&ctx, 0, false)), fatal2);
    assert_eq!(outcome(force_unwind_phase2(&ctx, 0, 0, false)), fatal2);
}

#[test]
fn a_frame_that_cannot_be_unwound_ends_the_walk() {
    let bytes = table(&FUNCTIONS);
    let finder = get_finder(image(&bytes));
    let after = |halt| {
        let mut walk = _Unwind_RaiseException(&innermost());
        assert_eq!(run(&mut walk, &finder, FEATURES, &stack()), {
            personality_call(UnwindAction::search_phase())
        });
        walk.answer(UnwindReasonCode::continue_unwind(), &mut blank());
        let action = walk.depart(Err(halt));
        (action, walk.stage)
    };
    assert_eq!(after(Halt::Missing(8)), (Action::Read(8), Stage::Advance));
    assert_eq!(
        after(Halt::Failed(UnwindError::Malformed)),
        (
            Action::Proceed,
            Stage::Finished(Outcome::Return(UnwindReasonCode::fatal_phase1_error()))
        )
    );
    assert_eq!(
        after(Halt::Fault(Fault::ArchitecturalRule)),
        (Action::Proceed, Stage::Finished(Outcome::Fault(Fault::ArchitecturalRule)))
    );
}

#[test]
fn a_signal_moves_the_address_by_which_a_frame_is_known() {
    let bytes = table(&FUNCTIONS);
    let finder = get_finder(image(&bytes));
    // The signal's frame at 0x5000 was pushed onto that of 0x4000.
    let mut ctx = innermost();
    *ctx.index_mut(30) = 0x5010;
    let words = HashMap::from([(0x7800, OTHER_ROUTINE), (0x8018, 0x4000), (0x8038, 0)]);
    let mut walk = _Unwind_RaiseException(&ctx);
    let mut exception = blank();
    run(&mut walk, &finder, FEATURES, &words);
    walk.answer(UnwindReasonCode::continue_unwind(), &mut exception);
    assert_eq!(
        run(&mut walk, &finder, FEATURES, &words),
        Action::Personality { routine: OTHER_ROUTINE, actions: UnwindAction::search_phase() }
    );
    assert!(walk.cursor.signal);
    assert_eq!(walk.cursor.frame.as_ref().unwrap().initial_address(), 0x4000);
    walk.answer(UnwindReasonCode::handler_found(), &mut exception);
    assert_eq!(exception.private_2, 0x801f);
    assert_eq!(walk.phase, Phase::Cleanup { handler_cfa: 0x801f });
    assert_eq!(walk.cursor.ctx.fields(), ctx.fields());
}

#[test]
fn a_signal_at_address_zero_is_a_fault() {
    let bytes = table(&FUNCTIONS);
    let finder = get_finder(image(&bytes));
    let mut ctx = innermost();
    *ctx.index_mut(31) = 0;
    for mut walk in [_Unwind_RaiseException(&ctx), raise_exception_phase2(&ctx, 0, false)] {
        walk.cursor.signal = true;
        if let Action::Personality { .. } = run(&mut walk, &finder, FEATURES, &stack()) {
            walk.answer(UnwindReasonCode::handler_found(), &mut blank());
        }
        assert_eq!(
            run(&mut walk, &finder, FEATURES, &stack()),
            Action::Finish(Outcome::Fault(Fault::Overflow))
        );
    }
}

#[test]
fn a_finished_walk_stays_finished() {
    let bytes = table(&FUNCTIONS);
    let finder = get_finder(image(&bytes));
    let mut walk = _Unwind_RaiseException(&Context::default());
    let end = Action::Finish(Outcome::Return(UnwindReasonCode::end_of_stack()));
    for _ in 0..3 {
        assert_eq!(run(&mut walk, &finder, FEATURES, &stack()), end);
    }
}

#[test]
fn more_memory_changes_no_step() {
    let bytes = table(&FUNCTIONS);
    let finder = get_finder(image(&bytes));
    let mut small = Memory::new();
    small.insert(0x7800, ROUTINE);
    let mut large = Memory::new();
    for (addr, value) in stack() {
        large.insert(addr, value);
    }
    let mut a = _Unwind_RaiseException(&innermost());
    let mut b = _Unwind_RaiseException(&innermost());
    for _ in 0..2 {
        assert_eq!(a.step(&finder, FEATURES, &small), b.step(&finder, FEATURES, &large));
        assert_eq!(a.stage, b.stage);
    }
    a.answer(UnwindReasonCode::continue_unwind(), &mut blank());
    b.answer(UnwindReasonCode::continue_unwind(), &mut blank());
    assert_eq!(a.step(&finder, FEATURES, &small), Action::Read(0x8018));
    assert_eq!(a.stage, Stage::Advance);
    assert_eq!(b.step(&finder, FEATURES, &large), Action::Proceed);
    assert_eq!(b.stage, Stage::Locate);
}

/// A panic in 0x2000 is cleaned up after in 0x3000 and caught in 0x4000, all by the
/// personality routine of Rust.
#[test]
fn a_panic_is_unwound_from_end_to_end() {
    // The calls up to 0x3040 have a landing pad there. The pad's own calls have none.
    let cleanup = [0xff, 0xff, 0x01, 8, 0x00, 0x40, 0x40, 0x00, 0x40, 0x40, 0x00, 0x00];
    let catch = [0xff, 0xff, 0x01, 4, 0x00, 0x40, 0x50, 0x01, 0x01];
    let bytes = table(&[(0x2000, 0, false), (0x3000, 0xb000, false), (0x4000, 0xc000, false)]);
    let finder = get_finder(image(&bytes));
    let call = |action: Action, ctx: &mut UnwindContext<'_>| match action {
        Action::Personality { actions, .. } => {
            let memory = Memory::new();
            let lsda = match ctx.frame.as_ref().unwrap().lsda(&memory).unwrap() {
                0xb000 => &cleanup[..],
                0xc000 => &catch[..],
                _ => &[],
            };
            let order = ByteOrder::Little;
            rust_eh_personality(1, actions, 1, 0xeeee, ctx, lsda, order, &memory).unwrap()
        }
        other => panic!("{:?}", other),
    };
    let mut exception = blank();
    let mut walk = _Unwind_RaiseException(&innermost());
    assert_eq!(drive(&mut walk, &finder, &mut exception, call), Outcome::Install);
    assert_eq!(*walk.cursor.ctx.index(30), 0x3040);
    assert_eq!(*walk.cursor.ctx.index(0), 0xeeee);
    assert_eq!(*walk.cursor.ctx.index(1), 0);
    assert_eq!(exception.private_2, 0x8040);
    // The landing pad has cleaned up, and resumes from a call in its own frame.
    let mut pad = walk.cursor.ctx;
    *pad.index_mut(30) = 0x3051;
    *pad.index_mut(31) = 0x8020;
    let mut walk = _Unwind_Resume(&exception, &pad);
    assert_eq!(drive(&mut walk, &finder, &mut exception, call), Outcome::Install);
    assert_eq!(*walk.cursor.ctx.index(30), 0x4050);
    assert_eq!(*walk.cursor.ctx.index(0), 0xeeee);
}
