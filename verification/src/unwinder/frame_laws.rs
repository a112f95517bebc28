//! What holds of unwinding one frame, whatever its rules are.

use vstd::prelude::*;
use crate::arch::{Arch, Register};
use crate::encoding::Pointer;
use crate::error::{Fault, Halt, UnwindError};
use crate::features::Features;
use crate::memory::Words;
use crate::reader::word_size;
use crate::unwinder::arch::aarch64::Registers;
use crate::unwinder::context::frame_model;
use crate::unwinder::expression::{
    answer_to, evaluated, program_value, resumed_with_memory, resumed_with_register, settled,
    Answer, Progress, Request, MAX_ITERATIONS,
};
use crate::unwinder::find_fde::{found_view, FDEFinder, GlobalFinder};
use crate::unwinder::frame::{
    frame_at, frame_pc, frame_view, is_supported, rules_capacity, Frame, FrameModel,
};
use crate::unwinder::table::{row_for, CfaRule, Expression, RegisterRule};

verus! {

/// Whether a rule of `rules` is for `reg`.
pub open spec fn has_rule(rules: Seq<(Register, RegisterRule)>, reg: Register) -> bool {
    exists|i: int| 0 <= i < rules.len() && (#[trigger] rules[i]).0 == reg
}

/// Whether the rule at `i` is the last one for its register.
pub open spec fn is_last_rule(rules: Seq<(Register, RegisterRule)>, i: int) -> bool {
    0 <= i < rules.len() && forall|j: int| i < j < rules.len() ==> (#[trigger] rules[j]).0 != rules[i].0
}

/// Applying rules leaves the registers without a rule alone, and gives every other
/// one the value of its last rule.
proof fn lemma_applied(
    frame: FrameModel,
    features: Features,
    rules: Seq<(Register, RegisterRule)>,
    cfa: usize,
    regs: Registers,
    words: Words,
    so_far: Registers,
    caller: Registers,
)
    requires
        frame.applied(features, rules, cfa, regs, words, so_far) == Ok::<Registers, Halt>(caller),
    ensures
        forall|n: Register| !has_rule(rules, n) ==> #[trigger] caller[n] == so_far[n],
        forall|i: int| #[trigger]
            is_last_rule(rules, i) ==> frame.rule_value(
                features,
                rules[i].0,
                rules[i].1,
                cfa,
                regs,
                words,
            ) == Ok::<usize, Halt>(caller[rules[i].0]),
        forall|n: Register| so_far.contains_key(n) ==> #[trigger] caller.contains_key(n),
    decreases rules.len(),
{
    if rules.len() > 0 {
        let (reg, rule) = rules[0];
        let rest = rules.drop_first();
        let value = frame.rule_value(features, reg, rule, cfa, regs, words)->Ok_0;
        let next = so_far.insert(reg, value);
        lemma_applied(frame, features, rest, cfa, regs, words, next, caller);
        assert forall|n: Register| !has_rule(rules, n) implies #[trigger] caller[n]
            == so_far[n] by {
            assert(rules[0].0 != n);
            if has_rule(rest, n) {
                let i = choose|i: int| 0 <= i < rest.len() && (#[trigger] rest[i]).0 == n;
                assert(rules[i + 1].0 == n);
            }
        }
        assert forall|i: int| #[trigger] is_last_rule(rules, i) implies frame.rule_value(
            features,
            rules[i].0,
            rules[i].1,
            cfa,
            regs,
            words,
        ) == Ok::<usize, Halt>(caller[rules[i].0]) by {
            if i > 0 {
                assert(rest[i - 1] == rules[i]);
                assert forall|j: int| i - 1 < j < rest.len() implies (#[trigger] rest[j]).0
                    != rest[i - 1].0 by {
                    assert(rest[j] == rules[j + 1]);
                }
                assert(is_last_rule(rest, i - 1));
            } else {
                if has_rule(rest, reg) {
                    let j = choose|j: int| 0 <= j < rest.len() && (#[trigger] rest[j]).0 == reg;
                    assert(rules[j + 1].0 == reg);
                }
                assert(caller[reg] == next[reg]);
            }
        }
    }
}

/// In the caller's registers, each register with a rule has the value that its last
/// rule gives. Without a rule the stack pointer is the canonical frame address, the
/// return address is 0, and any other register keeps its value.
pub proof fn law_caller_registers(
    frame: FrameModel,
    features: Features,
    regs: Registers,
    words: Words,
    caller: Registers,
    cfa: usize,
)
    requires
        frame.unwound(features, regs, words) == Ok::<Registers, Halt>(caller),
        frame.cfa(features, regs, words) == Ok::<usize, Halt>(cfa),
    ensures
        !has_rule(frame.row.rules, Arch::SP) ==> caller[Arch::SP] == cfa,
        !has_rule(frame.row.rules, Arch::RA) ==> caller[Arch::RA] == 0,
        forall|n: Register|
            n != Arch::SP && n != Arch::RA && !has_rule(frame.row.rules, n) ==> #[trigger] caller[n]
                == regs[n],
        forall|i: int| #[trigger]
            is_last_rule(frame.row.rules, i) ==> frame.rule_value(
                features,
                frame.row.rules[i].0,
                frame.row.rules[i].1,
                cfa,
                regs,
                words,
            ) == Ok::<usize, Halt>(caller[frame.row.rules[i].0]),
{
    let so_far = regs.insert(Arch::SP, cfa).insert(Arch::RA, 0);
    lemma_applied(frame, features, frame.row.rules, cfa, regs, words, so_far, caller);
}

/// A frame whose return address has no rule, or is lost, is the outermost one: there is
/// no frame above it.
pub proof fn law_stack_ends_without_return_address(
    frame: FrameModel,
    features: Features,
    regs: Registers,
    words: Words,
    caller: Registers,
    finder: GlobalFinder,
    signal: bool,
)
    requires
        frame.unwound(features, regs, words) == Ok::<Registers, Halt>(caller),
        !has_rule(frame.row.rules, Arch::RA) || exists|i: int| #[trigger]
            is_last_rule(frame.row.rules, i) && frame.row.rules[i] == (
                Arch::RA,
                RegisterRule::Undefined,
            ),
    ensures
        frame_at(finder, caller, signal) == Ok::<Option<FrameModel>, UnwindError>(None),
{
    let cfa = frame.cfa(features, regs, words)->Ok_0;
    law_caller_registers(frame, features, regs, words, caller, cfa);
}

/// Unwinding loses no register.
pub proof fn law_caller_has_all_registers(
    frame: FrameModel,
    features: Features,
    regs: Registers,
    words: Words,
    caller: Registers,
)
    requires
        frame.unwound(features, regs, words) == Ok::<Registers, Halt>(caller),
    ensures
        forall|n: Register| regs.contains_key(n) ==> #[trigger] caller.contains_key(n),
{
    let cfa = frame.cfa(features, regs, words)->Ok_0;
    let so_far = regs.insert(Arch::SP, cfa).insert(Arch::RA, 0);
    lemma_applied(frame, features, frame.row.rules, cfa, regs, words, so_far, caller);
}

/// Without expressions, every frame whose rules hold one cannot be unwound.
pub proof fn law_expressions_switched_off(
    frame: FrameModel,
    features: Features,
    expression: Expression,
    regs: Registers,
    words: Words,
)
    requires
        !features.dwarf_expr,
    ensures
        frame.expression_value(features, expression, regs, words) == Err::<usize, Halt>(
            Halt::Failed(UnwindError::UnsupportedEvaluation),
        ),
{
}

/// Whether a result stays what it is, where more is known of memory, and names a
/// word that is not known where it asks for one.
pub open spec fn stable<T>(r: Result<T, Halt>, more: Result<T, Halt>, words: Words) -> bool {
    match r {
        Err(Halt::Missing(addr)) => !words.contains_key(addr),
        _ => more == r,
    }
}

proof fn lemma_settled_stable(
    before: Progress,
    came: Option<Request>,
    regs: Registers,
    words: Words,
    more: Words,
    fuel: nat,
)
    requires
        words.submap_of(more),
    ensures
        stable(
            settled(before, came, regs, words, fuel),
            settled(before, came, regs, more, fuel),
            words,
        ),
    decreases fuel,
{
    if let Some(request) = came {
        let now = before.asking(request);
        assert(stable(answer_to(request, regs, words), answer_to(request, regs, more), words));
        if fuel > 0 {
            if let Ok(Answer::Memory(value)) = answer_to(request, regs, words) {
                let came = resumed_with_memory(now, value);
                lemma_settled_stable(now.given(value), came, regs, words, more, (fuel - 1) as nat);
            }
            if let Ok(Answer::Register(value)) = answer_to(request, regs, words) {
                let came = resumed_with_register(now, value);
                lemma_settled_stable(now.given(value), came, regs, words, more, (fuel - 1) as nat);
            }
        }
    }
}

proof fn lemma_expression_stable(
    frame: FrameModel,
    features: Features,
    expression: Expression,
    regs: Registers,
    words: Words,
    more: Words,
)
    requires
        words.submap_of(more),
    ensures
        stable(
            frame.expression_value(features, expression, regs, words),
            frame.expression_value(features, expression, regs, more),
            words,
        ),
{
    let program = frame.found.section.subrange(
        expression.offset as int,
        expression.offset + expression.length,
    );
    let start = Progress::start(program, frame.found.order, frame.found.fde.encoding).limited(
        MAX_ITERATIONS,
    );
    lemma_settled_stable(start, evaluated(start), regs, words, more, MAX_ITERATIONS as nat);
}

proof fn lemma_rule_stable(
    frame: FrameModel,
    features: Features,
    reg: Register,
    rule: RegisterRule,
    cfa: usize,
    regs: Registers,
    words: Words,
    more: Words,
)
    requires
        words.submap_of(more),
    ensures
        stable(
            frame.rule_value(features, reg, rule, cfa, regs, words),
            frame.rule_value(features, reg, rule, cfa, regs, more),
            words,
        ),
{
    match rule {
        RegisterRule::Expression(e) => lemma_expression_stable(
            frame,
            features,
            e,
            regs,
            words,
            more,
        ),
        RegisterRule::ValExpression(e) => lemma_expression_stable(
            frame,
            features,
            e,
            regs,
            words,
            more,
        ),
        _ => {},
    }
}

proof fn lemma_applied_stable(
    frame: FrameModel,
    features: Features,
    rules: Seq<(Register, RegisterRule)>,
    cfa: usize,
    regs: Registers,
    words: Words,
    more: Words,
    so_far: Registers,
)
    requires
        words.submap_of(more),
    ensures
        stable(
            frame.applied(features, rules, cfa, regs, words, so_far),
            frame.applied(features, rules, cfa, regs, more, so_far),
            words,
        ),
    decreases rules.len(),
{
    if rules.len() > 0 {
        let (reg, rule) = rules[0];
        lemma_rule_stable(frame, features, reg, rule, cfa, regs, words, more);
        if let Ok(value) = frame.rule_value(features, reg, rule, cfa, regs, words) {
            let next = so_far.insert(reg, value);
            lemma_applied_stable(
                frame,
                features,
                rules.drop_first(),
                cfa,
                regs,
                words,
                more,
                next,
            );
        }
    }
}

/// Unwinding a frame asks only for words that are not known yet, and knowing more of
/// memory changes no result that it has come to.
pub proof fn law_unwound_stable(
    frame: FrameModel,
    features: Features,
    regs: Registers,
    words: Words,
    more: Words,
)
    requires
        words.submap_of(more),
    ensures
        stable(
            frame.unwound(features, regs, words),
            frame.unwound(features, regs, more),
            words,
        ),
{
    if let CfaRule::Expression(e) = frame.row.cfa {
        lemma_expression_stable(frame, features, e, regs, words, more);
    }
    if let Ok(cfa) = frame.cfa(features, regs, words) {
        lemma_applied_stable(
            frame,
            features,
            frame.row.rules,
            cfa,
            regs,
            words,
            more,
            regs.insert(Arch::SP, cfa).insert(Arch::RA, 0),
        );
    }
}

/// Finding the personality routine and the language specific data asks only for words
/// that are not known yet, and knowing more of memory changes neither.
pub proof fn law_pointers_stable(frame: FrameModel, words: Words, more: Words)
    requires
        words.submap_of(more),
    ensures
        stable(frame.personality(words), frame.personality(more), words),
        stable(frame.lsda(words), frame.lsda(more), words),
{
}

/// The frame of some registers is that of the address at which they execute: the return
/// address where a signal has interrupted the frame, and else the one below it, which is
/// inside the call. The function is the one that is found for that address, and the rules
/// are the row of its table for that very address. There is no frame where the return
/// address is 0, or where no function is found.
pub proof fn law_frame_is_that_of_its_address(
    finder: GlobalFinder,
    regs: Registers,
    signal: bool,
    pc: usize,
)
    requires
        regs[30] > 0,
        pc == regs[30] - if signal {
            0int
        } else {
            1
        },
    ensures
        finder.finds(pc) is None ==> frame_at(finder, regs, signal) == Ok::<
            Option<FrameModel>,
            UnwindError,
        >(None),
        finder.finds(pc) matches Some(found) ==> {
            let row = row_for(found.section, found.order, word_size(), found.bases, pc as u64);
            &&& row is None ==> frame_at(finder, regs, signal) == Err::<
                Option<FrameModel>,
                UnwindError,
            >(UnwindError::Malformed)
            &&& row matches Some(row) ==> row.rules.len() <= 128 ==> frame_at(finder, regs, signal)
                == Ok::<Option<FrameModel>, UnwindError>(Some(FrameModel { found, row }))
            &&& row matches Some(row) ==> row.rules.len() > 128 ==> frame_at(finder, regs, signal)
                == Err::<Option<FrameModel>, UnwindError>(UnwindError::TooManyRegisterRules)
        },
        frame_pc(regs, signal) == pc,
{
}

/// A return address of 0 ends the stack, whatever else is in the registers.
pub proof fn law_no_return_address_no_frame(finder: GlobalFinder, regs: Registers, signal: bool)
    requires
        regs[30] == 0,
    ensures
        frame_at(finder, regs, signal) == Ok::<Option<FrameModel>, UnwindError>(None),
{
}

/// Where a frame is found, its row is the table's row for the address at which the frame
/// executes, and its function is the one that is found for that address.
pub proof fn law_row_is_that_of_the_address(
    finder: GlobalFinder,
    regs: Registers,
    signal: bool,
    frame: FrameModel,
)
    requires
        frame_at(finder, regs, signal) == Ok::<Option<FrameModel>, UnwindError>(Some(frame)),
    ensures
        regs[30] > 0,
        ({
            let pc = (regs[30] - if signal {
                0int
            } else {
                1
            }) as usize;
            &&& finder.finds(pc) == Some(frame.found)
            &&& row_for(
                frame.found.section,
                frame.found.order,
                word_size(),
                frame.found.bases,
                pc as u64,
            ) == Some(frame.row)
        }),
{
}

/// The canonical frame address is a register's value and an offset from it, or what an
/// expression computes.
pub proof fn law_canonical_frame_address(
    frame: FrameModel,
    features: Features,
    regs: Registers,
    words: Words,
)
    ensures
        frame.row.cfa matches CfaRule::RegisterAndOffset { register, offset } ==> (register <= 31
            || 64 <= register <= 95) ==> frame.cfa(features, regs, words) == Ok::<usize, Halt>(
            regs[register].wrapping_add(offset as usize),
        ),
        frame.row.cfa matches CfaRule::RegisterAndOffset { register, offset } ==> (31 < register < 64
            || register > 95) ==> frame.cfa(features, regs, words) == Err::<usize, Halt>(
            Halt::Fault(Fault::UnknownRegister(register)),
        ),
        frame.row.cfa matches CfaRule::Expression(e) ==> frame.cfa(features, regs, words)
            == frame.expression_value(features, e, regs, words),
{
}

/// What an expression computes is the value of the bytes of the table that it names, where
/// the table has them and expressions are switched on.
pub proof fn law_expressions_are_bytes_of_the_table(
    frame: FrameModel,
    features: Features,
    e: Expression,
    regs: Registers,
    words: Words,
)
    requires
        features.dwarf_expr,
    ensures
        e.offset + e.length <= frame.found.section.len() && frame.found.fde.encoding.address_size
            <= 8 ==> frame.expression_value(features, e, regs, words) == program_value(
            frame.found.section.skip(e.offset as int).take(e.length as int),
            frame.found.order,
            frame.found.fde.encoding,
            regs,
            words,
        ),
        e.offset + e.length > frame.found.section.len() || frame.found.fde.encoding.address_size > 8
            ==> frame.expression_value(features, e, regs, words) == Err::<usize, Halt>(
            Halt::Fault(Fault::OutOfBounds),
        ),
{
    if e.offset + e.length <= frame.found.section.len() {
        assert(frame.found.section.subrange(e.offset as int, e.offset + e.length)
            == frame.found.section.skip(e.offset as int).take(e.length as int));
    }
}

/// What a rule that needs no expression gives, for every register: what is lost is 0; the
/// same value, or another register's, is the frame's own; what is saved is the word that
/// far from the canonical frame address, which may have to be read first.
pub proof fn law_rules_give_their_values(
    frame: FrameModel,
    features: Features,
    n: Register,
    m: Register,
    k: i64,
    c: u64,
    cfa: usize,
    regs: Registers,
    words: Words,
)
    ensures
        frame.rule_value(features, n, RegisterRule::Undefined, cfa, regs, words) == Ok::<
            usize,
            Halt,
        >(0),
        n <= 31 || 64 <= n <= 95 ==> frame.rule_value(
            features,
            n,
            RegisterRule::SameValue,
            cfa,
            regs,
            words,
        ) == Ok::<usize, Halt>(regs[n]),
        31 < n < 64 || n > 95 ==> frame.rule_value(
            features,
            n,
            RegisterRule::SameValue,
            cfa,
            regs,
            words,
        ) == Err::<usize, Halt>(Halt::Fault(Fault::UnknownRegister(n))),
        m <= 31 || 64 <= m <= 95 ==> frame.rule_value(
            features,
            n,
            RegisterRule::Register(m),
            cfa,
            regs,
            words,
        ) == Ok::<usize, Halt>(regs[m]),
        31 < m < 64 || m > 95 ==> frame.rule_value(
            features,
            n,
            RegisterRule::Register(m),
            cfa,
            regs,
            words,
        ) == Err::<usize, Halt>(Halt::Fault(Fault::UnknownRegister(m))),
        words.contains_key(cfa.wrapping_add(k as usize)) ==> frame.rule_value(
            features,
            n,
            RegisterRule::Offset(k),
            cfa,
            regs,
            words,
        ) == Ok::<usize, Halt>(words[cfa.wrapping_add(k as usize)]),
        !words.contains_key(cfa.wrapping_add(k as usize)) ==> frame.rule_value(
            features,
            n,
            RegisterRule::Offset(k),
            cfa,
            regs,
            words,
        ) == Err::<usize, Halt>(Halt::Missing(cfa.wrapping_add(k as usize))),
        frame.rule_value(features, n, RegisterRule::ValOffset(k), cfa, regs, words) == Ok::<
            usize,
            Halt,
        >(cfa.wrapping_add(k as usize)),
        frame.rule_value(features, n, RegisterRule::Constant(c), cfa, regs, words) == Ok::<
            usize,
            Halt,
        >(c as usize),
        frame.rule_value(features, n, RegisterRule::Architectural, cfa, regs, words) == Err::<
            usize,
            Halt,
        >(Halt::Fault(Fault::ArchitecturalRule)),
{
}

/// What a rule with an expression gives, for every register: what the expression computes,
/// or the word at that address, which may have to be read first.
pub proof fn law_expression_rules_give_their_values(
    frame: FrameModel,
    features: Features,
    n: Register,
    e: Expression,
    cfa: usize,
    regs: Registers,
    words: Words,
)
    ensures
        frame.rule_value(features, n, RegisterRule::ValExpression(e), cfa, regs, words)
            == frame.expression_value(features, e, regs, words),
        frame.expression_value(features, e, regs, words) matches Err(halt) ==> frame.rule_value(
            features,
            n,
            RegisterRule::Expression(e),
            cfa,
            regs,
            words,
        ) == Err::<usize, Halt>(halt),
        frame.expression_value(features, e, regs, words) matches Ok(a) ==> words.contains_key(a)
            ==> frame.rule_value(features, n, RegisterRule::Expression(e), cfa, regs, words) == Ok::<
            usize,
            Halt,
        >(words[a]),
        frame.expression_value(features, e, regs, words) matches Ok(a) ==> !words.contains_key(a)
            ==> frame.rule_value(features, n, RegisterRule::Expression(e), cfa, regs, words)
            == Err::<usize, Halt>(Halt::Missing(a)),
{
}

/// The caller's registers by the rules of its callee: the last rule for a register decides
/// it, by its kind and whichever register it is, from the registers and the memory of the
/// frame alone.
pub proof fn law_callers_registers_are_recovered(
    frame: FrameModel,
    features: Features,
    regs: Registers,
    words: Words,
    caller: Registers,
    cfa: usize,
    i: int,
    n: Register,
)
    requires
        frame.unwound(features, regs, words) == Ok::<Registers, Halt>(caller),
        frame.cfa(features, regs, words) == Ok::<usize, Halt>(cfa),
        is_last_rule(frame.row.rules, i),
        frame.row.rules[i].0 == n,
    ensures
        match frame.row.rules[i].1 {
            RegisterRule::Undefined => caller[n] == 0,
            RegisterRule::SameValue => caller[n] == regs[n],
            RegisterRule::Offset(k) => {
                let at = cfa.wrapping_add(k as usize);
                words.contains_key(at) && caller[n] == words[at]
            },
            RegisterRule::ValOffset(k) => caller[n] == cfa.wrapping_add(k as usize),
            RegisterRule::Register(m) => caller[n] == regs[m],
            RegisterRule::Expression(e) => exists|a: usize|
                frame.expression_value(features, e, regs, words) == Ok::<usize, Halt>(a)
                    && #[trigger] words.contains_key(a) && caller[n] == words[a],
            RegisterRule::ValExpression(e) => frame.expression_value(features, e, regs, words)
                == Ok::<usize, Halt>(caller[n]),
            RegisterRule::Constant(c) => caller[n] == c as usize,
            RegisterRule::Architectural => false,
        },
{
    law_caller_registers(frame, features, regs, words, caller, cfa);
    if let RegisterRule::Expression(e) = frame.row.rules[i].1 {
        let a = frame.expression_value(features, e, regs, words)->Ok_0;
        assert(words.contains_key(a));
    }
}

/// Where the rule at `i` cannot be applied and all before it can, unwinding stops there, for
/// the reason that `i` gives. A register that a context does not hold cannot be recovered.
proof fn lemma_applied_stops(
    frame: FrameModel,
    features: Features,
    rules: Seq<(Register, RegisterRule)>,
    cfa: usize,
    regs: Registers,
    words: Words,
    so_far: Registers,
    i: int,
    halt: Halt,
)
    requires
        0 <= i < rules.len(),
        applicable_before(frame, features, rules, cfa, regs, words, i),
        match frame.rule_value(features, rules[i].0, rules[i].1, cfa, regs, words) {
            Err(reason) => halt == reason,
            Ok(_) => (31 < rules[i].0 < 64 || rules[i].0 > 95) && halt == Halt::Fault(
                Fault::UnknownRegister(rules[i].0),
            ),
        },
    ensures
        frame.applied(features, rules, cfa, regs, words, so_far) == Err::<Registers, Halt>(halt),
    decreases rules.len(),
{
    if i > 0 {
        let (reg, rule) = rules[0];
        let rest = rules.drop_first();
        assert(applicable_at(frame, features, rules, cfa, regs, words, 0));
        let value = frame.rule_value(features, reg, rule, cfa, regs, words)->Ok_0;
        assert forall|j: int| 0 <= j < i - 1 implies #[trigger] applicable_at(
            frame,
            features,
            rest,
            cfa,
            regs,
            words,
            j,
        ) by {
            assert(applicable_at(frame, features, rules, cfa, regs, words, j + 1));
        }
        assert(rest[i - 1] == rules[i]);
        lemma_applied_stops(
            frame,
            features,
            rest,
            cfa,
            regs,
            words,
            so_far.insert(reg, value),
            i - 1,
            halt,
        );
    }
}

proof fn lemma_applied_succeeds(
    frame: FrameModel,
    features: Features,
    rules: Seq<(Register, RegisterRule)>,
    cfa: usize,
    regs: Registers,
    words: Words,
    so_far: Registers,
)
    requires
        applicable_before(frame, features, rules, cfa, regs, words, rules.len() as int),
    ensures
        frame.applied(features, rules, cfa, regs, words, so_far) is Ok,
    decreases rules.len(),
{
    if rules.len() > 0 {
        let (reg, rule) = rules[0];
        let rest = rules.drop_first();
        assert(applicable_at(frame, features, rules, cfa, regs, words, 0));
        let value = frame.rule_value(features, reg, rule, cfa, regs, words)->Ok_0;
        assert forall|j: int| 0 <= j < rest.len() implies #[trigger] applicable_at(
            frame,
            features,
            rest,
            cfa,
            regs,
            words,
            j,
        ) by {
            assert(applicable_at(frame, features, rules, cfa, regs, words, j + 1));
        }
        lemma_applied_succeeds(
            frame,
            features,
            rest,
            cfa,
            regs,
            words,
            so_far.insert(reg, value),
        );
    }
}

/// Whether the rule at `i` gives a value, to a register that a context holds.
pub open spec fn applicable_at(
    frame: FrameModel,
    features: Features,
    rules: Seq<(Register, RegisterRule)>,
    cfa: usize,
    regs: Registers,
    words: Words,
    i: int,
) -> bool {
    &&& frame.rule_value(features, rules[i].0, rules[i].1, cfa, regs, words) is Ok
    &&& rules[i].0 <= 31 || 64 <= rules[i].0 <= 95
}

/// Whether the first `i` rules do.
pub open spec fn applicable_before(
    frame: FrameModel,
    features: Features,
    rules: Seq<(Register, RegisterRule)>,
    cfa: usize,
    regs: Registers,
    words: Words,
    i: int,
) -> bool {
    forall|j: int|
        0 <= j < i ==> #[trigger] applicable_at(frame, features, rules, cfa, regs, words, j)
}

/// A frame is unwound exactly where its canonical frame address can be found and all its
/// rules can be applied. Else the first of these that fails says why.
pub proof fn law_frames_are_unwound_where_they_can_be(
    frame: FrameModel,
    features: Features,
    regs: Registers,
    words: Words,
    cfa: usize,
    i: int,
)
    ensures
        frame.cfa(features, regs, words) matches Err(halt) ==> frame.unwound(features, regs, words)
            == Err::<Registers, Halt>(halt),
        frame.cfa(features, regs, words) == Ok::<usize, Halt>(cfa) && applicable_before(
            frame,
            features,
            frame.row.rules,
            cfa,
            regs,
            words,
            frame.row.rules.len() as int,
        ) ==> frame.unwound(features, regs, words) is Ok,
        frame.cfa(features, regs, words) == Ok::<usize, Halt>(cfa) && 0 <= i < frame.row.rules.len()
            && applicable_before(frame, features, frame.row.rules, cfa, regs, words, i)
            && !applicable_at(frame, features, frame.row.rules, cfa, regs, words, i)
            ==> frame.unwound(features, regs, words) == Err::<Registers, Halt>(
            match frame.rule_value(
                features,
                frame.row.rules[i].0,
                frame.row.rules[i].1,
                cfa,
                regs,
                words,
            ) {
                Err(halt) => halt,
                Ok(_) => Halt::Fault(Fault::UnknownRegister(frame.row.rules[i].0)),
            },
        ),
{
    if frame.cfa(features, regs, words) == Ok::<usize, Halt>(cfa) {
        let rules = frame.row.rules;
        let so_far = regs.insert(Arch::SP, cfa).insert(Arch::RA, 0);
        if applicable_before(frame, features, rules, cfa, regs, words, rules.len() as int) {
            lemma_applied_succeeds(frame, features, rules, cfa, regs, words, so_far);
        }
        if 0 <= i < rules.len() && applicable_before(
            frame,
            features,
            rules,
            cfa,
            regs,
            words,
            i,
        ) && !applicable_at(frame, features, rules, cfa, regs, words, i) {
            let halt = match frame.rule_value(
                features,
                rules[i].0,
                rules[i].1,
                cfa,
                regs,
                words,
            ) {
                Err(halt) => halt,
                Ok(_) => Halt::Fault(Fault::UnknownRegister(rules[i].0)),
            };
            lemma_applied_stops(
                frame,
                features,
                rules,
                cfa,
                regs,
                words,
                so_far,
                i,
                halt,
            );
        }
    }
}

/// A frame's personality routine and its language specific data are where the function's
/// description points to, directly or through a word of memory.
pub proof fn law_pointers_are_followed(frame: FrameModel, words: Words)
    ensures
        frame.found.fde.personality is None ==> frame.personality(words) == Ok::<
            Option<usize>,
            Halt,
        >(None),
        frame.found.fde.personality matches Some(Pointer::Direct(x)) ==> frame.personality(words)
            == Ok::<Option<usize>, Halt>(Some(x as usize)),
        frame.found.fde.personality matches Some(Pointer::Indirect(x)) ==> words.contains_key(
            x as usize,
        ) ==> frame.personality(words) == Ok::<Option<usize>, Halt>(Some(words[x as usize])),
        frame.found.fde.personality matches Some(Pointer::Indirect(x)) ==> !words.contains_key(
            x as usize,
        ) ==> frame.personality(words) == Err::<Option<usize>, Halt>(Halt::Missing(x as usize)),
        frame.found.fde.lsda is None ==> frame.lsda(words) == Ok::<usize, Halt>(0),
        frame.found.fde.lsda matches Some(Pointer::Direct(x)) ==> frame.lsda(words) == Ok::<
            usize,
            Halt,
        >(x as usize),
        frame.found.fde.lsda matches Some(Pointer::Indirect(x)) ==> words.contains_key(
            x as usize,
        ) ==> frame.lsda(words) == Ok::<usize, Halt>(words[x as usize]),
        frame.found.fde.lsda matches Some(Pointer::Indirect(x)) ==> !words.contains_key(
            x as usize,
        ) ==> frame.lsda(words) == Err::<usize, Halt>(Halt::Missing(x as usize)),
{
}

/// A frame's view shows all of it, and so does that of what was found.
pub proof fn law_frames_are_shown(frame: Frame, e: UnwindError)
    ensures
        frame@.found == frame.fde_result@,
        frame@.row.cfa == frame.row.cfa,
        frame@.row.rules == frame.row.rules@,
        frame@.row.saved_args_size == frame.row.saved_args_size,
        frame.fde_result@.fde == frame.fde_result.fde,
        frame.fde_result@.bases == frame.fde_result.bases,
        frame.fde_result@.section == frame.fde_result.eh_frame.section@,
        frame.fde_result@.order == frame.fde_result.eh_frame.order,
        found_view(Some(frame.fde_result)) == Some(frame.fde_result@),
        found_view(None) is None,
        frame_view(Ok(Some(frame))) == Ok::<Option<FrameModel>, UnwindError>(Some(frame@)),
        frame_view(Ok(None)) == Ok::<Option<FrameModel>, UnwindError>(None),
        frame_view(Err(e)) == Err::<Option<FrameModel>, UnwindError>(e),
        frame_model(Some(frame)) == Some(frame@),
        frame_model(None) is None,
{
}

/// There are storages for up to 4 rules, and for each power of two from there up to 128,
/// which is how many rules a row can hold.
pub proof fn law_storages(n: int)
    ensures
        is_supported(n) <==> n == 0 || n == 1 || n == 2 || n == 3 || n == 4 || n == 8 || n == 16 || n
            == 32 || n == 64 || n == 128,
        rules_capacity() == 128,
{
}

} // verus!
