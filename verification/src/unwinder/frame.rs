//! One frame of the stack: the function that it belongs to, and the rules that
//! recover the registers of its caller.

use vstd::prelude::*;
use vstd::slice::slice_subrange;
use crate::arch::{Arch, Register};
use crate::error::{Fault, Halt, UnwindError};
use crate::features::Features;
use crate::memory::{deref_pointer, target, word_at, Memory, Words};
use crate::reader::word_size;
use crate::unwinder::arch::aarch64::{is_register, Context, Registers, MAX_REG_RULES};
use crate::unwinder::expression::{evaluate_program, program_value};
use crate::unwinder::find_fde::{EhFrame, FDEFinder, FDESearchResult, Found, GlobalFinder};
use crate::unwinder::table::{
    row_cfa, row_for, row_registers, row_saved_args_size, unwind_info_for_address, BaseAddresses,
    CfaRule, Expression, RegisterRule, Row,
};

verus! {

/// Whether there is a storage for exactly `n` rules.
pub open spec fn is_supported(n: int) -> bool {
    0 <= n <= 4 || n == 8 || n == 16 || n == 32 || n == 64 || n == 128
}

/// The size of the smallest storage that holds `x` rules, or 192 where none of the
/// supported ones does.
pub fn next_value(x: usize) -> (r: usize)
    ensures
        x <= 128 ==> is_supported(r as int) && x <= r && forall|n: int|
            x <= n && #[trigger] is_supported(n) ==> r <= n,
        x > 128 ==> r == 192,
{
    let supported: [usize; 10] = [0, 1, 2, 3, 4, 8, 16, 32, 64, 128];
    let mut i: usize = 0;
    while i < 10
        invariant
            i <= 10,
            supported@ == seq![0usize, 1, 2, 3, 4, 8, 16, 32, 64, 128],
            i > 0 ==> supported@[i - 1] < x,
        decreases 10 - i,
    {
        if supported[i] >= x {
            return supported[i];
        }
        i = i + 1;
    }
    192
}

/// The rules for one range of addresses.
pub struct UnwindRow {
    /// How the canonical frame address is found.
    pub cfa: CfaRule,
    /// How the registers are found, in the order in which the rules are applied.
    pub rules: Vec<(Register, RegisterRule)>,
    /// How many bytes of arguments are on the stack.
    pub saved_args_size: u64,
}

impl View for UnwindRow {
    type V = Row;

    open spec fn view(&self) -> Row {
        Row { cfa: self.cfa, rules: self.rules@, saved_args_size: self.saved_args_size }
    }
}

/// One frame of the stack.
pub struct Frame<'a> {
    /// The function that it belongs to.
    pub fde_result: FDESearchResult<'a>,
    /// The rules that recover its caller's registers.
    pub row: UnwindRow,
}

/// One frame of the stack, by value.
#[verifier::ext_equal]
pub struct FrameModel {
    pub found: Found,
    pub row: Row,
}

impl<'a> View for Frame<'a> {
    type V = FrameModel;

    open spec fn view(&self) -> FrameModel {
        FrameModel { found: self.fde_result@, row: self.row@ }
    }
}

/// How many rules a row can hold.
pub open spec fn rules_capacity() -> nat {
    128
}

/// The address at which the frame with the registers `regs` is executing. Where a
/// signal has interrupted it that is the return address itself; else the return
/// address is behind the call, and the address below it is inside.
pub open spec fn frame_pc(regs: Registers, signal: bool) -> usize {
    if signal {
        regs[Arch::RA]
    } else {
        (regs[Arch::RA] - 1) as usize
    }
}

/// The frame with the registers `regs`, or nothing where the stack ends.
pub open spec fn frame_at(finder: GlobalFinder, regs: Registers, signal: bool) -> Result<
    Option<FrameModel>,
    UnwindError,
> {
    let pc = frame_pc(regs, signal);
    if regs[Arch::RA] == 0 {
        Ok(None)
    } else {
        match finder.finds(pc) {
            None => Ok(None),
            Some(found) => match row_for(
                found.section,
                found.order,
                word_size(),
                found.bases,
                pc as u64,
            ) {
                None => Err(UnwindError::Malformed),
                Some(row) => if row.rules.len() > rules_capacity() {
                    Err(UnwindError::TooManyRegisterRules)
                } else {
                    Ok(Some(FrameModel { found, row }))
                },
            },
        }
    }
}

/// The result of looking for a frame, by value.
pub open spec fn frame_view(r: Result<Option<Frame>, UnwindError>) -> Result<
    Option<FrameModel>,
    UnwindError,
> {
    match r {
        Ok(Some(frame)) => Ok(Some(frame@)),
        Ok(None) => Ok(None),
        Err(e) => Err(e),
    }
}

impl FrameModel {
    /// The address that an expression computes in this frame.
    pub open spec fn expression_value(
        self,
        features: Features,
        expression: Expression,
        regs: Registers,
        words: Words,
    ) -> Result<usize, Halt> {
        let end = expression.offset + expression.length;
        if !features.dwarf_expr {
            Err(Halt::Failed(UnwindError::UnsupportedEvaluation))
        } else if end > self.found.section.len() || self.found.fde.encoding.address_size > 8 {
            Err(Halt::Fault(Fault::OutOfBounds))
        } else {
            program_value(
                self.found.section.subrange(expression.offset as int, end),
                self.found.order,
                self.found.fde.encoding,
                regs,
                words,
            )
        }
    }

    /// The canonical frame address: the caller's stack pointer at the call.
    pub open spec fn cfa(self, features: Features, regs: Registers, words: Words) -> Result<
        usize,
        Halt,
    > {
        match self.row.cfa {
            CfaRule::RegisterAndOffset { register, offset } => match register_value(
                regs,
                register,
            ) {
                Ok(value) => Ok(value.wrapping_add(offset as usize)),
                Err(halt) => Err(halt),
            },
            CfaRule::Expression(expression) => self.expression_value(
                features,
                expression,
                regs,
                words,
            ),
        }
    }

    /// The value that `rule` gives to the register `reg` in the caller's frame.
    pub open spec fn rule_value(
        self,
        features: Features,
        reg: Register,
        rule: RegisterRule,
        cfa: usize,
        regs: Registers,
        words: Words,
    ) -> Result<usize, Halt> {
        match rule {
            RegisterRule::Undefined => Ok(0),
            RegisterRule::SameValue => register_value(regs, reg),
            RegisterRule::Offset(offset) => word_at(words, cfa.wrapping_add(offset as usize)),
            RegisterRule::ValOffset(offset) => Ok(cfa.wrapping_add(offset as usize)),
            RegisterRule::Register(other) => register_value(regs, other),
            RegisterRule::Expression(expression) => match self.expression_value(
                features,
                expression,
                regs,
                words,
            ) {
                Ok(address) => word_at(words, address),
                Err(halt) => Err(halt),
            },
            RegisterRule::ValExpression(expression) => self.expression_value(
                features,
                expression,
                regs,
                words,
            ),
            RegisterRule::Constant(value) => Ok(value as usize),
            RegisterRule::Architectural => Err(Halt::Fault(Fault::ArchitecturalRule)),
        }
    }

    /// The registers that come of `so_far` where `rules` are applied in their order.
    pub open spec fn applied(
        self,
        features: Features,
        rules: Seq<(Register, RegisterRule)>,
        cfa: usize,
        regs: Registers,
        words: Words,
        so_far: Registers,
    ) -> Result<Registers, Halt>
        decreases rules.len(),
    {
        if rules.len() == 0 {
            Ok(so_far)
        } else {
            let (reg, rule) = rules[0];
            match self.rule_value(features, reg, rule, cfa, regs, words) {
                Err(halt) => Err(halt),
                Ok(value) => if is_register(reg) {
                    self.applied(
                        features,
                        rules.drop_first(),
                        cfa,
                        regs,
                        words,
                        so_far.insert(reg, value),
                    )
                } else {
                    Err(Halt::Fault(Fault::UnknownRegister(reg)))
                },
            }
        }
    }

    /// The registers of the caller of this frame. Its stack pointer is the canonical
    /// frame address. Without a rule for it there is no return address, and the stack
    /// ends there.
    pub open spec fn unwound(self, features: Features, regs: Registers, words: Words) -> Result<
        Registers,
        Halt,
    > {
        match self.cfa(features, regs, words) {
            Err(halt) => Err(halt),
            Ok(cfa) => self.applied(
                features,
                self.row.rules,
                cfa,
                regs,
                words,
                regs.insert(Arch::SP, cfa).insert(Arch::RA, 0),
            ),
        }
    }
}

/// The value of a register.
pub open spec fn register_value(regs: Registers, reg: Register) -> Result<usize, Halt> {
    if is_register(reg) {
        Ok(regs[reg])
    } else {
        Err(Halt::Fault(Fault::UnknownRegister(reg)))
    }
}

/// The value of a register of `ctx`.
fn read_register(ctx: &Context, reg: Register) -> (r: Result<usize, Halt>)
    ensures
        r == register_value(ctx@, reg),
{
    if Context::has(reg) {
        Ok(*ctx.index(reg))
    } else {
        Err(Halt::Fault(Fault::UnknownRegister(reg)))
    }
}

impl<'a> Frame<'a> {
    /// The frame that `ctx` is in, or nothing where the stack ends.
    pub fn from_context(finder: &GlobalFinder<'a>, ctx: &Context, signal: bool) -> (r: Result<
        Option<Self>,
        UnwindError,
    >)
        ensures
            frame_view(r) == frame_at(*finder, ctx@, signal),
            r matches Ok(Some(frame)) ==> frame@.found.fde.covers(frame_pc(ctx@, signal) as u64),
            r matches Ok(Some(frame)) ==> row_for(
                frame@.found.section,
                frame@.found.order,
                word_size(),
                frame@.found.bases,
                (ctx@[30] - if signal {
                    0int
                } else {
                    1
                }) as u64,
            ) == Some(frame@.row),
    {
        let mut ra: usize = *ctx.index(Arch::RA);
        if ra == 0 {
            return Ok(None);
        }
        if !signal {
            ra = ra - 1;
        }
        let fde_result = match finder.find_fde(ra) {
            Some(v) => v,
            None => {
                return Ok(None);
            },
        };
        let table = fde_result.eh_frame;
        let BaseAddresses { section, text, data } = fde_result.bases;
        let row = match unwind_info_for_address(
            table.section,
            table.order,
            section,
            text,
            data,
            ra as u64,
        ) {
            Ok(row) => row,
            Err(_) => {
                return Err(UnwindError::Malformed);
            },
        };
        let rules = row_registers(&row);
        if rules.len() > next_value(MAX_REG_RULES) {
            return Err(UnwindError::TooManyRegisterRules);
        }
        let row = UnwindRow {
            cfa: row_cfa(&row),
            rules,
            saved_args_size: row_saved_args_size(&row),
        };
        Ok(Some(Frame { fde_result, row }))
    }

    /// The address that `expression` computes in this frame.
    fn evaluate_expression(
        &self,
        features: Features,
        ctx: &Context,
        expression: Expression,
        memory: &Memory,
    ) -> (r: Result<usize, Halt>)
        ensures
            r == self@.expression_value(features, expression, ctx@, memory@),
    {
        if !features.dwarf_expr {
            return Err(Halt::Failed(UnwindError::UnsupportedEvaluation));
        }
        let EhFrame { section, order } = self.fde_result.eh_frame;
        let encoding = self.fde_result.fde.encoding;
        let Expression { offset, length } = expression;
        if offset > section.len() || length > section.len() - offset || encoding.address_size > 8 {
            return Err(Halt::Fault(Fault::OutOfBounds));
        }
        let program = slice_subrange(section, offset, offset + length);
        evaluate_program(program, order, encoding, ctx, memory)
    }

    /// Pops the arguments of the call that this frame has made, whose return will
    /// never pop them.
    pub fn adjust_stack_for_args(&self, ctx: &mut Context)
        ensures
            final(ctx)@ == old(ctx)@.insert(
                Arch::SP,
                old(ctx)@[Arch::SP].wrapping_add(self@.row.saved_args_size as usize),
            ),
    {
        let size: u64 = self.row.saved_args_size;
        let sp: &mut usize = ctx.index_mut(Arch::SP);
        *sp = sp.wrapping_add(size as usize);
    }

    /// The value that `rule` gives to the register `reg` in the caller's frame.
    fn evaluate_rule(
        &self,
        features: Features,
        reg: Register,
        rule: RegisterRule,
        cfa: usize,
        ctx: &Context,
        memory: &Memory,
    ) -> (r: Result<usize, Halt>)
        ensures
            r == self@.rule_value(features, reg, rule, cfa, ctx@, memory@),
            match rule {
                RegisterRule::Undefined => r == Ok::<usize, Halt>(0),
                RegisterRule::SameValue => r is Ok ==> r->Ok_0 == ctx@[reg],
                RegisterRule::Offset(k) => r is Ok ==> r->Ok_0 == memory@[cfa.wrapping_add(
                    k as usize,
                )],
                RegisterRule::ValOffset(k) => r == Ok::<usize, Halt>(cfa.wrapping_add(k as usize)),
                RegisterRule::Register(other) => r is Ok ==> r->Ok_0 == ctx@[other],
                RegisterRule::Constant(value) => r == Ok::<usize, Halt>(value as usize),
                RegisterRule::Architectural => r is Err,
                _ => true,
            },
    {
        match rule {
            RegisterRule::Undefined => Ok(0),
            RegisterRule::SameValue => read_register(ctx, reg),
            RegisterRule::Offset(offset) => memory.read(cfa.wrapping_add(offset as usize)),
            RegisterRule::ValOffset(offset) => Ok(cfa.wrapping_add(offset as usize)),
            RegisterRule::Register(other) => read_register(ctx, other),
            RegisterRule::Expression(expression) => match self.evaluate_expression(
                features,
                ctx,
                expression,
                memory,
            ) {
                Ok(address) => memory.read(address),
                Err(halt) => Err(halt),
            },
            RegisterRule::ValExpression(expression) => self.evaluate_expression(
                features,
                ctx,
                expression,
                memory,
            ),
            RegisterRule::Constant(value) => Ok(value as usize),
            RegisterRule::Architectural => Err(Halt::Fault(Fault::ArchitecturalRule)),
        }
    }

    /// The registers of the caller of this frame, whose own are `ctx`.
    pub fn unwind(&self, features: Features, ctx: &Context, memory: &Memory) -> (r: Result<
        Context,
        Halt,
    >)
        ensures
            match r {
                Ok(caller) => self@.unwound(features, ctx@, memory@) == Ok::<Registers, Halt>(
                    caller@,
                ),
                Err(halt) => self@.unwound(features, ctx@, memory@) == Err::<Registers, Halt>(
                    halt,
                ),
            },
    {
        let mut new_ctx = *ctx;
        let cfa: usize = match self.row.cfa {
            CfaRule::RegisterAndOffset { register, offset } => match read_register(ctx, register) {
                Ok(value) => value.wrapping_add(offset as usize),
                Err(halt) => {
                    return Err(halt);
                },
            },
            CfaRule::Expression(expression) => match self.evaluate_expression(
                features,
                ctx,
                expression,
                memory,
            ) {
                Ok(value) => value,
                Err(halt) => {
                    return Err(halt);
                },
            },
        };
        *new_ctx.index_mut(Arch::SP) = cfa;
        *new_ctx.index_mut(Arch::RA) = 0;
        let rules = &self.row.rules;
        let mut i: usize = 0;
        assert(rules@.skip(0) == rules@);
        while i < rules.len()
            invariant
                i <= rules@.len(),
                rules@ == self@.row.rules,
                self@.unwound(features, ctx@, memory@) == self@.applied(
                    features,
                    rules@.skip(i as int),
                    cfa,
                    ctx@,
                    memory@,
                    new_ctx@,
                ),
            decreases rules@.len() - i,
        {
            let (reg, rule) = rules[i];
            assert(rules@.skip(i as int)[0] == rules@[i as int]);
            assert(rules@.skip(i as int).drop_first() == rules@.skip(i + 1));
            let value: usize = match self.evaluate_rule(features, reg, rule, cfa, ctx, memory) {
                Ok(value) => value,
                Err(halt) => {
                    return Err(halt);
                },
            };
            if !Context::has(reg) {
                return Err(Halt::Fault(Fault::UnknownRegister(reg)));
            }
            *new_ctx.index_mut(reg) = value;
            i = i + 1;
        }
        Ok(new_ctx)
    }

    /// What the pointers of this frame's description are relative to.
    pub fn bases(&self) -> (r: &BaseAddresses)
        ensures
            *r == self@.found.bases,
    {
        &self.fde_result.bases
    }

    /// The address of the routine that decides what is done in this frame.
    pub fn personality(&self, memory: &Memory) -> (r: Result<Option<usize>, Halt>)
        ensures
            r == self@.personality(memory@),
    {
        match self.fde_result.fde.personality {
            Some(pointer) => match deref_pointer(pointer, memory) {
                Ok(address) => Ok(Some(address)),
                Err(halt) => Err(halt),
            },
            None => Ok(None),
        }
    }

    /// The address of the data that the personality routine goes by, or 0 where
    /// there is none.
    pub fn lsda(&self, memory: &Memory) -> (r: Result<usize, Halt>)
        ensures
            r == self@.lsda(memory@),
    {
        match self.fde_result.fde.lsda {
            Some(pointer) => deref_pointer(pointer, memory),
            None => Ok(0),
        }
    }

    /// The first address of the function.
    pub fn initial_address(&self) -> (r: usize)
        ensures
            r == self@.found.fde.initial_address as usize,
    {
        self.fde_result.fde.initial_address as usize
    }

    /// Whether a signal has pushed this frame.
    pub fn is_signal_trampoline(&self) -> (r: bool)
        ensures
            r == self@.found.fde.signal_trampoline,
    {
        self.fde_result.fde.signal_trampoline
    }
}

impl FrameModel {
    /// The address of the routine that decides what is done in this frame.
    pub open spec fn personality(self, words: Words) -> Result<Option<usize>, Halt> {
        match self.found.fde.personality {
            Some(pointer) => match target(pointer, words) {
                Ok(address) => Ok(Some(address)),
                Err(halt) => Err(halt),
            },
            None => Ok(None),
        }
    }

    /// The address of the data that the personality routine goes by, or 0 where
    /// there is none.
    pub open spec fn lsda(self, words: Words) -> Result<usize, Halt> {
        match self.found.fde.lsda {
            Some(pointer) => target(pointer, words),
            None => Ok(0),
        }
    }
}

} // verus!
