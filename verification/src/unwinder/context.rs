//! What callbacks see of the frame that they are called for.

use vstd::prelude::*;
use crate::abi::c_int;
use crate::arch::{Arch, Register};
use crate::error::Halt;
use crate::memory::{Memory, Words};
use crate::unwinder::arch::aarch64::{is_register, Context, Registers};
use crate::unwinder::find_fde::{FDEFinder, Found, GlobalFinder};
use crate::unwinder::frame::{Frame, FrameModel};

verus! {

/// A frame of the stack and its registers.
pub struct UnwindContext<'a> {
    /// The frame, or nothing where the stack has ended.
    pub frame: Option<Frame<'a>>,
    /// The registers of the frame.
    pub ctx: Context,
    /// Whether a signal has interrupted the frame.
    pub signal: bool,
}

/// A frame of the stack and its registers, by value.
#[verifier::ext_equal]
pub struct Cursor {
    pub frame: Option<FrameModel>,
    pub regs: Registers,
    pub signal: bool,
}

/// A frame, by value.
pub open spec fn frame_model(frame: Option<Frame>) -> Option<FrameModel> {
    match frame {
        Some(frame) => Some(frame@),
        None => None,
    }
}

impl<'a> View for UnwindContext<'a> {
    type V = Cursor;

    open spec fn view(&self) -> Cursor {
        Cursor { frame: frame_model(self.frame), regs: self.ctx@, signal: self.signal }
    }
}

impl Cursor {
    /// With `value` in the register `reg`.
    pub open spec fn with(self, reg: Register, value: usize) -> Cursor {
        Cursor { regs: self.regs.insert(reg, value), ..self }
    }

    /// The address of the language specific data, or 0 where there is none.
    pub open spec fn lsda(self, words: Words) -> Result<usize, Halt> {
        match self.frame {
            Some(frame) => frame.lsda(words),
            None => Ok(0),
        }
    }

    /// The first address of the function, or 0 where there is no frame.
    pub open spec fn region_start(self) -> usize {
        match self.frame {
            Some(frame) => frame.found.fde.initial_address as usize,
            None => 0,
        }
    }

    /// The base of pointers into the text section, or 0 where there is none.
    pub open spec fn text_base(self) -> usize {
        match self.frame {
            Some(frame) => match frame.found.bases.text {
                Some(base) => base as usize,
                None => 0,
            },
            None => 0,
        }
    }

    /// The base of pointers into the data section, or 0 where there is none.
    pub open spec fn data_base(self) -> usize {
        match self.frame {
            Some(frame) => match frame.found.bases.data {
                Some(base) => base as usize,
                None => 0,
            },
            None => 0,
        }
    }
}

/// The value of the register with the number `index`.
#[allow(non_snake_case)]
pub fn _Unwind_GetGR(unwind_ctx: &UnwindContext<'_>, index: c_int) -> (r: usize)
    requires
        is_register(index as u16),
    ensures
        r == unwind_ctx@.regs[index as u16],
{
    *unwind_ctx.ctx.index(index as u16)
}

/// The canonical frame address: the stack pointer of the frame.
#[allow(non_snake_case)]
pub fn _Unwind_GetCFA(unwind_ctx: &UnwindContext<'_>) -> (r: usize)
    ensures
        r == unwind_ctx@.regs[Arch::SP],
{
    *unwind_ctx.ctx.index(Arch::SP)
}

/// Puts `value` into the register with the number `index`.
#[allow(non_snake_case)]
pub fn _Unwind_SetGR(unwind_ctx: &mut UnwindContext<'_>, index: c_int, value: usize)
    requires
        is_register(index as u16),
    ensures
        final(unwind_ctx)@ == old(unwind_ctx)@.with(index as u16, value),
{
    *unwind_ctx.ctx.index_mut(index as u16) = value;
}

/// The address at which the frame goes on.
#[allow(non_snake_case)]
pub fn _Unwind_GetIP(unwind_ctx: &UnwindContext<'_>) -> (r: usize)
    ensures
        r == unwind_ctx@.regs[Arch::RA],
{
    *unwind_ctx.ctx.index(Arch::RA)
}

/// The address at which the frame goes on. `ip_before_insn` becomes 1 where that is
/// the address of an instruction that a signal has interrupted, and 0 where it is
/// the address behind a call.
#[allow(non_snake_case)]
pub fn _Unwind_GetIPInfo(unwind_ctx: &UnwindContext<'_>, ip_before_insn: &mut c_int) -> (r: usize)
    ensures
        r == unwind_ctx@.regs[Arch::RA],
        *final(ip_before_insn) == (if unwind_ctx@.signal { 1int } else { 0 }),
{
    *ip_before_insn = if unwind_ctx.signal { 1 } else { 0 };
    *unwind_ctx.ctx.index(Arch::RA)
}

/// Lets the frame go on at `value`.
#[allow(non_snake_case)]
pub fn _Unwind_SetIP(unwind_ctx: &mut UnwindContext<'_>, value: usize)
    ensures
        final(unwind_ctx)@ == old(unwind_ctx)@.with(Arch::RA, value),
{
    *unwind_ctx.ctx.index_mut(Arch::RA) = value;
}

/// The address of the language specific data, or 0 where there is none.
#[allow(non_snake_case)]
pub fn _Unwind_GetLanguageSpecificData(unwind_ctx: &UnwindContext<'_>, memory: &Memory) -> (r:
    Result<usize, Halt>)
    ensures
        r == unwind_ctx@.lsda(memory@),
{
    match &unwind_ctx.frame {
        Some(frame) => frame.lsda(memory),
        None => Ok(0),
    }
}

/// The first address of the function, or 0 where there is no frame.
#[allow(non_snake_case)]
pub fn _Unwind_GetRegionStart(unwind_ctx: &UnwindContext<'_>) -> (r: usize)
    ensures
        r == unwind_ctx@.region_start(),
{
    match &unwind_ctx.frame {
        Some(frame) => frame.initial_address(),
        None => 0,
    }
}

/// The base of pointers into the text section, or 0 where there is none.
#[allow(non_snake_case)]
pub fn _Unwind_GetTextRelBase(unwind_ctx: &UnwindContext<'_>) -> (r: usize)
    ensures
        r == unwind_ctx@.text_base(),
{
    match &unwind_ctx.frame {
        Some(frame) => match frame.bases().text {
            Some(base) => base as usize,
            None => 0,
        },
        None => 0,
    }
}

/// The base of pointers into the data section, or 0 where there is none.
#[allow(non_snake_case)]
pub fn _Unwind_GetDataRelBase(unwind_ctx: &UnwindContext<'_>) -> (r: usize)
    ensures
        r == unwind_ctx@.data_base(),
{
    match &unwind_ctx.frame {
        Some(frame) => match frame.bases().data {
            Some(base) => base as usize,
            None => 0,
        },
        None => 0,
    }
}

/// The first address of a function that was found, or 0.
pub open spec fn function_start(found: Option<Found>) -> usize {
    match found {
        Some(found) => found.fde.initial_address as usize,
        None => 0,
    }
}

/// The first address of the function that contains `pc`, or 0 where no function does.
#[allow(non_snake_case)]
pub fn _Unwind_FindEnclosingFunction(finder: &GlobalFinder<'_>, pc: usize) -> (r: usize)
    ensures
        r == function_start(finder.finds(pc)),
        r <= pc,
{
    match finder.find_fde(pc) {
        Some(result) => result.fde.initial_address as usize,
        None => 0,
    }
}

/// A register that was set has the value it was set to, and every other register, the
/// frame and whether a signal interrupted it stay as they were.
pub proof fn law_registers_hold_what_was_set(
    cursor: Cursor,
    reg: Register,
    other: Register,
    value: usize,
)
    ensures
        cursor.with(reg, value).regs[reg] == value,
        other != reg ==> cursor.with(reg, value).regs[other] == cursor.regs[other],
        cursor.with(reg, value).frame == cursor.frame,
        cursor.with(reg, value).signal == cursor.signal,
{
}

/// What callbacks learn of a frame is what its function's description says: where the
/// function starts, and what pointers are relative to. Without a frame, or without such a
/// base, it is 0.
pub proof fn law_frames_are_described(cursor: Cursor, frame: FrameModel, words: Words)
    ensures
        cursor.frame is None ==> cursor.region_start() == 0 && cursor.text_base() == 0
            && cursor.data_base() == 0 && cursor.lsda(words) == Ok::<usize, Halt>(0),
        cursor.frame == Some(frame) ==> {
            &&& cursor.region_start() == frame.found.fde.initial_address as usize
            &&& frame.found.bases.text matches Some(base) ==> cursor.text_base() == base as usize
            &&& frame.found.bases.text is None ==> cursor.text_base() == 0
            &&& frame.found.bases.data matches Some(base) ==> cursor.data_base() == base as usize
            &&& frame.found.bases.data is None ==> cursor.data_base() == 0
            &&& cursor.lsda(words) == frame.lsda(words)
        },
{
}

/// The function that encloses an address is the one that is found for that very address,
/// by where it starts; where none is found there is none.
pub proof fn law_enclosing_function_is_the_found_one(found: Found)
    ensures
        function_start(Some(found)) == found.fde.initial_address as usize,
        function_start(None) == 0,
{
}

} // verus!
