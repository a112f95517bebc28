//! The frame table of an image, `.eh_frame`: for each address the function that
//! covers it, and the row of rules that recover the registers of its caller.

use gimli::Pointer::{Direct, Indirect};
use gimli::RunTimeEndian::{Big, Little};
use gimli::UnwindSection as _;
use gimli::{
    BaseAddresses as GimliBases, CfaRule as GimliCfa, EhFrame as GimliFrames, Format,
    RegisterRule as GimliRule, SectionBaseAddresses, UnwindExpression,
};
use vstd::prelude::*;
use crate::arch::Register;
use crate::encoding::Pointer;
use crate::reader::{word_size, ByteOrder};

verus! {

/// The addresses that pointers in the frame table can be relative to.
#[derive(Clone, Copy, PartialEq, Eq, Structural, Debug)]
pub struct BaseAddresses {
    /// Where the frame table stands.
    pub section: Option<u64>,
    /// The text section.
    pub text: Option<u64>,
    /// The data section.
    pub data: Option<u64>,
}

/// How the expressions of a function are written down.
#[derive(Clone, Copy, PartialEq, Eq, Structural, Debug)]
pub struct Encoding {
    /// Whether offsets take 8 bytes, in place of 4.
    pub dwarf64: bool,
    /// The version of DWARF.
    pub version: u16,
    /// How many bytes an address takes.
    pub address_size: u8,
}

/// What the frame table says of one function.
#[derive(Clone, Copy, PartialEq, Eq, Structural, Debug)]
pub struct FrameDescription {
    /// The first address that it covers.
    pub initial_address: u64,
    /// The address behind the last one that it covers.
    pub end_address: u64,
    /// Its personality routine.
    pub personality: Option<Pointer>,
    /// Its language specific data area.
    pub lsda: Option<Pointer>,
    /// Whether it is a frame that a signal has pushed.
    pub signal_trampoline: bool,
    /// How its expressions are written down.
    pub encoding: Encoding,
}

impl FrameDescription {
    /// Whether the function covers `pc`.
    pub open spec fn covers(self, pc: u64) -> bool {
        self.initial_address <= pc < self.end_address
    }
}

/// The place of a DWARF expression in the frame table.
#[derive(Clone, Copy, PartialEq, Eq, Structural, Debug)]
pub struct Expression {
    pub offset: usize,
    pub length: usize,
}

/// How the canonical frame address is found.
#[derive(Clone, Copy, PartialEq, Eq, Structural, Debug)]
pub enum CfaRule {
    /// A register's value and an offset from it.
    RegisterAndOffset { register: Register, offset: i64 },
    /// The value of an expression.
    Expression(Expression),
}

/// How a register's value in the caller's frame is found.
#[derive(Clone, Copy, PartialEq, Eq, Structural, Debug)]
pub enum RegisterRule {
    /// It is lost.
    Undefined,
    /// It is the value in this frame.
    SameValue,
    /// It is saved that far from the canonical frame address.
    Offset(i64),
    /// It is the address that far from the canonical frame address.
    ValOffset(i64),
    /// It is another register's value in this frame.
    Register(Register),
    /// It is saved at the address that an expression gives.
    Expression(Expression),
    /// It is what an expression gives.
    ValExpression(Expression),
    /// It is this number.
    Constant(u64),
    /// The architecture defines it.
    Architectural,
}

/// The rules for one range of addresses.
#[verifier::ext_equal]
pub struct Row {
    /// How the canonical frame address is found.
    pub cfa: CfaRule,
    /// How the registers are found, in the order in which the rules are applied.
    pub rules: Seq<(Register, RegisterRule)>,
    /// How many bytes of arguments are on the stack.
    pub saved_args_size: u64,
}

/// What `gimli::UnwindSection::fde_for_address` finds in the frame table `section`, whose
/// addresses take `word` bytes. How the bytes of the table say so is left to `gimli`.
pub uninterp spec fn fde_for(
    section: Seq<u8>,
    order: ByteOrder,
    word: nat,
    bases: BaseAddresses,
    pc: u64,
) -> Option<FrameDescription>;

/// What `gimli::UnwindSection::unwind_info_for_address` finds in the frame table
/// `section`, whose addresses take `word` bytes. How the bytes of the table say so is
/// left to `gimli`.
pub uninterp spec fn row_for(
    section: Seq<u8>,
    order: ByteOrder,
    word: nat,
    bases: BaseAddresses,
    pc: u64,
) -> Option<Row>;

/// What a row holds.
pub uninterp spec fn row_contents(row: TableRow) -> Row;

/// A `gimli::UnwindTableRow`, which holds register rules. It is wrapped, since the
/// parameters of the type itself are bounded by traits that the verifier does not know;
/// for the same reason its storage is the one on the heap that `gimli` brings along. That
/// has room for 4 rows and 192 rules in each while the instructions of a function run.
#[verifier::external_body]
pub struct TableRow {
    row: gimli::UnwindTableRow<usize>,
}

/// `gimli::UnwindSection::fde_for_address` on a `.eh_frame` section: the function
/// that covers `pc`, or an error where no function does or the section cannot be
/// read. Which one it is depends on the arguments alone, and on how many bytes an
/// address of the machine takes. The function covers `pc`.
#[verifier::external_body]
pub(crate) fn fde_for_address(
    table: &[u8],
    order: ByteOrder,
    section: Option<u64>,
    text: Option<u64>,
    data: Option<u64>,
    pc: u64,
) -> (r: Result<FrameDescription, gimli::Error>)
    ensures
        match r {
            Ok(fde) => fde_for(
                table@,
                order,
                word_size(),
                (BaseAddresses { section, text, data }),
                pc,
            ) == Some(fde) && fde.covers(pc),
            Err(_) => fde_for(
                table@,
                order,
                word_size(),
                (BaseAddresses { section, text, data }),
                pc,
            ) is None,
        },
{
    let bases = GimliBases { eh_frame: SectionBaseAddresses { section, text, data }, ..Default::default() };
    let endian = match order { ByteOrder::Little => Little, ByteOrder::Big => Big };
    let fde = GimliFrames::new(table, endian).fde_for_address(&bases, pc, GimliFrames::cie_from_offset)?;
    let pointer = |p| match p { Direct(x) => Pointer::Direct(x), Indirect(x) => Pointer::Indirect(x) };
    let e = fde.cie().encoding();
    Ok(FrameDescription {
        initial_address: fde.initial_address(),
        end_address: fde.end_address(),
        personality: fde.personality().map(pointer),
        lsda: fde.lsda().map(pointer),
        signal_trampoline: fde.is_signal_trampoline(),
        encoding: Encoding { dwarf64: e.format == Format::Dwarf64, version: e.version, address_size: e.address_size },
    })
}

/// `gimli::UnwindSection::unwind_info_for_address` on a `.eh_frame` section: the row
/// for `pc` in the function that covers it, or an error where there is none or the
/// section cannot be read. Which one it is depends on the arguments alone, and on how
/// many bytes an address of the machine takes.
#[verifier::external_body]
pub(crate) fn unwind_info_for_address(
    table: &[u8],
    order: ByteOrder,
    section: Option<u64>,
    text: Option<u64>,
    data: Option<u64>,
    pc: u64,
) -> (r: Result<TableRow, gimli::Error>)
    ensures
        match r {
            Ok(row) => row_for(
                table@,
                order,
                word_size(),
                (BaseAddresses { section, text, data }),
                pc,
            ) == Some(row_contents(row)),
            Err(_) => row_for(
                table@,
                order,
                word_size(),
                (BaseAddresses { section, text, data }),
                pc,
            ) is None,
        },
{
    let endian = match order {
        ByteOrder::Little => Little,
        ByteOrder::Big => Big,
    };
    let bases = GimliBases { eh_frame: SectionBaseAddresses { section, text, data }, ..Default::default() };
    let mut ctx = gimli::UnwindContext::new();
    let frames = GimliFrames::new(table, endian);
    let row = frames.unwind_info_for_address(&bases, &mut ctx, pc, GimliFrames::cie_from_offset)?;
    Ok(TableRow { row: row.clone() })
}

/// `gimli::UnwindTableRow::cfa`: how the row finds the canonical frame address.
#[verifier::external_body]
pub(crate) fn row_cfa(row: &TableRow) -> (r: CfaRule)
    ensures
        r == row_contents(*row).cfa,
{
    match row.row.cfa() {
        GimliCfa::RegisterAndOffset { register, offset } => {
            CfaRule::RegisterAndOffset { register: register.0, offset: *offset }
        },
        GimliCfa::Expression(e) => {
            CfaRule::Expression(Expression { offset: e.offset, length: e.length })
        },
    }
}

/// `gimli::UnwindTableRow::registers`: the row's register rules, in their order.
#[verifier::external_body]
pub(crate) fn row_registers(row: &TableRow) -> (r: Vec<(Register, RegisterRule)>)
    ensures
        r@ == row_contents(*row).rules,
{
    let place = |e: UnwindExpression<usize>| Expression { offset: e.offset, length: e.length };
    let rule = |rule: &GimliRule<usize>| match *rule {
        GimliRule::Undefined => RegisterRule::Undefined,
        GimliRule::SameValue => RegisterRule::SameValue,
        GimliRule::Offset(n) => RegisterRule::Offset(n),
        GimliRule::ValOffset(n) => RegisterRule::ValOffset(n),
        GimliRule::Register(r) => RegisterRule::Register(r.0),
        GimliRule::Expression(e) => RegisterRule::Expression(place(e)),
        GimliRule::ValExpression(e) => RegisterRule::ValExpression(place(e)),
        GimliRule::Constant(n) => RegisterRule::Constant(n),
        _ => RegisterRule::Architectural,
    };
    row.row.registers().map(|(r, how)| (r.0, rule(how))).collect()
}

/// `gimli::UnwindTableRow::saved_args_size`: how many bytes of arguments are on the
/// stack where the row holds.
#[verifier::external_body]
pub(crate) fn row_saved_args_size(row: &TableRow) -> (r: u64)
    ensures
        r == row_contents(*row).saved_args_size,
{
    row.row.saved_args_size()
}

} // verus!
