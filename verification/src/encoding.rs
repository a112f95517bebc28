//! How the tables of the unwinder write down a pointer.

use vstd::prelude::*;

verus! {

/// An absolute address, as wide as the machine's addresses.
pub const DW_EH_PE_ABSPTR: u8 = 0x00;

/// An unsigned LEB128 number.
pub const DW_EH_PE_ULEB128: u8 = 0x01;

/// An unsigned number of 2 bytes.
pub const DW_EH_PE_UDATA2: u8 = 0x02;

/// An unsigned number of 4 bytes.
pub const DW_EH_PE_UDATA4: u8 = 0x03;

/// An unsigned number of 8 bytes.
pub const DW_EH_PE_UDATA8: u8 = 0x04;

/// A signed LEB128 number.
pub const DW_EH_PE_SLEB128: u8 = 0x09;

/// A signed number of 2 bytes.
pub const DW_EH_PE_SDATA2: u8 = 0x0a;

/// A signed number of 4 bytes.
pub const DW_EH_PE_SDATA4: u8 = 0x0b;

/// A signed number of 8 bytes.
pub const DW_EH_PE_SDATA8: u8 = 0x0c;

/// Relative to the place of the number itself.
pub const DW_EH_PE_PCREL: u8 = 0x10;

/// Relative to the text section.
pub const DW_EH_PE_TEXTREL: u8 = 0x20;

/// Relative to the data section.
pub const DW_EH_PE_DATAREL: u8 = 0x30;

/// Relative to the start of the function.
pub const DW_EH_PE_FUNCREL: u8 = 0x40;

/// An absolute address at the next place where an address may stand.
pub const DW_EH_PE_ALIGNED: u8 = 0x50;

/// There is no pointer.
pub const DW_EH_PE_OMIT: u8 = 0xff;

/// An address, or the address of the word that holds it.
#[derive(Clone, Copy, PartialEq, Eq, Structural, Debug)]
pub enum Pointer {
    /// The address itself.
    Direct(u64),
    /// The address of the word that holds it.
    Indirect(u64),
}

/// The byte that says how a pointer is written down.
#[derive(Clone, Copy, PartialEq, Eq, Structural, Debug)]
pub struct PointerEncoding(pub u8);

impl PointerEncoding {
    /// How the number is written.
    pub open spec fn format(self) -> u8 {
        self.0 & 0x0f
    }

    /// What the number is relative to.
    pub open spec fn application(self) -> u8 {
        self.0 & 0x70
    }

    /// Whether the number is the address of the word that holds the pointer.
    pub open spec fn indirect(self) -> bool {
        self.0 & 0x80 != 0
    }

    /// Whether there is no pointer.
    pub open spec fn absent(self) -> bool {
        self.0 == DW_EH_PE_OMIT
    }

    /// Whether the byte is an encoding at all.
    pub open spec fn valid(self) -> bool {
        self.absent() || (is_format(self.format()) && is_application(self.application()))
    }
}

/// Whether `f` is a way to write a number.
pub open spec fn is_format(f: u8) -> bool {
    f <= DW_EH_PE_UDATA8 || DW_EH_PE_SLEB128 <= f <= DW_EH_PE_SDATA8
}

/// Whether `a` is something that a number can be relative to.
pub open spec fn is_application(a: u8) -> bool {
    a == DW_EH_PE_ABSPTR || a == DW_EH_PE_PCREL || a == DW_EH_PE_TEXTREL || a == DW_EH_PE_DATAREL
        || a == DW_EH_PE_FUNCREL || a == DW_EH_PE_ALIGNED
}

/// `gimli::DwEhPe::format`: the low four bits.
#[verifier::external_body]
pub(crate) fn encoding_format(encoding: PointerEncoding) -> (r: u8)
    ensures
        r == encoding.format(),
{
    gimli::DwEhPe(encoding.0).format().0
}

/// `gimli::DwEhPe::application`: the three bits above them.
#[verifier::external_body]
pub(crate) fn encoding_application(encoding: PointerEncoding) -> (r: u8)
    ensures
        r == encoding.application(),
{
    gimli::DwEhPe(encoding.0).application().0
}

/// `gimli::DwEhPe::is_indirect`: whether the highest bit is set.
#[verifier::external_body]
pub(crate) fn encoding_is_indirect(encoding: PointerEncoding) -> (r: bool)
    ensures
        r == encoding.indirect(),
{
    gimli::DwEhPe(encoding.0).is_indirect()
}

/// `gimli::DwEhPe::is_absent`: whether all bits are set.
#[verifier::external_body]
pub(crate) fn encoding_is_absent(encoding: PointerEncoding) -> (r: bool)
    ensures
        r == encoding.absent(),
{
    gimli::DwEhPe(encoding.0).is_absent()
}

/// `gimli::DwEhPe::is_valid_encoding`: whether the byte is the absent encoding, or
/// its format and its application are both among those that are defined.
#[verifier::external_body]
pub(crate) fn encoding_is_valid(encoding: PointerEncoding) -> (r: bool)
    ensures
        r == encoding.valid(),
{
    gimli::DwEhPe(encoding.0).is_valid_encoding()
}

} // verus!
