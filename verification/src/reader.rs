//! Reading numbers from the tables of the unwinder.

use gimli::Reader as _;
use vstd::prelude::*;
use vstd::slice::slice_subrange;
use crate::encoding::{
    is_format, DW_EH_PE_ABSPTR, DW_EH_PE_SDATA2, DW_EH_PE_SDATA4, DW_EH_PE_SLEB128,
    DW_EH_PE_UDATA2, DW_EH_PE_UDATA4, DW_EH_PE_UDATA8, DW_EH_PE_ULEB128,
};
use crate::error::UnwindError;

verus! {

/// The order in which a number's bytes stand.
#[derive(Clone, Copy, PartialEq, Eq, Structural, Debug)]
pub enum ByteOrder {
    /// The least significant byte comes first.
    Little,
    /// The most significant byte comes first.
    Big,
}

/// The number that `bytes` stand for, the least significant byte first.
pub open spec fn little_endian(bytes: Seq<u8>) -> nat
    decreases bytes.len(),
{
    if bytes.len() == 0 {
        0
    } else {
        bytes[0] as nat + 256 * little_endian(bytes.drop_first())
    }
}

/// The unsigned number that `bytes` stand for.
pub open spec fn unsigned(bytes: Seq<u8>, order: ByteOrder) -> nat {
    match order {
        ByteOrder::Little => little_endian(bytes),
        ByteOrder::Big => little_endian(bytes.reverse()),
    }
}

/// The number in two's complement that the unsigned number `n` stands for,
/// where `half` is the first number that stands for a negative one.
pub open spec fn signed(n: nat, half: nat) -> int {
    if n < half {
        n as int
    } else {
        n - 2 * half
    }
}

/// The unsigned LEB128 number that starts in `bytes`, and how many bytes it
/// takes. `place` bytes of it came before; the tenth byte can only be 0 or 1.
pub open spec fn uleb128(bytes: Seq<u8>, place: nat) -> Option<(nat, nat)>
    decreases bytes.len(),
{
    if bytes.len() == 0 || (place == 9 && bytes[0] > 1) {
        None
    } else if bytes[0] < 128 {
        Some((bytes[0] as nat, 1))
    } else {
        match uleb128(bytes.drop_first(), place + 1) {
            Some((rest, len)) => Some(((bytes[0] - 128) as nat + 128 * rest, len + 1)),
            None => None,
        }
    }
}

/// The signed LEB128 number that starts in `bytes`, and how many bytes it
/// takes. `place` bytes of it came before; the tenth byte can only be 0 or 127.
/// The number's sign is bit 6 of its last byte.
pub open spec fn sleb128(bytes: Seq<u8>, place: nat) -> Option<(int, nat)>
    decreases bytes.len(),
{
    if bytes.len() == 0 || (place == 9 && bytes[0] != 0 && bytes[0] != 127) {
        None
    } else if bytes[0] < 64 {
        Some((bytes[0] as int, 1))
    } else if bytes[0] < 128 {
        Some((bytes[0] - 128, 1))
    } else {
        match sleb128(bytes.drop_first(), place + 1) {
            Some((rest, len)) => Some((bytes[0] - 128 + 128 * rest, len + 1)),
            None => None,
        }
    }
}

/// `gimli::Reader::read_u8`: the first byte and the bytes behind it, or an error
/// where there is no byte.
#[verifier::external_body]
fn read_u8<'a>(bytes: &'a [u8]) -> (r: Result<(u8, &'a [u8]), gimli::Error>)
    ensures
        match r {
            Ok((v, rest)) => bytes@.len() >= 1 && v == bytes@[0] && rest@ == bytes@.skip(1),
            Err(_) => bytes@.len() < 1,
        },
{
    let mut input = gimli::EndianSlice::new(bytes, gimli::LittleEndian);
    let v = input.read_u8()?;
    Ok((v, input.slice()))
}

/// `gimli::Reader::read_u16`: the unsigned number in the first 2 bytes and the
/// bytes behind it, or an error where there are fewer bytes.
#[verifier::external_body]
fn read_u16<'a>(bytes: &'a [u8], order: ByteOrder) -> (r: Result<(u16, &'a [u8]), gimli::Error>)
    ensures
        match r {
            Ok((v, rest)) => bytes@.len() >= 2 && v as nat == unsigned(bytes@.take(2), order)
                && rest@ == bytes@.skip(2),
            Err(_) => bytes@.len() < 2,
        },
{
    let endian = match order {
        ByteOrder::Little => gimli::RunTimeEndian::Little,
        ByteOrder::Big => gimli::RunTimeEndian::Big,
    };
    let mut input = gimli::EndianSlice::new(bytes, endian);
    let v = input.read_u16()?;
    Ok((v, input.slice()))
}

/// `gimli::Reader::read_u32`: the unsigned number in the first 4 bytes and the
/// bytes behind it, or an error where there are fewer bytes.
#[verifier::external_body]
fn read_u32<'a>(bytes: &'a [u8], order: ByteOrder) -> (r: Result<(u32, &'a [u8]), gimli::Error>)
    ensures
        match r {
            Ok((v, rest)) => bytes@.len() >= 4 && v as nat == unsigned(bytes@.take(4), order)
                && rest@ == bytes@.skip(4),
            Err(_) => bytes@.len() < 4,
        },
{
    let endian = match order {
        ByteOrder::Little => gimli::RunTimeEndian::Little,
        ByteOrder::Big => gimli::RunTimeEndian::Big,
    };
    let mut input = gimli::EndianSlice::new(bytes, endian);
    let v = input.read_u32()?;
    Ok((v, input.slice()))
}

/// `gimli::Reader::read_u64`: the unsigned number in the first 8 bytes and the
/// bytes behind it, or an error where there are fewer bytes.
#[verifier::external_body]
fn read_u64<'a>(bytes: &'a [u8], order: ByteOrder) -> (r: Result<(u64, &'a [u8]), gimli::Error>)
    ensures
        match r {
            Ok((v, rest)) => bytes@.len() >= 8 && v as nat == unsigned(bytes@.take(8), order)
                && rest@ == bytes@.skip(8),
            Err(_) => bytes@.len() < 8,
        },
{
    let endian = match order {
        ByteOrder::Little => gimli::RunTimeEndian::Little,
        ByteOrder::Big => gimli::RunTimeEndian::Big,
    };
    let mut input = gimli::EndianSlice::new(bytes, endian);
    let v = input.read_u64()?;
    Ok((v, input.slice()))
}

/// `gimli::Reader::read_i16`: the number in two's complement in the first 2 bytes
/// and the bytes behind it, or an error where there are fewer bytes.
#[verifier::external_body]
fn read_i16<'a>(bytes: &'a [u8], order: ByteOrder) -> (r: Result<(i16, &'a [u8]), gimli::Error>)
    ensures
        match r {
            Ok((v, rest)) => bytes@.len() >= 2 && v as int == signed(
                unsigned(bytes@.take(2), order),
                0x8000,
            ) && rest@ == bytes@.skip(2),
            Err(_) => bytes@.len() < 2,
        },
{
    let endian = match order {
        ByteOrder::Little => gimli::RunTimeEndian::Little,
        ByteOrder::Big => gimli::RunTimeEndian::Big,
    };
    let mut input = gimli::EndianSlice::new(bytes, endian);
    let v = input.read_i16()?;
    Ok((v, input.slice()))
}

/// `gimli::Reader::read_i32`: the number in two's complement in the first 4 bytes
/// and the bytes behind it, or an error where there are fewer bytes.
#[verifier::external_body]
fn read_i32<'a>(bytes: &'a [u8], order: ByteOrder) -> (r: Result<(i32, &'a [u8]), gimli::Error>)
    ensures
        match r {
            Ok((v, rest)) => bytes@.len() >= 4 && v as int == signed(
                unsigned(bytes@.take(4), order),
                0x8000_0000,
            ) && rest@ == bytes@.skip(4),
            Err(_) => bytes@.len() < 4,
        },
{
    let endian = match order {
        ByteOrder::Little => gimli::RunTimeEndian::Little,
        ByteOrder::Big => gimli::RunTimeEndian::Big,
    };
    let mut input = gimli::EndianSlice::new(bytes, endian);
    let v = input.read_i32()?;
    Ok((v, input.slice()))
}

/// `gimli::Reader::read_i64`: the number in two's complement in the first 8 bytes
/// and the bytes behind it, or an error where there are fewer bytes.
#[verifier::external_body]
fn read_i64<'a>(bytes: &'a [u8], order: ByteOrder) -> (r: Result<(i64, &'a [u8]), gimli::Error>)
    ensures
        match r {
            Ok((v, rest)) => bytes@.len() >= 8 && v as int == signed(
                unsigned(bytes@.take(8), order),
                0x8000_0000_0000_0000,
            ) && rest@ == bytes@.skip(8),
            Err(_) => bytes@.len() < 8,
        },
{
    let endian = match order {
        ByteOrder::Little => gimli::RunTimeEndian::Little,
        ByteOrder::Big => gimli::RunTimeEndian::Big,
    };
    let mut input = gimli::EndianSlice::new(bytes, endian);
    let v = input.read_i64()?;
    Ok((v, input.slice()))
}

/// `gimli::Reader::read_address`: the unsigned number in the first `size` bytes and
/// the bytes behind it, or an error where there are fewer bytes.
#[verifier::external_body]
fn read_address<'a>(bytes: &'a [u8], order: ByteOrder, size: u8) -> (r: Result<
    (u64, &'a [u8]),
    gimli::Error,
>)
    requires
        size == 4 || size == 8,
    ensures
        match r {
            Ok((v, rest)) => bytes@.len() >= size && v as nat == unsigned(
                bytes@.take(size as int),
                order,
            ) && rest@ == bytes@.skip(size as int),
            Err(_) => bytes@.len() < size,
        },
{
    let endian = match order {
        ByteOrder::Little => gimli::RunTimeEndian::Little,
        ByteOrder::Big => gimli::RunTimeEndian::Big,
    };
    let mut input = gimli::EndianSlice::new(bytes, endian);
    let v = input.read_address(size)?;
    Ok((v, input.slice()))
}

/// `gimli::Reader::read_uleb128`: the unsigned LEB128 number at the start and the
/// bytes behind it, or an error where there is no such number.
#[verifier::external_body]
fn read_uleb128<'a>(bytes: &'a [u8]) -> (r: Result<(u64, &'a [u8]), gimli::Error>)
    ensures
        match r {
            Ok((v, rest)) => uleb128(bytes@, 0) matches Some((n, len)) && v as nat == n && rest@
                == bytes@.skip(len as int),
            Err(_) => uleb128(bytes@, 0) is None,
        },
{
    let mut input = gimli::EndianSlice::new(bytes, gimli::LittleEndian);
    let v = input.read_uleb128()?;
    Ok((v, input.slice()))
}

/// `gimli::Reader::read_sleb128`: the signed LEB128 number at the start and the
/// bytes behind it, or an error where there is no such number.
#[verifier::external_body]
fn read_sleb128<'a>(bytes: &'a [u8]) -> (r: Result<(i64, &'a [u8]), gimli::Error>)
    ensures
        match r {
            Ok((v, rest)) => sleb128(bytes@, 0) matches Some((n, len)) && v as int == n && rest@
                == bytes@.skip(len as int),
            Err(_) => sleb128(bytes@, 0) is None,
        },
{
    let mut input = gimli::EndianSlice::new(bytes, gimli::LittleEndian);
    let v = input.read_sleb128()?;
    Ok((v, input.slice()))
}

/// How many bytes an address takes.
pub open spec fn word_size() -> nat {
    (usize::BITS / 8) as nat
}

/// Where a reader stands: the bytes that are left and the address of the first.
#[verifier::ext_equal]
pub struct Position {
    pub bytes: Seq<u8>,
    pub addr: usize,
    pub order: ByteOrder,
}

impl Position {
    /// The position `len` bytes further on.
    pub open spec fn after(self, len: nat) -> Position {
        Position {
            bytes: self.bytes.skip(len as int),
            addr: self.addr.wrapping_add(len as usize),
            order: self.order,
        }
    }

    /// What reading gives where the value and its length are `found`.
    pub open spec fn read<T>(self, found: Option<(T, nat)>) -> Result<(T, Position), UnwindError> {
        match found {
            Some((v, len)) => Ok((v, self.after(len))),
            None => Err(UnwindError::Malformed),
        }
    }

    /// The unsigned number in the first `size` bytes, and `size`.
    pub open spec fn fixed(self, size: nat) -> Option<(nat, nat)> {
        if self.bytes.len() >= size {
            Some((unsigned(self.bytes.take(size as int), self.order), size))
        } else {
            None
        }
    }
}

/// Bytes to be read, with the address at which they stand.
#[derive(Clone, Copy)]
pub struct Reader<'a> {
    pub bytes: &'a [u8],
    pub addr: usize,
    pub order: ByteOrder,
}

impl<'a> View for Reader<'a> {
    type V = Position;

    open spec fn view(&self) -> Position {
        Position { bytes: self.bytes@, addr: self.addr, order: self.order }
    }
}

/// The result of reading, by views.
pub open spec fn outcome<T>(r: Result<(T, Reader), UnwindError>) -> Result<
    (T, Position),
    UnwindError,
> {
    match r {
        Ok((v, rest)) => Ok((v, rest@)),
        Err(e) => Err(e),
    }
}

impl Position {
    /// The number at the start, written as `format` says, as 64 bits.
    pub open spec fn number(self, format: u8) -> Result<(u64, Position), UnwindError> {
        self.read(
            if format == DW_EH_PE_ABSPTR {
                bits(self.fixed(word_size()))
            } else if format == DW_EH_PE_ULEB128 {
                bits(uleb128(self.bytes, 0))
            } else if format == DW_EH_PE_UDATA2 {
                bits(self.fixed(2))
            } else if format == DW_EH_PE_UDATA4 {
                bits(self.fixed(4))
            } else if format == DW_EH_PE_UDATA8 {
                bits(self.fixed(8))
            } else if format == DW_EH_PE_SLEB128 {
                signed_bits(sleb128(self.bytes, 0))
            } else if format == DW_EH_PE_SDATA2 {
                signed_bits(self.fixed_signed(2, 0x8000))
            } else if format == DW_EH_PE_SDATA4 {
                signed_bits(self.fixed_signed(4, 0x8000_0000))
            } else {
                signed_bits(self.fixed_signed(8, 0x8000_0000_0000_0000))
            },
        )
    }

    /// The number in two's complement in the first `size` bytes, and `size`.
    pub open spec fn fixed_signed(self, size: nat, half: nat) -> Option<(int, nat)> {
        match self.fixed(size) {
            Some((n, len)) => Some((signed(n, half), len)),
            None => None,
        }
    }
}

/// The number as 64 bits, beside its length.
pub open spec fn bits(found: Option<(nat, nat)>) -> Option<(u64, nat)> {
    match found {
        Some((n, len)) => Some((n as u64, len)),
        None => None,
    }
}

/// The number as 64 bits in two's complement, beside its length.
pub open spec fn signed_bits(found: Option<(int, nat)>) -> Option<(u64, nat)> {
    match found {
        Some((n, len)) => Some((n as u64, len)),
        None => None,
    }
}

/// A LEB128 number takes at least one byte, and no more than there are.
pub(crate) proof fn lemma_leb128_len(bytes: Seq<u8>, place: nat)
    ensures
        uleb128(bytes, place) matches Some((_, len)) ==> 1 <= len <= bytes.len(),
        sleb128(bytes, place) matches Some((_, len)) ==> 1 <= len <= bytes.len(),
    decreases bytes.len(),
{
    if bytes.len() > 0 {
        lemma_leb128_len(bytes.drop_first(), place + 1);
    }
}

/// 128 to the power of `n`.
pub open spec fn pow128(n: nat) -> nat
    decreases n,
{
    if n == 0 {
        1
    } else {
        128 * pow128((n - 1) as nat)
    }
}

proof fn lemma_leb128_range(bytes: Seq<u8>, place: nat)
    requires
        place <= 9,
    ensures
        uleb128(bytes, place) matches Some((n, _)) ==> n < 2 * pow128((9 - place) as nat),
        sleb128(bytes, place) matches Some((n, _)) ==> -pow128((9 - place) as nat) <= n < pow128(
            (9 - place) as nat,
        ),
    decreases bytes.len(),
{
    let left = (9 - place) as nat;
    if left > 0 {
        assert(pow128(left) == 128 * pow128((left - 1) as nat));
        assert(pow128((left - 1) as nat) >= 1) by {
            lemma_pow128_positive((left - 1) as nat);
        }
        if bytes.len() > 0 {
            lemma_leb128_range(bytes.drop_first(), place + 1);
        }
    }
}

proof fn lemma_pow128_positive(n: nat)
    ensures
        pow128(n) >= 1,
    decreases n,
{
    if n > 0 {
        lemma_pow128_positive((n - 1) as nat);
    }
}

/// Every LEB128 number that can be read fits in 64 bits.
pub proof fn law_leb128_fits(bytes: Seq<u8>)
    ensures
        uleb128(bytes, 0) matches Some((n, _)) ==> n <= u64::MAX,
        sleb128(bytes, 0) matches Some((n, _)) ==> i64::MIN <= n <= i64::MAX,
{
    lemma_leb128_range(bytes, 0);
    reveal_with_fuel(pow128, 10);
}

/// A number of `n` bytes is below 256 to the power of `n`, whatever their order.
pub proof fn law_fixed_numbers_fit(bytes: Seq<u8>, order: ByteOrder)
    ensures
        bytes.len() == 2 ==> unsigned(bytes, order) < 0x1_0000,
        bytes.len() == 4 ==> unsigned(bytes, order) < 0x1_0000_0000,
        bytes.len() == 8 ==> unsigned(bytes, order) <= u64::MAX,
{
    reveal_with_fuel(little_endian, 9);
}

impl Position {
    /// Reading a number goes forward.
    pub(crate) proof fn lemma_number_forward(self, format: u8)
        ensures
            self.number(format) matches Ok((_, rest)) ==> rest.bytes.len() < self.bytes.len(),
    {
        lemma_leb128_len(self.bytes, 0);
    }
}

impl<'a> Reader<'a> {
    /// The reader that has `rest` left.
    fn behind(&self, rest: &'a [u8]) -> (r: Reader<'a>)
        requires
            rest@.len() <= self.bytes@.len(),
        ensures
            r.bytes == rest,
            r.addr == self.addr.wrapping_add((self.bytes@.len() - rest@.len()) as usize),
            r.order == self.order,
    {
        let len: usize = self.bytes.len() - rest.len();
        Reader { bytes: rest, addr: self.addr.wrapping_add(len), order: self.order }
    }

    /// The first byte, and the reader behind it.
    pub fn read_u8(&self) -> (r: Result<(u8, Reader<'a>), UnwindError>)
        ensures
            outcome(r) == self@.read(
                if self@.bytes.len() >= 1 {
                    Some((self@.bytes[0], 1))
                } else {
                    None
                },
            ),
    {
        match read_u8(self.bytes) {
            Ok((v, rest)) => Ok((v, self.behind(rest))),
            Err(_) => Err(UnwindError::Malformed),
        }
    }

    /// The unsigned LEB128 number at the start, and the reader behind it.
    pub fn read_uleb128(&self) -> (r: Result<(u64, Reader<'a>), UnwindError>)
        ensures
            outcome(r) == self@.number(DW_EH_PE_ULEB128),
    {
        proof {
            lemma_leb128_len(self.bytes@, 0);
        }
        match read_uleb128(self.bytes) {
            Ok((v, rest)) => Ok((v, self.behind(rest))),
            Err(_) => Err(UnwindError::Malformed),
        }
    }

    /// The signed LEB128 number at the start, and the reader behind it.
    pub fn read_sleb128(&self) -> (r: Result<(i64, Reader<'a>), UnwindError>)
        ensures
            match sleb128(self@.bytes, 0) {
                Some((n, len)) => r matches Ok((v, rest)) && v == n && rest@ == self@.after(len),
                None => r matches Err(e) && e == UnwindError::Malformed,
            },
    {
        proof {
            lemma_leb128_len(self.bytes@, 0);
        }
        match read_sleb128(self.bytes) {
            Ok((v, rest)) => Ok((v, self.behind(rest))),
            Err(_) => Err(UnwindError::Malformed),
        }
    }

    /// The number at the start, written as `format` says, and the reader behind it.
    pub fn read_number(&self, format: u8) -> (r: Result<(u64, Reader<'a>), UnwindError>)
        requires
            is_format(format),
        ensures
            outcome(r) == self@.number(format),
    {
        if format == DW_EH_PE_ULEB128 {
            return self.read_uleb128();
        }
        let read: Result<(u64, &'a [u8]), gimli::Error> = if format == DW_EH_PE_ABSPTR {
            read_address(self.bytes, self.order, (usize::BITS / 8) as u8)
        } else if format == DW_EH_PE_UDATA2 {
            match read_u16(self.bytes, self.order) {
                Ok((v, rest)) => Ok((v as u64, rest)),
                Err(e) => Err(e),
            }
        } else if format == DW_EH_PE_UDATA4 {
            match read_u32(self.bytes, self.order) {
                Ok((v, rest)) => Ok((v as u64, rest)),
                Err(e) => Err(e),
            }
        } else if format == DW_EH_PE_UDATA8 {
            read_u64(self.bytes, self.order)
        } else if format == DW_EH_PE_SLEB128 {
            proof {
                lemma_leb128_len(self.bytes@, 0);
            }
            match read_sleb128(self.bytes) {
                Ok((v, rest)) => Ok((v as u64, rest)),
                Err(e) => Err(e),
            }
        } else if format == DW_EH_PE_SDATA2 {
            match read_i16(self.bytes, self.order) {
                Ok((v, rest)) => Ok((v as u64, rest)),
                Err(e) => Err(e),
            }
        } else if format == DW_EH_PE_SDATA4 {
            match read_i32(self.bytes, self.order) {
                Ok((v, rest)) => Ok((v as u64, rest)),
                Err(e) => Err(e),
            }
        } else {
            match read_i64(self.bytes, self.order) {
                Ok((v, rest)) => Ok((v as u64, rest)),
                Err(e) => Err(e),
            }
        };
        match read {
            Ok((v, rest)) => Ok((v, self.behind(rest))),
            Err(_) => Err(UnwindError::Malformed),
        }
    }

    /// The reader `len` bytes further on.
    pub fn skip(&self, len: usize) -> (r: Result<Reader<'a>, UnwindError>)
        ensures
            match r {
                Ok(rest) => len <= self@.bytes.len() && rest@ == self@.after(len as nat),
                Err(e) => len > self@.bytes.len() && e == UnwindError::Malformed,
            },
    {
        if len > self.bytes.len() {
            return Err(UnwindError::Malformed);
        }
        Ok(self.behind(slice_subrange(self.bytes, len, self.bytes.len())))
    }

    /// The reader of the first `len` bytes, and the reader of those behind.
    pub fn split_at(&self, len: usize) -> (r: (Reader<'a>, Reader<'a>))
        requires
            len <= self@.bytes.len(),
        ensures
            r.0@ == (Position { bytes: self@.bytes.take(len as int), ..self@ }),
            r.1@ == self@.after(len as nat),
    {
        let first = Reader {
            bytes: slice_subrange(self.bytes, 0, len),
            addr: self.addr,
            order: self.order,
        };
        (first, self.behind(slice_subrange(self.bytes, len, self.bytes.len())))
    }
}

/// In little endian each byte further on counts 256 times as much, and in big endian each
/// byte further back does.
pub proof fn law_byte_orders(bytes: Seq<u8>, b: u8)
    ensures
        unsigned(Seq::empty(), ByteOrder::Little) == 0,
        unsigned(Seq::empty(), ByteOrder::Big) == 0,
        unsigned(seq![b] + bytes, ByteOrder::Little) == b + 256 * unsigned(
            bytes,
            ByteOrder::Little,
        ),
        unsigned(bytes.push(b), ByteOrder::Big) == 256 * unsigned(bytes, ByteOrder::Big) + b,
        unsigned(bytes.reverse(), ByteOrder::Big) == unsigned(bytes, ByteOrder::Little),
{
    assert((seq![b] + bytes).drop_first() == bytes);
    assert(bytes.push(b).reverse().drop_first() == bytes.reverse());
    assert(bytes.push(b).reverse()[0] == b);
    assert(bytes.reverse().reverse() == bytes);
    assert(Seq::<u8>::empty().reverse() == Seq::<u8>::empty());
}

/// What is left behind some bytes are those that follow, at their own address.
pub proof fn law_reading_goes_on_behind(p: Position, len: nat, k: int)
    requires
        len <= p.bytes.len(),
        0 <= k < p.bytes.len() - len,
    ensures
        p.after(len).bytes.len() == p.bytes.len() - len,
        p.after(len).bytes[k] == p.bytes[len + k],
        p.addr + len <= usize::MAX ==> p.after(len).addr == p.addr + len,
        p.after(len).order == p.order,
{
}

/// The 64 bits of a number in two's complement.
proof fn lemma_bits(n: int)
    requires
        i64::MIN <= n <= i64::MAX,
    ensures
        n >= 0 ==> n as u64 == n,
        n < 0 ==> n as u64 == n + 0x1_0000_0000_0000_0000,
{
    let i = n as i64;
    assert(i < 0 ==> i as u64 == i + 0x1_0000_0000_0000_0000) by (bit_vector);
    assert(i as u64 == n as u64);
}

/// An unsigned number of a fixed size is read from as many bytes, in their order. Where
/// there are fewer, none can be read.
pub proof fn law_unsigned_numbers_are_read(p: Position, format: u8, size: nat)
    requires
        (format == 0x00 && size == word_size()) || (format == 0x02 && size == 2) || (format == 0x03
            && size == 4) || (format == 0x04 && size == 8),
    ensures
        p.bytes.len() < size ==> p.number(format) == Err::<(u64, Position), UnwindError>(
            UnwindError::Malformed,
        ),
        p.bytes.len() >= size ==> (p.number(format) matches Ok((v, rest)) && v == unsigned(
            p.bytes.take(size as int),
            p.order,
        ) && rest == p.after(size)),
{
    if p.bytes.len() >= size {
        law_fixed_numbers_fit(p.bytes.take(size as int), p.order);
    }
}

/// A signed number of a fixed size is read from as many bytes, in their order, and is
/// extended to 64 bits: where its highest bit is set, so are all those above it.
pub proof fn law_signed_numbers_are_read(p: Position, format: u8, size: nat, n: nat)
    requires
        (format == 0x0a && size == 2) || (format == 0x0b && size == 4) || (format == 0x0c && size
            == 8),
        p.bytes.len() >= size ==> n == unsigned(p.bytes.take(size as int), p.order),
    ensures
        p.bytes.len() < size ==> p.number(format) == Err::<(u64, Position), UnwindError>(
            UnwindError::Malformed,
        ),
        p.bytes.len() >= size ==> (p.number(format) matches Ok((v, rest)) && rest == p.after(size)
            && {
            &&& size == 2 ==> v == if n < 0x8000 {
                n
            } else {
                n + 0xffff_ffff_ffff_0000
            }
            &&& size == 4 ==> v == if n < 0x8000_0000 {
                n
            } else {
                n + 0xffff_ffff_0000_0000
            }
            &&& size == 8 ==> v == n
        }),
{
    if p.bytes.len() >= size {
        law_fixed_numbers_fit(p.bytes.take(size as int), p.order);
        if size == 2 {
            lemma_bits(signed(n, 0x8000));
        } else if size == 4 {
            lemma_bits(signed(n, 0x8000_0000));
        } else {
            lemma_bits(signed(n, 0x8000_0000_0000_0000));
        }
    }
}

/// A LEB128 number is read from as many bytes as it takes, and a signed one is extended to
/// 64 bits. Where none can be read the bytes are malformed.
pub proof fn law_leb128_numbers_are_read(p: Position)
    ensures
        uleb128(p.bytes, 0) matches Some((n, len)) ==> (p.number(0x01) matches Ok((v, rest)) && v
            == n && rest == p.after(len)),
        uleb128(p.bytes, 0) is None ==> p.number(0x01) == Err::<(u64, Position), UnwindError>(
            UnwindError::Malformed,
        ),
        sleb128(p.bytes, 0) matches Some((n, len)) ==> (p.number(0x09) matches Ok((v, rest)) && rest
            == p.after(len) && v == if n >= 0 {
            n
        } else {
            n + 0x1_0000_0000_0000_0000
        }),
        sleb128(p.bytes, 0) is None ==> p.number(0x09) == Err::<(u64, Position), UnwindError>(
            UnwindError::Malformed,
        ),
{
    law_leb128_fits(p.bytes);
    if let Some((n, _)) = sleb128(p.bytes, 0) {
        lemma_bits(n);
    }
}

/// A reader's view shows all of it, and so does that of what is read.
pub proof fn law_readers_are_shown<T>(reader: Reader, v: T, e: UnwindError)
    ensures
        reader@.bytes == reader.bytes@,
        reader@.addr == reader.addr,
        reader@.order == reader.order,
        outcome(Ok((v, reader))) == Ok::<(T, Position), UnwindError>((v, reader@)),
        outcome(Err::<(T, Reader), UnwindError>(e)) == Err::<(T, Position), UnwindError>(e),
{
}

} // verus!
