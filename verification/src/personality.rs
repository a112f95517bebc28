//! The personality routine of Rust: what is done in a frame, by the frame's language
//! specific data area (LSDA).
//!
//! An LSDA has a header, a call site table and an action table. A call site is a
//! range of addresses in the function, the landing pad to enter where the call in it
//! unwinds, and the place in the action table where the pad's type index stands:
//! 0 for a cleanup, a positive one for a catch, a negative one for a filter. The
//! index itself is of no further use: Rust has one type of exception.

use vstd::prelude::*;
use crate::abi::{c_int, UnwindAction, UnwindReasonCode};
use crate::arch::Arch;
use crate::encoding::{
    encoding_application, encoding_format, encoding_is_absent, encoding_is_indirect,
    encoding_is_valid, is_application, Pointer, PointerEncoding, DW_EH_PE_ABSPTR,
    DW_EH_PE_DATAREL, DW_EH_PE_FUNCREL, DW_EH_PE_PCREL, DW_EH_PE_TEXTREL, DW_EH_PE_ULEB128,
};
use crate::error::{Fault, Halt, UnwindError};
use crate::memory::{deref_pointer, target, Memory, Words};
use crate::reader::{outcome, sleb128, word_size, ByteOrder, Position, Reader};
use crate::unwinder::context::{
    Cursor, UnwindContext, _Unwind_GetDataRelBase, _Unwind_GetIPInfo,
    _Unwind_GetLanguageSpecificData, _Unwind_GetRegionStart, _Unwind_GetTextRelBase,
    _Unwind_SetGR, _Unwind_SetIP,
};

verus! {

/// What an LSDA says of one address.
#[derive(Clone, Copy, PartialEq, Eq, Structural, Debug)]
pub enum EHAction {
    /// There is nothing to do.
    Nothing,
    /// The landing pad cleans up, and unwinding goes on.
    Cleanup(usize),
    /// The landing pad catches the exception.
    Catch(usize),
    /// The landing pad ends the program: nothing may unwind out of the function.
    Filter(usize),
    /// The address is in no call site: nothing may unwind from there.
    Terminate,
}

/// The encoding at `p`, and what is behind it.
pub open spec fn encoding_at(p: Position) -> Result<(PointerEncoding, Position), UnwindError> {
    if p.bytes.len() < 1 {
        Err(UnwindError::Malformed)
    } else if PointerEncoding(p.bytes[0]).valid() {
        Ok((PointerEncoding(p.bytes[0]), p.after(1)))
    } else {
        Err(UnwindError::UnknownPointerEncoding(p.bytes[0]))
    }
}

/// Reads how a pointer is written down.
pub fn parse_pointer_encoding<'a>(input: &Reader<'a>) -> (r: Result<
    (PointerEncoding, Reader<'a>),
    UnwindError,
>)
    ensures
        outcome(r) == encoding_at(input@),
{
    match input.read_u8() {
        Ok((byte, rest)) => {
            let encoding = PointerEncoding(byte);
            if encoding_is_valid(encoding) {
                Ok((encoding, rest))
            } else {
                Err(UnwindError::UnknownPointerEncoding(byte))
            }
        },
        Err(e) => Err(e),
    }
}

/// How far it is from `addr` to the next place where an address may stand.
pub open spec fn padding(addr: usize) -> nat {
    let over = addr as nat % word_size();
    if over == 0 {
        0
    } else {
        (word_size() - over) as nat
    }
}

/// What a number at `p` is relative to, and where the number stands.
pub open spec fn base_at(p: Position, application: u8, cursor: Cursor) -> Result<
    (u64, Position),
    Halt,
> {
    if application == DW_EH_PE_ABSPTR {
        Ok((0, p))
    } else if application == DW_EH_PE_PCREL {
        Ok((p.addr as u64, p))
    } else if application == DW_EH_PE_TEXTREL {
        Ok((cursor.text_base() as u64, p))
    } else if application == DW_EH_PE_DATAREL {
        Ok((cursor.data_base() as u64, p))
    } else if application == DW_EH_PE_FUNCREL {
        Ok((cursor.region_start() as u64, p))
    } else if p.addr + padding(p.addr) > usize::MAX {
        Err(Halt::Fault(Fault::Overflow))
    } else if padding(p.addr) > p.bytes.len() {
        Err(Halt::Failed(UnwindError::Malformed))
    } else {
        Ok((0, p.after(padding(p.addr))))
    }
}

/// The pointer at `p`, written as `encoding` says, and what is behind it.
pub open spec fn pointer_at(p: Position, encoding: PointerEncoding, cursor: Cursor) -> Result<
    (Pointer, Position),
    Halt,
> {
    if encoding.absent() {
        Err(Halt::Failed(UnwindError::CannotParseOmitPointerEncoding))
    } else {
        match base_at(p, encoding.application(), cursor) {
            Err(halt) => Err(halt),
            Ok((base, q)) => match q.number(encoding.format()) {
                Err(e) => Err(Halt::Failed(e)),
                Ok((offset, rest)) => Ok(
                    (
                        if encoding.indirect() {
                            Pointer::Indirect(base.wrapping_add(offset))
                        } else {
                            Pointer::Direct(base.wrapping_add(offset))
                        },
                        rest,
                    ),
                ),
            },
        }
    }
}

/// The result of reading, by views.
pub open spec fn halting_outcome<T>(r: Result<(T, Reader), Halt>) -> Result<(T, Position), Halt> {
    match r {
        Ok((v, rest)) => Ok((v, rest@)),
        Err(halt) => Err(halt),
    }
}

/// Finds what a number is relative to.
fn find_base<'a>(input: &Reader<'a>, application: u8, unwind_ctx: &UnwindContext<'_>) -> (r: Result<
    (u64, Reader<'a>),
    Halt,
>)
    requires
        is_application(application),
    ensures
        halting_outcome(r) == base_at(input@, application, unwind_ctx@),
{
    if application == DW_EH_PE_ABSPTR {
        Ok((0, *input))
    } else if application == DW_EH_PE_PCREL {
        Ok((input.addr as u64, *input))
    } else if application == DW_EH_PE_TEXTREL {
        Ok((_Unwind_GetTextRelBase(unwind_ctx) as u64, *input))
    } else if application == DW_EH_PE_DATAREL {
        Ok((_Unwind_GetDataRelBase(unwind_ctx) as u64, *input))
    } else if application == DW_EH_PE_FUNCREL {
        Ok((_Unwind_GetRegionStart(unwind_ctx) as u64, *input))
    } else {
        let word: usize = (usize::BITS / 8) as usize;
        let over: usize = input.addr % word;
        let pad: usize = if over == 0 { 0 } else { word - over };
        if pad > usize::MAX - input.addr {
            return Err(Halt::Fault(Fault::Overflow));
        }
        match input.skip(pad) {
            Ok(rest) => Ok((0, rest)),
            Err(e) => Err(Halt::Failed(e)),
        }
    }
}

/// Reads a pointer.
pub fn parse_encoded_pointer<'a>(
    encoding: PointerEncoding,
    unwind_ctx: &UnwindContext<'_>,
    input: &Reader<'a>,
) -> (r: Result<(Pointer, Reader<'a>), Halt>)
    requires
        encoding.valid(),
    ensures
        halting_outcome(r) == pointer_at(input@, encoding, unwind_ctx@),
{
    if encoding_is_absent(encoding) {
        return Err(Halt::Failed(UnwindError::CannotParseOmitPointerEncoding));
    }
    let (base, number) = match find_base(input, encoding_application(encoding), unwind_ctx) {
        Ok(found) => found,
        Err(halt) => {
            return Err(halt);
        },
    };
    let (offset, rest) = match number.read_number(encoding_format(encoding)) {
        Ok(found) => found,
        Err(e) => {
            return Err(Halt::Failed(e));
        },
    };
    let address: u64 = base.wrapping_add(offset);
    if encoding_is_indirect(encoding) {
        Ok((Pointer::Indirect(address), rest))
    } else {
        Ok((Pointer::Direct(address), rest))
    }
}

/// The address that the pointer at `p` leads to, and what is behind the pointer.
pub open spec fn address_at(
    p: Position,
    encoding: PointerEncoding,
    cursor: Cursor,
    words: Words,
) -> Result<(usize, Position), Halt> {
    match pointer_at(p, encoding, cursor) {
        Err(halt) => Err(halt),
        Ok((pointer, rest)) => match target(pointer, words) {
            Err(halt) => Err(halt),
            Ok(address) => Ok((address, rest)),
        },
    }
}

/// Reads a pointer and finds the address that it leads to.
fn parse_address<'a>(
    encoding: PointerEncoding,
    unwind_ctx: &UnwindContext<'_>,
    input: &Reader<'a>,
    memory: &Memory,
) -> (r: Result<(usize, Reader<'a>), Halt>)
    requires
        encoding.valid(),
    ensures
        halting_outcome(r) == address_at(input@, encoding, unwind_ctx@, memory@),
{
    match parse_encoded_pointer(encoding, unwind_ctx, input) {
        Err(halt) => Err(halt),
        Ok((pointer, rest)) => match deref_pointer(pointer, memory) {
            Err(halt) => Err(halt),
            Ok(address) => Ok((address, rest)),
        },
    }
}

/// What the header of an LSDA says.
#[verifier::ext_equal]
pub struct HeaderModel {
    /// What landing pads are relative to.
    pub lpad_base: usize,
    /// How call sites are written down.
    pub encoding: PointerEncoding,
    /// The call site table.
    pub call_sites: Position,
    /// The action table.
    pub actions: Position,
}

/// What landing pads are relative to, by the LSDA at `p`, and what is behind: the
/// start of the function, where the LSDA does not say.
pub open spec fn lpad_base_at(p: Position, cursor: Cursor, words: Words) -> Result<
    (usize, Position),
    Halt,
> {
    match encoding_at(p) {
        Err(e) => Err(Halt::Failed(e)),
        Ok((encoding, rest)) => if encoding.absent() {
            Ok((cursor.region_start(), rest))
        } else {
            address_at(rest, encoding, cursor, words)
        },
    }
}

/// What is behind the place of the type table, which stands at `p`.
pub open spec fn behind_type_table(p: Position) -> Result<Position, UnwindError> {
    match encoding_at(p) {
        Err(e) => Err(e),
        Ok((encoding, rest)) => if encoding.absent() {
            Ok(rest)
        } else {
            match rest.number(DW_EH_PE_ULEB128) {
                Err(e) => Err(e),
                Ok((_, rest)) => Ok(rest),
            }
        },
    }
}

/// How call sites are written down, how many bytes their table takes, and the table
/// itself with all that is behind it, by the LSDA at `p`.
pub open spec fn call_site_table_at(p: Position) -> Result<
    (PointerEncoding, u64, Position),
    UnwindError,
> {
    match encoding_at(p) {
        Err(e) => Err(e),
        Ok((encoding, rest)) => match rest.number(DW_EH_PE_ULEB128) {
            Err(e) => Err(e),
            Ok((length, rest)) => Ok((encoding, length, rest)),
        },
    }
}

/// What the header of the LSDA at `p` says.
pub open spec fn header_at(p: Position, cursor: Cursor, words: Words) -> Result<
    HeaderModel,
    Halt,
> {
    match lpad_base_at(p, cursor, words) {
        Err(halt) => Err(halt),
        Ok((lpad_base, rest)) => match behind_type_table(rest) {
            Err(e) => Err(Halt::Failed(e)),
            Ok(rest) => match call_site_table_at(rest) {
                Err(e) => Err(Halt::Failed(e)),
                Ok((encoding, length, rest)) => if length as usize > rest.bytes.len() {
                    Err(Halt::Fault(Fault::OutOfBounds))
                } else {
                    Ok(
                        HeaderModel {
                            lpad_base,
                            encoding,
                            call_sites: Position {
                                bytes: rest.bytes.take(length as usize as int),
                                ..rest
                            },
                            actions: rest.after(length as usize as nat),
                        },
                    )
                },
            },
        },
    }
}

/// What the header of an LSDA says.
struct Header<'a> {
    lpad_base: usize,
    encoding: PointerEncoding,
    call_sites: Reader<'a>,
    actions: Reader<'a>,
}

impl<'a> View for Header<'a> {
    type V = HeaderModel;

    closed spec fn view(&self) -> HeaderModel {
        HeaderModel {
            lpad_base: self.lpad_base,
            encoding: self.encoding,
            call_sites: self.call_sites@,
            actions: self.actions@,
        }
    }
}

/// Reads the header of an LSDA.
fn parse_header<'a>(reader: &Reader<'a>, unwind_ctx: &UnwindContext<'_>, memory: &Memory) -> (r:
    Result<Header<'a>, Halt>)
    ensures
        match r {
            Ok(header) => header_at(reader@, unwind_ctx@, memory@) == Ok::<HeaderModel, Halt>(
                header@,
            ) && header.encoding.valid(),
            Err(halt) => header_at(reader@, unwind_ctx@, memory@) == Err::<HeaderModel, Halt>(halt),
        },
{
    let (start_encoding, rest) = match parse_pointer_encoding(reader) {
        Ok(found) => found,
        Err(e) => {
            return Err(Halt::Failed(e));
        },
    };
    let (lpad_base, rest) = if encoding_is_absent(start_encoding) {
        (_Unwind_GetRegionStart(unwind_ctx), rest)
    } else {
        match parse_address(start_encoding, unwind_ctx, &rest, memory) {
            Ok(found) => found,
            Err(halt) => {
                return Err(halt);
            },
        }
    };
    let (ttype_encoding, rest) = match parse_pointer_encoding(&rest) {
        Ok(found) => found,
        Err(e) => {
            return Err(Halt::Failed(e));
        },
    };
    let rest = if encoding_is_absent(ttype_encoding) {
        rest
    } else {
        match rest.read_uleb128() {
            Ok((_, rest)) => rest,
            Err(e) => {
                return Err(Halt::Failed(e));
            },
        }
    };
    let (encoding, rest) = match parse_pointer_encoding(&rest) {
        Ok(found) => found,
        Err(e) => {
            return Err(Halt::Failed(e));
        },
    };
    let (length, rest) = match rest.read_uleb128() {
        Ok(found) => found,
        Err(e) => {
            return Err(Halt::Failed(e));
        },
    };
    if length as usize > rest.bytes.len() {
        return Err(Halt::Fault(Fault::OutOfBounds));
    }
    let (call_sites, actions) = rest.split_at(length as usize);
    Ok(Header { lpad_base, encoding, call_sites, actions })
}

/// One call site.
#[derive(Clone, Copy, PartialEq, Eq, Structural, Debug)]
pub struct CallSite {
    /// Its first address, from the start of the function.
    pub start: usize,
    /// How many addresses it takes.
    pub len: usize,
    /// Its landing pad, from the base of landing pads, or 0 where it has none.
    pub lpad: usize,
    /// Where its type index stands in the action table, counted from 1, or 0 where its
    /// landing pad is a cleanup.
    pub action: u64,
}

/// The call site at `p`, and what is behind it.
pub open spec fn call_site_at(
    p: Position,
    encoding: PointerEncoding,
    cursor: Cursor,
    words: Words,
) -> Result<(CallSite, Position), Halt> {
    match address_at(p, encoding, cursor, words) {
        Err(halt) => Err(halt),
        Ok((start, rest)) => match address_at(rest, encoding, cursor, words) {
            Err(halt) => Err(halt),
            Ok((len, rest)) => match address_at(rest, encoding, cursor, words) {
                Err(halt) => Err(halt),
                Ok((lpad, rest)) => match rest.number(DW_EH_PE_ULEB128) {
                    Err(e) => Err(Halt::Failed(e)),
                    Ok((action, rest)) => Ok((CallSite { start, len, lpad, action }, rest)),
                },
            },
        },
    }
}

/// Reads a call site.
fn parse_call_site<'a>(
    input: &Reader<'a>,
    encoding: PointerEncoding,
    unwind_ctx: &UnwindContext<'_>,
    memory: &Memory,
) -> (r: Result<(CallSite, Reader<'a>), Halt>)
    requires
        encoding.valid(),
    ensures
        halting_outcome(r) == call_site_at(input@, encoding, unwind_ctx@, memory@),
{
    let (start, rest) = match parse_address(encoding, unwind_ctx, input, memory) {
        Ok(found) => found,
        Err(halt) => {
            return Err(halt);
        },
    };
    let (len, rest) = match parse_address(encoding, unwind_ctx, &rest, memory) {
        Ok(found) => found,
        Err(halt) => {
            return Err(halt);
        },
    };
    let (lpad, rest) = match parse_address(encoding, unwind_ctx, &rest, memory) {
        Ok(found) => found,
        Err(halt) => {
            return Err(halt);
        },
    };
    match rest.read_uleb128() {
        Ok((action, rest)) => Ok((CallSite { start, len, lpad, action }, rest)),
        Err(e) => Err(Halt::Failed(e)),
    }
}

/// What is done for an address in the call site `site`.
pub open spec fn site_action(site: CallSite, lpad_base: usize, actions: Position) -> Result<
    EHAction,
    Halt,
> {
    let lpad = (lpad_base + site.lpad) as usize;
    let before = (site.action - 1) as usize;
    if site.lpad == 0 {
        Ok(EHAction::Nothing)
    } else if lpad_base + site.lpad > usize::MAX {
        Err(Halt::Fault(Fault::Overflow))
    } else if site.action == 0 {
        Ok(EHAction::Cleanup(lpad))
    } else if before > actions.bytes.len() {
        Err(Halt::Failed(UnwindError::Malformed))
    } else {
        match sleb128(actions.bytes.skip(before as int), 0) {
            None => Err(Halt::Failed(UnwindError::Malformed)),
            Some((ttype_index, _)) => Ok(
                if ttype_index == 0 {
                    EHAction::Cleanup(lpad)
                } else if ttype_index > 0 {
                    EHAction::Catch(lpad)
                } else {
                    EHAction::Filter(lpad)
                },
            ),
        }
    }
}

/// Finds what is done for an address in `site`.
fn find_site_action(site: CallSite, lpad_base: usize, actions: &Reader<'_>) -> (r: Result<
    EHAction,
    Halt,
>)
    ensures
        r == site_action(site, lpad_base, actions@),
{
    if site.lpad == 0 {
        return Ok(EHAction::Nothing);
    }
    if site.lpad > usize::MAX - lpad_base {
        return Err(Halt::Fault(Fault::Overflow));
    }
    let lpad: usize = lpad_base + site.lpad;
    if site.action == 0 {
        return Ok(EHAction::Cleanup(lpad));
    }
    let action = match actions.skip((site.action - 1) as usize) {
        Ok(action) => action,
        Err(e) => {
            return Err(Halt::Failed(e));
        },
    };
    match action.read_sleb128() {
        Ok((ttype_index, _)) => Ok(
            if ttype_index == 0 {
                EHAction::Cleanup(lpad)
            } else if ttype_index > 0 {
                EHAction::Catch(lpad)
            } else {
                EHAction::Filter(lpad)
            },
        ),
        Err(e) => Err(Halt::Failed(e)),
    }
}

/// What is done for the address `ip`, by the call sites that are left in `table`.
/// They are sorted: none behind one that starts above `ip` can cover it.
pub open spec fn table_action(
    table: Position,
    header: HeaderModel,
    ip: usize,
    cursor: Cursor,
    words: Words,
) -> Result<EHAction, Halt>
    decreases table.bytes.len(),
{
    if table.bytes.len() == 0 {
        Ok(EHAction::Terminate)
    } else {
        match call_site_at(table, header.encoding, cursor, words) {
            Err(halt) => Err(halt),
            Ok((site, rest)) => {
                let start = cursor.region_start() + site.start;
                if start > usize::MAX {
                    Err(Halt::Fault(Fault::Overflow))
                } else if ip < start {
                    Ok(EHAction::Terminate)
                } else if start + site.len > usize::MAX {
                    Err(Halt::Fault(Fault::Overflow))
                } else if ip < start + site.len {
                    site_action(site, header.lpad_base, header.actions)
                } else if rest.bytes.len() < table.bytes.len() {
                    table_action(rest, header, ip, cursor, words)
                } else {
                    Ok(EHAction::Terminate)
                }
            },
        }
    }
}

/// The address in the frame that is looked up: that of the instruction which a signal
/// has interrupted, or one inside the call.
pub open spec fn lookup_ip(cursor: Cursor) -> Result<usize, Halt> {
    let ip = cursor.regs[Arch::RA];
    if cursor.signal {
        Ok(ip)
    } else if ip == 0 {
        Err(Halt::Fault(Fault::Overflow))
    } else {
        Ok((ip - 1) as usize)
    }
}

/// What the LSDA at `lsda` says is done in the frame of `cursor`.
pub open spec fn eh_action(lsda: Position, cursor: Cursor, words: Words) -> Result<EHAction, Halt> {
    match lookup_ip(cursor) {
        Err(halt) => Err(halt),
        Ok(ip) => match header_at(lsda, cursor, words) {
            Err(halt) => Err(halt),
            Ok(header) => table_action(header.call_sites, header, ip, cursor, words),
        },
    }
}

/// Reading goes forward.
proof fn lemma_address_forward(
    p: Position,
    encoding: PointerEncoding,
    cursor: Cursor,
    words: Words,
)
    ensures
        address_at(p, encoding, cursor, words) matches Ok((_, rest)) ==> rest.bytes.len()
            <= p.bytes.len(),
{
    if let Ok((_, q)) = base_at(p, encoding.application(), cursor) {
        q.lemma_number_forward(encoding.format());
    }
}

/// A call site takes at least one byte.
pub(crate) proof fn lemma_call_site_forward(
    p: Position,
    encoding: PointerEncoding,
    cursor: Cursor,
    words: Words,
)
    ensures
        call_site_at(p, encoding, cursor, words) matches Ok((_, rest)) ==> rest.bytes.len()
            < p.bytes.len(),
{
    lemma_address_forward(p, encoding, cursor, words);
    if let Ok((_, q)) = address_at(p, encoding, cursor, words) {
        lemma_address_forward(q, encoding, cursor, words);
        if let Ok((_, q)) = address_at(q, encoding, cursor, words) {
            lemma_address_forward(q, encoding, cursor, words);
            if let Ok((_, q)) = address_at(q, encoding, cursor, words) {
                q.lemma_number_forward(DW_EH_PE_ULEB128);
            }
        }
    }
}

/// Finds what is done in the frame of `unwind_ctx`, by its LSDA, which `reader` reads.
pub fn find_eh_action(reader: &Reader<'_>, unwind_ctx: &UnwindContext<'_>, memory: &Memory) -> (r:
    Result<EHAction, Halt>)
    ensures
        r == eh_action(reader@, unwind_ctx@, memory@),
{
    let func_start: usize = _Unwind_GetRegionStart(unwind_ctx);
    let mut ip_before_instr: c_int = 0;
    let mut ip: usize = _Unwind_GetIPInfo(unwind_ctx, &mut ip_before_instr);
    if ip_before_instr == 0 {
        if ip == 0 {
            return Err(Halt::Fault(Fault::Overflow));
        }
        ip = ip - 1;
    }
    let header = match parse_header(reader, unwind_ctx, memory) {
        Ok(header) => header,
        Err(halt) => {
            return Err(halt);
        },
    };
    let mut call_site_table = header.call_sites;
    while call_site_table.bytes.len() > 0
        invariant
            header.encoding.valid(),
            func_start == unwind_ctx@.region_start(),
            eh_action(reader@, unwind_ctx@, memory@) == table_action(
                call_site_table@,
                header@,
                ip,
                unwind_ctx@,
                memory@,
            ),
        decreases call_site_table@.bytes.len(),
    {
        let (site, rest) = match parse_call_site(
            &call_site_table,
            header.encoding,
            unwind_ctx,
            memory,
        ) {
            Ok(found) => found,
            Err(halt) => {
                return Err(halt);
            },
        };
        proof {
            lemma_call_site_forward(call_site_table@, header.encoding, unwind_ctx@, memory@);
        }
        if site.start > usize::MAX - func_start {
            return Err(Halt::Fault(Fault::Overflow));
        }
        let start: usize = func_start + site.start;
        if ip < start {
            return Ok(EHAction::Terminate);
        }
        if site.len > usize::MAX - start {
            return Err(Halt::Fault(Fault::Overflow));
        }
        if ip < start + site.len {
            return find_site_action(site, header.lpad_base, &header.actions);
        }
        call_site_table = rest;
    }
    Ok(EHAction::Terminate)
}

/// The code that a personality routine gives for `action`, and the landing pad that it
/// lets the frame enter.
pub open spec fn judgement(action: EHAction, actions: UnwindAction) -> (
    UnwindReasonCode,
    Option<usize>,
) {
    if actions.contains(UnwindAction::search_phase()) {
        match action {
            EHAction::Nothing | EHAction::Cleanup(_) => (UnwindReasonCode::continue_unwind(), None),
            EHAction::Catch(_) | EHAction::Filter(_) => (UnwindReasonCode::handler_found(), None),
            EHAction::Terminate => (fatal_error(actions), None),
        }
    } else {
        match action {
            EHAction::Nothing => (UnwindReasonCode::continue_unwind(), None),
            EHAction::Cleanup(lpad) | EHAction::Catch(lpad) => (
                UnwindReasonCode::install_context(),
                Some(lpad),
            ),
            EHAction::Filter(lpad) => if actions.contains(UnwindAction::force_unwind()) {
                (UnwindReasonCode::continue_unwind(), None)
            } else {
                (UnwindReasonCode::install_context(), Some(lpad))
            },
            EHAction::Terminate => (fatal_error(actions), None),
        }
    }
}

/// The frame of `cursor`, about to enter the landing pad `lpad` with `exception`.
pub open spec fn entering(cursor: Cursor, exception: usize, lpad: Option<usize>) -> Cursor {
    match lpad {
        Some(lpad) => cursor.with(Arch::UNWIND_DATA_REG_0, exception).with(
            Arch::UNWIND_DATA_REG_1,
            0,
        ).with(Arch::RA, lpad),
        None => cursor,
    }
}

/// Does what is done for `eh_action` in the frame of `unwind_ctx`.
pub fn act_on(
    eh_action: EHAction,
    actions: UnwindAction,
    exception: usize,
    unwind_ctx: &mut UnwindContext<'_>,
) -> (r: UnwindReasonCode)
    ensures
        r == judgement(eh_action, actions).0,
        final(unwind_ctx)@ == entering(
            old(unwind_ctx)@,
            exception,
            judgement(eh_action, actions).1,
        ),
        ({
            let enters = actions.0 & 1 == 0 && match eh_action {
                EHAction::Cleanup(_) | EHAction::Catch(_) => true,
                EHAction::Filter(_) => actions.0 & 8 == 0,
                _ => false,
            };
            &&& enters ==> r == UnwindReasonCode(7)
            &&& !enters ==> r != UnwindReasonCode(7) && final(unwind_ctx)@ == old(unwind_ctx)@
        }),
{
    if actions.contains(UnwindAction::search_phase()) {
        return match eh_action {
            EHAction::Nothing | EHAction::Cleanup(_) => UnwindReasonCode::continue_unwind(),
            EHAction::Catch(_) | EHAction::Filter(_) => UnwindReasonCode::handler_found(),
            EHAction::Terminate => UnwindReasonCode::fatal_phase1_error(),
        };
    }
    let lpad: usize = match eh_action {
        EHAction::Nothing => {
            return UnwindReasonCode::continue_unwind();
        },
        EHAction::Terminate => {
            return UnwindReasonCode::fatal_phase2_error();
        },
        EHAction::Cleanup(lpad) | EHAction::Catch(lpad) => lpad,
        EHAction::Filter(lpad) => {
            if actions.contains(UnwindAction::force_unwind()) {
                return UnwindReasonCode::continue_unwind();
            }
            lpad
        },
    };
    _Unwind_SetGR(unwind_ctx, Arch::UNWIND_DATA_REG_0 as c_int, exception);
    _Unwind_SetGR(unwind_ctx, Arch::UNWIND_DATA_REG_1 as c_int, 0);
    _Unwind_SetIP(unwind_ctx, lpad);
    UnwindReasonCode::install_context()
}

/// The code for an error of the personality routine: that of the phase that it is called
/// for.
pub open spec fn fatal_error(actions: UnwindAction) -> UnwindReasonCode {
    if actions.contains(UnwindAction::search_phase()) {
        UnwindReasonCode::fatal_phase1_error()
    } else {
        UnwindReasonCode::fatal_phase2_error()
    }
}

/// Finds the code for an error of the personality routine.
fn fatal_code(actions: UnwindAction) -> (r: UnwindReasonCode)
    ensures
        r == fatal_error(actions),
{
    if actions.contains(UnwindAction::search_phase()) {
        UnwindReasonCode::fatal_phase1_error()
    } else {
        UnwindReasonCode::fatal_phase2_error()
    }
}

/// What the personality routine comes to in the frame of `cursor`, whose LSDA has the
/// bytes `lsda`.
pub open spec fn personality_outcome(
    version: c_int,
    actions: UnwindAction,
    cursor: Cursor,
    lsda: Seq<u8>,
    order: ByteOrder,
    words: Words,
) -> Result<(UnwindReasonCode, Option<usize>), Halt> {
    if version != 1 {
        Ok((fatal_error(actions), None))
    } else {
        match cursor.lsda(words) {
            Err(halt) => Err(halt),
            Ok(addr) => if addr == 0 {
                Ok((UnwindReasonCode::continue_unwind(), None))
            } else {
                match eh_action(Position { bytes: lsda, addr, order }, cursor, words) {
                    Ok(action) => Ok(judgement(action, actions)),
                    Err(Halt::Failed(_)) => Ok((fatal_error(actions), None)),
                    Err(halt) => Err(halt),
                }
            },
        }
    }
}

/// The personality routine of Rust. `lsda` are the bytes from the frame's LSDA on;
/// where the frame has none they are not looked at.
pub fn rust_eh_personality(
    version: c_int,
    actions: UnwindAction,
    _exception_class: u64,
    exception: usize,
    unwind_ctx: &mut UnwindContext<'_>,
    lsda: &[u8],
    order: ByteOrder,
    memory: &Memory,
) -> (r: Result<UnwindReasonCode, Halt>)
    ensures
        match personality_outcome(version, actions, old(unwind_ctx)@, lsda@, order, memory@) {
            Ok((code, lpad)) => r == Ok::<UnwindReasonCode, Halt>(code) && final(unwind_ctx)@
                == entering(old(unwind_ctx)@, exception, lpad),
            Err(halt) => r == Err::<UnwindReasonCode, Halt>(halt) && final(unwind_ctx)@ == old(
                unwind_ctx,
            )@,
        },
{
    if version != 1 {
        return Ok(fatal_code(actions));
    }
    let addr: usize = match _Unwind_GetLanguageSpecificData(unwind_ctx, memory) {
        Ok(addr) => addr,
        Err(halt) => {
            return Err(halt);
        },
    };
    if addr == 0 {
        return Ok(UnwindReasonCode::continue_unwind());
    }
    let reader = Reader { bytes: lsda, addr, order };
    match find_eh_action(&reader, unwind_ctx, memory) {
        Ok(eh_action) => Ok(act_on(eh_action, actions, exception, unwind_ctx)),
        Err(Halt::Failed(_)) => Ok(fatal_code(actions)),
        Err(halt) => Err(halt),
    }
}

} // verus!
