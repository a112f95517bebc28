//! How an LSDA is read, byte by byte, and what the personality routine does by it.

use vstd::prelude::*;
use crate::abi::{c_int, UnwindAction, UnwindReasonCode};
use crate::encoding::{Pointer, PointerEncoding};
use crate::error::{Fault, Halt, UnwindError};
use crate::memory::Words;
use crate::personality::{
    address_at, base_at, behind_type_table, call_site_at, call_site_table_at, eh_action,
    encoding_at, entering, fatal_error, halting_outcome, header_at, judgement, lookup_ip,
    lpad_base_at, padding, personality_outcome, pointer_at, site_action, table_action, CallSite, EHAction, HeaderModel,
};
use crate::reader::{sleb128, word_size, ByteOrder, Position, Reader};
use crate::unwinder::context::Cursor;
use crate::unwinder::frame::FrameModel;

verus! {

/// An encoding is the next byte, where that is one.
pub proof fn law_encodings_are_read(p: Position)
    ensures
        p.bytes.len() == 0 ==> encoding_at(p) == Err::<(PointerEncoding, Position), UnwindError>(
            UnwindError::Malformed,
        ),
        p.bytes.len() > 0 && PointerEncoding(p.bytes[0]).valid() ==> encoding_at(p) == Ok::<
            (PointerEncoding, Position),
            UnwindError,
        >((PointerEncoding(p.bytes[0]), p.after(1))),
        p.bytes.len() > 0 && !PointerEncoding(p.bytes[0]).valid() ==> encoding_at(p) == Err::<
            (PointerEncoding, Position),
            UnwindError,
        >(UnwindError::UnknownPointerEncoding(p.bytes[0])),
{
}

/// A byte is an encoding where its low four bits are one of the nine formats and the next
/// three one of the six bases, or where all its bits are set.
pub proof fn law_encodings(e: PointerEncoding)
    ensures
        e.valid() <==> e.0 == 0xff || (e.0 & 0x0f <= 4 || 9 <= e.0 & 0x0f <= 12) && (e.0 & 0x70
            == 0x00 || e.0 & 0x70 == 0x10 || e.0 & 0x70 == 0x20 || e.0 & 0x70 == 0x30 || e.0 & 0x70
            == 0x40 || e.0 & 0x70 == 0x50),
        e.absent() <==> e.0 == 0xff,
        e.indirect() <==> e.0 & 0x80 != 0,
        e.format() == e.0 & 0x0f,
        e.application() == e.0 & 0x70,
{
}

/// A number is relative to nothing, to its own address, to the text, to the data or to the
/// start of the function.
pub proof fn law_numbers_are_relative(p: Position, cursor: Cursor)
    ensures
        base_at(p, 0x00, cursor) == Ok::<(u64, Position), Halt>((0, p)),
        base_at(p, 0x10, cursor) == Ok::<(u64, Position), Halt>((p.addr as u64, p)),
        base_at(p, 0x20, cursor) == Ok::<(u64, Position), Halt>((cursor.text_base() as u64, p)),
        base_at(p, 0x30, cursor) == Ok::<(u64, Position), Halt>((cursor.data_base() as u64, p)),
        base_at(p, 0x40, cursor) == Ok::<(u64, Position), Halt>((cursor.region_start() as u64, p)),
{
}

/// An aligned number is relative to nothing, and stands at the next address that is a
/// multiple of the size of an address.
pub proof fn law_aligned_numbers(p: Position, cursor: Cursor, pad: nat)
    requires
        pad < word_size(),
        (p.addr + pad) % word_size() as int == 0,
    ensures
        padding(p.addr) == pad,
        p.addr + pad > usize::MAX ==> base_at(p, 0x50, cursor) == Err::<(u64, Position), Halt>(
            Halt::Fault(Fault::Overflow),
        ),
        p.addr + pad <= usize::MAX && pad > p.bytes.len() ==> base_at(p, 0x50, cursor) == Err::<
            (u64, Position),
            Halt,
        >(Halt::Failed(UnwindError::Malformed)),
        p.addr + pad <= usize::MAX && pad <= p.bytes.len() ==> base_at(p, 0x50, cursor) == Ok::<
            (u64, Position),
            Halt,
        >((0, p.after(pad))),
{
    let addr = p.addr as int;
    assert(word_size() == 4 || word_size() == 8);
    if word_size() == 4 {
        assert(padding(p.addr) == pad) by (nonlinear_arith)
            requires
                padding(p.addr) == (if addr % 4 == 0 { 0int } else { 4 - addr % 4 }),
                pad < 4,
                (addr + pad) % 4 == 0,
        ;
    } else {
        assert(padding(p.addr) == pad) by (nonlinear_arith)
            requires
                padding(p.addr) == (if addr % 8 == 0 { 0int } else { 8 - addr % 8 }),
                pad < 8,
                (addr + pad) % 8 == 0,
        ;
    }
}

/// A pointer is its base and its number, added without regard to overflow. It is indirect
/// where the highest bit of its encoding is set. What is wrong with its base or its number
/// is wrong with it.
pub proof fn law_pointers_are_base_and_number(
    p: Position,
    e: PointerEncoding,
    cursor: Cursor,
)
    ensures
        e.0 == 0xff ==> pointer_at(p, e, cursor) == Err::<(Pointer, Position), Halt>(
            Halt::Failed(UnwindError::CannotParseOmitPointerEncoding),
        ),
        e.0 != 0xff ==> match base_at(p, e.0 & 0x70, cursor) {
            Err(halt) => pointer_at(p, e, cursor) == Err::<(Pointer, Position), Halt>(halt),
            Ok((base, q)) => match q.number(e.0 & 0x0f) {
                Err(error) => pointer_at(p, e, cursor) == Err::<(Pointer, Position), Halt>(
                    Halt::Failed(error),
                ),
                Ok((number, rest)) => {
                    let sum = base.wrapping_add(number);
                    &&& e.0 & 0x80 == 0 ==> pointer_at(p, e, cursor) == Ok::<
                        (Pointer, Position),
                        Halt,
                    >((Pointer::Direct(sum), rest))
                    &&& e.0 & 0x80 != 0 ==> pointer_at(p, e, cursor) == Ok::<
                        (Pointer, Position),
                        Halt,
                    >((Pointer::Indirect(sum), rest))
                },
            },
        },
{
}

/// The address that a pointer leads to is its own, or the word of memory at it.
pub proof fn law_addresses_are_followed(
    p: Position,
    e: PointerEncoding,
    cursor: Cursor,
    words: Words,
)
    ensures
        match pointer_at(p, e, cursor) {
            Err(halt) => address_at(p, e, cursor, words) == Err::<(usize, Position), Halt>(halt),
            Ok((Pointer::Direct(x), rest)) => address_at(p, e, cursor, words) == Ok::<
                (usize, Position),
                Halt,
            >((x as usize, rest)),
            Ok((Pointer::Indirect(x), rest)) => {
                &&& words.contains_key(x as usize) ==> address_at(p, e, cursor, words) == Ok::<
                    (usize, Position),
                    Halt,
                >((words[x as usize], rest))
                &&& !words.contains_key(x as usize) ==> address_at(p, e, cursor, words) == Err::<
                    (usize, Position),
                    Halt,
                >(Halt::Missing(x as usize))
            },
        },
{
}

/// A call site is four numbers in a row: its start, its length and its landing pad in the
/// encoding of the table, and its action in LEB128.
pub proof fn law_call_sites_are_read(
    p: Position,
    e: PointerEncoding,
    cursor: Cursor,
    words: Words,
    site: CallSite,
    rest: Position,
)
    ensures
        call_site_at(p, e, cursor, words) == Ok::<(CallSite, Position), Halt>((site, rest)) <==> {
            &&& address_at(p, e, cursor, words) matches Ok((start, q))
            &&& address_at(q, e, cursor, words) matches Ok((len, q))
            &&& address_at(q, e, cursor, words) matches Ok((lpad, q))
            &&& q.number(0x01) matches Ok((action, q))
            &&& site.start == start && site.len == len && site.lpad == lpad && site.action == action
            &&& rest == q
        },
{
}

/// What is wrong with a call site is what is wrong with the first of its numbers that
/// cannot be read.
pub proof fn law_call_sites_that_cannot_be_read(
    p: Position,
    e: PointerEncoding,
    cursor: Cursor,
    words: Words,
)
    ensures
        match address_at(p, e, cursor, words) {
            Err(halt) => call_site_at(p, e, cursor, words) == Err::<(CallSite, Position), Halt>(
                halt,
            ),
            Ok((_, q)) => match address_at(q, e, cursor, words) {
                Err(halt) => call_site_at(p, e, cursor, words) == Err::<(CallSite, Position), Halt>(
                    halt,
                ),
                Ok((_, q)) => match address_at(q, e, cursor, words) {
                    Err(halt) => call_site_at(p, e, cursor, words) == Err::<
                        (CallSite, Position),
                        Halt,
                    >(halt),
                    Ok((_, q)) => q.number(0x01) matches Err(error) ==> call_site_at(
                        p,
                        e,
                        cursor,
                        words,
                    ) == Err::<(CallSite, Position), Halt>(Halt::Failed(error)),
                },
            },
        },
{
}

/// The header of an LSDA is an encoding with the base of landing pads, which is the start of
/// the function where it is left out; an encoding with the place of the type table, which
/// is passed over; and the encoding of the call sites with the length of their table. The
/// call sites follow, and behind them the actions.
pub proof fn law_headers_are_read(
    p: Position,
    base: usize,
    behind_base: Position,
    behind_types: Position,
    length: u64,
    table: Position,
    cursor: Cursor,
    words: Words,
)
    requires
        p.bytes.len() > 0,
        PointerEncoding(p.bytes[0]).valid(),
        p.bytes[0] == 0xff ==> base == cursor.region_start() && behind_base == p.after(1),
        p.bytes[0] != 0xff ==> address_at(p.after(1), PointerEncoding(p.bytes[0]), cursor, words)
            == Ok::<(usize, Position), Halt>((base, behind_base)),
        behind_base.bytes.len() > 0,
        PointerEncoding(behind_base.bytes[0]).valid(),
        behind_base.bytes[0] == 0xff ==> behind_types == behind_base.after(1),
        behind_base.bytes[0] != 0xff ==> (behind_base.after(1).number(0x01) matches Ok((_, rest))
            && rest == behind_types),
        behind_types.bytes.len() > 0,
        PointerEncoding(behind_types.bytes[0]).valid(),
        behind_types.after(1).number(0x01) == Ok::<(u64, Position), UnwindError>((length, table)),
    ensures
        length as usize <= table.bytes.len() ==> header_at(p, cursor, words) == Ok::<
            HeaderModel,
            Halt,
        >(
            HeaderModel {
                lpad_base: base,
                encoding: PointerEncoding(behind_types.bytes[0]),
                call_sites: Position {
                    bytes: table.bytes.take(length as usize as int),
                    addr: table.addr,
                    order: table.order,
                },
                actions: table.after(length as usize as nat),
            },
        ),
        length as usize > table.bytes.len() ==> header_at(p, cursor, words) == Err::<
            HeaderModel,
            Halt,
        >(Halt::Fault(Fault::OutOfBounds)),
{
}

/// A header fails with the first of its parts that cannot be read.
pub proof fn law_headers_that_cannot_be_read(p: Position, cursor: Cursor, words: Words)
    ensures
        encoding_at(p) matches Err(error) ==> header_at(p, cursor, words) == Err::<
            HeaderModel,
            Halt,
        >(Halt::Failed(error)),
        encoding_at(p) matches Ok((e, q)) ==> e.0 != 0xff ==> (address_at(
            q,
            e,
            cursor,
            words,
        ) matches Err(halt) ==> header_at(p, cursor, words) == Err::<HeaderModel, Halt>(halt)),
        lpad_base_at(p, cursor, words) matches Ok((_, q)) ==> {
            &&& encoding_at(q) matches Err(error) ==> header_at(p, cursor, words) == Err::<
                HeaderModel,
                Halt,
            >(Halt::Failed(error))
            &&& encoding_at(q) matches Ok((e, q)) ==> e.0 != 0xff ==> (q.number(
                0x01,
            ) matches Err(error) ==> header_at(p, cursor, words) == Err::<HeaderModel, Halt>(
                Halt::Failed(error),
            ))
            &&& behind_type_table(q) matches Ok(q) ==> {
                &&& encoding_at(q) matches Err(error) ==> header_at(p, cursor, words) == Err::<
                    HeaderModel,
                    Halt,
                >(Halt::Failed(error))
                &&& encoding_at(q) matches Ok((_, q)) ==> (q.number(0x01) matches Err(error)
                    ==> header_at(p, cursor, words) == Err::<HeaderModel, Halt>(
                    Halt::Failed(error),
                ))
            }
        },
{
}

/// The parts of a header are read one behind the other.
pub proof fn law_parts_of_a_header(p: Position, cursor: Cursor, words: Words)
    ensures
        encoding_at(p) matches Err(error) ==> lpad_base_at(p, cursor, words) == Err::<
            (usize, Position),
            Halt,
        >(Halt::Failed(error)) && behind_type_table(p) == Err::<Position, UnwindError>(error)
            && call_site_table_at(p) == Err::<(PointerEncoding, u64, Position), UnwindError>(error),
        encoding_at(p) matches Ok((e, q)) ==> {
            &&& e.0 == 0xff ==> lpad_base_at(p, cursor, words) == Ok::<(usize, Position), Halt>(
                (cursor.region_start(), q),
            )
            &&& e.0 != 0xff ==> lpad_base_at(p, cursor, words) == address_at(q, e, cursor, words)
            &&& e.0 == 0xff ==> behind_type_table(p) == Ok::<Position, UnwindError>(q)
            &&& match q.number(0x01) {
                Err(error) => {
                    &&& e.0 != 0xff ==> behind_type_table(p) == Err::<Position, UnwindError>(error)
                    &&& call_site_table_at(p) == Err::<
                        (PointerEncoding, u64, Position),
                        UnwindError,
                    >(error)
                },
                Ok((number, rest)) => {
                    &&& e.0 != 0xff ==> behind_type_table(p) == Ok::<Position, UnwindError>(rest)
                    &&& call_site_table_at(p) == Ok::<
                        (PointerEncoding, u64, Position),
                        UnwindError,
                    >((e, number, rest))
                },
            }
        },
{
}

/// A call site without a landing pad has nothing to be done. Else its pad is that far from
/// the base of landing pads. It is a cleanup where it has no action, or one with the type
/// index 0; a catch where the index is positive, and a filter where it is negative. The
/// index is the number at the action's place, counted from 1.
pub proof fn law_call_sites_say_what_is_done(
    site: CallSite,
    base: usize,
    actions: Position,
    pad: usize,
    index: int,
    len: nat,
)
    ensures
        site.lpad == 0 ==> site_action(site, base, actions) == Ok::<EHAction, Halt>(
            EHAction::Nothing,
        ),
        site.lpad != 0 && base + site.lpad > usize::MAX ==> site_action(site, base, actions)
            == Err::<EHAction, Halt>(Halt::Fault(Fault::Overflow)),
        site.lpad != 0 && pad == base + site.lpad ==> {
            let before = (site.action - 1) as usize;
            &&& site.action == 0 ==> site_action(site, base, actions) == Ok::<EHAction, Halt>(
                EHAction::Cleanup(pad),
            )
            &&& site.action != 0 && before > actions.bytes.len() ==> site_action(
                site,
                base,
                actions,
            ) == Err::<EHAction, Halt>(Halt::Failed(UnwindError::Malformed))
            &&& site.action != 0 && before <= actions.bytes.len() ==> {
                let found = sleb128(actions.bytes.skip(before as int), 0);
                &&& found is None ==> site_action(site, base, actions) == Err::<EHAction, Halt>(
                    Halt::Failed(UnwindError::Malformed),
                )
                &&& found == Some((index, len)) && index == 0 ==> site_action(site, base, actions)
                    == Ok::<EHAction, Halt>(EHAction::Cleanup(pad))
                &&& found == Some((index, len)) && index > 0 ==> site_action(site, base, actions)
                    == Ok::<EHAction, Halt>(EHAction::Catch(pad))
                &&& found == Some((index, len)) && index < 0 ==> site_action(site, base, actions)
                    == Ok::<EHAction, Halt>(EHAction::Filter(pad))
            }
        },
{
}

/// The call sites are tried in turn. One that starts above the address ends the search, one
/// that covers it decides, and behind any other the next one is tried. At the end of the
/// table nothing may unwind.
pub proof fn law_call_sites_are_tried_in_turn(
    table: Position,
    header: HeaderModel,
    ip: usize,
    cursor: Cursor,
    words: Words,
    site: CallSite,
    rest: Position,
)
    ensures
        table.bytes.len() == 0 ==> table_action(table, header, ip, cursor, words) == Ok::<
            EHAction,
            Halt,
        >(EHAction::Terminate),
        table.bytes.len() > 0 ==> (call_site_at(
            table,
            header.encoding,
            cursor,
            words,
        ) matches Err(halt) ==> table_action(table, header, ip, cursor, words) == Err::<
            EHAction,
            Halt,
        >(halt)),
        table.bytes.len() > 0 && call_site_at(table, header.encoding, cursor, words) == Ok::<
            (CallSite, Position),
            Halt,
        >((site, rest)) ==> {
            let start = cursor.region_start() + site.start;
            let end = start + site.len;
            &&& ip < start <= usize::MAX ==> table_action(table, header, ip, cursor, words) == Ok::<
                EHAction,
                Halt,
            >(EHAction::Terminate)
            &&& start > usize::MAX || (start <= ip && end > usize::MAX) ==> table_action(
                table,
                header,
                ip,
                cursor,
                words,
            ) == Err::<EHAction, Halt>(Halt::Fault(Fault::Overflow))
            &&& start <= ip < end <= usize::MAX ==> table_action(table, header, ip, cursor, words)
                == site_action(site, header.lpad_base, header.actions)
            &&& end <= ip && rest.bytes.len() < table.bytes.len() ==> table_action(
                table,
                header,
                ip,
                cursor,
                words,
            ) == table_action(rest, header, ip, cursor, words)
        },
{
}

/// The address that is looked up is the one that a signal has interrupted, or else the one
/// below the return address, which is inside the call.
pub proof fn law_lookups_are_inside_the_call(cursor: Cursor)
    ensures
        cursor.signal ==> lookup_ip(cursor) == Ok::<usize, Halt>(cursor.regs[30]),
        !cursor.signal && cursor.regs[30] > 0 ==> (lookup_ip(cursor) matches Ok(ip) && ip + 1
            == cursor.regs[30]),
        !cursor.signal && cursor.regs[30] == 0 ==> lookup_ip(cursor) == Err::<usize, Halt>(
            Halt::Fault(Fault::Overflow),
        ),
{
}

/// What an LSDA says of a frame is what its call sites say of the address that is looked
/// up.
pub proof fn law_lsdas_are_looked_up(
    lsda: Position,
    cursor: Cursor,
    words: Words,
    header: HeaderModel,
    ip: usize,
)
    ensures
        lookup_ip(cursor) matches Err(halt) ==> eh_action(lsda, cursor, words) == Err::<
            EHAction,
            Halt,
        >(halt),
        lookup_ip(cursor) is Ok ==> (header_at(lsda, cursor, words) matches Err(halt) ==> eh_action(
            lsda,
            cursor,
            words,
        ) == Err::<EHAction, Halt>(halt)),
        lookup_ip(cursor) == Ok::<usize, Halt>(ip) && header_at(lsda, cursor, words) == Ok::<
            HeaderModel,
            Halt,
        >(header) ==> eh_action(lsda, cursor, words) == table_action(
            header.call_sites,
            header,
            ip,
            cursor,
            words,
        ),
{
}

/// What the personality routine does, by what the LSDA says and by the flags 1 for the
/// search and 8 for a forced unwind, whatever other flags there are. In the search a catch
/// or a filter is the handler, and nothing is entered. Outside it a cleanup or a catch is
/// entered, at exactly its pad, and so is a filter unless the unwind is forced. Where
/// nothing may unwind, the phase fails.
pub proof fn law_pads_are_entered_by_the_table(flags: UnwindAction, pad: usize)
    ensures
        flags.0 & 1 != 0 ==> {
            &&& judgement(EHAction::Nothing, flags) == (UnwindReasonCode(8), None::<usize>)
            &&& judgement(EHAction::Cleanup(pad), flags) == (UnwindReasonCode(8), None::<usize>)
            &&& judgement(EHAction::Catch(pad), flags) == (UnwindReasonCode(6), None::<usize>)
            &&& judgement(EHAction::Filter(pad), flags) == (UnwindReasonCode(6), None::<usize>)
            &&& judgement(EHAction::Terminate, flags) == (UnwindReasonCode(3), None::<usize>)
        },
        flags.0 & 1 == 0 ==> {
            &&& judgement(EHAction::Nothing, flags) == (UnwindReasonCode(8), None::<usize>)
            &&& judgement(EHAction::Cleanup(pad), flags) == (UnwindReasonCode(7), Some(pad))
            &&& judgement(EHAction::Catch(pad), flags) == (UnwindReasonCode(7), Some(pad))
            &&& flags.0 & 8 == 0 ==> judgement(EHAction::Filter(pad), flags) == (
                UnwindReasonCode(7),
                Some(pad),
            )
            &&& flags.0 & 8 != 0 ==> judgement(EHAction::Filter(pad), flags) == (
                UnwindReasonCode(8),
                None::<usize>,
            )
            &&& judgement(EHAction::Terminate, flags) == (UnwindReasonCode(2), None::<usize>)
        },
{
}

/// Where a landing pad is entered, x0 holds the exception, x1 holds 0 and x30 the pad, and
/// all else is as it was. Where none is, all is.
pub proof fn law_only_the_pad_is_set_up(
    cursor: Cursor,
    exception: usize,
    pad: usize,
    other: u16,
)
    ensures
        ({
            let entered = entering(cursor, exception, Some(pad));
            &&& entered.regs[0] == exception
            &&& entered.regs[1] == 0
            &&& entered.regs[30] == pad
            &&& other != 0 && other != 1 && other != 30 ==> entered.regs[other]
                == cursor.regs[other]
            &&& entered.frame == cursor.frame
            &&& entered.signal == cursor.signal
        }),
        entering(cursor, exception, None) == cursor,
{
}

/// The personality routine knows version 1 alone. It passes a frame without an LSDA. Else
/// it does what the LSDA says, read at its own address. An LSDA that is in error is a
/// failure of the phase, and whatever else stops it stops the routine.
pub proof fn law_personality_goes_by_the_lsda(
    version: c_int,
    flags: UnwindAction,
    cursor: Cursor,
    frame: FrameModel,
    lsda: Seq<u8>,
    order: ByteOrder,
    words: Words,
    addr: usize,
)
    ensures
        version != 1 ==> personality_outcome(version, flags, cursor, lsda, order, words) == Ok::<
            (UnwindReasonCode, Option<usize>),
            Halt,
        >(
            (
                UnwindReasonCode(
                    if flags.0 & 1 != 0 {
                        3
                    } else {
                        2
                    },
                ),
                None,
            ),
        ),
        version == 1 && cursor.frame is None ==> personality_outcome(
            version,
            flags,
            cursor,
            lsda,
            order,
            words,
        ) == Ok::<(UnwindReasonCode, Option<usize>), Halt>((UnwindReasonCode(8), None)),
        version == 1 && cursor.frame == Some(frame) ==> {
            let outcome = personality_outcome(version, flags, cursor, lsda, order, words);
            let said = eh_action(Position { bytes: lsda, addr, order }, cursor, words);
            &&& frame.lsda(words) matches Err(halt) ==> outcome == Err::<
                (UnwindReasonCode, Option<usize>),
                Halt,
            >(halt)
            &&& frame.lsda(words) == Ok::<usize, Halt>(0) ==> outcome == Ok::<
                (UnwindReasonCode, Option<usize>),
                Halt,
            >((UnwindReasonCode(8), None))
            &&& frame.lsda(words) == Ok::<usize, Halt>(addr) && addr != 0 ==> {
                &&& said matches Ok(action) ==> outcome == Ok::<
                    (UnwindReasonCode, Option<usize>),
                    Halt,
                >(judgement(action, flags))
                &&& said matches Err(Halt::Failed(_)) ==> outcome == Ok::<
                    (UnwindReasonCode, Option<usize>),
                    Halt,
                >(
                    (
                        UnwindReasonCode(
                            if flags.0 & 1 != 0 {
                                3
                            } else {
                                2
                            },
                        ),
                        None,
                    ),
                )
                &&& said matches Err(Halt::Missing(word)) ==> outcome == Err::<
                    (UnwindReasonCode, Option<usize>),
                    Halt,
                >(Halt::Missing(word))
                &&& said matches Err(Halt::Fault(fault)) ==> outcome == Err::<
                    (UnwindReasonCode, Option<usize>),
                    Halt,
                >(Halt::Fault(fault))
            }
        },
        fatal_error(flags) == UnwindReasonCode(
            if flags.0 & 1 != 0 {
                3
            } else {
                2
            },
        ),
{
}

/// What is read, or why nothing is, is shown as it is.
pub proof fn law_results_are_shown<T>(reader: Reader, v: T, halt: Halt)
    ensures
        halting_outcome(Ok((v, reader))) == Ok::<(T, Position), Halt>((v, reader@)),
        halting_outcome(Err::<(T, Reader), Halt>(halt)) == Err::<(T, Position), Halt>(halt),
{
}

} // verus!
