//! What holds of the personality routine, whatever the LSDA is.

use vstd::prelude::*;
use crate::abi::{c_int, UnwindAction, UnwindReasonCode};
use crate::arch::{Arch, Register};
use crate::encoding::{Pointer, PointerEncoding};
use crate::error::Halt;
use crate::memory::Words;
use crate::personality::{
    address_at, call_site_at, eh_action, entering, header_at, judgement, lemma_call_site_forward,
    lookup_ip, lpad_base_at, personality_outcome, pointer_at, site_action, table_action, CallSite, EHAction, HeaderModel,
};
use crate::reader::{lemma_leb128_len, sleb128, ByteOrder, Position};
use crate::unwinder::context::Cursor;
use crate::unwinder::frame_laws::{law_pointers_stable, stable};

verus! {

/// All call sites in `table` that can be read, and why no more can where the table goes on.
pub open spec fn call_sites(
    table: Position,
    encoding: PointerEncoding,
    cursor: Cursor,
    words: Words,
) -> (Seq<CallSite>, Option<Halt>)
    decreases table.bytes.len(),
{
    if table.bytes.len() == 0 {
        (Seq::empty(), None)
    } else {
        match call_site_at(table, encoding, cursor, words) {
            Err(halt) => (Seq::empty(), Some(halt)),
            Ok((site, rest)) => if rest.bytes.len() < table.bytes.len() {
                let (sites, end) = call_sites(rest, encoding, cursor, words);
                (seq![site] + sites, end)
            } else {
                (seq![site], None)
            },
        }
    }
}

/// Whether `ip` is in the call site `site` of the function that starts at `func_start`.
pub open spec fn covers(site: CallSite, func_start: usize, ip: usize) -> bool {
    func_start + site.start <= ip < func_start + site.start + site.len
}

/// Whether the call site `site` ends in the address space.
pub open spec fn in_space(site: CallSite, func_start: usize) -> bool {
    func_start + site.start + site.len <= usize::MAX
}

/// Whether call sites are sorted by where they start.
pub open spec fn sorted(sites: Seq<CallSite>) -> bool {
    forall|i: int, j: int|
        0 <= i < j < sites.len() ==> (#[trigger] sites[i]).start <= (#[trigger] sites[j]).start
}

/// In a table whose call sites are sorted by where they start, the first call site that
/// covers an address decides what is done there.
pub proof fn law_call_site_decides(
    table: Position,
    header: HeaderModel,
    ip: usize,
    cursor: Cursor,
    words: Words,
    i: int,
)
    requires
        ({
            let sites = call_sites(table, header.encoding, cursor, words).0;
            &&& sorted(sites)
            &&& 0 <= i < sites.len()
            &&& covers(sites[i], cursor.region_start(), ip)
            &&& forall|j: int|
                0 <= j < i ==> !covers(#[trigger] sites[j], cursor.region_start(), ip)
            &&& forall|j: int|
                0 <= j <= i ==> in_space(#[trigger] sites[j], cursor.region_start())
        }),
    ensures
        table_action(table, header, ip, cursor, words) == site_action(
            call_sites(table, header.encoding, cursor, words).0[i],
            header.lpad_base,
            header.actions,
        ),
    decreases table.bytes.len(),
{
    let sites = call_sites(table, header.encoding, cursor, words).0;
    let func_start = cursor.region_start();
    let (site, rest) = call_site_at(table, header.encoding, cursor, words)->Ok_0;
    assert(sites[0] == site);
    assert(in_space(sites[0], func_start));
    if i > 0 {
        let tail = call_sites(rest, header.encoding, cursor, words).0;
        assert(sites == seq![site] + tail);
        assert forall|k: int| 0 <= k < tail.len() implies #[trigger] tail[k] == sites[k + 1] by {}
        assert(!covers(sites[0], func_start, ip));
        assert(sites[0].start <= sites[i].start);
        law_call_site_decides(rest, header, ip, cursor, words, i - 1);
    }
}

/// An address that no call site covers is one that nothing may unwind from, whatever the
/// order of the call sites.
pub proof fn law_uncovered_terminates(
    table: Position,
    header: HeaderModel,
    ip: usize,
    cursor: Cursor,
    words: Words,
)
    requires
        ({
            let (sites, end) = call_sites(table, header.encoding, cursor, words);
            &&& end is None
            &&& forall|j: int|
                0 <= j < sites.len() ==> !covers(#[trigger] sites[j], cursor.region_start(), ip)
                    && in_space(sites[j], cursor.region_start())
        }),
    ensures
        table_action(table, header, ip, cursor, words) == Ok::<EHAction, Halt>(EHAction::Terminate),
    decreases table.bytes.len(),
{
    if table.bytes.len() > 0 {
        let sites = call_sites(table, header.encoding, cursor, words).0;
        let (site, rest) = call_site_at(table, header.encoding, cursor, words)->Ok_0;
        assert(sites[0] == site);
        assert(!covers(sites[0], cursor.region_start(), ip));
        if rest.bytes.len() < table.bytes.len() {
            let tail = call_sites(rest, header.encoding, cursor, words).0;
            assert(sites == seq![site] + tail);
            assert forall|k: int| 0 <= k < tail.len() implies #[trigger] tail[k] == sites[k
                + 1] by {}
            law_uncovered_terminates(rest, header, ip, cursor, words);
        }
    }
}

/// The type index at the place `action` of the action table `actions`, counted from 1.
pub open spec fn type_index(actions: Seq<u8>, action: u64) -> Option<int> {
    let before = (action - 1) as usize;
    if before > actions.len() {
        None
    } else {
        match sleb128(actions.skip(before as int), 0) {
            Some((index, _)) => Some(index),
            None => None,
        }
    }
}

/// Tables with the same call sites, type indices and base of landing pads say the same.
proof fn lemma_same_table_action(
    table: Position,
    header: HeaderModel,
    other: Position,
    other_header: HeaderModel,
    ip: usize,
    cursor: Cursor,
    words: Words,
)
    requires
        header.lpad_base == other_header.lpad_base,
        call_sites(table, header.encoding, cursor, words) == call_sites(
            other,
            other_header.encoding,
            cursor,
            words,
        ),
        ({
            let sites = call_sites(table, header.encoding, cursor, words).0;
            forall|i: int|
                0 <= i < sites.len() && (#[trigger] sites[i]).action != 0 ==> type_index(
                    header.actions.bytes,
                    sites[i].action,
                ) == type_index(other_header.actions.bytes, sites[i].action)
        }),
    ensures
        table_action(table, header, ip, cursor, words) == table_action(
            other,
            other_header,
            ip,
            cursor,
            words,
        ),
    decreases table.bytes.len(),
{
    lemma_call_site_forward(table, header.encoding, cursor, words);
    lemma_call_site_forward(other, other_header.encoding, cursor, words);
    let (sites, end) = call_sites(table, header.encoding, cursor, words);
    if sites.len() > 0 {
        let (site, rest) = call_site_at(table, header.encoding, cursor, words)->Ok_0;
        let (other_site, other_rest) = call_site_at(
            other,
            other_header.encoding,
            cursor,
            words,
        )->Ok_0;
        let tail = call_sites(rest, header.encoding, cursor, words).0;
        let other_tail = call_sites(other_rest, other_header.encoding, cursor, words).0;
        assert(sites == seq![site] + tail);
        assert(sites == seq![other_site] + other_tail);
        assert(sites[0] == site && sites[0] == other_site);
        assert forall|k: int| 0 <= k < tail.len() implies #[trigger] tail[k] == sites[k + 1] by {}
        assert(tail =~= other_tail) by {
            assert forall|k: int| 0 <= k < tail.len() implies tail[k] == other_tail[k] by {
                assert(sites[k + 1] == other_tail[k]);
            }
        }
        lemma_same_table_action(rest, header, other_rest, other_header, ip, cursor, words);
    }
}

/// What an LSDA says is done depends on its base of landing pads, its call sites and the
/// type indices of its action table. Where its type table stands, and what is in it, is
/// never read.
pub proof fn law_type_table_is_never_read(
    lsda: Position,
    header: HeaderModel,
    other: Position,
    other_header: HeaderModel,
    cursor: Cursor,
    words: Words,
)
    requires
        header_at(lsda, cursor, words) == Ok::<HeaderModel, Halt>(header),
        header_at(other, cursor, words) == Ok::<HeaderModel, Halt>(other_header),
        header.lpad_base == other_header.lpad_base,
        call_sites(header.call_sites, header.encoding, cursor, words) == call_sites(
            other_header.call_sites,
            other_header.encoding,
            cursor,
            words,
        ),
        ({
            let sites = call_sites(header.call_sites, header.encoding, cursor, words).0;
            forall|i: int|
                0 <= i < sites.len() && (#[trigger] sites[i]).action != 0 ==> type_index(
                    header.actions.bytes,
                    sites[i].action,
                ) == type_index(other_header.actions.bytes, sites[i].action)
        }),
    ensures
        eh_action(lsda, cursor, words) == eh_action(other, cursor, words),
{
    if let Ok(ip) = lookup_ip(cursor) {
        lemma_same_table_action(
            header.call_sites,
            header,
            other_header.call_sites,
            other_header,
            ip,
            cursor,
            words,
        );
    }
}

/// A number depends on its own bytes alone.
proof fn lemma_sleb128_prefix(
    bytes: Seq<u8>,
    other: Seq<u8>,
    place: nat,
    number: int,
    len: nat,
)
    requires
        sleb128(bytes, place) == Some((number, len)),
        len <= other.len(),
        forall|k: int| 0 <= k < len ==> #[trigger] bytes[k] == other[k],
    ensures
        sleb128(other, place) == Some((number, len)),
    decreases bytes.len(),
{
    if bytes[0] >= 128 {
        let rest = bytes.drop_first();
        let (inner, inner_len) = sleb128(rest, place + 1)->0;
        lemma_leb128_len(rest, place + 1);
        assert(bytes[0] == other[0]);
        assert forall|k: int| 0 <= k < inner_len implies #[trigger] rest[k]
            == other.drop_first()[k] by {
            assert(bytes[k + 1] == other[k + 1]);
        }
        lemma_sleb128_prefix(rest, other.drop_first(), place + 1, inner, inner_len);
    } else {
        assert(bytes[0] == other[0]);
    }
}

/// Bytes behind the action table, which takes `n` bytes, are never read: there the type
/// table stands.
pub proof fn law_action_table_is_enough(
    lsda: Position,
    header: HeaderModel,
    other: Position,
    other_header: HeaderModel,
    cursor: Cursor,
    words: Words,
    n: int,
)
    requires
        header_at(lsda, cursor, words) == Ok::<HeaderModel, Halt>(header),
        header_at(other, cursor, words) == Ok::<HeaderModel, Halt>(other_header),
        header.lpad_base == other_header.lpad_base,
        call_sites(header.call_sites, header.encoding, cursor, words) == call_sites(
            other_header.call_sites,
            other_header.encoding,
            cursor,
            words,
        ),
        0 <= n <= header.actions.bytes.len(),
        n <= other_header.actions.bytes.len(),
        header.actions.bytes.take(n) == other_header.actions.bytes.take(n),
        ({
            let sites = call_sites(header.call_sites, header.encoding, cursor, words).0;
            forall|i: int|
                0 <= i < sites.len() && (#[trigger] sites[i]).action != 0 ==> {
                    let before = (sites[i].action - 1) as usize;
                    &&& before <= n
                    &&& sleb128(header.actions.bytes.skip(before as int), 0) matches Some((_, len))
                    &&& before + len <= n
                }
        }),
    ensures
        eh_action(lsda, cursor, words) == eh_action(other, cursor, words),
{
    let sites = call_sites(header.call_sites, header.encoding, cursor, words).0;
    let bytes = header.actions.bytes;
    let others = other_header.actions.bytes;
    assert forall|i: int| 0 <= i < sites.len() && (#[trigger] sites[i]).action != 0 implies type_index(
        bytes,
        sites[i].action,
    ) == type_index(others, sites[i].action) by {
        let before = (sites[i].action - 1) as usize as int;
        let (a, b) = (bytes.skip(before), others.skip(before));
        assert forall|k: int| 0 <= k < n - before implies #[trigger] a[k] == b[k] by {
            assert(bytes.take(n)[before + k] == others.take(n)[before + k]);
        }
        let (index, len) = sleb128(a, 0)->0;
        lemma_sleb128_prefix(a, b, 0, index, len);
    }
    law_type_table_is_never_read(lsda, header, other, other_header, cursor, words);
}

/// The personality routine lets a frame enter a landing pad exactly where it gives the
/// code that says so, and never in the search phase.
pub proof fn law_pad_entered_iff_installed(action: EHAction, actions: UnwindAction)
    ensures
        judgement(action, actions).1 is Some <==> judgement(action, actions).0
            == UnwindReasonCode::install_context(),
        actions.contains(UnwindAction::search_phase()) ==> judgement(action, actions).1 is None,
{
}

/// Where the personality routine fails, its code is that of the phase that it is called
/// for, whatever has gone wrong.
pub proof fn law_errors_name_their_phase(
    version: c_int,
    actions: UnwindAction,
    cursor: Cursor,
    lsda: Seq<u8>,
    order: ByteOrder,
    words: Words,
)
    ensures
        personality_outcome(version, actions, cursor, lsda, order, words) matches Ok((code, _)) ==> {
            &&& code == UnwindReasonCode::fatal_phase1_error() ==> actions.contains(
                UnwindAction::search_phase(),
            )
            &&& code == UnwindReasonCode::fatal_phase2_error() ==> !actions.contains(
                UnwindAction::search_phase(),
            )
        },
{
}

/// Where the personality routine has found its frame to be the handler in the search
/// phase, it lets the frame enter a landing pad in the cleanup phase, unless the unwind
/// is forced: with the same frame, the same LSDA and the same memory it does not change
/// its mind.
pub proof fn law_handler_keeps_its_word(
    cursor: Cursor,
    lsda: Seq<u8>,
    order: ByteOrder,
    words: Words,
    search: UnwindAction,
    cleanup: UnwindAction,
    found: Option<usize>,
)
    requires
        search.contains(UnwindAction::search_phase()),
        personality_outcome(1, search, cursor, lsda, order, words) == Ok::<
            (UnwindReasonCode, Option<usize>),
            Halt,
        >((UnwindReasonCode::handler_found(), found)),
        !cleanup.contains(UnwindAction::search_phase()),
        !cleanup.contains(UnwindAction::force_unwind()),
    ensures
        found is None,
        personality_outcome(1, cleanup, cursor, lsda, order, words) matches Ok((code, lpad)) && code
            == UnwindReasonCode::install_context() && lpad is Some,
{
}

/// The bit for indirect pointers changes only what the number at a place is taken for:
/// with it the number is the address of the word that holds the pointer, and not the
/// pointer itself. What is read, and what is wrong with it, stays the same.
pub proof fn law_indirect_bit_changes_only_the_variant(
    p: Position,
    encoding: PointerEncoding,
    cursor: Cursor,
    address: u64,
    rest: Position,
)
    requires
        encoding.valid(),
        !encoding.absent(),
        !encoding.indirect(),
    ensures
        ({
            let direct = pointer_at(p, encoding, cursor);
            let marked = PointerEncoding(encoding.0 | 0x80);
            let indirect = pointer_at(p, marked, cursor);
            &&& marked.valid() && !marked.absent() && marked.indirect()
            &&& direct == Ok::<(Pointer, Position), Halt>((Pointer::Direct(address), rest))
                <==> indirect == Ok::<(Pointer, Position), Halt>(
                (Pointer::Indirect(address), rest),
            )
            &&& direct matches Ok((pointer, _)) ==> pointer is Direct
            &&& direct matches Err(halt) ==> indirect == Err::<(Pointer, Position), Halt>(halt)
            &&& indirect matches Err(halt) ==> direct == Err::<(Pointer, Position), Halt>(halt)
        }),
{
    let b = encoding.0;
    assert((b | 0x80) & 0x0f == b & 0x0f && (b | 0x80) & 0x70 == b & 0x70) by (bit_vector);
    assert((b | 0x80) & 0x80 != 0) by (bit_vector);
    assert(b | 0x80 == 0xff ==> b & 0x0f == 0x0f) by (bit_vector);
}

/// In a landing pad the first data register holds the exception and the second one 0.
/// No other register is changed.
pub proof fn law_landing_pad_registers(
    cursor: Cursor,
    exception: usize,
    lpad: usize,
    other: Register,
)
    ensures
        entering(cursor, exception, Some(lpad)).regs[Arch::UNWIND_DATA_REG_0] == exception,
        entering(cursor, exception, Some(lpad)).regs[Arch::UNWIND_DATA_REG_1] == 0,
        entering(cursor, exception, Some(lpad)).regs[Arch::RA] == lpad,
        other != Arch::UNWIND_DATA_REG_0 && other != Arch::UNWIND_DATA_REG_1 && other != Arch::RA
            ==> entering(cursor, exception, Some(lpad)).regs[other] == cursor.regs[other],
        entering(cursor, exception, Some(lpad)).frame == cursor.frame,
{
}

proof fn lemma_call_site_stable(
    p: Position,
    encoding: PointerEncoding,
    cursor: Cursor,
    words: Words,
    more: Words,
)
    requires
        words.submap_of(more),
    ensures
        stable(
            call_site_at(p, encoding, cursor, words),
            call_site_at(p, encoding, cursor, more),
            words,
        ),
{
    assert(stable(
        address_at(p, encoding, cursor, words),
        address_at(p, encoding, cursor, more),
        words,
    ));
    if let Ok((_, q)) = address_at(p, encoding, cursor, words) {
        assert(stable(
            address_at(q, encoding, cursor, words),
            address_at(q, encoding, cursor, more),
            words,
        ));
        if let Ok((_, q)) = address_at(q, encoding, cursor, words) {
            assert(stable(
                address_at(q, encoding, cursor, words),
                address_at(q, encoding, cursor, more),
                words,
            ));
        }
    }
}

proof fn lemma_table_action_stable(
    table: Position,
    header: HeaderModel,
    ip: usize,
    cursor: Cursor,
    words: Words,
    more: Words,
)
    requires
        words.submap_of(more),
    ensures
        stable(
            table_action(table, header, ip, cursor, words),
            table_action(table, header, ip, cursor, more),
            words,
        ),
    decreases table.bytes.len(),
{
    if table.bytes.len() > 0 {
        lemma_call_site_stable(table, header.encoding, cursor, words, more);
        if let Ok((_, rest)) = call_site_at(table, header.encoding, cursor, words) {
            if rest.bytes.len() < table.bytes.len() {
                lemma_table_action_stable(rest, header, ip, cursor, words, more);
            }
        }
    }
}

proof fn lemma_eh_action_stable(p: Position, cursor: Cursor, words: Words, more: Words)
    requires
        words.submap_of(more),
    ensures
        stable(eh_action(p, cursor, words), eh_action(p, cursor, more), words),
{
    assert(stable(lpad_base_at(p, cursor, words), lpad_base_at(p, cursor, more), words));
    assert(stable(header_at(p, cursor, words), header_at(p, cursor, more), words));
    if let (Ok(ip), Ok(header)) = (lookup_ip(cursor), header_at(p, cursor, words)) {
        lemma_table_action_stable(header.call_sites, header, ip, cursor, words, more);
    }
}

/// The personality routine asks only for words that are not known yet, and knowing
/// more of memory changes nothing that it has come to.
pub proof fn law_personality_stable(
    version: c_int,
    actions: UnwindAction,
    cursor: Cursor,
    lsda: Seq<u8>,
    order: ByteOrder,
    words: Words,
    more: Words,
)
    requires
        words.submap_of(more),
    ensures
        stable(
            personality_outcome(version, actions, cursor, lsda, order, words),
            personality_outcome(version, actions, cursor, lsda, order, more),
            words,
        ),
{
    if let Some(frame) = cursor.frame {
        law_pointers_stable(frame, words, more);
    }
    if let Ok(addr) = cursor.lsda(words) {
        lemma_eh_action_stable(Position { bytes: lsda, addr, order }, cursor, words, more);
    }
}

} // verus!
