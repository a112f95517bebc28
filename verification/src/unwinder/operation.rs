//! The operations of the DWARF expressions in the frame table: where each of them leads,
//! and the sizes of the pieces that they ask for.

use vstd::prelude::*;
use vstd::slice::slice_subrange;
use crate::reader::{law_leb128_fits, uleb128, word_size, ByteOrder, Reader};
use crate::unwinder::table::Encoding;

verus! {

/// The operation that says how many bytes a piece of the result takes.
pub const DW_OP_PIECE: u8 = 0x93;

/// Whether an operation goes on at a place that is given by an offset from its end.
#[derive(Clone, Copy, PartialEq, Eq, Structural, Debug)]
pub enum Jump {
    /// It never does.
    Never,
    /// It always does.
    Always(i16),
    /// It does so or not, depending on a value.
    Perhaps(i16),
}

/// An operation.
#[derive(Clone, Copy, PartialEq, Eq, Structural, Debug)]
pub struct Operation {
    /// How many bytes are left behind it.
    pub left: usize,
    /// Where it goes on.
    pub jump: Jump,
}

/// What `gimli::Operation::parse` reads at the start of `bytes`, on a machine whose
/// addresses take `word` bytes. How the bytes say so is left to `gimli`.
pub uninterp spec fn parsed_operation(
    bytes: Seq<u8>,
    order: ByteOrder,
    word: nat,
    encoding: Encoding,
) -> Option<Operation>;

/// Whether the size of the piece that stands in `bytes` fits in 64 bits, counted in bits.
pub open spec fn piece_fits(bytes: Seq<u8>) -> bool {
    uleb128(bytes, 0) matches Some((size, _)) ==> 8 * size <= u64::MAX
}

/// Whether what stands in `bytes` is no piece, or one whose size fits.
pub open spec fn operation_fits(bytes: Seq<u8>) -> bool {
    bytes.len() > 0 && bytes[0] == DW_OP_PIECE ==> piece_fits(bytes.skip(1))
}

/// `gimli::Operation::parse`: the operation at the start of `bytes`, or an error where
/// there is none. Which one it is depends on the arguments alone, and on how many bytes
/// an address of the machine takes. It takes at least one byte. The size of a piece is
/// counted in bits, in a number of 64 bits that may not overflow.
#[verifier::external_body]
fn parse_operation(bytes: &[u8], order: ByteOrder, encoding: Encoding) -> (r: Result<
    Operation,
    gimli::Error,
>)
    requires
        operation_fits(bytes@),
    ensures
        match r {
            Ok(operation) => parsed_operation(bytes@, order, word_size(), encoding) == Some(
                operation,
            ) && operation.left < bytes@.len(),
            Err(_) => parsed_operation(bytes@, order, word_size(), encoding) is None,
        },
{
    let Encoding { dwarf64, version, address_size } = encoding;
    let endian = match order {
        ByteOrder::Little => gimli::RunTimeEndian::Little,
        ByteOrder::Big => gimli::RunTimeEndian::Big,
    };
    let format = match dwarf64 { false => gimli::Format::Dwarf32, true => gimli::Format::Dwarf64 };
    let mut rest = gimli::EndianSlice::new(bytes, endian);
    let encoding = gimli::Encoding { format, version, address_size };
    let jump = match gimli::Operation::parse(&mut rest, encoding)? {
        gimli::Operation::Skip { target } => Jump::Always(target),
        gimli::Operation::Bra { target } => Jump::Perhaps(target),
        _ => Jump::Never,
    };
    Ok(Operation { left: rest.len(), jump })
}

/// Whether an evaluation of `program` can go on at `to` after the operation at `at`.
/// An operation that jumps depending on a value can do both.
pub open spec fn leads(
    program: Seq<u8>,
    order: ByteOrder,
    encoding: Encoding,
    at: int,
    to: int,
) -> bool {
    &&& 0 <= at < program.len()
    &&& 0 <= to <= program.len()
    &&& match parsed_operation(program.skip(at), order, word_size(), encoding) {
        Some(operation) => {
            let behind = program.len() - operation.left;
            match operation.jump {
                Jump::Never => to == behind,
                Jump::Always(offset) => to == behind + offset,
                Jump::Perhaps(offset) => to == behind || to == behind + offset,
            }
        },
        None => false,
    }
}

/// Whether an evaluation of `program` can stand at `at` after `n` operations.
pub open spec fn arrives(
    program: Seq<u8>,
    order: ByteOrder,
    encoding: Encoding,
    n: nat,
    at: int,
) -> bool
    decreases n,
{
    if n == 0 {
        at == 0
    } else {
        exists|from: int|
            arrives(program, order, encoding, (n - 1) as nat, from) && #[trigger] leads(
                program,
                order,
                encoding,
                from,
                at,
            )
    }
}

/// Whether an evaluation of `program` can come to `at`.
pub open spec fn reachable(
    program: Seq<u8>,
    order: ByteOrder,
    encoding: Encoding,
    at: int,
) -> bool {
    exists|n: nat| arrives(program, order, encoding, n, at)
}

/// Whether the sizes of all pieces that an evaluation of `program` can come to fit.
pub open spec fn pieces_fit(program: Seq<u8>, order: ByteOrder, encoding: Encoding) -> bool {
    forall|at: int|
        0 <= at < program.len() && #[trigger] reachable(program, order, encoding, at)
            ==> operation_fits(program.skip(at))
}

/// How many places were not seen.
spec fn unseen(seen: Seq<bool>) -> nat
    decreases seen.len(),
{
    if seen.len() == 0 {
        0
    } else {
        unseen(seen.drop_last()) + if seen.last() {
            0nat
        } else {
            1nat
        }
    }
}

proof fn lemma_all_unseen(seen: Seq<bool>)
    requires
        forall|i: int| 0 <= i < seen.len() ==> !seen[i],
    ensures
        unseen(seen) == seen.len(),
    decreases seen.len(),
{
    if seen.len() > 0 {
        lemma_all_unseen(seen.drop_last());
    }
}

proof fn lemma_one_more_seen(seen: Seq<bool>, i: int)
    requires
        0 <= i < seen.len(),
        !seen[i],
    ensures
        unseen(seen.update(i, true)) + 1 == unseen(seen),
    decreases seen.len(),
{
    let more = seen.update(i, true);
    if i == seen.len() - 1 {
        assert(more.drop_last() == seen.drop_last());
    } else {
        assert(more.drop_last() == seen.drop_last().update(i, true));
        lemma_one_more_seen(seen.drop_last(), i);
    }
}

/// Places are reached one from another.
proof fn lemma_reachable(
    program: Seq<u8>,
    order: ByteOrder,
    encoding: Encoding,
    from: int,
    to: int,
)
    ensures
        reachable(program, order, encoding, 0),
        reachable(program, order, encoding, from) && leads(program, order, encoding, from, to)
            ==> reachable(program, order, encoding, to),
{
    assert(arrives(program, order, encoding, 0, 0));
    if reachable(program, order, encoding, from) && leads(program, order, encoding, from, to) {
        let n = choose|n: nat| arrives(program, order, encoding, n, from);
        assert(arrives(program, order, encoding, n + 1, to));
    }
}

/// Whether the operation at `at` fits, and all places that it leads to were seen.
spec fn explored(
    program: Seq<u8>,
    order: ByteOrder,
    encoding: Encoding,
    seen: Seq<bool>,
    at: int,
) -> bool {
    &&& operation_fits(program.skip(at))
    &&& forall|to: int|
        0 <= to < seen.len() && #[trigger] leads(program, order, encoding, at, to) ==> seen[to]
}

/// Where all places that were seen are explored, all that can be reached were seen.
proof fn lemma_reachable_seen(
    program: Seq<u8>,
    order: ByteOrder,
    encoding: Encoding,
    seen: Seq<bool>,
    n: nat,
    at: int,
)
    requires
        seen.len() == program.len(),
        0 <= at < program.len(),
        seen[0],
        forall|p: int|
            0 <= p < seen.len() && #[trigger] seen[p] ==> explored(
                program,
                order,
                encoding,
                seen,
                p,
            ),
        arrives(program, order, encoding, n, at),
    ensures
        seen[at],
    decreases n,
{
    if n > 0 {
        let from = choose|from: int|
            arrives(program, order, encoding, (n - 1) as nat, from) && #[trigger] leads(
                program,
                order,
                encoding,
                from,
                at,
            );
        lemma_reachable_seen(program, order, encoding, seen, (n - 1) as nat, from);
        assert(explored(program, order, encoding, seen, from));
    }
}

/// The place that is `offset` bytes from `behind` in a program of `len` bytes.
fn jump_target(behind: usize, offset: i16, len: usize) -> (r: Option<usize>)
    requires
        behind <= len,
    ensures
        match r {
            Some(to) => to == behind + offset && to <= len,
            None => behind + offset < 0 || behind + offset > len,
        },
{
    if offset >= 0 {
        let ahead: usize = offset as usize;
        if ahead <= len - behind {
            Some(behind + ahead)
        } else {
            None
        }
    } else {
        let back: usize = (-(offset as i32)) as usize;
        if back <= behind {
            Some(behind - back)
        } else {
            None
        }
    }
}

/// Notes a place, unless it was seen or the program ends there.
fn note(seen: &mut Vec<bool>, queue: &mut Vec<usize>, place: Option<usize>)
    ensures
        match place {
            Some(to) if to < old(seen)@.len() && !old(seen)@[to as int] => {
                &&& final(seen)@ == old(seen)@.update(to as int, true)
                &&& final(queue)@ == old(queue)@.push(to)
            },
            _ => final(seen)@ == old(seen)@ && final(queue)@ == old(queue)@,
        },
{
    if let Some(to) = place {
        if to < seen.len() && !seen[to] {
            seen.set(to, true);
            queue.push(to);
        }
    }
}

/// Whether a search through `program` has come so far: the places in `queue` are those
/// that were seen, each can be reached, and the first `done` of them are explored.
spec fn searched(
    program: Seq<u8>,
    order: ByteOrder,
    encoding: Encoding,
    seen: Seq<bool>,
    queue: Seq<usize>,
    done: int,
) -> bool {
    &&& seen.len() == program.len()
    &&& 0 <= done <= queue.len()
    &&& queue.len() + unseen(seen) == program.len()
    &&& forall|k: int| #![trigger queue[k]]
        0 <= k < queue.len() ==> queue[k] < program.len() && seen[queue[k] as int] && reachable(
            program,
            order,
            encoding,
            queue[k] as int,
        )
    &&& forall|p: int|
        0 <= p < seen.len() && #[trigger] seen[p] ==> exists|k: int|
            0 <= k < queue.len() && #[trigger] queue[k] == p
    &&& forall|k: int|
        0 <= k < done ==> explored(program, order, encoding, seen, #[trigger] queue[k] as int)
}

/// Noting a place that the search can reach keeps it going.
proof fn lemma_noted(
    program: Seq<u8>,
    order: ByteOrder,
    encoding: Encoding,
    seen: Seq<bool>,
    queue: Seq<usize>,
    done: int,
    to: usize,
)
    requires
        searched(program, order, encoding, seen, queue, done),
        to < seen.len(),
        !seen[to as int],
        reachable(program, order, encoding, to as int),
    ensures
        searched(
            program,
            order,
            encoding,
            seen.update(to as int, true),
            queue.push(to),
            done,
        ),
{
    let more = seen.update(to as int, true);
    let longer = queue.push(to);
    lemma_one_more_seen(seen, to as int);
    assert forall|p: int| 0 <= p < more.len() && #[trigger] more[p] implies exists|k: int|
        0 <= k < longer.len() && #[trigger] longer[k] == p by {
        if p == to {
            assert(longer[queue.len() as int] == p);
        } else {
            assert(seen[p]);
            let k = choose|k: int| 0 <= k < queue.len() && #[trigger] queue[k] == p;
            assert(longer[k] == p);
        }
    }
    assert forall|k: int| 0 <= k < done implies explored(
        program,
        order,
        encoding,
        more,
        #[trigger] longer[k] as int,
    ) by {
        assert(explored(program, order, encoding, seen, queue[k] as int));
    }
}

/// The places that the operation at `at` leads to, which are two at most.
fn successors(program: &[u8], order: ByteOrder, encoding: Encoding, at: usize) -> (r: (
    Option<usize>,
    Option<usize>,
))
    requires
        at < program@.len(),
        operation_fits(program@.skip(at as int)),
    ensures
        forall|to: usize| #[trigger]
            leads(program@, order, encoding, at as int, to as int) <==> r.0 == Some(to) || r.1
                == Some(to),
{
    let rest = slice_subrange(program, at, program.len());
    assert(rest@ == program@.skip(at as int));
    match parse_operation(rest, order, encoding) {
        Err(_) => (None, None),
        Ok(operation) => {
            let behind: usize = program.len() - operation.left;
            match operation.jump {
                Jump::Never => (Some(behind), None),
                Jump::Always(offset) => (jump_target(behind, offset, program.len()), None),
                Jump::Perhaps(offset) => (
                    Some(behind),
                    jump_target(behind, offset, program.len()),
                ),
            }
        },
    }
}

/// Whether the operation at the start of `rest` is no piece, or one whose size fits.
fn check_operation(rest: &[u8], order: ByteOrder) -> (r: bool)
    ensures
        r == operation_fits(rest@),
{
    if rest.len() > 0 && rest[0] == DW_OP_PIECE {
        let number = slice_subrange(rest, 1, rest.len());
        assert(number@ == rest@.skip(1));
        proof {
            law_leb128_fits(number@);
        }
        match (Reader { bytes: number, addr: 0, order }).read_uleb128() {
            Ok((size, _)) => size <= u64::MAX / 8,
            Err(_) => true,
        }
    } else {
        true
    }
}

/// Whether the sizes of all pieces that an evaluation of `program` can come to fit.
pub fn check_pieces(program: &[u8], order: ByteOrder, encoding: Encoding) -> (r: bool)
    ensures
        r == pieces_fit(program@, order, encoding),
{
    let mut seen: Vec<bool> = vec![false; program.len()];
    let mut queue: Vec<usize> = Vec::new();
    proof {
        lemma_all_unseen(seen@);
        lemma_reachable(program@, order, encoding, 0, 0);
        if program@.len() > 0 {
            lemma_noted(program@, order, encoding, seen@, queue@, 0, 0);
        }
    }
    note(&mut seen, &mut queue, Some(0));
    let mut done: usize = 0;
    while done < queue.len()
        invariant
            searched(program@, order, encoding, seen@, queue@, done as int),
            program@.len() > 0 ==> seen@[0],
        decreases program@.len() - done,
    {
        let at: usize = queue[done];
        let rest = slice_subrange(program, at, program.len());
        assert(rest@ == program@.skip(at as int));
        if !check_operation(rest, order) {
            assert(reachable(program@, order, encoding, at as int));
            return false;
        }
        let (first, second) = successors(program, order, encoding, at);
        let ghost begin = seen@;
        proof {
            if let Some(to) = first {
                assert(leads(program@, order, encoding, at as int, to as int));
                lemma_reachable(program@, order, encoding, at as int, to as int);
                if to < seen@.len() && !seen@[to as int] {
                    lemma_noted(program@, order, encoding, seen@, queue@, done as int, to);
                }
            }
        }
        note(&mut seen, &mut queue, first);
        proof {
            if let Some(to) = second {
                assert(leads(program@, order, encoding, at as int, to as int));
                lemma_reachable(program@, order, encoding, at as int, to as int);
                if to < seen@.len() && !seen@[to as int] {
                    lemma_noted(program@, order, encoding, seen@, queue@, done as int, to);
                }
            }
        }
        note(&mut seen, &mut queue, second);
        assert(queue@[done as int] == at);
        assert(explored(program@, order, encoding, seen@, at as int)) by {
            assert forall|to: int|
                0 <= to < seen@.len() && #[trigger] leads(
                    program@,
                    order,
                    encoding,
                    at as int,
                    to,
                ) implies seen@[to] by {
                assert(leads(program@, order, encoding, at as int, to as usize as int));
            }
        }
        done = done + 1;
    }
    proof {
        assert forall|p: int| 0 <= p < seen@.len() && #[trigger] seen@[p] implies explored(
            program@,
            order,
            encoding,
            seen@,
            p,
        ) by {
            let k = choose|k: int| 0 <= k < queue@.len() && #[trigger] queue@[k] == p;
            assert(explored(program@, order, encoding, seen@, queue@[k] as int));
        }
        assert forall|at: int|
            0 <= at < program@.len() && #[trigger] reachable(
                program@,
                order,
                encoding,
                at,
            ) implies operation_fits(program@.skip(at)) by {
            let n = choose|n: nat| arrives(program@, order, encoding, n, at);
            lemma_reachable_seen(program@, order, encoding, seen@, n, at);
            assert(explored(program@, order, encoding, seen@, at));
        }
    }
    true
}

} // verus!
