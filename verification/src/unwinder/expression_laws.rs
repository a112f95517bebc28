//! What holds of evaluating expressions, whatever the expression is.

use vstd::prelude::*;
use crate::error::{Fault, Halt, UnwindError};
use crate::memory::Words;
use crate::reader::{uleb128, word_size, ByteOrder};
use crate::unwinder::arch::aarch64::Registers;
use crate::unwinder::expression::{
    address_of, answer_to, evaluated, pieces_of, program_value, resumed_with_memory,
    resumed_with_register, settled, Answer, Progress, Request,
};
use crate::unwinder::operation::{
    arrives, leads, operation_fits, parsed_operation, pieces_fit, reachable, Jump, Operation,
};
use crate::unwinder::table::Encoding;

verus! {

/// An evaluation that asks for a register of the frame is given the frame's value of that
/// register, whichever of the 64 it is, and there are no others to ask for.
pub proof fn law_registers_are_given(n: u16, regs: Registers, words: Words)
    ensures
        n <= 31 || 64 <= n <= 95 ==> answer_to(Request::Register(n), regs, words) == Ok::<
            Answer,
            Halt,
        >(Answer::Register(regs[n] as u64)),
        31 < n < 64 || n > 95 ==> answer_to(Request::Register(n), regs, words) == Err::<
            Answer,
            Halt,
        >(Halt::Fault(Fault::UnknownRegister(n))),
{
}

/// An evaluation that asks for a word of memory is given the word at that address. Where
/// the word is not known it waits for that word, and for no other.
pub proof fn law_words_are_given(address: u64, regs: Registers, words: Words)
    ensures
        words.contains_key(address as usize) ==> answer_to(Request::Memory(address), regs, words)
            == Ok::<Answer, Halt>(Answer::Memory(words[address as usize] as u64)),
        !words.contains_key(address as usize) ==> answer_to(Request::Memory(address), regs, words)
            == Err::<Answer, Halt>(Halt::Missing(address as usize)),
{
}

/// An evaluation that is complete is given nothing, and whatever else one asks for cannot
/// be given.
pub proof fn law_nothing_else_is_given(address: u64, regs: Registers, words: Words)
    ensures
        answer_to(Request::Complete, regs, words) == Ok::<Answer, Halt>(Answer::Done),
        answer_to(Request::Relocated(address), regs, words) == Err::<Answer, Halt>(
            Halt::Fault(Fault::UnsupportedRequest),
        ),
        answer_to(Request::Other, regs, words) == Err::<Answer, Halt>(
            Halt::Fault(Fault::UnsupportedRequest),
        ),
{
}

/// The result of an expression is the address of its only piece.
pub proof fn law_result_is_the_only_piece(pieces: Seq<Option<u64>>)
    ensures
        pieces.len() == 1 ==> (pieces[0] matches Some(address) ==> address_of(pieces) == Ok::<
            usize,
            Halt,
        >(address as usize)),
        pieces.len() == 1 && pieces[0] is None ==> address_of(pieces) == Err::<usize, Halt>(
            Halt::Fault(Fault::NotAnAddress),
        ),
        pieces.len() == 0 ==> address_of(pieces) == Err::<usize, Halt>(
            Halt::Failed(UnwindError::PopWithEmptyStack),
        ),
        pieces.len() >= 2 ==> address_of(pieces) == Err::<usize, Halt>(
            Halt::Failed(UnwindError::StackFull),
        ),
{
}

/// How far an evaluation is after it came back with `request`, and was given `value`
/// where it had asked for something.
pub open spec fn on(before: Progress, request: Request, value: Option<u64>) -> Progress {
    Progress {
        answers: match value {
            Some(value) => before.answers.push(value),
            None => before.answers,
        },
        last: Some(request),
        ..before
    }
}

/// An evaluation that asks for a register goes on as one that was given the frame's value
/// of it, and comes to the same address.
pub proof fn law_evaluation_goes_on_with_the_register(
    before: Progress,
    n: u16,
    regs: Registers,
    words: Words,
    fuel: nat,
)
    requires
        n <= 31 || 64 <= n <= 95,
        fuel > 0,
    ensures
        settled(before, Some(Request::Register(n)), regs, words, fuel) == settled(
            on(before, Request::Register(n), Some(regs[n] as u64)),
            resumed_with_register(on(before, Request::Register(n), None), regs[n] as u64),
            regs,
            words,
            (fuel - 1) as nat,
        ),
{
    let request = Request::Register(n);
    assert(before.asking(request) == on(before, request, None));
    assert(before.asking(request).given(regs[n] as u64) == on(
        before,
        request,
        Some(regs[n] as u64),
    ));
}

/// An evaluation that asks for a word goes on as one that was given the word of memory at
/// that address, and comes to the same address. Where the word is not known it stops there.
pub proof fn law_evaluation_goes_on_with_the_word(
    before: Progress,
    address: u64,
    regs: Registers,
    words: Words,
    fuel: nat,
)
    ensures
        fuel > 0 && words.contains_key(address as usize) ==> settled(
            before,
            Some(Request::Memory(address)),
            regs,
            words,
            fuel,
        ) == settled(
            on(before, Request::Memory(address), Some(words[address as usize] as u64)),
            resumed_with_memory(
                on(before, Request::Memory(address), None),
                words[address as usize] as u64,
            ),
            regs,
            words,
            (fuel - 1) as nat,
        ),
        !words.contains_key(address as usize) ==> settled(
            before,
            Some(Request::Memory(address)),
            regs,
            words,
            fuel,
        ) == Err::<usize, Halt>(Halt::Missing(address as usize)),
{
    let request = Request::Memory(address);
    let value = words[address as usize] as u64;
    assert(before.asking(request) == on(before, request, None));
    assert(before.asking(request).given(value) == on(before, request, Some(value)));
}

/// An evaluation ends where it is complete, with the address of its only piece; where it
/// fails; and where it asks for what cannot be given.
pub proof fn law_evaluation_ends(
    before: Progress,
    n: u16,
    address: u64,
    regs: Registers,
    words: Words,
    fuel: nat,
)
    ensures
        ({
            let pieces = pieces_of(on(before, Request::Complete, None));
            let result = settled(before, Some(Request::Complete), regs, words, fuel);
            &&& pieces.len() == 1 ==> (pieces[0] matches Some(address) ==> result == Ok::<
                usize,
                Halt,
            >(address as usize))
            &&& pieces.len() != 1 || pieces[0] is None ==> result is Err
        }),
        settled(before, None, regs, words, fuel) == Err::<usize, Halt>(
            Halt::Failed(UnwindError::Malformed),
        ),
        31 < n < 64 || n > 95 ==> settled(before, Some(Request::Register(n)), regs, words, fuel)
            == Err::<usize, Halt>(Halt::Fault(Fault::UnknownRegister(n))),
        settled(before, Some(Request::Relocated(address)), regs, words, fuel) == Err::<usize, Halt>(
            Halt::Fault(Fault::UnsupportedRequest),
        ),
        settled(before, Some(Request::Other), regs, words, fuel) == Err::<usize, Halt>(
            Halt::Fault(Fault::UnsupportedRequest),
        ),
{
    assert(before.asking(Request::Complete) == on(before, Request::Complete, None));
}

/// Where an evaluation of `program` begins: with nothing given, and with as many
/// operations before it as can be counted.
pub open spec fn beginning(program: Seq<u8>, order: ByteOrder, encoding: Encoding) -> Progress {
    Progress {
        program,
        order,
        word: word_size(),
        encoding,
        limit: Some(0xffff_fffe),
        answers: Seq::empty(),
        last: None,
    }
}

/// The value of a program is what its evaluation comes to from the beginning, unless the
/// size of a piece overflows.
pub proof fn law_programs_are_evaluated(
    program: Seq<u8>,
    order: ByteOrder,
    encoding: Encoding,
    regs: Registers,
    words: Words,
)
    ensures
        pieces_fit(program, order, encoding) ==> program_value(program, order, encoding, regs, words)
            == settled(
            beginning(program, order, encoding),
            evaluated(beginning(program, order, encoding)),
            regs,
            words,
            0xffff_fffe,
        ),
        !pieces_fit(program, order, encoding) ==> program_value(
            program,
            order,
            encoding,
            regs,
            words,
        ) == Err::<usize, Halt>(Halt::Fault(Fault::Overflow)),
{
    assert(Progress::start(program, order, encoding).limited(0xffff_fffe) == beginning(
        program,
        order,
        encoding,
    ));
}

/// An operation goes on behind itself, or jumps from its end, or can do both. It never
/// leaves the program.
pub proof fn law_operations_lead_on(
    program: Seq<u8>,
    order: ByteOrder,
    encoding: Encoding,
    at: int,
    to: int,
    operation: Operation,
)
    requires
        0 <= at < program.len(),
        parsed_operation(program.skip(at), order, word_size(), encoding) == Some(operation),
    ensures
        ({
            let end = program.len() - operation.left;
            let inside = 0 <= to <= program.len();
            match operation.jump {
                Jump::Never => leads(program, order, encoding, at, to) <==> inside && to == end,
                Jump::Always(offset) => leads(program, order, encoding, at, to) <==> inside && to
                    - end == offset,
                Jump::Perhaps(offset) => leads(program, order, encoding, at, to) <==> inside && (to
                    == end || to - end == offset),
            }
        }),
{
}

/// What cannot be read as an operation leads nowhere, and neither does the end.
pub proof fn law_nothing_follows_the_end(
    program: Seq<u8>,
    order: ByteOrder,
    encoding: Encoding,
    at: int,
    to: int,
)
    requires
        at < 0 || at >= program.len() || parsed_operation(
            program.skip(at),
            order,
            word_size(),
            encoding,
        ) is None,
    ensures
        !leads(program, order, encoding, at, to),
{
}

/// An evaluation can come to the start of its program, and from each place that it comes
/// to it can come to those that the operation there leads to.
pub proof fn law_evaluations_come_by(
    program: Seq<u8>,
    order: ByteOrder,
    encoding: Encoding,
    from: int,
    to: int,
)
    ensures
        reachable(program, order, encoding, 0),
        reachable(program, order, encoding, from) && leads(program, order, encoding, from, to)
            ==> reachable(program, order, encoding, to),
{
    assert(arrives(program, order, encoding, 0, 0));
    if reachable(program, order, encoding, from) && leads(program, order, encoding, from, to) {
        let n = choose|n: nat| arrives(program, order, encoding, n, from);
        assert(arrives(program, order, encoding, n + 1, to));
    }
}

proof fn lemma_arrives_in(
    program: Seq<u8>,
    order: ByteOrder,
    encoding: Encoding,
    places: Set<int>,
    n: nat,
    at: int,
)
    requires
        places.contains(0),
        forall|from: int, to: int|
            places.contains(from) && #[trigger] leads(program, order, encoding, from, to)
                ==> places.contains(to),
        arrives(program, order, encoding, n, at),
    ensures
        places.contains(at),
    decreases n,
{
    if n > 0 {
        let from = choose|from: int|
            arrives(program, order, encoding, (n - 1) as nat, from) && #[trigger] leads(
                program,
                order,
                encoding,
                from,
                at,
            );
        lemma_arrives_in(program, order, encoding, places, (n - 1) as nat, from);
    }
}

/// An evaluation comes to no other place: places that hold the start, and that no
/// operation in them leads out of, hold all that can be reached.
pub proof fn law_evaluations_stay_in(
    program: Seq<u8>,
    order: ByteOrder,
    encoding: Encoding,
    places: Set<int>,
    at: int,
)
    requires
        places.contains(0),
        forall|from: int, to: int|
            places.contains(from) && #[trigger] leads(program, order, encoding, from, to)
                ==> places.contains(to),
        reachable(program, order, encoding, at),
    ensures
        places.contains(at),
{
    let n = choose|n: nat| arrives(program, order, encoding, n, at);
    lemma_arrives_in(program, order, encoding, places, n, at);
}

/// A program is refused exactly where its evaluation can come to a piece of 2^61 bytes or
/// more.
pub proof fn law_huge_pieces_are_refused(program: Seq<u8>, order: ByteOrder, encoding: Encoding)
    ensures
        !pieces_fit(program, order, encoding) <==> exists|at: int|
            0 <= at < program.len() && #[trigger] reachable(program, order, encoding, at)
                && program[at] == 0x93 && (uleb128(program.skip(at + 1), 0) matches Some((size, _))
                && size >= 0x2000_0000_0000_0000),
{
    assert forall|at: int| 0 <= at < program.len() implies (!operation_fits(
        #[trigger] program.skip(at),
    ) <==> program[at] == 0x93 && (uleb128(program.skip(at + 1), 0) matches Some((size, _)) && size
        >= 0x2000_0000_0000_0000)) by {
        assert(program.skip(at).skip(1) == program.skip(at + 1));
    }
    if !pieces_fit(program, order, encoding) {
        let at = choose|at: int|
            0 <= at < program.len() && #[trigger] reachable(program, order, encoding, at)
                && !operation_fits(program.skip(at));
        assert(reachable(program, order, encoding, at));
    }
}

} // verus!
