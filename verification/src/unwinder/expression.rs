//! Evaluating the DWARF expressions of the frame table.
//!
//! An evaluation runs until it is complete or asks for something: a register or
//! a word of memory. It goes on with the answer.

use vstd::prelude::*;
use crate::arch::Register;
use crate::error::{Fault, Halt, UnwindError};
use crate::memory::{word_at, Memory, Words};
use crate::reader::{word_size, ByteOrder};
use crate::unwinder::arch::aarch64::{is_register, Context, Registers};
use crate::unwinder::operation::{check_pieces, pieces_fit};
use crate::unwinder::table::Encoding;

verus! {

/// How many operations an expression may take: as many as an evaluation can count without
/// an overflow. It asks for something at most once in each of them.
pub const MAX_ITERATIONS: u32 = 0xffff_fffe;

/// What an evaluation comes back with.
#[derive(Clone, Copy, PartialEq, Eq, Structural, Debug)]
pub enum Request {
    /// It is complete.
    Complete,
    /// It needs the word at this address.
    Memory(u64),
    /// It needs this register's value.
    Register(Register),
    /// It needs this address, relocated.
    Relocated(u64),
    /// It needs something else.
    Other,
}

/// What has gone into an evaluation, and what it came back with last. The machine counts,
/// too, by how many bytes its addresses take.
#[verifier::ext_equal]
pub struct Progress {
    pub program: Seq<u8>,
    pub order: ByteOrder,
    pub word: nat,
    pub encoding: Encoding,
    pub limit: Option<u32>,
    pub answers: Seq<u64>,
    pub last: Option<Request>,
}

impl Progress {
    /// At the start of `program`, on the machine that this runs on.
    pub open spec fn start(program: Seq<u8>, order: ByteOrder, encoding: Encoding) -> Progress {
        Progress {
            program,
            order,
            word: word_size(),
            encoding,
            limit: None,
            answers: Seq::empty(),
            last: None,
        }
    }

    /// With a limit to the number of operations.
    pub open spec fn limited(self, limit: u32) -> Progress {
        Progress { limit: Some(limit), ..self }
    }

    /// After coming back with `request`.
    pub open spec fn asking(self, request: Request) -> Progress {
        Progress { last: Some(request), ..self }
    }

    /// After `value` was given.
    pub open spec fn given(self, value: u64) -> Progress {
        Progress { answers: self.answers.push(value), ..self }
    }

    /// Whether the evaluation can run on without an overflow: the number of its operations
    /// is limited, and the sizes of the pieces that it can come to fit.
    pub open spec fn bounded(self) -> bool {
        &&& self.limit matches Some(limit) && limit < u32::MAX
        &&& pieces_fit(self.program, self.order, self.encoding)
    }
}

/// Where an evaluation stands.
pub uninterp spec fn progress_of(evaluation: Evaluation<'_>) -> Progress;

/// What `gimli::Evaluation::evaluate` comes back with, where that is no error.
pub uninterp spec fn evaluated(progress: Progress) -> Option<Request>;

/// What `gimli::Evaluation::resume_with_memory` comes back with, where that is no
/// error.
pub uninterp spec fn resumed_with_memory(progress: Progress, value: u64) -> Option<Request>;

/// What `gimli::Evaluation::resume_with_register` comes back with, where that is no
/// error.
pub uninterp spec fn resumed_with_register(progress: Progress, value: u64) -> Option<Request>;

/// The pieces of `gimli::Evaluation::as_result`: of each the address where it is in
/// memory.
pub uninterp spec fn pieces_of(progress: Progress) -> Seq<Option<u64>>;

/// A `gimli::Evaluation`, which holds the stack of an expression. It is wrapped, since
/// the parameters of the type itself are bounded by traits that the verifier does not
/// know; for the same reason its storage is the one on the heap that `gimli` brings
/// along, which has room for any number of values and pieces. What it computes is left to
/// `gimli`.
#[verifier::external_body]
pub struct Evaluation<'a> {
    evaluation: gimli::Evaluation<gimli::EndianSlice<'a, gimli::RunTimeEndian>>,
}

/// `gimli::Evaluation::new_in`: an evaluation of `program` that has not begun.
#[verifier::external_body]
fn new_evaluation<'a>(program: &'a [u8], order: ByteOrder, encoding: Encoding) -> (r: Evaluation<
    'a,
>)
    requires
        encoding.address_size <= 8,
    ensures
        progress_of(r) == Progress::start(program@, order, encoding),
{
    let endian = match order {
        ByteOrder::Little => gimli::RunTimeEndian::Little,
        ByteOrder::Big => gimli::RunTimeEndian::Big,
    };
    let format = match encoding.dwarf64 {
        false => gimli::Format::Dwarf32,
        true => gimli::Format::Dwarf64,
    };
    let Encoding { version, address_size, .. } = encoding;
    let encoding = gimli::Encoding { format, version, address_size };
    let program = gimli::EndianSlice::new(program, endian);
    Evaluation { evaluation: gimli::Evaluation::new_in(program, encoding) }
}

/// `gimli::Evaluation::set_max_iterations`: from now on the evaluation fails where it
/// takes more than `limit` operations.
#[verifier::external_body]
fn set_max_iterations(evaluation: &mut Evaluation<'_>, limit: u32)
    ensures
        progress_of(*final(evaluation)) == progress_of(*old(evaluation)).limited(limit),
{
    evaluation.evaluation.set_max_iterations(limit)
}

/// `gimli::Evaluation::evaluate`: runs until the evaluation is complete or asks for
/// something. What comes of it depends on what has gone into the evaluation alone. It
/// counts operations in 32 bits and the bits of a piece in 64, and neither may overflow.
#[verifier::external_body]
fn evaluate(evaluation: &mut Evaluation<'_>) -> (r: Result<Request, gimli::Error>)
    requires
        progress_of(*old(evaluation)).last is None,
        progress_of(*old(evaluation)).bounded(),
    ensures
        match r {
            Ok(request) => evaluated(progress_of(*old(evaluation))) == Some(request)
                && progress_of(*final(evaluation)) == progress_of(*old(evaluation)).asking(request),
            Err(_) => evaluated(progress_of(*old(evaluation))) is None,
        },
{
    Ok(match evaluation.evaluation.evaluate()? {
        gimli::EvaluationResult::Complete => Request::Complete,
        gimli::EvaluationResult::RequiresMemory { address, .. } => Request::Memory(address),
        gimli::EvaluationResult::RequiresRegister { register, .. } => Request::Register(register.0),
        gimli::EvaluationResult::RequiresRelocatedAddress(address) => Request::Relocated(address),
        _ => Request::Other,
    })
}

/// `gimli::Evaluation::resume_with_memory`: takes `value` for the word that the
/// evaluation asked for, and runs until it is complete or asks again. What comes of
/// it depends on what has gone into the evaluation alone. As in `evaluate`, no count may
/// overflow.
#[verifier::external_body]
fn resume_with_memory(evaluation: &mut Evaluation<'_>, value: u64) -> (r: Result<
    Request,
    gimli::Error,
>)
    requires
        progress_of(*old(evaluation)).last matches Some(Request::Memory(_)),
        progress_of(*old(evaluation)).bounded(),
    ensures
        match r {
            Ok(request) => resumed_with_memory(progress_of(*old(evaluation)), value) == Some(request)
                && progress_of(*final(evaluation)) == progress_of(*old(evaluation)).given(
                value,
            ).asking(request),
            Err(_) => resumed_with_memory(progress_of(*old(evaluation)), value) is None,
        },
{
    Ok(match evaluation.evaluation.resume_with_memory(gimli::Value::Generic(value))? {
        gimli::EvaluationResult::Complete => Request::Complete,
        gimli::EvaluationResult::RequiresMemory { address, .. } => Request::Memory(address),
        gimli::EvaluationResult::RequiresRegister { register, .. } => Request::Register(register.0),
        gimli::EvaluationResult::RequiresRelocatedAddress(address) => Request::Relocated(address),
        _ => Request::Other,
    })
}

/// `gimli::Evaluation::resume_with_register`: takes `value` for the register that the
/// evaluation asked for, and runs until it is complete or asks again. What comes of
/// it depends on what has gone into the evaluation alone. As in `evaluate`, no count may
/// overflow.
#[verifier::external_body]
fn resume_with_register(evaluation: &mut Evaluation<'_>, value: u64) -> (r: Result<
    Request,
    gimli::Error,
>)
    requires
        progress_of(*old(evaluation)).last matches Some(Request::Register(_)),
        progress_of(*old(evaluation)).bounded(),
    ensures
        match r {
            Ok(request) => resumed_with_register(progress_of(*old(evaluation)), value) == Some(
                request,
            ) && progress_of(*final(evaluation)) == progress_of(*old(evaluation)).given(
                value,
            ).asking(request),
            Err(_) => resumed_with_register(progress_of(*old(evaluation)), value) is None,
        },
{
    Ok(match evaluation.evaluation.resume_with_register(gimli::Value::Generic(value))? {
        gimli::EvaluationResult::Complete => Request::Complete,
        gimli::EvaluationResult::RequiresMemory { address, .. } => Request::Memory(address),
        gimli::EvaluationResult::RequiresRegister { register, .. } => Request::Register(register.0),
        gimli::EvaluationResult::RequiresRelocatedAddress(address) => Request::Relocated(address),
        _ => Request::Other,
    })
}

/// `gimli::Evaluation::as_result`: the pieces of a complete evaluation, of each the
/// address where it is in memory.
#[verifier::external_body]
fn as_result(evaluation: &Evaluation<'_>) -> (r: Vec<Option<u64>>)
    requires
        progress_of(*evaluation).last == Some(Request::Complete),
    ensures
        r@ == pieces_of(progress_of(*evaluation)),
{
    let pieces = evaluation.evaluation.as_result().iter();
    pieces.map(|piece| match piece.location {
        gimli::Location::Address { address } => Some(address),
        _ => None,
    }).collect()
}

/// What an evaluation is given for its request.
#[derive(Clone, Copy, PartialEq, Eq, Structural, Debug)]
pub enum Answer {
    /// Nothing: it is complete.
    Done,
    /// A word of memory.
    Memory(u64),
    /// A register's value.
    Register(u64),
}

/// The answer to `request` in a frame with the registers `regs`.
pub open spec fn answer_to(request: Request, regs: Registers, words: Words) -> Result<Answer, Halt> {
    match request {
        Request::Complete => Ok(Answer::Done),
        Request::Memory(address) => match word_at(words, address as usize) {
            Ok(word) => Ok(Answer::Memory(word as u64)),
            Err(halt) => Err(halt),
        },
        Request::Register(register) => if is_register(register) {
            Ok(Answer::Register(regs[register] as u64))
        } else {
            Err(Halt::Fault(Fault::UnknownRegister(register)))
        },
        Request::Relocated(_) | Request::Other => Err(Halt::Fault(Fault::UnsupportedRequest)),
    }
}

/// The answer to `request` in the frame of `ctx`.
pub fn answer(request: Request, ctx: &Context, memory: &Memory) -> (r: Result<Answer, Halt>)
    ensures
        r == answer_to(request, ctx@, memory@),
        match request {
            Request::Complete => r == Ok::<Answer, Halt>(Answer::Done),
            Request::Memory(address) => if memory@.contains_key(address as usize) {
                r == Ok::<Answer, Halt>(Answer::Memory(memory@[address as usize] as u64))
            } else {
                r == Err::<Answer, Halt>(Halt::Missing(address as usize))
            },
            Request::Register(n) => if n <= 31 || 64 <= n <= 95 {
                r == Ok::<Answer, Halt>(Answer::Register(ctx@[n] as u64))
            } else {
                r == Err::<Answer, Halt>(Halt::Fault(Fault::UnknownRegister(n)))
            },
            Request::Relocated(_) | Request::Other => r == Err::<Answer, Halt>(
                Halt::Fault(Fault::UnsupportedRequest),
            ),
        },
{
    match request {
        Request::Complete => Ok(Answer::Done),
        Request::Memory(address) => match memory.read(address as usize) {
            Ok(word) => Ok(Answer::Memory(word as u64)),
            Err(halt) => Err(halt),
        },
        Request::Register(register) => if Context::has(register) {
            Ok(Answer::Register(*ctx.index(register) as u64))
        } else {
            Err(Halt::Fault(Fault::UnknownRegister(register)))
        },
        Request::Relocated(_) | Request::Other => Err(Halt::Fault(Fault::UnsupportedRequest)),
    }
}

/// The address that the pieces of a complete evaluation stand for.
pub open spec fn address_of(pieces: Seq<Option<u64>>) -> Result<usize, Halt> {
    if pieces.len() == 0 {
        Err(Halt::Failed(UnwindError::PopWithEmptyStack))
    } else if pieces.len() > 1 {
        Err(Halt::Failed(UnwindError::StackFull))
    } else {
        match pieces[0] {
            Some(address) => Ok(address as usize),
            None => Err(Halt::Fault(Fault::NotAnAddress)),
        }
    }
}

/// The address that `pieces` stand for.
pub fn address(pieces: &Vec<Option<u64>>) -> (r: Result<usize, Halt>)
    ensures
        r == address_of(pieces@),
{
    if pieces.len() == 0 {
        Err(Halt::Failed(UnwindError::PopWithEmptyStack))
    } else if pieces.len() > 1 {
        Err(Halt::Failed(UnwindError::StackFull))
    } else {
        match pieces[0] {
            Some(address) => Ok(address as usize),
            None => Err(Halt::Fault(Fault::NotAnAddress)),
        }
    }
}

/// The address that an evaluation ends with which stood at `before` and then came
/// back with `came`, and which may ask `fuel` times.
pub open spec fn settled(
    before: Progress,
    came: Option<Request>,
    regs: Registers,
    words: Words,
    fuel: nat,
) -> Result<usize, Halt>
    decreases fuel,
{
    match came {
        None => Err(Halt::Failed(UnwindError::Malformed)),
        Some(request) => {
            let now = before.asking(request);
            match answer_to(request, regs, words) {
                Err(halt) => Err(halt),
                Ok(Answer::Done) => address_of(pieces_of(now)),
                Ok(Answer::Memory(value)) => if fuel == 0 {
                    Err(Halt::Failed(UnwindError::Malformed))
                } else {
                    settled(
                        now.given(value),
                        resumed_with_memory(now, value),
                        regs,
                        words,
                        (fuel - 1) as nat,
                    )
                },
                Ok(Answer::Register(value)) => if fuel == 0 {
                    Err(Halt::Failed(UnwindError::Malformed))
                } else {
                    settled(
                        now.given(value),
                        resumed_with_register(now, value),
                        regs,
                        words,
                        (fuel - 1) as nat,
                    )
                },
            }
        },
    }
}

/// The address that `program` computes in a frame with the registers `regs`.
pub open spec fn program_value(
    program: Seq<u8>,
    order: ByteOrder,
    encoding: Encoding,
    regs: Registers,
    words: Words,
) -> Result<usize, Halt> {
    let start = Progress::start(program, order, encoding).limited(MAX_ITERATIONS);
    if pieces_fit(program, order, encoding) {
        settled(start, evaluated(start), regs, words, MAX_ITERATIONS as nat)
    } else {
        Err(Halt::Fault(Fault::Overflow))
    }
}

/// The address that `program` computes in the frame of `ctx`.
pub fn evaluate_program(
    program: &[u8],
    order: ByteOrder,
    encoding: Encoding,
    ctx: &Context,
    memory: &Memory,
) -> (r: Result<usize, Halt>)
    requires
        encoding.address_size <= 8,
    ensures
        r == program_value(program@, order, encoding, ctx@, memory@),
{
    if !check_pieces(program, order, encoding) {
        return Err(Halt::Fault(Fault::Overflow));
    }
    let mut evaluation = new_evaluation(program, order, encoding);
    set_max_iterations(&mut evaluation, MAX_ITERATIONS);
    let ghost mut before = progress_of(evaluation);
    let mut came = evaluate(&mut evaluation);
    let mut fuel: u32 = MAX_ITERATIONS;
    loop
        invariant
            before.bounded(),
            came matches Ok(request) ==> progress_of(evaluation) == before.asking(request),
            program_value(program@, order, encoding, ctx@, memory@) == settled(
                before,
                match came {
                    Ok(request) => Some(request),
                    Err(_) => None,
                },
                ctx@,
                memory@,
                fuel as nat,
            ),
        decreases fuel,
    {
        let request = match came {
            Ok(request) => request,
            Err(_) => {
                return Err(Halt::Failed(UnwindError::Malformed));
            },
        };
        match answer(request, ctx, memory) {
            Err(halt) => {
                return Err(halt);
            },
            Ok(Answer::Done) => {
                return address(&as_result(&evaluation));
            },
            Ok(Answer::Memory(value)) => {
                if fuel == 0 {
                    return Err(Halt::Failed(UnwindError::Malformed));
                }
                proof {
                    before = progress_of(evaluation).given(value);
                }
                came = resume_with_memory(&mut evaluation, value);
            },
            Ok(Answer::Register(value)) => {
                if fuel == 0 {
                    return Err(Halt::Failed(UnwindError::Malformed));
                }
                proof {
                    before = progress_of(evaluation).given(value);
                }
                came = resume_with_register(&mut evaluation, value);
            },
        }
        fuel = fuel - 1;
    }
}

} // verus!
