use unwinding::encoding::Pointer;
use unwinding::error::{Fault, Halt, UnwindError};
use unwinding::features::Features;
use unwinding::memory::Memory;
use unwinding::reader::ByteOrder;
use unwinding::unwinder::arch::aarch64::Context;
use unwinding::unwinder::context::_Unwind_FindEnclosingFunction;
use unwinding::unwinder::expression::{address, answer, evaluate_program, Answer, Request};
use unwinding::unwinder::find_fde::fixed::Image;
use unwinding::unwinder::find_fde::{
    fixed, get_finder, EhFrame, FDEFinder, FDESearchResult, GlobalFinder,
};
use unwinding::unwinder::frame::{next_value, Frame, UnwindRow};
use unwinding::unwinder::operation::check_pieces;
use unwinding::unwinder::table::{
    BaseAddresses, CfaRule, Encoding, Expression, FrameDescription, RegisterRule,
};

const FEATURES: Features = Features { dwarf_expr: true, hide_trace: false };
const ENCODING: Encoding = Encoding { dwarf64: false, version: 1, address_size: 8 };

/// A frame table with one kind of function: pointers are absolute, the canonical frame
/// address is the stack pointer and an offset, and the return address is in x30.
struct Table {
    bytes: Vec<u8>,
}

impl Table {
    fn new(personality: (u8, u64), signal: bool) -> Table {
        let mut body = vec![0, 0, 0, 0, 1];
        body.extend(if signal { &b"zPLRS\0"[..] } else { &b"zPLR\0"[..] });
        body.extend([1, 0x78, 30, 11, personality.0]);
        body.extend(personality.1.to_le_bytes());
        body.extend([0x00, 0x00]);
        body.extend([0x0c, 31, 0]);
        let mut table = Table { bytes: Vec::new() };
        table.push(body);
        table
    }

    fn push(&mut self, mut body: Vec<u8>) {
        while (body.len() + 4) % 8 != 0 {
            body.push(0);
        }
        self.bytes.extend((body.len() as u32).to_le_bytes());
        self.bytes.extend(body);
    }

    fn function(mut self, start: u64, len: u64, lsda: u64, instructions: &[u8]) -> Table {
        let mut body = (self.bytes.len() as u32 + 4).to_le_bytes().to_vec();
        body.extend(start.to_le_bytes());
        body.extend(len.to_le_bytes());
        body.push(8);
        body.extend(lsda.to_le_bytes());
        body.extend(instructions);
        self.push(body);
        self
    }

    fn image(&mut self) -> Image<'_> {
        self.bytes.extend([0; 4]);
        Image {
            text_start: 0x1000,
            text_end: 0x9000,
            eh_frame: 0xa000,
            section: &self.bytes,
            order: ByteOrder::Little,
        }
    }
}

/// A frame of 32 bytes: x30 is saved 8 bytes below the caller's stack pointer, x29 16.
const PLAIN: [u8; 6] = [0x0e, 32, 0x9e, 1, 0x9d, 2];

fn context(ra: usize, sp: usize) -> Context {
    let mut ctx = Context::default();
    *ctx.index_mut(30) = ra;
    *ctx.index_mut(31) = sp;
    *ctx.index_mut(19) = 0x1919;
    ctx
}

fn find<'a>(finder: &GlobalFinder<'a>, ra: usize, signal: bool) -> Option<Frame<'a>> {
    match Frame::from_context(finder, &context(ra, 0x8000), signal) {
        Ok(frame) => frame,
        Err(e) => panic!("{:?}", e),
    }
}

#[test]
fn a_function_is_found_by_its_addresses() {
    let mut table = Table::new((0, 0x7000), false)
        .function(0x2000, 0x100, 0x6000, &PLAIN)
        .function(0x3000, 0x100, 0, &PLAIN);
    let image = table.image();
    let finder = fixed::get_finder(image);
    let found = finder.find_fde(0x20ff).unwrap();
    assert_eq!(found.fde.initial_address, 0x2000);
    assert_eq!(found.fde.end_address, 0x2100);
    assert_eq!(found.fde.personality, Some(Pointer::Direct(0x7000)));
    assert_eq!(found.fde.lsda, Some(Pointer::Direct(0x6000)));
    assert!(!found.fde.signal_trampoline);
    assert_eq!(found.fde.encoding, ENCODING);
    assert_eq!(
        found.bases,
        BaseAddresses { section: Some(0xa000), text: Some(0x1000), data: None }
    );
    assert_eq!(finder.find_fde(0x3000).unwrap().fde.initial_address, 0x3000);
    assert!(finder.find_fde(0x1fff).is_none());
    assert!(finder.find_fde(0x2100).is_none());
}

#[test]
fn nothing_is_found_outside_the_text() {
    let mut table = Table::new((0, 0), false).function(0x0, 0x1_0000, 0, &PLAIN);
    let finder = fixed::get_finder(table.image());
    assert!(finder.find_fde(0xfff).is_none());
    assert!(finder.find_fde(0x1000).is_some());
    assert!(finder.find_fde(0x8fff).is_some());
    assert!(finder.find_fde(0x9000).is_none());
}

#[test]
fn nothing_is_found_in_a_broken_table() {
    let image = Image {
        text_start: 0,
        text_end: usize::MAX,
        eh_frame: 0,
        section: &[9, 0, 0, 0, 1, 2, 3],
        order: ByteOrder::Little,
    };
    assert!(get_finder(image).find_fde(0x2000).is_none());
}

#[test]
fn the_first_finder_that_finds_a_function_wins() {
    let mut table = Table::new((0, 0), false).function(0x2000, 0x100, 0, &PLAIN);
    let finder = get_finder(table.image());
    let own = finder.find_fde(0x2000).unwrap();
    let mut earlier = own;
    earlier.fde.initial_address = 0x1ff0;
    let found = finder.find_fde_after(Some(earlier), 0x2000).unwrap();
    assert_eq!(found.fde.initial_address, 0x1ff0);
    let found = finder.find_fde_after(None, 0x2000).unwrap();
    assert_eq!(found.fde.initial_address, 0x2000);
    assert!(finder.find_fde_after(None, 0x4000).is_none());
}

#[test]
fn the_enclosing_function_is_found_from_any_of_its_addresses() {
    let mut table = Table::new((0, 0), false).function(0x2000, 0x100, 0, &PLAIN);
    let finder = get_finder(table.image());
    assert_eq!(_Unwind_FindEnclosingFunction(&finder, 0x2000), 0x2000);
    assert_eq!(_Unwind_FindEnclosingFunction(&finder, 0x2001), 0x2000);
    assert_eq!(_Unwind_FindEnclosingFunction(&finder, 0x20ff), 0x2000);
    assert_eq!(_Unwind_FindEnclosingFunction(&finder, 0x2100), 0);
    assert_eq!(_Unwind_FindEnclosingFunction(&finder, 0x1fff), 0);
    assert_eq!(_Unwind_FindEnclosingFunction(&finder, 0), 0);
}

#[test]
fn a_frame_is_found_by_the_call_it_is_in() {
    let mut table = Table::new((0, 0), false).function(0x2000, 0x100, 0x6000, &PLAIN);
    let finder = get_finder(table.image());
    let frame = find(&finder, 0x2100, false).unwrap();
    assert_eq!(frame.initial_address(), 0x2000);
    assert_eq!(frame.lsda(&Memory::new()), Ok(0x6000));
    assert_eq!(frame.bases().text, Some(0x1000));
    assert!(!frame.is_signal_trampoline());
    assert!(find(&finder, 0x2000, false).is_none());
    assert!(find(&finder, 0x2000, true).is_some());
    assert!(find(&finder, 0x2100, true).is_none());
}

#[test]
fn the_stack_ends_at_a_zero_return_address() {
    let mut table = Table::new((0, 0), false).function(0x0, 0x1_0000, 0, &PLAIN);
    let mut image = table.image();
    image.text_start = 0;
    let finder = get_finder(image);
    assert!(find(&finder, 0, true).is_none());
    assert!(find(&finder, 0, false).is_none());
    assert!(find(&finder, 1, false).is_some());
}

#[test]
fn a_frame_of_a_signal_is_known() {
    let mut table = Table::new((0, 0), true).function(0x2000, 0x100, 0, &PLAIN);
    let finder = get_finder(table.image());
    assert!(find(&finder, 0x2010, false).unwrap().is_signal_trampoline());
}

#[test]
fn a_personality_routine_is_found_directly_or_in_memory() {
    let mut table = Table::new((0, 0x7000), false).function(0x2000, 0x100, 0, &PLAIN);
    let finder = get_finder(table.image());
    let frame = find(&finder, 0x2010, false).unwrap();
    assert_eq!(frame.personality(&Memory::new()), Ok(Some(0x7000)));
    let mut table = Table::new((0x80, 0x7000), false).function(0x2000, 0x100, 0, &PLAIN);
    let finder = get_finder(table.image());
    let frame = find(&finder, 0x2010, false).unwrap();
    let mut memory = Memory::new();
    assert_eq!(frame.personality(&memory), Err(Halt::Missing(0x7000)));
    memory.insert(0x7000, 0x7700);
    assert_eq!(frame.personality(&memory), Ok(Some(0x7700)));
}

#[test]
fn the_callers_registers_are_recovered() {
    let mut table = Table::new((0, 0), false).function(0x2000, 0x100, 0, &PLAIN);
    let finder = get_finder(table.image());
    let frame = find(&finder, 0x2010, false).unwrap();
    let ctx = context(0x2010, 0x8000);
    let mut memory = Memory::new();
    let mut asked = Vec::new();
    let caller = loop {
        match frame.unwind(FEATURES, &ctx, &memory) {
            Ok(caller) => break caller,
            Err(Halt::Missing(addr)) => {
                assert_eq!(memory.read(addr), Err(Halt::Missing(addr)));
                asked.push(addr);
                memory.insert(addr, addr + 1);
            }
            Err(other) => panic!("{:?}", other),
        }
    };
    asked.sort();
    assert_eq!(asked, [0x8010, 0x8018]);
    assert_eq!(*caller.index(31), 0x8020);
    assert_eq!(*caller.index(30), 0x8019);
    assert_eq!(*caller.index(29), 0x8011);
    assert_eq!(*caller.index(19), 0x1919);
    memory.insert(0x5555, 5);
    let again = frame.unwind(FEATURES, &ctx, &memory).unwrap();
    assert_eq!(again.fields(), caller.fields());
}

#[test]
fn without_a_rule_for_the_return_address_the_stack_ends() {
    let mut table = Table::new((0, 0), false).function(0x2000, 0x100, 0, &[0x0e, 32]);
    let finder = get_finder(table.image());
    let frame = find(&finder, 0x2010, false).unwrap();
    let caller = frame.unwind(FEATURES, &context(0x2010, 0x8000), &Memory::new()).unwrap();
    assert_eq!(*caller.index(30), 0);
    assert_eq!(*caller.index(31), 0x8020);
    assert!(Frame::from_context(&finder, &caller, false).unwrap().is_none());
    assert!(Frame::from_context(&finder, &caller, true).unwrap().is_none());
}

#[test]
fn a_lost_return_address_ends_the_stack() {
    let frame = by_hand(SP, vec![(30, RegisterRule::Undefined)], &[]);
    let caller = recover(&frame, &Memory::new()).unwrap();
    assert_eq!(*caller.index(30), 0);
    let mut table = Table::new((0, 0), false).function(0x0, 0x1_0000, 0, &PLAIN);
    let finder = get_finder(table.image());
    assert!(Frame::from_context(&finder, &caller, false).unwrap().is_none());
}

fn by_hand(cfa: CfaRule, rules: Vec<(u16, RegisterRule)>, section: &[u8]) -> Frame<'_> {
    Frame {
        fde_result: FDESearchResult {
            fde: FrameDescription {
                initial_address: 0x2000,
                end_address: 0x2100,
                personality: None,
                lsda: None,
                signal_trampoline: false,
                encoding: ENCODING,
            },
            bases: BaseAddresses { section: None, text: None, data: None },
            eh_frame: EhFrame { section, order: ByteOrder::Little },
        },
        row: UnwindRow { cfa, rules, saved_args_size: 48 },
    }
}

const SP: CfaRule = CfaRule::RegisterAndOffset { register: 31, offset: 0 };

fn recover(frame: &Frame<'_>, memory: &Memory) -> Result<Context, Halt> {
    frame.unwind(FEATURES, &context(0x2010, 0x8000), memory)
}

fn recovered(reg: u16, rule: RegisterRule, section: &[u8], memory: &Memory) -> Result<usize, Halt> {
    recover(&by_hand(SP, vec![(reg, rule)], section), memory).map(|ctx| *ctx.index(reg))
}

#[test]
fn each_rule_gives_its_value() {
    let mut memory = Memory::new();
    memory.insert(0x7ff0, 0xabc);
    let section = [0x8f, 0x70];
    let e = Expression { offset: 0, length: 2 };
    let value = |rule| recovered(19, rule, &section, &memory);
    assert_eq!(value(RegisterRule::Undefined), Ok(0));
    assert_eq!(value(RegisterRule::SameValue), Ok(0x1919));
    assert_eq!(value(RegisterRule::Offset(-16)), Ok(0xabc));
    assert_eq!(value(RegisterRule::ValOffset(-16)), Ok(0x7ff0));
    assert_eq!(value(RegisterRule::ValOffset(16)), Ok(0x8010));
    assert_eq!(value(RegisterRule::Register(30)), Ok(0x2010));
    assert_eq!(value(RegisterRule::Constant(7)), Ok(7));
    assert_eq!(value(RegisterRule::ValExpression(e)), Ok(0x7ff0));
    assert_eq!(value(RegisterRule::Expression(e)), Ok(0xabc));
}

#[test]
fn the_rules_of_a_table_row_are_taken_over() {
    let instructions = [
        0x0c, 29, 16, // the canonical frame address is x29 + 16
        0x9e, 1, // x30 is saved 8 bytes below it
        0x08, 19, // x19 keeps its value
        0x07, 20, // x20 is lost, which is the same as having no rule
        0x09, 21, 22, // x21 is in x22
        0x14, 23, 3, // x23 is the address 24 bytes below
        0x16, 24, 2, 0x8f, 0x08, // x24 is the stack pointer + 8
        0x10, 25, 2, 0x8f, 0x10, // x25 is saved at the stack pointer + 16
        0x2e, 64, // 64 bytes of arguments
    ];
    let mut table = Table::new((0, 0), false).function(0x2000, 0x100, 0, &instructions);
    let finder = get_finder(table.image());
    let frame = find(&finder, 0x2010, false).unwrap();
    assert_eq!(frame.row.cfa, CfaRule::RegisterAndOffset { register: 29, offset: 16 });
    assert_eq!(frame.row.saved_args_size, 64);
    let rule = |reg| frame.row.rules.iter().find(|r| r.0 == reg).map(|r| r.1);
    assert_eq!(rule(30), Some(RegisterRule::Offset(-8)));
    assert_eq!(rule(19), Some(RegisterRule::SameValue));
    assert_eq!(rule(20), None);
    assert_eq!(rule(21), Some(RegisterRule::Register(22)));
    assert_eq!(rule(23), Some(RegisterRule::ValOffset(-24)));
    let mut ctx = context(0x2010, 0x8000);
    *ctx.index_mut(22) = 0x2222;
    *ctx.index_mut(29) = 0x8100;
    let mut memory = Memory::new();
    memory.insert(0x8108, 0x3010);
    memory.insert(0x8010, 0x2525);
    let caller = frame.unwind(FEATURES, &ctx, &memory).unwrap();
    assert_eq!(*caller.index(31), 0x8110);
    assert_eq!(*caller.index(30), 0x3010);
    assert_eq!(*caller.index(19), 0x1919);
    assert_eq!(*caller.index(21), 0x2222);
    assert_eq!(*caller.index(23), 0x80f8);
    assert_eq!(*caller.index(24), 0x8008);
    assert_eq!(*caller.index(25), 0x2525);
}

#[test]
fn the_last_rule_of_a_register_counts() {
    let rules = vec![(19, RegisterRule::Constant(1)), (19, RegisterRule::Constant(2))];
    let caller = recover(&by_hand(SP, rules, &[]), &Memory::new()).unwrap();
    assert_eq!(*caller.index(19), 2);
}

#[test]
fn rules_read_the_registers_of_the_frame_itself() {
    let rules = vec![
        (19, RegisterRule::Constant(1)),
        (20, RegisterRule::Register(19)),
        (21, RegisterRule::Register(31)),
    ];
    let cfa = CfaRule::RegisterAndOffset { register: 31, offset: 64 };
    let caller = recover(&by_hand(cfa, rules, &[]), &Memory::new()).unwrap();
    assert_eq!(*caller.index(20), 0x1919);
    assert_eq!(*caller.index(21), 0x8000);
    assert_eq!(*caller.index(31), 0x8040);
}

#[test]
fn the_frame_address_can_be_an_expression() {
    let cfa = CfaRule::Expression(Expression { offset: 1, length: 3 });
    let section = [0xee, 0x8f, 0x80, 0x01, 0xee];
    let caller = recover(&by_hand(cfa, vec![], &section), &Memory::new()).unwrap();
    assert_eq!(*caller.index(31), 0x8080);
}

#[test]
fn expressions_can_be_switched_off() {
    let e = Expression { offset: 0, length: 2 };
    let frame = by_hand(CfaRule::Expression(e), vec![], &[0x8f, 0x00]);
    let features = Features { dwarf_expr: false, hide_trace: false };
    let ctx = context(0x2010, 0x8000);
    assert_eq!(
        frame.unwind(features, &ctx, &Memory::new()).err(),
        Some(Halt::Failed(UnwindError::UnsupportedEvaluation))
    );
    assert!(frame.unwind(FEATURES, &ctx, &Memory::new()).is_ok());
}

#[test]
fn a_register_that_is_not_saved_is_a_fault() {
    let unknown = |n| Some(Halt::Fault(Fault::UnknownRegister(n)));
    let cfa = CfaRule::RegisterAndOffset { register: 32, offset: 0 };
    assert_eq!(recover(&by_hand(cfa, vec![], &[]), &Memory::new()).err(), unknown(32));
    let rules = vec![(19, RegisterRule::Register(40))];
    assert_eq!(recover(&by_hand(SP, rules, &[]), &Memory::new()).err(), unknown(40));
    let rules = vec![(63, RegisterRule::Constant(0))];
    assert_eq!(recover(&by_hand(SP, rules, &[]), &Memory::new()).err(), unknown(63));
    let rules = vec![(96, RegisterRule::SameValue)];
    assert_eq!(recover(&by_hand(SP, rules, &[]), &Memory::new()).err(), unknown(96));
}

#[test]
fn a_rule_of_the_architecture_is_a_fault() {
    let rules = vec![(19, RegisterRule::Architectural)];
    assert_eq!(
        recover(&by_hand(SP, rules, &[]), &Memory::new()).err(),
        Some(Halt::Fault(Fault::ArchitecturalRule))
    );
}

#[test]
fn an_expression_beyond_its_section_is_a_fault() {
    let out = Some(Halt::Fault(Fault::OutOfBounds));
    for (offset, length) in [(2, 1), (0, 3), (3, 0), (usize::MAX, usize::MAX)] {
        let cfa = CfaRule::Expression(Expression { offset, length });
        assert_eq!(recover(&by_hand(cfa, vec![], &[0x8f, 0]), &Memory::new()).err(), out);
    }
    let cfa = CfaRule::Expression(Expression { offset: 0, length: 2 });
    let mut frame = by_hand(cfa, vec![], &[0x8f, 0]);
    assert!(recover(&frame, &Memory::new()).is_ok());
    frame.fde_result.fde.encoding.address_size = 9;
    assert_eq!(recover(&frame, &Memory::new()).err(), out);
}

#[test]
fn a_row_that_cannot_be_read_is_malformed() {
    let mut table = Table::new((0, 0), false).function(0x2000, 0x100, 0, &[0x3f]);
    let finder = get_finder(table.image());
    assert_eq!(
        Frame::from_context(&finder, &context(0x2010, 0x8000), false).err(),
        Some(UnwindError::Malformed)
    );
}

#[test]
fn a_row_holds_a_limited_number_of_rules() {
    let rules = |n: u8| {
        let mut instructions = Vec::new();
        for reg in 0..n {
            instructions.push(0x08);
            if reg >= 128 {
                instructions.push(reg);
                instructions.push(1);
            } else {
                instructions.push(reg);
            }
        }
        let mut table = Table::new((0, 0), false).function(0x2000, 0x100, 0, &instructions);
        let finder = get_finder(table.image());
        Frame::from_context(&finder, &context(0x2010, 0x8000), false)
            .map(|frame| frame.unwrap().row.rules.len())
    };
    assert_eq!(rules(128), Ok(128));
    assert_eq!(rules(129), Err(UnwindError::TooManyRegisterRules));
}

#[test]
fn arguments_are_popped() {
    let frame = by_hand(SP, vec![], &[]);
    let mut ctx = context(0x2010, 0x8000);
    frame.adjust_stack_for_args(&mut ctx);
    assert_eq!(*ctx.index(31), 0x8030);
    assert_eq!(*ctx.index(30), 0x2010);
    *ctx.index_mut(31) = usize::MAX;
    frame.adjust_stack_for_args(&mut ctx);
    assert_eq!(*ctx.index(31), 47);
}

#[test]
fn storages_come_in_some_sizes() {
    let sizes = [(0, 0), (1, 1), (4, 4), (5, 8), (8, 8), (9, 16), (17, 32), (33, 64)];
    for (x, size) in sizes {
        assert_eq!(next_value(x), size);
    }
    assert_eq!(next_value(97), 128);
    assert_eq!(next_value(128), 128);
    assert_eq!(next_value(129), 192);
    assert_eq!(next_value(usize::MAX), 192);
}

fn evaluate(program: &[u8], memory: &Memory) -> Result<usize, Halt> {
    evaluate_program(program, ByteOrder::Little, ENCODING, &context(0x2010, 0x8000), memory)
}

#[test]
fn a_program_computes_an_address() {
    let memory = Memory::new();
    // The literal 5, and 2 less than the stack pointer.
    assert_eq!(evaluate(&[0x35], &memory), Ok(5));
    assert_eq!(evaluate(&[0x8f, 0x7e], &memory), Ok(0x7ffe));
    // The stack pointer and the return address, added.
    assert_eq!(evaluate(&[0x8f, 0, 0x8e, 0, 0x22], &memory), Ok(0xa010));
}

#[test]
fn a_program_reads_memory() {
    let mut memory = Memory::new();
    let program = [0x8f, 0x08, 0x06, 0x06];
    assert_eq!(evaluate(&program, &memory), Err(Halt::Missing(0x8008)));
    memory.insert(0x8008, 0x9000);
    assert_eq!(evaluate(&program, &memory), Err(Halt::Missing(0x9000)));
    memory.insert(0x9000, 0x9990);
    assert_eq!(evaluate(&program, &memory), Ok(0x9990));
}

#[test]
fn a_program_follows_the_byte_order() {
    let program = [0x0a, 0x01, 0x02];
    let ctx = context(0, 0);
    let memory = Memory::new();
    let big = evaluate_program(&program, ByteOrder::Big, ENCODING, &ctx, &memory);
    assert_eq!(big, Ok(0x0102));
    assert_eq!(evaluate(&program, &memory), Ok(0x0201));
}

#[test]
fn a_program_follows_the_address_size() {
    let narrow = Encoding { address_size: 4, ..ENCODING };
    let program = [0x30, 0x31, 0x1c];
    let ctx = context(0, 0);
    let memory = Memory::new();
    let wrapped = evaluate_program(&program, ByteOrder::Little, narrow, &ctx, &memory);
    assert_eq!(wrapped, Ok(0xffff_ffff));
    assert_eq!(evaluate(&program, &memory), Ok(usize::MAX));
}

#[test]
fn a_broken_program_is_malformed() {
    let malformed = Err(Halt::Failed(UnwindError::Malformed));
    assert_eq!(evaluate(&[], &Memory::new()), malformed);
    assert_eq!(evaluate(&[0x22], &Memory::new()), malformed);
    assert_eq!(evaluate(&[0x01], &Memory::new()), malformed);
    assert_eq!(evaluate(&[0x8f, 0, 0x22], &Memory::new()), malformed);
    let mut memory = Memory::new();
    memory.insert(0x8000, 1);
    assert_eq!(evaluate(&[0x8f, 0, 0x06, 0x22], &memory), malformed);
}

#[test]
fn a_program_cannot_ask_for_everything() {
    let unsupported = Err(Halt::Fault(Fault::UnsupportedRequest));
    // The canonical frame address, the frame base, and an address to be relocated.
    assert_eq!(evaluate(&[0x9c], &Memory::new()), unsupported);
    assert_eq!(evaluate(&[0x91, 0], &Memory::new()), unsupported);
    assert_eq!(evaluate(&[0x03, 0, 0, 0, 0, 0, 0, 0, 0], &Memory::new()), unsupported);
    let unknown = Err(Halt::Fault(Fault::UnknownRegister(40)));
    assert_eq!(evaluate(&[0x92, 40, 0], &Memory::new()), unknown);
}

#[test]
fn a_program_must_end_in_an_address() {
    let wrong = Err(Halt::Fault(Fault::NotAnAddress));
    assert_eq!(evaluate(&[0x50], &Memory::new()), wrong);
    assert_eq!(evaluate(&[0x35, 0x9f], &Memory::new()), wrong);
    assert_eq!(
        evaluate(&[0x31, 0x93, 4, 0x32, 0x93, 4], &Memory::new()),
        Err(Halt::Failed(UnwindError::StackFull))
    );
    assert_eq!(evaluate(&[0x31, 0x93, 4], &Memory::new()), Ok(1));
}

#[test]
fn the_bits_of_a_piece_are_counted_in_64_bits() {
    let piece = |last: &[u8]| {
        let mut program = vec![0x31, 0x93];
        program.extend(last);
        evaluate(&program, &Memory::new())
    };
    let overflow = Err(Halt::Fault(Fault::Overflow));
    // 2^61 - 1, 2^61 and 2^64 - 1 bytes.
    assert_eq!(piece(&[0xff, 0xff, 0xff, 0xff, 0xff, 0xff, 0xff, 0xff, 0x1f]), Ok(1));
    assert_eq!(piece(&[0x80, 0x80, 0x80, 0x80, 0x80, 0x80, 0x80, 0x80, 0x20]), overflow);
    assert_eq!(piece(&[0xff, 0xff, 0xff, 0xff, 0xff, 0xff, 0xff, 0xff, 0xff, 0x01]), overflow);
    assert_eq!(
        evaluate(&[0x93, 0x80, 0x80, 0x80, 0x80, 0x80, 0x80, 0x80, 0x80, 0x20], &Memory::new()),
        overflow
    );
}

/// A piece of 2^61 bytes.
const HUGE_PIECE: [u8; 10] = [0x93, 0x80, 0x80, 0x80, 0x80, 0x80, 0x80, 0x80, 0x80, 0x20];

#[test]
fn only_operations_are_taken_for_pieces() {
    // A constant whose first byte is that of a piece, nothing, and 1 added.
    let constant = [0x0e, 0x93, 0xff, 0xff, 0xff, 0xff, 0xff, 0xff, 0xff, 0x96, 0x23, 0x01];
    assert_eq!(evaluate(&constant, &Memory::new()), Ok(0xffff_ffff_ffff_ff94));
    assert!(check_pieces(&constant, ByteOrder::Little, ENCODING));
    // The literal 1, and a jump over the piece to the end.
    let mut jump = vec![0x31, 0x2f, 10, 0];
    jump.extend(HUGE_PIECE);
    assert_eq!(evaluate(&jump, &Memory::new()), Ok(1));
}

#[test]
fn pieces_are_found_behind_jumps() {
    let overflow = Err(Halt::Fault(Fault::Overflow));
    // Over the piece, the literal 1, and back to the piece.
    let mut back = vec![0x2f, 10, 0];
    back.extend(HUGE_PIECE);
    back.extend([0x31, 0x2f, 0xf2, 0xff]);
    assert_eq!(evaluate(&back, &Memory::new()), overflow);
    // Over the piece or not.
    let mut perhaps = vec![0x31, 0x30, 0x28, 10, 0];
    perhaps.extend(HUGE_PIECE);
    assert_eq!(evaluate(&perhaps, &Memory::new()), overflow);
    // Jumps follow the byte order.
    let mut ahead = vec![0x2f, 0, 10];
    ahead.extend(HUGE_PIECE);
    assert!(check_pieces(&ahead, ByteOrder::Big, ENCODING));
    let mut astray = vec![0x2f, 10, 10];
    astray.extend(HUGE_PIECE);
    assert!(check_pieces(&astray, ByteOrder::Big, ENCODING));
    assert!(check_pieces(&[], ByteOrder::Little, ENCODING));
    assert!(!check_pieces(&HUGE_PIECE, ByteOrder::Little, ENCODING));
}

#[test]
fn addresses_in_programs_have_a_size() {
    // An address of 4 or of 8 bytes, and behind it in the first case a piece.
    let mut program = vec![0x03, 0, 0, 0, 0];
    program.extend(HUGE_PIECE);
    let narrow = Encoding { address_size: 4, ..ENCODING };
    assert!(!check_pieces(&program, ByteOrder::Little, narrow));
    assert!(check_pieces(&program, ByteOrder::Little, ENCODING));
}

#[test]
fn a_program_can_take_many_operations() {
    // From 0x50_0000 down to 0, by 4 operations each time.
    let program = [0x0c, 0, 0, 0x50, 0, 0x31, 0x1c, 0x12, 0x28, 0xfa, 0xff];
    assert_eq!(evaluate(&program, &Memory::new()), Ok(0));
}

#[test]
fn a_program_can_ask_many_times() {
    // x0, dropped, 1000 times.
    let program = [0x0a, 0xe8, 0x03, 0x70, 0, 0x13, 0x31, 0x1c, 0x12, 0x28, 0xf7, 0xff];
    assert_eq!(evaluate(&program, &Memory::new()), Ok(0));
}

#[test]
fn requests_are_answered() {
    let ctx = context(0x2010, 0x8000);
    let mut memory = Memory::new();
    memory.insert(0x8000, 77);
    assert_eq!(answer(Request::Complete, &ctx, &memory), Ok(Answer::Done));
    assert_eq!(answer(Request::Memory(0x8000), &ctx, &memory), Ok(Answer::Memory(77)));
    assert_eq!(answer(Request::Memory(8), &ctx, &memory), Err(Halt::Missing(8)));
    assert_eq!(answer(Request::Register(30), &ctx, &memory), Ok(Answer::Register(0x2010)));
    assert_eq!(
        answer(Request::Register(33), &ctx, &memory),
        Err(Halt::Fault(Fault::UnknownRegister(33)))
    );
    for request in [Request::Relocated(0x8000), Request::Other] {
        assert_eq!(
            answer(request, &ctx, &memory),
            Err(Halt::Fault(Fault::UnsupportedRequest))
        );
    }
}

#[test]
fn one_piece_in_memory_is_an_address() {
    assert_eq!(address(&vec![Some(5)]), Ok(5));
    assert_eq!(address(&vec![None]), Err(Halt::Fault(Fault::NotAnAddress)));
    assert_eq!(address(&vec![]), Err(Halt::Failed(UnwindError::PopWithEmptyStack)));
    assert_eq!(
        address(&vec![Some(1), Some(2)]),
        Err(Halt::Failed(UnwindError::StackFull))
    );
}
