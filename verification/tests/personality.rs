use unwinding::abi::{UnwindAction, UnwindReasonCode};
use unwinding::encoding::{Pointer, PointerEncoding};
use unwinding::error::{Fault, Halt, UnwindError};
use unwinding::memory::Memory;
use unwinding::personality::{
    act_on, find_eh_action, parse_encoded_pointer, parse_pointer_encoding, rust_eh_personality,
    EHAction,
};
use unwinding::reader::{ByteOrder, Reader};
use unwinding::unwinder::arch::aarch64::Context;
use unwinding::unwinder::context::UnwindContext;
use unwinding::unwinder::find_fde::{EhFrame, FDESearchResult};
use unwinding::unwinder::frame::{Frame, UnwindRow};
use unwinding::unwinder::table::{BaseAddresses, CfaRule, Encoding, FrameDescription};

const START: usize = 0x4000;
const LSDA: usize = 0x7000;

fn context_with(ip: usize, signal: bool, lsda: Option<Pointer>) -> UnwindContext<'static> {
    let mut ctx = Context::default();
    *ctx.index_mut(30) = ip;
    *ctx.index_mut(0) = 11;
    *ctx.index_mut(1) = 12;
    *ctx.index_mut(19) = 13;
    let frame = Frame {
        fde_result: FDESearchResult {
            fde: FrameDescription {
                initial_address: START as u64,
                end_address: START as u64 + 0x100,
                personality: None,
                lsda,
                signal_trampoline: false,
                encoding: Encoding { dwarf64: false, version: 1, address_size: 8 },
            },
            bases: BaseAddresses { section: None, text: Some(0x100), data: Some(0x200) },
            eh_frame: EhFrame { section: &[], order: ByteOrder::Little },
        },
        row: UnwindRow {
            cfa: CfaRule::RegisterAndOffset { register: 31, offset: 0 },
            rules: Vec::new(),
            saved_args_size: 0,
        },
    };
    UnwindContext { frame: Some(frame), ctx, signal }
}

/// In a call whose return address is `offset` bytes behind the start of the function.
fn returning_to(offset: usize) -> UnwindContext<'static> {
    context_with(START + offset, false, Some(Pointer::Direct(LSDA as u64)))
}

fn action_in(lsda: &[u8], ctx: &UnwindContext<'_>, memory: &Memory) -> Result<EHAction, Halt> {
    let reader = Reader { bytes: lsda, addr: LSDA, order: ByteOrder::Little };
    find_eh_action(&reader, ctx, memory)
}

fn action(lsda: &[u8], offset: usize) -> Result<EHAction, Halt> {
    action_in(lsda, &returning_to(offset), &Memory::new())
}

/// No landing pad base, no type table, call sites in ULEB128, and a table of four:
/// a cleanup, one without a pad, a catch and a filter.
const TABLE: [u8; 23] = [
    0xff, 0xff, 0x01, 16, // header
    0x00, 0x10, 0x40, 0x00, // 0x00..0x10, cleanup at 0x40
    0x10, 0x10, 0x00, 0x00, // 0x10..0x20, nothing
    0x30, 0x08, 0x50, 0x01, // 0x30..0x38, first action
    0x38, 0x08, 0x60, 0x03, // 0x38..0x40, third action
    0x01, 0x00, 0x7f, // actions: catch, end of chain, filter
];

#[test]
fn the_call_site_decides() {
    assert_eq!(action(&TABLE, 0x01), Ok(EHAction::Cleanup(START + 0x40)));
    assert_eq!(action(&TABLE, 0x10), Ok(EHAction::Cleanup(START + 0x40)));
    assert_eq!(action(&TABLE, 0x11), Ok(EHAction::Nothing));
    assert_eq!(action(&TABLE, 0x20), Ok(EHAction::Nothing));
    assert_eq!(action(&TABLE, 0x31), Ok(EHAction::Catch(START + 0x50)));
    assert_eq!(action(&TABLE, 0x39), Ok(EHAction::Filter(START + 0x60)));
}

#[test]
fn the_first_call_site_that_covers_an_address_decides() {
    // 0x00..0x20 and 0x10..0x30, sorted by where they start.
    let lsda = [0xff, 0xff, 0x01, 8, 0x00, 0x20, 0x40, 0x00, 0x10, 0x20, 0x50, 0x00];
    assert_eq!(action(&lsda, 0x08), Ok(EHAction::Cleanup(START + 0x40)));
    assert_eq!(action(&lsda, 0x19), Ok(EHAction::Cleanup(START + 0x40)));
    assert_eq!(action(&lsda, 0x21), Ok(EHAction::Cleanup(START + 0x50)));
    assert_eq!(action(&lsda, 0x31), Ok(EHAction::Terminate));
}

#[test]
fn the_type_table_is_never_read() {
    let table = |place: &[u8], types: &[u8]| {
        let mut lsda = vec![0xff];
        lsda.extend(place);
        lsda.extend([0x01, 8, 0, 0x10, 0x40, 1, 0x10, 0x10, 0x50, 3]);
        lsda.extend([0x01, 0x00, 0x7f, 0x00]);
        lsda.extend(types);
        (action(&lsda, 0x01), action(&lsda, 0x11))
    };
    let expected = (Ok(EHAction::Catch(START + 0x40)), Ok(EHAction::Filter(START + 0x50)));
    assert_eq!(table(&[0xff], &[]), expected);
    assert_eq!(table(&[0x00, 0x16], &[0; 8]), expected);
    assert_eq!(table(&[0x9b, 0xff, 0x7f], &[0xee; 3]), expected);
}

#[test]
fn an_address_in_no_call_site_terminates() {
    assert_eq!(action(&TABLE, 0x21), Ok(EHAction::Terminate));
    assert_eq!(action(&TABLE, 0x30), Ok(EHAction::Terminate));
    assert_eq!(action(&TABLE, 0x41), Ok(EHAction::Terminate));
    assert_eq!(action(&[0xff, 0xff, 0x01, 0x00], 0x10), Ok(EHAction::Terminate));
}

#[test]
fn an_interrupted_instruction_is_looked_up_itself() {
    let ctx = context_with(START + 0x10, true, None);
    assert_eq!(action_in(&TABLE, &ctx, &Memory::new()), Ok(EHAction::Nothing));
    let ctx = context_with(START + 0x10, false, None);
    assert_eq!(
        action_in(&TABLE, &ctx, &Memory::new()),
        Ok(EHAction::Cleanup(START + 0x40))
    );
}

#[test]
fn a_zero_type_index_is_a_cleanup() {
    let lsda = [0xff, 0xff, 0x01, 4, 0x00, 0x10, 0x40, 0x01, 0x00];
    assert_eq!(action(&lsda, 1), Ok(EHAction::Cleanup(START + 0x40)));
}

#[test]
fn landing_pads_can_have_a_base_of_their_own() {
    let lsda = [0x02, 0x00, 0x90, 0xff, 0x01, 4, 0x00, 0x10, 0x40, 0x00];
    assert_eq!(action(&lsda, 1), Ok(EHAction::Cleanup(0x9040)));
}

#[test]
fn the_place_of_the_type_table_is_passed_over() {
    let lsda = [0xff, 0x9b, 0x85, 0x01, 0x01, 4, 0x00, 0x10, 0x40, 0x00];
    assert_eq!(action(&lsda, 1), Ok(EHAction::Cleanup(START + 0x40)));
}

#[test]
fn every_format_of_a_pointer_is_read() {
    // udata2, udata4, udata8, sleb128, sdata2, sdata4, sdata8 and absptr.
    let sizes = [(0x02, 2), (0x03, 4), (0x04, 8), (0x0a, 2), (0x0b, 4), (0x0c, 8), (0x00, 8)];
    for (encoding, size) in sizes {
        let mut lsda = vec![0xff, 0xff, encoding, 3 * size + 1];
        for value in [0x00u8, 0x10, 0x40] {
            lsda.push(value);
            lsda.extend(vec![0; size as usize - 1]);
        }
        lsda.push(0);
        assert_eq!(action(&lsda, 1), Ok(EHAction::Cleanup(START + 0x40)));
    }
    let lsda = [0xff, 0xff, 0x09, 5, 0x00, 0x10, 0xc0, 0x00, 0x00];
    assert_eq!(action(&lsda, 1), Ok(EHAction::Cleanup(START + 0x40)));
}

#[test]
fn a_pointer_can_be_relative() {
    let pad = |lsda: &[u8]| match action(lsda, 1) {
        Ok(EHAction::Cleanup(lpad)) => lpad - 0x40,
        other => panic!("{:?}", other),
    };
    // The place of the number, the text base, the data base and the function.
    assert_eq!(pad(&[0x12, 0x05, 0x00, 0xff, 0x01, 4, 0, 0x10, 0x40, 0]), LSDA + 1 + 5);
    assert_eq!(pad(&[0x22, 0x05, 0x00, 0xff, 0x01, 4, 0, 0x10, 0x40, 0]), 0x100 + 5);
    assert_eq!(pad(&[0x32, 0x05, 0x00, 0xff, 0x01, 4, 0, 0x10, 0x40, 0]), 0x200 + 5);
    assert_eq!(pad(&[0x42, 0x05, 0x00, 0xff, 0x01, 4, 0, 0x10, 0x40, 0]), START + 5);
    // Seven bytes of padding lead to the next multiple of eight.
    let aligned = [0x52, 9, 9, 9, 9, 9, 9, 9, 0x05, 0x00, 0xff, 0x01, 4, 0, 0x10, 0x40, 0];
    assert_eq!(pad(&aligned), 5);
    // A negative offset wraps around.
    assert_eq!(pad(&[0x1a, 0xff, 0xff, 0xff, 0x01, 4, 0, 0x10, 0x40, 0]), LSDA + 1 - 1);
}

#[test]
fn an_indirect_landing_pad_base_is_read_from_memory() {
    let lsda = [0x82, 0x00, 0x90, 0xff, 0x01, 4, 0x00, 0x10, 0x40, 0x00];
    let ctx = returning_to(1);
    let mut memory = Memory::new();
    assert_eq!(action_in(&lsda, &ctx, &memory), Err(Halt::Missing(0x9000)));
    memory.insert(0x9000, 0xa000);
    assert_eq!(action_in(&lsda, &ctx, &memory), Ok(EHAction::Cleanup(0xa040)));
    memory.insert(0x1234, 1);
    assert_eq!(action_in(&lsda, &ctx, &memory), Ok(EHAction::Cleanup(0xa040)));
}

#[test]
fn a_pointer_is_read_and_not_followed() {
    let ctx = returning_to(1);
    let bytes = [0x03, 0x10, 0x00, 0xee];
    let input = Reader { bytes: &bytes, addr: LSDA, order: ByteOrder::Little };
    let (encoding, rest) = parse_pointer_encoding(&input).unwrap();
    assert_eq!((encoding, rest.bytes.len()), (PointerEncoding(0x03), 3));
    let read = |encoding| {
        let (pointer, rest) =
            parse_encoded_pointer(PointerEncoding(encoding), &ctx, &rest).unwrap();
        (pointer, rest.bytes.len(), rest.addr)
    };
    assert_eq!(read(0x02), (Pointer::Direct(0x10), 1, LSDA + 3));
    assert_eq!(read(0x82), (Pointer::Indirect(0x10), 1, LSDA + 3));
    assert_eq!(read(0x12), (Pointer::Direct(LSDA as u64 + 0x11), 1, LSDA + 3));
    assert_eq!(read(0x92), (Pointer::Indirect(LSDA as u64 + 0x11), 1, LSDA + 3));
    assert_eq!(
        parse_encoded_pointer(PointerEncoding(0xff), &ctx, &rest).err(),
        Some(Halt::Failed(UnwindError::CannotParseOmitPointerEncoding))
    );
}

#[test]
fn the_bit_for_indirect_pointers_changes_nothing_else() {
    // The landing pad base in each format, absolute or relative to its own place.
    let numbers = [0x00, 0x01, 0x02, 0x03, 0x04, 0x09, 0x0a, 0x0b, 0x0c];
    for encoding in numbers.iter().flat_map(|format| [*format, format | 0x10]) {
        let mut lsda = vec![encoding];
        match encoding & 0x0f {
            0x01 | 0x09 => lsda.push(0x30),
            0x02 | 0x0a => lsda.extend([0x30, 0]),
            0x03 | 0x0b => lsda.extend([0x30, 0, 0, 0]),
            _ => lsda.extend([0x30, 0, 0, 0, 0, 0, 0, 0]),
        }
        lsda.extend([0xff, 0x01, 4, 0, 0x10, 0x40, 0]);
        let base = if encoding & 0x10 == 0 { 0x30 } else { LSDA + 1 + 0x30 };
        assert_eq!(action(&lsda, 1), Ok(EHAction::Cleanup(base + 0x40)));
        lsda[0] |= 0x80;
        assert_eq!(action(&lsda, 1), Err(Halt::Missing(base)));
        let mut memory = Memory::new();
        memory.insert(base, 0xa000);
        assert_eq!(
            action_in(&lsda, &returning_to(1), &memory),
            Ok(EHAction::Cleanup(0xa040))
        );
    }
}

#[test]
fn an_unknown_encoding_is_an_error() {
    for byte in [0x05, 0x08, 0x0d, 0x0f, 0x60, 0x70] {
        let unknown = Err(Halt::Failed(UnwindError::UnknownPointerEncoding(byte)));
        assert_eq!(action(&[byte], 1), unknown);
        assert_eq!(action(&[0xff, byte], 1), unknown);
        assert_eq!(action(&[0xff, 0xff, byte], 1), unknown);
    }
}

#[test]
fn an_omitted_call_site_encoding_is_an_error() {
    let lsda = [0xff, 0xff, 0xff, 1, 0];
    assert_eq!(
        action(&lsda, 1),
        Err(Halt::Failed(UnwindError::CannotParseOmitPointerEncoding))
    );
}

#[test]
fn an_lsda_that_ends_too_early_is_malformed() {
    let malformed = Err(Halt::Failed(UnwindError::Malformed));
    assert_eq!(action(&[], 1), malformed);
    assert_eq!(action(&[0xff], 1), malformed);
    assert_eq!(action(&[0xff, 0xff], 1), malformed);
    assert_eq!(action(&[0xff, 0xff, 0x01], 1), malformed);
    assert_eq!(action(&[0xff, 0xff, 0x01, 3, 0, 0x10, 0x40], 1), malformed);
    assert_eq!(action(&[0xff, 0xff, 0x01, 4, 0, 0x10, 0x40, 3, 0], 1), malformed);
    assert_eq!(action(&[0xff, 0xff, 0x01, 4, 0, 0x10, 0x40, 1], 1), malformed);
    assert_eq!(action(&[0x52, 0], 1), malformed);
}

#[test]
fn a_call_site_table_beyond_the_lsda_is_a_fault() {
    assert_eq!(
        action(&[0xff, 0xff, 0x01, 5, 0, 0x10, 0x40, 0], 1),
        Err(Halt::Fault(Fault::OutOfBounds))
    );
}

#[test]
fn an_address_beyond_the_address_space_is_a_fault() {
    let overflow = Err(Halt::Fault(Fault::Overflow));
    let far = [0xff; 8];
    let site = |start: &[u8], len: &[u8], lpad: &[u8]| {
        let mut lsda = vec![0xff, 0xff, 0x00, 25];
        lsda.extend(start);
        lsda.extend(len);
        lsda.extend(lpad);
        lsda.push(0);
        lsda
    };
    let near = [0x10, 0, 0, 0, 0, 0, 0, 0];
    let zero = [0; 8];
    assert_eq!(action(&site(&far, &zero, &zero), 1), overflow);
    assert_eq!(action(&site(&zero, &far, &zero), 1), overflow);
    assert_eq!(action(&site(&zero, &near, &far), 1), overflow);
    let ctx = context_with(0, false, None);
    assert_eq!(action_in(&TABLE, &ctx, &Memory::new()), overflow);
    let reader = Reader { bytes: &[0x52, 0, 0], addr: usize::MAX - 3, order: ByteOrder::Little };
    assert_eq!(find_eh_action(&reader, &returning_to(1), &Memory::new()), overflow);
}

#[test]
fn numbers_follow_the_byte_order() {
    let lsda = [0xff, 0xff, 0x02, 7, 0, 0, 0, 0x10, 0, 0x40, 0];
    let reader = Reader { bytes: &lsda, addr: LSDA, order: ByteOrder::Big };
    assert_eq!(
        find_eh_action(&reader, &returning_to(1), &Memory::new()),
        Ok(EHAction::Cleanup(START + 0x40))
    );
}

const ACTIONS: [EHAction; 5] = [
    EHAction::Nothing,
    EHAction::Cleanup(5),
    EHAction::Catch(5),
    EHAction::Filter(5),
    EHAction::Terminate,
];

#[test]
fn the_search_phase_looks_for_a_handler_and_touches_nothing() {
    let codes = [
        UnwindReasonCode::continue_unwind(),
        UnwindReasonCode::continue_unwind(),
        UnwindReasonCode::handler_found(),
        UnwindReasonCode::handler_found(),
        UnwindReasonCode::fatal_phase1_error(),
    ];
    for (eh_action, code) in ACTIONS.into_iter().zip(codes) {
        let mut ctx = returning_to(1);
        let before = ctx.ctx.fields();
        assert_eq!(act_on(eh_action, UnwindAction::search_phase(), 99, &mut ctx), code);
        assert_eq!(ctx.ctx.fields(), before);
    }
}

#[test]
fn the_cleanup_phase_enters_landing_pads() {
    let install = UnwindReasonCode::install_context();
    let codes = [
        UnwindReasonCode::continue_unwind(),
        install,
        install,
        install,
        UnwindReasonCode::fatal_phase2_error(),
    ];
    for (eh_action, code) in ACTIONS.into_iter().zip(codes) {
        let mut ctx = returning_to(1);
        assert_eq!(act_on(eh_action, UnwindAction::cleanup_phase(), 99, &mut ctx), code);
        let entered = code == install;
        assert_eq!(*ctx.ctx.index(0), if entered { 99 } else { 11 });
        assert_eq!(*ctx.ctx.index(1), if entered { 0 } else { 12 });
        assert_eq!(*ctx.ctx.index(30), if entered { 5 } else { START + 1 });
        assert_eq!(*ctx.ctx.index(19), 13);
    }
}

#[test]
fn a_forced_unwind_passes_filters() {
    let forced = UnwindAction::force_unwind() | UnwindAction::cleanup_phase();
    let mut ctx = returning_to(1);
    assert_eq!(
        act_on(EHAction::Filter(5), forced, 99, &mut ctx),
        UnwindReasonCode::continue_unwind()
    );
    assert_eq!(*ctx.ctx.index(30), START + 1);
    assert_eq!(
        act_on(EHAction::Catch(5), forced, 99, &mut ctx),
        UnwindReasonCode::install_context()
    );
    assert_eq!(*ctx.ctx.index(30), 5);
}

#[test]
fn a_handler_that_was_found_is_entered() {
    for eh_action in ACTIONS {
        let found = act_on(eh_action, UnwindAction::search_phase(), 99, &mut returning_to(1));
        if found == UnwindReasonCode::handler_found() {
            let handler = UnwindAction::cleanup_phase() | UnwindAction::handler_frame();
            let code = act_on(eh_action, handler, 99, &mut returning_to(1));
            assert_eq!(code, UnwindReasonCode::install_context());
        }
    }
}

fn personality(
    version: i32,
    actions: UnwindAction,
    ctx: &mut UnwindContext<'_>,
    lsda: &[u8],
    memory: &Memory,
) -> Result<UnwindReasonCode, Halt> {
    rust_eh_personality(version, actions, 0, 99, ctx, lsda, ByteOrder::Little, memory)
}

#[test]
fn the_personality_routine_searches_and_cleans_up() {
    let memory = Memory::new();
    let mut ctx = returning_to(0x31);
    assert_eq!(
        personality(1, UnwindAction::search_phase(), &mut ctx, &TABLE, &memory),
        Ok(UnwindReasonCode::handler_found())
    );
    assert_eq!(*ctx.ctx.index(30), START + 0x31);
    assert_eq!(
        personality(1, UnwindAction::cleanup_phase(), &mut ctx, &TABLE, &memory),
        Ok(UnwindReasonCode::install_context())
    );
    assert_eq!(*ctx.ctx.index(30), START + 0x50);
    assert_eq!(*ctx.ctx.index(0), 99);
    assert_eq!(*ctx.ctx.index(1), 0);
}

#[test]
fn another_version_of_the_protocol_is_refused() {
    let search = UnwindAction::search_phase();
    let cleanup = UnwindAction::cleanup_phase();
    for version in [0, 2, -1] {
        let mut ctx = returning_to(0x31);
        let mut answer = |actions| personality(version, actions, &mut ctx, &TABLE, &Memory::new());
        assert_eq!(answer(search), Ok(UnwindReasonCode::fatal_phase1_error()));
        assert_eq!(answer(cleanup), Ok(UnwindReasonCode::fatal_phase2_error()));
        let forced = cleanup | UnwindAction::force_unwind();
        assert_eq!(answer(forced), Ok(UnwindReasonCode::fatal_phase2_error()));
        assert_eq!(*ctx.ctx.index(30), START + 0x31);
    }
}

#[test]
fn a_function_without_an_lsda_is_passed() {
    for lsda in [None, Some(Pointer::Direct(0))] {
        let mut ctx = context_with(START + 0x31, false, lsda);
        assert_eq!(
            personality(1, UnwindAction::search_phase(), &mut ctx, &[], &Memory::new()),
            Ok(UnwindReasonCode::continue_unwind())
        );
    }
}

#[test]
fn a_broken_lsda_is_fatal_in_both_phases() {
    let codes = [
        (UnwindAction::search_phase(), UnwindReasonCode::fatal_phase1_error()),
        (UnwindAction::cleanup_phase(), UnwindReasonCode::fatal_phase2_error()),
    ];
    for (actions, code) in codes {
        let mut ctx = returning_to(1);
        assert_eq!(personality(1, actions, &mut ctx, &[0x05], &Memory::new()), Ok(code));
        assert_eq!(*ctx.ctx.index(30), START + 1);
    }
}

#[test]
fn the_personality_routine_asks_for_words_it_does_not_know() {
    let mut ctx = context_with(START + 1, false, Some(Pointer::Indirect(0x8800)));
    let mut memory = Memory::new();
    let search = UnwindAction::search_phase();
    assert_eq!(personality(1, search, &mut ctx, &TABLE, &memory), Err(Halt::Missing(0x8800)));
    memory.insert(0x8800, LSDA);
    assert_eq!(
        personality(1, search, &mut ctx, &TABLE, &memory),
        Ok(UnwindReasonCode::continue_unwind())
    );
    assert_eq!(
        personality(1, search, &mut ctx, &[0xff, 0xff, 0x01, 9], &memory),
        Err(Halt::Fault(Fault::OutOfBounds))
    );
}
