use unwinding::reader::ByteOrder;
use unwinding::unwinder::arch::aarch64::Context;
use unwinding::unwinder::context::{
    UnwindContext, _Unwind_GetCFA, _Unwind_GetDataRelBase, _Unwind_GetGR, _Unwind_GetIP,
    _Unwind_GetIPInfo, _Unwind_GetLanguageSpecificData, _Unwind_GetRegionStart,
    _Unwind_GetTextRelBase, _Unwind_SetGR, _Unwind_SetIP,
};
use unwinding::encoding::Pointer;
use unwinding::error::Halt;
use unwinding::memory::{deref_pointer, Memory};
use unwinding::unwinder::find_fde::{EhFrame, FDESearchResult};
use unwinding::unwinder::frame::{Frame, UnwindRow};
use unwinding::unwinder::table::{BaseAddresses, CfaRule, Encoding, FrameDescription};
use unwinding::util::unlimited_slice_len;

fn frame(lsda: Option<Pointer>, text: Option<u64>, data: Option<u64>) -> Frame<'static> {
    Frame {
        fde_result: FDESearchResult {
            fde: FrameDescription {
                initial_address: 0x4000,
                end_address: 0x4100,
                personality: None,
                lsda,
                signal_trampoline: false,
                encoding: Encoding { dwarf64: false, version: 1, address_size: 8 },
            },
            bases: BaseAddresses { section: Some(0x9000), text, data },
            eh_frame: EhFrame { section: &[], order: ByteOrder::Little },
        },
        row: UnwindRow {
            cfa: CfaRule::RegisterAndOffset { register: 31, offset: 0 },
            rules: Vec::new(),
            saved_args_size: 0,
        },
    }
}

fn numbered() -> Context {
    let mut ctx = Context::default();
    for n in (0..=31).chain(64..=95) {
        *ctx.index_mut(n) = 1000 + n as usize;
    }
    ctx
}

#[test]
fn a_new_context_is_all_zero() {
    let ctx = Context::default();
    for n in (0..=31).chain(64..=95) {
        assert_eq!(*ctx.index(n), 0);
    }
}

#[test]
fn registers_stand_in_their_places() {
    let ctx = numbered();
    assert_eq!(ctx.gp[0], 1000);
    assert_eq!(ctx.gp[30], 1030);
    assert_eq!(ctx.sp, 1031);
    assert_eq!(ctx.fp[0], 1064);
    assert_eq!(ctx.fp[31], 1095);
    assert_eq!(*ctx.index(31), 1031);
    assert_eq!(*ctx.index(95), 1095);
}

#[test]
fn a_context_has_the_registers_that_are_saved() {
    for n in 0..=200u16 {
        assert_eq!(Context::has(n), n <= 31 || (64 <= n && n <= 95));
    }
    assert!(!Context::has(u16::MAX));
}

#[test]
fn registers_are_listed_with_their_names() {
    let fields = numbered().fields();
    assert_eq!(fields.len(), 64);
    assert_eq!(fields[0], ("X0", 1000));
    assert_eq!(fields[9], ("X9", 1009));
    assert_eq!(fields[10], ("X10", 1010));
    assert_eq!(fields[30], ("X30", 1030));
    assert_eq!(fields[31], ("sp", 1031));
    assert_eq!(fields[32], ("V0", 1064));
    assert_eq!(fields[63], ("V31", 1095));
}

#[test]
fn a_register_holds_what_was_set() {
    let mut ctx = UnwindContext { frame: None, ctx: numbered(), signal: false };
    _Unwind_SetGR(&mut ctx, 19, 77);
    assert_eq!(_Unwind_GetGR(&ctx, 19), 77);
    assert_eq!(_Unwind_GetGR(&ctx, 20), 1020);
    _Unwind_SetIP(&mut ctx, 88);
    assert_eq!(_Unwind_GetIP(&ctx), 88);
    assert_eq!(_Unwind_GetGR(&ctx, 30), 88);
    assert_eq!(_Unwind_GetCFA(&ctx), 1031);
}

#[test]
fn a_register_number_is_cut_to_16_bits() {
    let ctx = UnwindContext { frame: None, ctx: numbered(), signal: false };
    assert_eq!(_Unwind_GetGR(&ctx, 0x1_0002), 1002);
}

#[test]
fn the_address_of_an_interrupted_instruction_is_exact() {
    let mut before = -1;
    let mut ctx = UnwindContext { frame: None, ctx: numbered(), signal: true };
    assert_eq!(_Unwind_GetIPInfo(&ctx, &mut before), 1030);
    assert_eq!(before, 1);
    ctx.signal = false;
    assert_eq!(_Unwind_GetIPInfo(&ctx, &mut before), 1030);
    assert_eq!(before, 0);
}

#[test]
fn without_a_frame_there_is_nothing_to_know() {
    let ctx = UnwindContext { frame: None, ctx: numbered(), signal: false };
    let memory = Memory::new();
    assert_eq!(_Unwind_GetLanguageSpecificData(&ctx, &memory), Ok(0));
    assert_eq!(_Unwind_GetRegionStart(&ctx), 0);
    assert_eq!(_Unwind_GetTextRelBase(&ctx), 0);
    assert_eq!(_Unwind_GetDataRelBase(&ctx), 0);
}

#[test]
fn a_frame_gives_its_addresses() {
    let frame = frame(Some(Pointer::Direct(0x7000)), Some(0x100), Some(0x200));
    let ctx = UnwindContext { frame: Some(frame), ctx: numbered(), signal: false };
    let memory = Memory::new();
    assert_eq!(_Unwind_GetLanguageSpecificData(&ctx, &memory), Ok(0x7000));
    assert_eq!(_Unwind_GetRegionStart(&ctx), 0x4000);
    assert_eq!(_Unwind_GetTextRelBase(&ctx), 0x100);
    assert_eq!(_Unwind_GetDataRelBase(&ctx), 0x200);
}

#[test]
fn a_base_that_is_not_available_is_zero() {
    let ctx = UnwindContext { frame: Some(frame(None, None, None)), ctx: numbered(), signal: false };
    assert_eq!(_Unwind_GetTextRelBase(&ctx), 0);
    assert_eq!(_Unwind_GetDataRelBase(&ctx), 0);
    assert_eq!(_Unwind_GetLanguageSpecificData(&ctx, &Memory::new()), Ok(0));
}

#[test]
fn an_indirect_pointer_is_followed_once_its_word_is_known() {
    let ctx = UnwindContext {
        frame: Some(frame(Some(Pointer::Indirect(0x7000)), None, None)),
        ctx: numbered(),
        signal: false,
    };
    let mut memory = Memory::new();
    assert_eq!(_Unwind_GetLanguageSpecificData(&ctx, &memory), Err(Halt::Missing(0x7000)));
    memory.insert(0x7000, 0x7777);
    assert_eq!(_Unwind_GetLanguageSpecificData(&ctx, &memory), Ok(0x7777));
}

#[test]
fn memory_gives_back_what_was_inserted() {
    let mut memory = Memory::new();
    assert_eq!(memory.read(8), Err(Halt::Missing(8)));
    memory.insert(8, 80);
    memory.insert(16, 160);
    assert_eq!(memory.read(8), Ok(80));
    assert_eq!(memory.read(16), Ok(160));
    memory.insert(8, 81);
    assert_eq!(memory.read(8), Ok(81));
    assert_eq!(memory.read(24), Err(Halt::Missing(24)));
    assert_eq!(deref_pointer(Pointer::Direct(8), &memory), Ok(8));
    assert_eq!(deref_pointer(Pointer::Indirect(8), &memory), Ok(81));
}

#[test]
fn the_longest_slice_ends_with_the_address_space() {
    assert_eq!(unlimited_slice_len(0), isize::MAX as usize);
    assert_eq!(unlimited_slice_len(0x1000), isize::MAX as usize);
    assert_eq!(unlimited_slice_len(usize::MAX), 0);
    assert_eq!(unlimited_slice_len(usize::MAX - 5), 5);
}
