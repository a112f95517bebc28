use unwinding::abi::UnwindReasonCode;
use unwinding::panicking::{begin_panic, class_number, do_catch, Caught};
use unwinding::reader::ByteOrder;
use unwinding::unwinder::exception::{CleanupCall, UnwindException, _Unwind_DeleteException};

const MOZ: [u8; 8] = *b"MOZ\0RUST";
const CPP: [u8; 8] = *b"GNUCC++\0";

fn blank() -> UnwindException {
    UnwindException { exception_class: 0, exception_cleanup: None, private_1: Some(3), private_2: 4 }
}

#[test]
fn a_class_is_a_number_in_the_byte_order() {
    let class = [1, 2, 3, 4, 5, 6, 7, 8];
    assert_eq!(class_number(class, ByteOrder::Little), 0x0807_0605_0403_0201);
    assert_eq!(class_number(class, ByteOrder::Big), 0x0102_0304_0506_0708);
    assert_eq!(class_number([0xff; 8], ByteOrder::Little), u64::MAX);
    assert_eq!(class_number(MOZ, ByteOrder::Little), u64::from_le_bytes(MOZ));
    assert_eq!(class_number(MOZ, ByteOrder::Big), u64::from_be_bytes(MOZ));
}

#[test]
fn a_panic_is_marked_before_it_is_raised() {
    let mut exception = blank();
    begin_panic(&mut exception, MOZ, ByteOrder::Little, 0x5000);
    assert_eq!(exception.exception_class, u64::from_le_bytes(MOZ));
    assert_eq!(exception.exception_cleanup, Some(0x5000));
    assert_eq!(exception.private_1, Some(3));
    assert_eq!(exception.private_2, 4);
}

#[test]
fn a_panic_is_known_again() {
    for order in [ByteOrder::Little, ByteOrder::Big] {
        let mut exception = blank();
        begin_panic(&mut exception, MOZ, order, 0x5000);
        exception.private_1 = None;
        exception.private_2 = 99;
        assert_eq!(do_catch(&exception, MOZ, order), Caught::Own);
    }
}

#[test]
fn a_foreign_exception_is_freed() {
    let mut exception = blank();
    begin_panic(&mut exception, CPP, ByteOrder::Little, 0x5000);
    let free = CleanupCall {
        cleanup: 0x5000,
        code: UnwindReasonCode::foreign_exception_caught(),
    };
    assert_eq!(
        do_catch(&exception, MOZ, ByteOrder::Little),
        Caught::Foreign { free: Some(free) }
    );
    assert_eq!(_Unwind_DeleteException(&exception), Some(free));
}

#[test]
fn a_foreign_exception_without_a_cleanup_is_left_alone() {
    assert_eq!(
        do_catch(&blank(), MOZ, ByteOrder::Little),
        Caught::Foreign { free: None }
    );
    assert_eq!(_Unwind_DeleteException(&blank()), None);
}
