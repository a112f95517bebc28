use unwinding::abi::{UnwindAction, UnwindReasonCode};
use unwinding::arch::Arch;

#[test]
fn reason_codes_have_their_numbers() {
    assert_eq!(UnwindReasonCode::no_reason().0, 0);
    assert_eq!(UnwindReasonCode::foreign_exception_caught().0, 1);
    assert_eq!(UnwindReasonCode::fatal_phase2_error().0, 2);
    assert_eq!(UnwindReasonCode::fatal_phase1_error().0, 3);
    assert_eq!(UnwindReasonCode::normal_stop().0, 4);
    assert_eq!(UnwindReasonCode::end_of_stack().0, 5);
    assert_eq!(UnwindReasonCode::handler_found().0, 6);
    assert_eq!(UnwindReasonCode::install_context().0, 7);
    assert_eq!(UnwindReasonCode::continue_unwind().0, 8);
}

#[test]
fn actions_have_their_numbers() {
    assert_eq!(UnwindAction::empty().0, 0);
    assert_eq!(UnwindAction::search_phase().0, 1);
    assert_eq!(UnwindAction::cleanup_phase().0, 2);
    assert_eq!(UnwindAction::handler_frame().0, 4);
    assert_eq!(UnwindAction::force_unwind().0, 8);
    assert_eq!(UnwindAction::end_of_stack().0, 16);
}

#[test]
fn a_union_contains_the_flags_of_its_parts() {
    let both = UnwindAction::cleanup_phase() | UnwindAction::handler_frame();
    assert_eq!(both, UnwindAction(6));
    assert!(both.contains(UnwindAction::cleanup_phase()));
    assert!(both.contains(UnwindAction::handler_frame()));
    assert!(!both.contains(UnwindAction::search_phase()));
    assert!(!both.contains(UnwindAction::force_unwind()));
}

#[test]
fn one_shared_flag_is_enough_to_be_contained() {
    let both = UnwindAction::cleanup_phase() | UnwindAction::handler_frame();
    assert!(UnwindAction::cleanup_phase().contains(both));
}

#[test]
fn the_empty_set_adds_and_contains_nothing() {
    let forced = UnwindAction::force_unwind();
    assert_eq!(forced | UnwindAction::empty(), forced);
    assert!(!UnwindAction::empty().contains(forced));
    assert!(!forced.contains(UnwindAction::empty()));
}

#[test]
fn each_flag_is_apart_from_the_others() {
    let flags = [
        UnwindAction::search_phase(),
        UnwindAction::cleanup_phase(),
        UnwindAction::handler_frame(),
        UnwindAction::force_unwind(),
        UnwindAction::end_of_stack(),
    ];
    for (i, a) in flags.iter().enumerate() {
        for (j, b) in flags.iter().enumerate() {
            assert_eq!(a.contains(*b), i == j);
        }
    }
}

#[test]
fn the_architecture_names_its_registers() {
    assert_eq!(Arch::SP, 31);
    assert_eq!(Arch::RA, 30);
    assert_eq!(Arch::UNWIND_DATA_REG_0, 0);
    assert_eq!(Arch::UNWIND_DATA_REG_1, 1);
    assert_eq!(Arch::UNWIND_PRIVATE_DATA_SIZE, 2);
}
