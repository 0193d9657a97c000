use embassy_esp32c3::interrupt::{
    is_line_set, line_bit, trap_handler, with_line_disabled, with_line_enabled, with_line_kind,
    CpuInterrupt, InterruptKind, Priority, PriorityWrite, TrapFrame, TrapHandler, SW_INT1,
};

#[test]
fn cpu_interrupt_numbers_round_trip() {
    for n in 1..=31u32 {
        let c = CpuInterrupt::from_number(n).unwrap();
        assert_eq!(c.number(), n);
    }
    assert_eq!(CpuInterrupt::Interrupt4.number(), 4);
    assert!(CpuInterrupt::from_number(0).is_none());
    assert!(CpuInterrupt::from_number(32).is_none());
}

#[test]
fn priority_from_and_into_u8() {
    assert_eq!(Priority::from(7u8), Priority::Priority7);
    assert_eq!(Priority::from(15u8), Priority::Priority15);
    assert_eq!(Priority::from(0u8), Priority::Priority0);
    assert_eq!(Priority::from(16u8), Priority::Priority0);
    assert_eq!(Priority::from(200u8), Priority::Priority0);
    let v: u8 = Priority::Priority12.into();
    assert_eq!(v, 12);
    for v in 0..=15u8 {
        let p = Priority::from(v);
        let back: u8 = p.into();
        assert_eq!(back, v);
    }
}

#[test]
fn enabling_a_line_sets_only_its_bit() {
    assert_eq!(line_bit(CpuInterrupt::Interrupt4), 0b1_0000);
    let r = with_line_enabled(0b10, CpuInterrupt::Interrupt4);
    assert_eq!(r, 0b1_0010);
    assert!(is_line_set(r, CpuInterrupt::Interrupt4));
    assert!(is_line_set(r, CpuInterrupt::Interrupt1));
    assert!(!is_line_set(r, CpuInterrupt::Interrupt2));
    assert_eq!(with_line_enabled(0, CpuInterrupt::Interrupt31), 0x8000_0000);
}

#[test]
fn disabling_a_line_clears_only_its_bit() {
    let r = with_line_disabled(0xFFFF_FFFF, CpuInterrupt::Interrupt4);
    assert_eq!(r, 0xFFFF_FFEF);
    assert!(!is_line_set(r, CpuInterrupt::Interrupt4));
    assert!(is_line_set(r, CpuInterrupt::Interrupt3));
}

#[test]
fn setting_the_kind_changes_only_the_type_bit_of_the_line() {
    assert_eq!(with_line_kind(0, CpuInterrupt::Interrupt3, InterruptKind::Edge), 0b1000);
    assert_eq!(with_line_kind(0xFF, CpuInterrupt::Interrupt3, InterruptKind::Level), 0xF7);
    assert_eq!(with_line_kind(0xF7, CpuInterrupt::Interrupt3, InterruptKind::Edge), 0xFF);
}

#[test]
fn traps_are_routed_by_cause() {
    assert_eq!(trap_handler(true, 3), TrapHandler::Exception);
    assert_eq!(trap_handler(false, 1), TrapHandler::Interrupt(CpuInterrupt::Interrupt1));
    assert_eq!(trap_handler(false, 16), TrapHandler::Interrupt(CpuInterrupt::Interrupt16));
    assert_eq!(trap_handler(false, 31), TrapHandler::Interrupt(CpuInterrupt::Interrupt31));
    assert_eq!(trap_handler(false, 0), TrapHandler::Default);
    assert_eq!(trap_handler(false, 32), TrapHandler::Default);
}

#[test]
fn software_interrupt_uses_line_4() {
    let (s, w) = SW_INT1::new(Priority::Priority4);
    assert_eq!(w, PriorityWrite { which: CpuInterrupt::Interrupt4, priority: 4 });
    assert_eq!(s.number(), 4);
    assert_eq!(s.cpu_interrupt(), CpuInterrupt::Interrupt4);
    assert_eq!(
        s.priority_write(Priority::Priority9),
        PriorityWrite { which: CpuInterrupt::Interrupt4, priority: 9 }
    );
    assert_eq!(s.priority_from_register(9), Priority::Priority9);
    assert_eq!(s.priority_from_register(0x105), Priority::Priority5);
    assert_eq!(s.priority_from_register(0x20), Priority::Priority0);
    assert!(s.is_active_code(4));
    assert!(!s.is_active_code(3));
}

#[test]
fn trap_frame_defaults_to_zero() {
    let f = TrapFrame::default();
    assert_eq!(f.ra, 0);
    assert_eq!(f.sp, 0);
    let g = TrapFrame { a0: 5, ..f };
    assert_eq!(g.a0, 5);
}
