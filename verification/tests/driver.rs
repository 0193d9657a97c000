use embassy_esp32c3::driver::{
    generate_systimer_interrupt_structs, interrupt1, interrupt2, interrupt3, target_cpu_interrupt,
    AlarmAction, AlarmCallback, AlarmHandle, AlarmState, SysTimerDriver, ALARM_COUNT,
};
use embassy_esp32c3::interrupt::{CpuInterrupt, InterruptKind, Priority, PriorityWrite};

#[test]
fn alarm_state_new_is_free_and_unset() {
    let a = AlarmState::new();
    assert_eq!(a.timestamp, u64::MAX);
    assert_eq!(a.callback, 0);
    assert_eq!(a.ctx, 0);
    assert!(!a.allocated);
}

#[test]
fn systimer_interrupt_structs_route_targets_to_lines_1_to_3() {
    let (s0, s1, s2) = generate_systimer_interrupt_structs(Priority::Priority5);
    assert_eq!(s0.external_interrupt_id, 37);
    assert_eq!(s1.external_interrupt_id, 38);
    assert_eq!(s2.external_interrupt_id, 39);
    assert_eq!(s0.cpu_interrupt, CpuInterrupt::Interrupt1);
    assert_eq!(s1.cpu_interrupt, CpuInterrupt::Interrupt2);
    assert_eq!(s2.cpu_interrupt, CpuInterrupt::Interrupt3);
    assert_eq!(s0.priority, Priority::Priority5);
    assert_eq!(s2.priority, Priority::Priority5);
}

#[test]
fn systimer_interrupt_sources_match_the_pac() {
    let (s0, s1, s2) = generate_systimer_interrupt_structs(Priority::Priority1);
    assert_eq!(s0.external_interrupt_id, esp32c3::Interrupt::SYSTIMER_TARGET0 as u16);
    assert_eq!(s1.external_interrupt_id, esp32c3::Interrupt::SYSTIMER_TARGET1 as u16);
    assert_eq!(s2.external_interrupt_id, esp32c3::Interrupt::SYSTIMER_TARGET2 as u16);
}

#[test]
fn init_sets_up_three_level_interrupts_at_the_priority() {
    let d = SysTimerDriver::new();
    let setup = d.init(Priority::Priority3);
    for (i, s) in setup.iter().enumerate() {
        assert_eq!(s.interrupt.external_interrupt_id, 37 + i as u16);
        assert_eq!(s.kind, InterruptKind::Level);
        assert_eq!(
            s.priority,
            PriorityWrite { which: s.interrupt.cpu_interrupt, priority: 3 }
        );
    }
    assert_eq!(setup[1].interrupt.cpu_interrupt, CpuInterrupt::Interrupt2);
}

#[test]
fn target_cpu_interrupts_are_lines_1_to_3() {
    assert_eq!(target_cpu_interrupt(0), CpuInterrupt::Interrupt1);
    assert_eq!(target_cpu_interrupt(1), CpuInterrupt::Interrupt2);
    assert_eq!(target_cpu_interrupt(2), CpuInterrupt::Interrupt3);
}

#[test]
fn three_alarms_can_be_allocated_and_a_fourth_is_refused() {
    let mut d = SysTimerDriver::new();
    let a1 = d.allocate_alarm();
    let a2 = d.allocate_alarm();
    let a3 = d.allocate_alarm();
    let a4 = d.allocate_alarm();
    assert_eq!(a1.map(|h| h.id()), Some(0));
    assert_eq!(a2.map(|h| h.id()), Some(1));
    assert_eq!(a3.map(|h| h.id()), Some(2));
    assert!(a4.is_none());
    assert_eq!(ALARM_COUNT, 3);
    for i in 0..3u8 {
        assert!(d.get_alarm(i).allocated);
    }
}

#[test]
fn fired_alarm_slot_can_be_allocated_again() {
    let mut d = SysTimerDriver::new();
    let a1 = d.allocate_alarm().unwrap();
    d.set_alarm_callback(a1, 0x1000, 1);
    let action = d.set_alarm(a1, 30_000_100, 100);
    assert_eq!(action, AlarmAction::Program { target: 0, timestamp: 30_000_100 });
    assert_eq!(d.get_alarm(0).timestamp, 30_000_100);
    assert!(d.get_alarm(0).allocated);
    let fired = interrupt1(&mut d);
    assert_eq!(fired, AlarmCallback { callback: 0x1000, ctx: 1 });
    assert!(!d.get_alarm(0).allocated);
    let again = d.allocate_alarm().unwrap();
    assert_eq!(again.id(), 0);
}

#[test]
fn passed_alarm_triggers_at_once_and_frees_its_slot() {
    let mut d = SysTimerDriver::new();
    let a1 = d.allocate_alarm().unwrap();
    d.set_alarm_callback(a1, 0x2000, 7);
    let action = d.set_alarm(a1, 0, 500);
    assert_eq!(action, AlarmAction::Trigger { callback: 0x2000, ctx: 7 });
    assert!(!d.get_alarm(0).allocated);
    assert_eq!(d.get_alarm(0).timestamp, u64::MAX);
}

#[test]
fn alarm_at_current_time_is_programmed() {
    let mut d = SysTimerDriver::new();
    let a = d.allocate_alarm().unwrap();
    let action = d.set_alarm(a, 500, 500);
    assert_eq!(action, AlarmAction::Program { target: 0, timestamp: 500 });
}

#[test]
fn concurrent_alarms_fire_their_own_callbacks() {
    let mut d = SysTimerDriver::new();
    let hs: Vec<AlarmHandle> = (0..3).map(|_| d.allocate_alarm().unwrap()).collect();
    for h in hs.iter() {
        d.set_alarm_callback(*h, 0x100 * (h.id() as usize + 1), h.id() as usize + 1);
    }
    for h in hs.iter() {
        let t = 1_000 + (h.id() as u64 + 1) * 30_000_000;
        assert_eq!(
            d.set_alarm(*h, t, 1_000),
            AlarmAction::Program { target: h.id(), timestamp: t }
        );
    }
    assert_eq!(interrupt3(&mut d), AlarmCallback { callback: 0x300, ctx: 3 });
    assert_eq!(interrupt2(&mut d), AlarmCallback { callback: 0x200, ctx: 2 });
    assert_eq!(interrupt1(&mut d), AlarmCallback { callback: 0x100, ctx: 1 });
    for i in 0..3u8 {
        assert!(!d.get_alarm(i).allocated);
    }
}

#[test]
fn allocation_takes_the_first_free_slot() {
    let mut d = SysTimerDriver::new();
    let _a = d.allocate_alarm().unwrap();
    let b = d.allocate_alarm().unwrap();
    let _c = d.allocate_alarm().unwrap();
    assert_eq!(d.on_interrupt(b.id()), AlarmCallback { callback: 0, ctx: 0 });
    assert_eq!(d.allocate_alarm().map(|h| h.id()), Some(1));
    assert!(d.allocate_alarm().is_none());
}

#[test]
fn alarm_handle_keeps_its_id() {
    assert_eq!(AlarmHandle::new(2).id(), 2);
}

#[test]
fn allocations_without_release_never_repeat_a_handle() {
    let mut d = SysTimerDriver::new();
    let results: Vec<Option<u8>> = (0..5).map(|_| d.allocate_alarm().map(|h| h.id())).collect();
    assert_eq!(results, vec![Some(0), Some(1), Some(2), None, None]);
    assert_eq!(results.iter().filter(|r| r.is_some()).count(), 3);
}

#[test]
fn allocations_after_a_release_fill_only_the_freed_slot() {
    let mut d = SysTimerDriver::new();
    let a = d.allocate_alarm().unwrap();
    let _b = d.allocate_alarm().unwrap();
    assert_eq!(d.on_interrupt(a.id()), AlarmCallback { callback: 0, ctx: 0 });
    let results: Vec<Option<u8>> = (0..3).map(|_| d.allocate_alarm().map(|h| h.id())).collect();
    assert_eq!(results, vec![Some(0), Some(2), None]);
}
