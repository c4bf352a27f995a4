use portal::{ExecContext, Portal, SlotState, Violation};

#[test]
fn new_portal_is_idle() {
    let p: Portal<u32> = Portal::new();
    assert_eq!(p.slot_state(), SlotState::Empty);
}

#[test]
fn call_on_idle_portal_is_noop() {
    let mut p: Portal<u32> = Portal::new();
    let r = p.call_from(ExecContext::ThreadMode, 5);
    assert_eq!(r, Ok(None));
    assert_eq!(p.slot_state(), SlotState::Empty);
}

#[test]
fn wait_then_call_resolves_to_f_of_v() {
    let mut p: Portal<u32> = Portal::new();
    let mut pw = p.wait_from(ExecContext::ThreadMode, |v: u32| v * 2).unwrap();
    assert_eq!(p.slot_state(), SlotState::Registered);
    assert!(!pw.is_resolved());

    let delivered = p.call_from(ExecContext::ThreadMode, 21).unwrap();
    assert_eq!(delivered, Some(21));
    pw.deliver(delivered.unwrap());
    assert!(pw.is_resolved());
    assert_eq!(pw.complete(), 42);
}

#[test]
fn rendezvous_doubles_value() {
    let mut p: Portal<u32> = Portal::new();
    let out = portal::rendezvous(&mut p, |v: u32| v * 2, 21);
    assert_eq!(out, 42);
    assert_eq!(p.slot_state(), SlotState::Empty);
}

#[test]
fn resolved_portal_returns_to_idle_and_second_call_noops() {
    let mut p: Portal<u32> = Portal::new();
    let mut pw = p.wait_from(ExecContext::ThreadMode, |v: u32| v + 1).unwrap();
    let delivered = p.call_from(ExecContext::ThreadMode, 10).unwrap().unwrap();
    pw.deliver(delivered);
    assert_eq!(pw.complete(), 11);
    assert_eq!(p.slot_state(), SlotState::Empty);

    let second = p.call_from(ExecContext::ThreadMode, 99);
    assert_eq!(second, Ok(None));
    assert_eq!(p.slot_state(), SlotState::Empty);
}

#[test]
fn second_wait_is_double_waiter_violation() {
    let mut p: Portal<u8> = Portal::new();
    let pw = p.wait_from(ExecContext::ThreadMode, |v: u8| v).unwrap();
    let second = p.wait_from(ExecContext::ThreadMode, |v: u8| v);
    match second {
        Err(v) => {
            assert_eq!(v, Violation::DoubleWaiterViolation);
            assert_eq!(v.message(), "multiple tasks waiting on same portal");
        }
        Ok(_) => panic!("second wait must be refused"),
    }
    assert_eq!(p.slot_state(), SlotState::Registered);
    assert!(pw.is_armed());
}

#[test]
fn call_from_interrupt_context_is_rejected() {
    let mut p: Portal<u8> = Portal::new();
    let r = p.call_from(ExecContext::InterruptLike, 7);
    assert_eq!(r, Err(Violation::ContextViolation));
    assert_eq!(p.slot_state(), SlotState::Empty);
}

#[test]
fn call_from_interrupt_context_leaves_waiter_registered() {
    let mut p: Portal<u8> = Portal::new();
    let pw = p.wait_from(ExecContext::ThreadMode, |v: u8| v).unwrap();
    let r = p.call_from(ExecContext::InterruptLike, 7);
    assert_eq!(r, Err(Violation::ContextViolation));
    assert_eq!(p.slot_state(), SlotState::Registered);
    assert!(!pw.is_resolved());
}

#[test]
fn wait_from_interrupt_context_is_rejected() {
    let mut p: Portal<u8> = Portal::new();
    let r = p.wait_from(ExecContext::InterruptLike, |v: u8| v);
    assert!(matches!(r, Err(Violation::ContextViolation)));
    assert_eq!(p.slot_state(), SlotState::Empty);
    assert_eq!(
        Violation::ContextViolation.message(),
        "portals are not usable from interrupts"
    );
}

#[test]
fn abandoned_wait_reports_violation() {
    let mut p: Portal<u8> = Portal::new();
    let pw = p.wait_from(ExecContext::ThreadMode, |v: u8| v).unwrap();
    assert_eq!(
        pw.disposal_violation(),
        Some(Violation::AbandonedWaitViolation)
    );
    assert_eq!(
        Violation::AbandonedWaitViolation.message(),
        "portal wait abandoned before resolution"
    );
}

#[test]
fn completed_wait_may_be_dropped() {
    let mut p: Portal<u8> = Portal::new();
    let mut pw = p.wait_from(ExecContext::ThreadMode, |v: u8| v).unwrap();
    let delivered = p.call_from(ExecContext::ThreadMode, 7).unwrap().unwrap();
    pw.deliver(delivered);
    assert_eq!(pw.complete(), 7);
    assert_eq!(pw.disposal_violation(), None);
    assert!(!pw.is_armed());
}

#[test]
fn identity_wait_hands_value_through() {
    let mut p: Portal<u8> = Portal::new();
    let out = portal::rendezvous(&mut p, |v: u8| v, 7);
    assert_eq!(out, 7);
}

#[test]
fn check_thread_mode_accepts_only_thread_mode() {
    assert_eq!(portal::check_thread_mode(ExecContext::ThreadMode), Ok(()));
    assert_eq!(
        portal::check_thread_mode(ExecContext::InterruptLike),
        Err(Violation::ContextViolation)
    );
}
