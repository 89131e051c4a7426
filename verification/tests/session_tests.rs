use nano_bot::registry::SessionRegistry;
use nano_bot::session::{Control, InboundEvent, Session, SessionPhase, StepEffect};

fn event(user: u64, control: Control) -> InboundEvent {
    InboundEvent { source_user_id: user, control }
}

fn open_two_page_session(reg: &mut SessionRegistry<u32>) -> Session {
    Session::open(reg, 42, 1000, 7, 2).expect("identity should be fresh")
}

#[test]
fn open_registers_the_mailbox() {
    let mut reg: SessionRegistry<u32> = SessionRegistry::new();
    let s = open_two_page_session(&mut reg);
    assert_eq!(s.message_id, 1000);
    assert_eq!(s.owner_user_id, 7);
    assert_eq!(s.page, 0);
    assert_eq!(s.total_pages, 2);
    assert_eq!(s.phase, SessionPhase::Active);
    assert_eq!(reg.lookup(1000), Some(&42));
}

#[test]
fn open_rejects_a_taken_identity() {
    let mut reg: SessionRegistry<u32> = SessionRegistry::new();
    let _ = open_two_page_session(&mut reg);
    assert!(Session::open(&mut reg, 43, 1000, 8, 3).is_none());
    assert_eq!(reg.lookup(1000), Some(&42));
}

#[test]
fn back_clamps_at_first_page() {
    let mut reg: SessionRegistry<u32> = SessionRegistry::new();
    let mut s = open_two_page_session(&mut reg);
    let effect = s.handle_event(&mut reg, &event(7, Control::Back));
    assert_eq!(s.page, 0);
    assert_eq!(effect, StepEffect::Redraw { page: 0 });
    let effect = s.handle_event(&mut reg, &event(7, Control::Back));
    assert_eq!(s.page, 0);
    assert_eq!(effect, StepEffect::Redraw { page: 0 });
}

#[test]
fn forward_clamps_at_last_page() {
    let mut reg: SessionRegistry<u32> = SessionRegistry::new();
    let mut s = open_two_page_session(&mut reg);
    let effect = s.handle_event(&mut reg, &event(7, Control::Forward));
    assert_eq!(s.page, 1);
    assert_eq!(effect, StepEffect::Redraw { page: 1 });
    let effect = s.handle_event(&mut reg, &event(7, Control::Forward));
    assert_eq!(s.page, 1);
    assert_eq!(effect, StepEffect::Redraw { page: 1 });
}

#[test]
fn forward_then_back_returns() {
    let mut reg: SessionRegistry<u32> = SessionRegistry::new();
    let mut s = open_two_page_session(&mut reg);
    s.handle_event(&mut reg, &event(7, Control::Forward));
    s.handle_event(&mut reg, &event(7, Control::Back));
    assert_eq!(s.page, 0);
    assert_eq!(s.phase, SessionPhase::Active);
}

#[test]
fn foreign_event_changes_nothing() {
    let mut reg: SessionRegistry<u32> = SessionRegistry::new();
    let mut s = open_two_page_session(&mut reg);
    for control in [
        Control::Back,
        Control::Forward,
        Control::Accept,
        Control::Unknown("mystery".to_string()),
    ] {
        let effect = s.handle_event(&mut reg, &event(8, control));
        assert_eq!(s.page, 0);
        assert_eq!(s.phase, SessionPhase::Active);
        assert_eq!(effect, StepEffect::AcknowledgeOnly);
        assert_eq!(reg.lookup(1000), Some(&42));
    }
}

#[test]
fn accept_terminates_and_unregisters() {
    let mut reg: SessionRegistry<u32> = SessionRegistry::new();
    let mut s = open_two_page_session(&mut reg);
    let effect = s.handle_event(&mut reg, &event(7, Control::Accept));
    assert_eq!(effect, StepEffect::Cleanup);
    assert_eq!(s.phase, SessionPhase::Terminated);
    assert_eq!(reg.lookup(1000), None);
}

#[test]
fn timeout_terminates_and_unregisters() {
    let mut reg: SessionRegistry<u32> = SessionRegistry::new();
    let mut s = open_two_page_session(&mut reg);
    s.handle_event(&mut reg, &event(7, Control::Forward));
    s.terminate(&mut reg);
    assert_eq!(s.phase, SessionPhase::Terminated);
    assert_eq!(s.page, 1);
    assert_eq!(reg.lookup(1000), None);
}

#[test]
fn unknown_control_moves_nothing() {
    let mut reg: SessionRegistry<u32> = SessionRegistry::new();
    let mut s = open_two_page_session(&mut reg);
    let effect = s.handle_event(&mut reg, &event(7, Control::Unknown("poke".to_string())));
    assert_eq!(s.page, 0);
    assert_eq!(s.phase, SessionPhase::Active);
    assert_eq!(effect, StepEffect::Redraw { page: 0 });
    assert_eq!(reg.lookup(1000), Some(&42));
}
