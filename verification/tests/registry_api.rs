use matrix_bot::verification::registry::Registry;
use matrix_bot::verification::state::{EventKind, State, Trigger};

#[test]
fn lookup_or_create_registers_once() {
    let alice = "@alice:example.org".to_string();
    let bob = "@bob:example.org".to_string();
    let t1 = "t1".to_string();
    let t2 = "t2".to_string();
    let mut r = Registry::new();
    assert!(r.is_empty());
    assert_eq!(r.lookup_or_create(&alice, &t1), (0, true));
    assert_eq!(r.lookup_or_create(&alice, &t1), (0, false));
    assert_eq!(r.lookup_or_create(&alice, &t2), (1, true));
    assert_eq!(r.lookup_or_create(&bob, &t1), (2, true));
    assert_eq!(r.lookup_or_create(&alice, &t2), (1, false));
    assert_eq!(r.len(), 3);
    assert_eq!(r.position(&bob, &t1), Some(2));
    assert_eq!(r.position(&bob, &t2), None);
    assert!(r.contains(&alice, &t2));
    assert!(!r.contains(&t1, &alice));
    assert_eq!(r.state_of(&alice, &t1), State::PendingAccept);
    assert_eq!(r.state_of(&bob, &t2), State::Idle);
    assert_eq!(r.code_of(&alice, &t1), None);
    let t = r.get(0);
    assert_eq!(t.peer(), &alice);
    assert_eq!(t.transaction_id(), &t1);
    assert_eq!(t.state(), State::PendingAccept);
    assert_eq!(t.started_at(), 0);
    assert!(!t.start_accepted());
    assert_eq!(t.confirmation_code(), None);
}

#[test]
fn a_transaction_moves_and_leaves_at_its_end() {
    let alice = "@alice:example.org".to_string();
    let bob = "@bob:example.org".to_string();
    let t = "t".to_string();
    let mut r = Registry::new();
    r.lookup_or_create(&alice, &t);
    r.lookup_or_create(&bob, &t);

    assert_eq!(r.advance(0, Trigger::Event(EventKind::Requested)), State::PendingAccept);
    assert_eq!(r.advance(0, Trigger::AcceptSucceeded), State::Started);
    r.mark_start_accepted(0);
    assert!(r.get(0).start_accepted());
    assert!(!r.get(1).start_accepted());

    r.begin_wait(0, "483920".to_string(), 5_000);
    assert_eq!(r.state_of(&alice, &t), State::WaitingHumanConfirmation);
    assert_eq!(r.code_of(&alice, &t), Some("483920".to_string()));
    let waiting = r.get(0);
    assert_eq!(waiting.started_at(), 5_000);
    assert!(waiting.code_is(&"483920".to_string()));
    assert!(!waiting.code_is(&"48392".to_string()));
    assert!(!waiting.is_expired(5_000));
    assert!(!waiting.is_expired(0));
    assert!(!waiting.is_expired(304_999));
    assert!(waiting.is_expired(305_000));
    assert!(waiting.is_expired(u64::MAX));

    assert_eq!(r.advance(0, Trigger::CodeMatched), State::Confirmed);
    assert_eq!(r.code_of(&alice, &t), Some("483920".to_string()));
    assert_eq!(r.advance(0, Trigger::WindowElapsed), State::Confirmed);
    assert_eq!(r.advance(0, Trigger::FinalizeSucceeded), State::Done);
    assert_eq!(r.len(), 1);
    assert_eq!(r.position(&bob, &t), Some(0));
    assert_eq!(r.state_of(&alice, &t), State::Idle);

    assert_eq!(r.advance(0, Trigger::Event(EventKind::Cancelled)), State::Cancelled);
    assert!(r.is_empty());
}
