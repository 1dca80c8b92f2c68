use matrix_bot::verification::bridge::{confirmation_command, status_for, Bridge, SubmitStatus};
use matrix_bot::verification::event::{
    normalize, ConversationEnvelope, DirectEnvelope, Envelope, ProtocolEvent,
};
use matrix_bot::verification::orchestrator::{Action, Orchestrator, Verdict};
use matrix_bot::verification::registry::CONFIRMATION_WINDOW_MS;
use matrix_bot::verification::state::{EventKind, State, Trigger};

fn event(kind: EventKind, peer: &str, transaction_id: &str) -> ProtocolEvent {
    ProtocolEvent { kind, peer: peer.to_string(), transaction_id: transaction_id.to_string() }
}

fn waiting(o: &mut Orchestrator, peer: &str, txn: &str, code: &str, now: u64) {
    let p = peer.to_string();
    let t = txn.to_string();
    assert_eq!(
        o.handle_event_with_code(&event(EventKind::Requested, peer, txn), now, String::new()),
        Action::AcceptRequest
    );
    assert_eq!(o.accept_finished(&p, &t, true), State::Started);
    assert_eq!(
        o.handle_event_with_code(&event(EventKind::KeyExchanged, peer, txn), now, code.to_string()),
        Action::AwaitConfirmation
    );
}

#[test]
fn request_accept_keys_and_matching_code_reach_done() {
    let peer = "@alice:example.org".to_string();
    let txn = "t1".to_string();
    let mut o = Orchestrator::new();

    let a = o.handle_event_with_code(&event(EventKind::Requested, &peer, &txn), 0, String::new());
    assert_eq!(a, Action::AcceptRequest);
    assert_eq!(o.registry().state_of(&peer, &txn), State::PendingAccept);

    assert_eq!(o.accept_finished(&peer, &txn, true), State::Started);
    assert_eq!(o.registry().state_of(&peer, &txn), State::Started);

    let a = o.handle_event_with_code(
        &event(EventKind::KeyExchanged, &peer, &txn),
        1_000,
        "483920".to_string(),
    );
    assert_eq!(a, Action::AwaitConfirmation);
    assert_eq!(o.registry().state_of(&peer, &txn), State::WaitingHumanConfirmation);
    assert_eq!(o.registry().code_of(&peer, &txn), Some("483920".to_string()));

    let code = "483920".to_string();
    assert_eq!(o.offer_code(&peer, &txn, Some(&code), 61_000), Verdict::Matched);
    assert_eq!(o.registry().state_of(&peer, &txn), State::Confirmed);

    assert_eq!(o.finalize_finished(&peer, &txn, true), State::Done);
    assert_eq!(o.registry().len(), 0);
    assert_eq!(o.registry().state_of(&peer, &txn), State::Idle);
}

#[test]
fn wrong_code_then_silence_times_out_and_evicts() {
    let peer = "@alice:example.org".to_string();
    let txn = "t1".to_string();
    let mut o = Orchestrator::new();
    waiting(&mut o, &peer, &txn, "483920", 1_000);

    let wrong = "000000".to_string();
    assert_eq!(o.offer_code(&peer, &txn, Some(&wrong), 2_000), Verdict::StillWaiting);
    assert_eq!(o.registry().state_of(&peer, &txn), State::WaitingHumanConfirmation);
    assert_eq!(o.offer_code(&peer, &txn, None, 200_000), Verdict::StillWaiting);

    assert_eq!(o.offer_code(&peer, &txn, None, 1_000 + 300_000), Verdict::Expired);
    assert_eq!(o.registry().len(), 0);
    assert!(!o.registry().contains(&peer, &txn));
    assert_eq!(o.offer_code(&peer, &txn, None, 400_000), Verdict::NotWaiting);
    assert_eq!(o.finalize_finished(&peer, &txn, true), State::Idle);
}

#[test]
fn code_of_one_transaction_does_not_advance_another() {
    let a = "@alice:example.org".to_string();
    let b = "@bob:example.org".to_string();
    let ta = "ta".to_string();
    let tb = "tb".to_string();
    let mut o = Orchestrator::new();
    waiting(&mut o, &a, &ta, "111111", 0);
    waiting(&mut o, &b, &tb, "222222", 0);
    assert_eq!(o.registry().len(), 2);

    let code_a = "111111".to_string();
    assert_eq!(o.offer_code(&b, &tb, Some(&code_a), 10), Verdict::StillWaiting);
    assert_eq!(o.offer_code(&a, &ta, Some(&code_a), 10), Verdict::Matched);
    assert_eq!(o.registry().state_of(&a, &ta), State::Confirmed);
    assert_eq!(o.registry().state_of(&b, &tb), State::WaitingHumanConfirmation);
    assert_eq!(o.registry().code_of(&b, &tb), Some("222222".to_string()));
}

#[test]
fn generated_codes_are_distinct_and_well_shaped() {
    let a = "@alice:example.org".to_string();
    let b = "@bob:example.org".to_string();
    let t = "t".to_string();
    let mut o = Orchestrator::new();
    for peer in [&a, &b] {
        assert_eq!(o.handle_event(&event(EventKind::Requested, peer, &t), 0), Action::AcceptRequest);
        assert_eq!(o.accept_finished(peer, &t, true), State::Started);
        assert_eq!(
            o.handle_event(&event(EventKind::KeyExchanged, peer, &t), 5),
            Action::AwaitConfirmation
        );
    }
    let code_a = o.registry().code_of(&a, &t).unwrap();
    let code_b = o.registry().code_of(&b, &t).unwrap();
    assert_ne!(code_a, code_b);
    for code in [&code_a, &code_b] {
        assert_eq!(code.chars().count(), 32);
        assert!(code.chars().all(|c| c.is_ascii_digit() || ('a'..='f').contains(&c)));
    }
    assert_eq!(o.offer_code(&a, &t, Some(&code_b), 6), Verdict::StillWaiting);
    assert_eq!(o.offer_code(&b, &t, Some(&code_b), 6), Verdict::Matched);
}

#[test]
fn duplicate_started_event_is_ignored() {
    let peer = "@alice:example.org".to_string();
    let txn = "t1".to_string();
    let mut o = Orchestrator::new();
    o.handle_event_with_code(&event(EventKind::Requested, &peer, &txn), 0, String::new());
    assert_eq!(o.accept_finished(&peer, &txn, true), State::Started);

    let first = o.handle_event_with_code(&event(EventKind::Started, &peer, &txn), 1, String::new());
    assert_eq!(first, Action::AcceptStart);
    assert_eq!(o.registry().state_of(&peer, &txn), State::Started);

    let second = o.handle_event_with_code(&event(EventKind::Started, &peer, &txn), 2, String::new());
    assert_eq!(second, Action::Nothing);
    assert_eq!(o.registry().state_of(&peer, &txn), State::Started);
    assert_eq!(o.registry().len(), 1);
}

#[test]
fn malformed_conversation_event_is_dropped() {
    let mut o = Orchestrator::new();
    waiting(&mut o, "@alice:example.org", "t1", "483920", 0);
    let before = o.registry().len();

    let malformed = Envelope::InConversation(ConversationEnvelope {
        kind: Some(EventKind::KeyExchanged),
        sender: "@alice:example.org".to_string(),
        event_id: "$e5".to_string(),
        relates_to: None,
    });
    assert_eq!(normalize(&malformed), None);
    assert_eq!(o.handle_envelope(&malformed, 5), Action::Nothing);
    assert_eq!(o.registry().len(), before);

    let unknown = Envelope::Direct(DirectEnvelope {
        kind: None,
        sender: "@alice:example.org".to_string(),
        transaction_id: Some("t1".to_string()),
    });
    assert_eq!(o.handle_envelope_with_code(&unknown, 5, String::new()), Action::Nothing);
    let unnamed = Envelope::Direct(DirectEnvelope {
        kind: Some(EventKind::Cancelled),
        sender: "@alice:example.org".to_string(),
        transaction_id: None,
    });
    assert_eq!(o.handle_envelope(&unnamed, 5), Action::Nothing);
    assert_eq!(o.registry().len(), before);
    assert_eq!(
        o.registry().state_of(&"@alice:example.org".to_string(), &"t1".to_string()),
        State::WaitingHumanConfirmation
    );
}

#[test]
fn both_transports_give_the_same_event() {
    let direct = Envelope::Direct(DirectEnvelope {
        kind: Some(EventKind::Started),
        sender: "@alice:example.org".to_string(),
        transaction_id: Some("$req".to_string()),
    });
    let in_room = Envelope::InConversation(ConversationEnvelope {
        kind: Some(EventKind::Started),
        sender: "@alice:example.org".to_string(),
        event_id: "$start".to_string(),
        relates_to: Some("$req".to_string()),
    });
    let expected = event(EventKind::Started, "@alice:example.org", "$req");
    assert_eq!(normalize(&direct), Some(expected.clone()));
    assert_eq!(normalize(&in_room), Some(expected));

    let request = Envelope::InConversation(ConversationEnvelope {
        kind: Some(EventKind::Requested),
        sender: "@bob:example.org".to_string(),
        event_id: "$req".to_string(),
        relates_to: None,
    });
    assert_eq!(normalize(&request), Some(event(EventKind::Requested, "@bob:example.org", "$req")));
}

#[test]
fn one_transaction_per_key_whatever_arrives() {
    let peer = "@alice:example.org".to_string();
    let txn = "t1".to_string();
    let mut o = Orchestrator::new();
    for kind in [
        EventKind::Requested,
        EventKind::Requested,
        EventKind::Started,
        EventKind::Requested,
        EventKind::Done,
        EventKind::Started,
    ] {
        o.handle_event_with_code(&event(kind, &peer, &txn), 0, String::new());
        assert_eq!(o.registry().len(), 1);
    }
    o.handle_event_with_code(&event(EventKind::Requested, &peer, "t2"), 0, String::new());
    o.handle_event_with_code(&event(EventKind::Requested, "@bob:example.org", &txn), 0, String::new());
    assert_eq!(o.registry().len(), 3);
    assert_eq!(o.registry().position(&peer, &txn), Some(0));
    assert_eq!(o.registry().position(&peer, &"t2".to_string()), Some(1));
}

#[test]
fn second_request_asks_for_nothing() {
    let peer = "@alice:example.org".to_string();
    let txn = "t1".to_string();
    let mut o = Orchestrator::new();
    let request = event(EventKind::Requested, &peer, &txn);
    assert_eq!(o.handle_event_with_code(&request, 0, String::new()), Action::AcceptRequest);
    assert_eq!(o.handle_event_with_code(&request, 1, String::new()), Action::Nothing);
    assert_eq!(o.registry().len(), 1);
    assert_eq!(o.accept_finished(&peer, &txn, true), State::Started);
    assert_eq!(o.accept_finished(&peer, &txn, true), State::Started);
    assert_eq!(o.handle_event_with_code(&request, 2, String::new()), Action::Nothing);
    assert_eq!(o.registry().state_of(&peer, &txn), State::Started);
}

#[test]
fn replayed_events_never_move_a_transaction_back() {
    let peer = "@alice:example.org".to_string();
    let txn = "t1".to_string();
    let mut o = Orchestrator::new();
    waiting(&mut o, &peer, &txn, "483920", 10);
    for kind in [EventKind::Requested, EventKind::Started, EventKind::KeyExchanged, EventKind::Done] {
        let a = o.handle_event_with_code(&event(kind, &peer, &txn), 99, "other".to_string());
        assert_eq!(a, Action::Nothing);
        assert_eq!(o.registry().state_of(&peer, &txn), State::WaitingHumanConfirmation);
        assert_eq!(o.registry().code_of(&peer, &txn), Some("483920".to_string()));
    }
    assert_eq!(o.accept_finished(&peer, &txn, false), State::WaitingHumanConfirmation);
    assert_eq!(o.finalize_finished(&peer, &txn, true), State::WaitingHumanConfirmation);
    let i = o.registry().position(&peer, &txn).unwrap();
    assert_eq!(o.registry().get(i).started_at(), 10);
}

#[test]
fn only_the_exact_code_confirms() {
    let peer = "@alice:example.org".to_string();
    let txn = "t1".to_string();
    let mut o = Orchestrator::new();
    waiting(&mut o, &peer, &txn, "483920", 0);
    for near in ["483921", "48392", "4839200", "", " 483920", "483920 ", "483 920"] {
        let near = near.to_string();
        assert_eq!(o.offer_code(&peer, &txn, Some(&near), 1), Verdict::StillWaiting);
        assert_eq!(o.registry().state_of(&peer, &txn), State::WaitingHumanConfirmation);
    }
    let code = "483920".to_string();
    assert_eq!(o.offer_code(&peer, &txn, Some(&code), 1), Verdict::Matched);
    assert_eq!(o.offer_code(&peer, &txn, Some(&code), 2), Verdict::NotWaiting);
    assert_eq!(o.registry().state_of(&peer, &txn), State::Confirmed);
}

#[test]
fn the_window_closes_after_five_minutes() {
    assert_eq!(CONFIRMATION_WINDOW_MS, 300_000);
    let peer = "@alice:example.org".to_string();
    let txn = "t1".to_string();
    let code = "483920".to_string();

    let mut o = Orchestrator::new();
    waiting(&mut o, &peer, &txn, "483920", 7_000);
    assert_eq!(o.offer_code(&peer, &txn, Some(&code), 306_999), Verdict::Matched);

    let mut o = Orchestrator::new();
    waiting(&mut o, &peer, &txn, "483920", 7_000);
    assert_eq!(o.offer_code(&peer, &txn, Some(&code), 307_000), Verdict::Expired);
    assert_eq!(o.registry().len(), 0);

    let mut o = Orchestrator::new();
    waiting(&mut o, &peer, &txn, "483920", 7_000);
    assert_eq!(o.offer_code(&peer, &txn, Some(&code), 3), Verdict::Matched);
}

#[test]
fn failures_and_cancellations_evict_only_their_transaction() {
    let a = "@alice:example.org".to_string();
    let b = "@bob:example.org".to_string();
    let t = "t".to_string();
    let mut o = Orchestrator::new();
    o.handle_event_with_code(&event(EventKind::Requested, &a, &t), 0, String::new());
    o.handle_event_with_code(&event(EventKind::Requested, &b, &t), 0, String::new());
    assert_eq!(o.accept_finished(&a, &t, false), State::Cancelled);
    assert_eq!(o.registry().len(), 1);
    assert_eq!(o.registry().state_of(&b, &t), State::PendingAccept);

    assert_eq!(o.accept_finished(&b, &t, true), State::Started);
    assert_eq!(
        o.handle_event_with_code(&event(EventKind::Cancelled, &b, &t), 0, String::new()),
        Action::Nothing
    );
    assert_eq!(o.registry().len(), 0);

    waiting(&mut o, &a, &t, "c", 0);
    let code = "c".to_string();
    assert_eq!(o.offer_code(&a, &t, Some(&code), 1), Verdict::Matched);
    assert_eq!(o.finalize_finished(&a, &t, false), State::Cancelled);
    assert_eq!(o.registry().len(), 0);
}

#[test]
fn events_for_unknown_transactions_open_none_unless_they_begin_one() {
    let peer = "@alice:example.org".to_string();
    let mut o = Orchestrator::new();
    for kind in [EventKind::KeyExchanged, EventKind::Done, EventKind::Cancelled] {
        assert_eq!(
            o.handle_event_with_code(&event(kind, &peer, "t1"), 0, "c".to_string()),
            Action::Nothing
        );
        assert!(o.registry().is_empty());
    }
    assert_eq!(o.accept_finished(&peer, &"t1".to_string(), true), State::Idle);
    assert_eq!(
        o.handle_event_with_code(&event(EventKind::Started, &peer, "t1"), 0, String::new()),
        Action::AcceptStart
    );
    assert_eq!(o.registry().state_of(&peer, &"t1".to_string()), State::PendingAccept);
    assert!(o.registry().get(0).start_accepted());
    assert_eq!(o.registry().get(0).peer(), &peer);
    assert_eq!(o.registry().get(0).transaction_id(), "t1");
    assert_eq!(o.registry().get(0).confirmation_code(), None);
    assert_eq!(o.registry().get(0).state(), State::PendingAccept);
}

#[test]
fn the_transition_table() {
    let cancel = Trigger::Event(EventKind::Cancelled);
    assert_eq!(State::Idle.next(Trigger::Event(EventKind::Requested)), State::PendingAccept);
    assert_eq!(State::Idle.next(Trigger::Event(EventKind::Started)), State::PendingAccept);
    assert_eq!(State::PendingAccept.next(Trigger::AcceptSucceeded), State::Started);
    assert_eq!(State::PendingAccept.next(Trigger::AcceptFailed), State::Cancelled);
    assert_eq!(State::Started.next(Trigger::Event(EventKind::KeyExchanged)), State::WaitingHumanConfirmation);
    assert_eq!(State::WaitingHumanConfirmation.next(Trigger::CodeMatched), State::Confirmed);
    assert_eq!(State::WaitingHumanConfirmation.next(Trigger::WindowElapsed), State::TimedOut);
    assert_eq!(State::Confirmed.next(Trigger::FinalizeSucceeded), State::Done);
    assert_eq!(State::Confirmed.next(Trigger::FinalizeFailed), State::Cancelled);
    for s in [
        State::Idle,
        State::PendingAccept,
        State::Started,
        State::WaitingHumanConfirmation,
        State::Confirmed,
    ] {
        assert_eq!(s.next(cancel), State::Cancelled);
        assert!(!s.is_terminal());
        assert_eq!(s.next(Trigger::Event(EventKind::Done)), s);
    }
    for s in [State::Done, State::Cancelled, State::TimedOut] {
        assert!(s.is_terminal());
        assert!(!s.is_live());
        assert_eq!(s.next(cancel), s);
        assert_eq!(s.next(Trigger::Event(EventKind::Requested)), s);
    }
    assert!(!State::Idle.is_live());
    assert!(State::Started.is_live());
    assert_eq!(State::Started.next(Trigger::CodeMatched), State::Started);
    assert_eq!(State::Confirmed.next(Trigger::WindowElapsed), State::Confirmed);
    assert_eq!(State::WaitingHumanConfirmation.next(Trigger::FinalizeSucceeded), State::WaitingHumanConfirmation);
}

#[test]
fn the_bridge_hands_codes_to_its_subscribers() {
    let bridge = Bridge::new(40123);
    assert_eq!(bridge.port(), 40123);
    assert_eq!(bridge.submit("early".to_string()), SubmitStatus::InternalFailure);

    let mut first = bridge.subscribe();
    let mut second = bridge.subscribe();
    assert_eq!(first.poll(), None);
    assert_eq!(bridge.submit("483920".to_string()), SubmitStatus::Accepted);
    assert_eq!(bridge.submit("000000".to_string()), SubmitStatus::Accepted);
    assert_eq!(first.poll(), Some("483920".to_string()));
    assert_eq!(second.poll(), Some("483920".to_string()));
    assert_eq!(first.poll(), Some("000000".to_string()));
    assert_eq!(first.poll(), None);

    assert_eq!(SubmitStatus::Accepted.http_status(), 200);
    assert_eq!(SubmitStatus::InternalFailure.http_status(), 500);
    assert_eq!(status_for(Some(0)), SubmitStatus::Accepted);
    assert_eq!(status_for(None), SubmitStatus::InternalFailure);
}

#[test]
fn a_subscription_feeds_its_transaction() {
    let peer = "@alice:example.org".to_string();
    let txn = "t1".to_string();
    let mut o = Orchestrator::new();
    waiting(&mut o, &peer, &txn, "483920", 0);
    let bridge = Bridge::new(1);
    let mut ear = bridge.subscribe();
    assert_eq!(o.poll(&mut ear, &peer, &txn, 100), Verdict::StillWaiting);
    bridge.submit("000000".to_string());
    bridge.submit("483920".to_string());
    assert_eq!(o.poll(&mut ear, &peer, &txn, 200), Verdict::StillWaiting);
    assert_eq!(o.poll(&mut ear, &peer, &txn, 300), Verdict::Matched);
    assert_eq!(o.poll(&mut ear, &peer, &txn, 400), Verdict::NotWaiting);
}

#[test]
fn the_command_shown_to_the_operator() {
    assert_eq!(
        confirmation_command(8080, "483920"),
        "local: wget  -O - http://127.0.0.1:8080/verify/483920"
    );
    assert_eq!(confirmation_command(0, ""), "local: wget  -O - http://127.0.0.1:0/verify/");
    assert_eq!(
        Bridge::new(65535).command_for("abc"),
        "local: wget  -O - http://127.0.0.1:65535/verify/abc"
    );
}
