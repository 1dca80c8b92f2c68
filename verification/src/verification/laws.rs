//! What holds of the orchestrator whatever it is fed: one transaction per
//! key, no step backwards, confirmation by the exact code only, and no
//! transaction touched by what is meant for another.

use vstd::prelude::*;
use crate::verification::event::ProtocolEventView;
use crate::verification::orchestrator::{
    accept_trigger,
    accepts_start,
    action_for,
    after_event,
    after_offer,
    after_trigger,
    finalize_trigger,
    lemma_event_keeps_well_formed,
    lemma_offer_keeps_well_formed,
    lemma_trigger_keeps_well_formed,
    verdict_for,
    verdict_trigger,
    Action,
    Verdict,
};
use crate::verification::registry::{
    holds,
    index_of,
    keys_distinct,
    lemma_record_after_push,
    lemma_record_after_remove,
    lemma_record_after_update,
    record_of,
    well_formed,
    TransactionView,
};
use crate::verification::state::{lemma_forward_only, EventKind, State, Trigger};

verus! {

/// One thing the orchestrator can be fed.
pub enum Stimulus {
    /// A protocol event, with the instant it arrives at and the code its
    /// transaction gets if it begins to wait.
    Event { event: ProtocolEventView, now: u64, code: Seq<char> },
    /// The outcome of an accept.
    AcceptFinished { peer: Seq<char>, transaction_id: Seq<char>, succeeded: bool },
    /// What a waiting transaction's subscription received at `now`.
    Offer { peer: Seq<char>, transaction_id: Seq<char>, received: Option<Seq<char>>, now: u64 },
    /// The outcome of a finalization.
    FinalizeFinished { peer: Seq<char>, transaction_id: Seq<char>, succeeded: bool },
}

impl Stimulus {
    /// The peer of the transaction the stimulus is meant for.
    pub open spec fn peer(self) -> Seq<char> {
        match self {
            Stimulus::Event { event, .. } => event.peer,
            Stimulus::AcceptFinished { peer, .. } => peer,
            Stimulus::Offer { peer, .. } => peer,
            Stimulus::FinalizeFinished { peer, .. } => peer,
        }
    }

    /// The id of the transaction the stimulus is meant for.
    pub open spec fn transaction_id(self) -> Seq<char> {
        match self {
            Stimulus::Event { event, .. } => event.transaction_id,
            Stimulus::AcceptFinished { transaction_id, .. } => transaction_id,
            Stimulus::Offer { transaction_id, .. } => transaction_id,
            Stimulus::FinalizeFinished { transaction_id, .. } => transaction_id,
        }
    }
}

/// The registry after one stimulus.
pub open spec fn step(m: Seq<TransactionView>, s: Stimulus) -> Seq<TransactionView> {
    match s {
        Stimulus::Event { event, now, code } => after_event(m, event, now, code),
        Stimulus::AcceptFinished { peer, transaction_id, succeeded } => after_trigger(
            m,
            peer,
            transaction_id,
            accept_trigger(succeeded),
        ),
        Stimulus::Offer { peer, transaction_id, received, now } => after_offer(
            m,
            peer,
            transaction_id,
            received,
            now,
        ),
        Stimulus::FinalizeFinished { peer, transaction_id, succeeded } => after_trigger(
            m,
            peer,
            transaction_id,
            finalize_trigger(succeeded),
        ),
    }
}

/// The registry after a sequence of stimuli, first to last.
pub open spec fn run(m: Seq<TransactionView>, stimuli: Seq<Stimulus>) -> Seq<TransactionView>
    decreases stimuli.len(),
{
    if stimuli.len() == 0 {
        m
    } else {
        step(run(m, stimuli.drop_last()), stimuli.last())
    }
}

/// What is recorded under a key once `trigger` has met its transaction.
pub open spec fn record_after_trigger(r: Option<TransactionView>, trigger: Trigger) -> Option<
    TransactionView,
> {
    match r {
        Some(t) => {
            let next = t.state.after(trigger);
            if next.terminal() {
                None
            } else {
                Some(t.in_state(next))
            }
        },
        None => None,
    }
}

/// What is recorded under the key of an event once the event has been
/// handled.
pub open spec fn record_after_event(
    r: Option<TransactionView>,
    ev: ProtocolEventView,
    now: u64,
    code: Seq<char>,
) -> Option<TransactionView> {
    match r {
        None => match ev.kind {
            EventKind::Requested => Some(TransactionView::fresh(ev.peer, ev.transaction_id)),
            EventKind::Started => Some(
                TransactionView::fresh(ev.peer, ev.transaction_id).with_start_accepted(),
            ),
            _ => None,
        },
        Some(t) => match ev.kind {
            EventKind::Cancelled => None,
            EventKind::Started => if accepts_start(t) {
                Some(t.with_start_accepted())
            } else {
                Some(t)
            },
            EventKind::KeyExchanged => if t.state == State::Started {
                Some(t.waiting(code, now))
            } else {
                Some(t)
            },
            _ => Some(t),
        },
    }
}

/// What is recorded under a key once its transaction has been offered what
/// was received at `now`.
pub open spec fn record_after_offer(
    r: Option<TransactionView>,
    received: Option<Seq<char>>,
    now: u64,
) -> Option<TransactionView> {
    match r {
        Some(t) => if t.state != State::WaitingHumanConfirmation {
            Some(t)
        } else if t.expired(now) {
            None
        } else if received is Some && received == t.confirmation_code {
            Some(t.in_state(State::Confirmed))
        } else {
            Some(t)
        },
        None => None,
    }
}

/// What is recorded under the key a stimulus is meant for, once the
/// stimulus has been taken.
pub open spec fn record_after(r: Option<TransactionView>, s: Stimulus) -> Option<TransactionView> {
    match s {
        Stimulus::Event { event, now, code } => record_after_event(r, event, now, code),
        Stimulus::AcceptFinished { succeeded, .. } => record_after_trigger(
            r,
            accept_trigger(succeeded),
        ),
        Stimulus::Offer { received, now, .. } => record_after_offer(r, received, now),
        Stimulus::FinalizeFinished { succeeded, .. } => record_after_trigger(
            r,
            finalize_trigger(succeeded),
        ),
    }
}

/// The state of what is recorded under a key: `Idle` where nothing is.
pub open spec fn state_of(r: Option<TransactionView>) -> State {
    match r {
        Some(t) => t.state,
        None => State::Idle,
    }
}

/// A trigger moves the transaction it is meant for, as the table says, and
/// no other.
pub proof fn lemma_trigger_moves_one(
    m: Seq<TransactionView>,
    peer: Seq<char>,
    transaction_id: Seq<char>,
    trigger: Trigger,
    other_peer: Seq<char>,
    other_id: Seq<char>,
)
    requires
        well_formed(m),
        trigger != Trigger::Event(EventKind::KeyExchanged),
    ensures
        record_of(after_trigger(m, peer, transaction_id, trigger), other_peer, other_id) == if peer
            == other_peer && transaction_id == other_id {
            record_after_trigger(record_of(m, peer, transaction_id), trigger)
        } else {
            record_of(m, other_peer, other_id)
        },
{
    if holds(m, peer, transaction_id) {
        let i = index_of(m, peer, transaction_id);
        let next = m[i].state.after(trigger);
        assert(m[i].well_formed());
        if next.terminal() {
            lemma_record_after_remove(m, i, other_peer, other_id);
        } else {
            lemma_record_after_update(m, i, m[i].in_state(next), other_peer, other_id);
        }
    }
}

/// A protocol event changes what is recorded under its own key, and under
/// no other.
pub proof fn lemma_event_moves_one(
    m: Seq<TransactionView>,
    ev: ProtocolEventView,
    now: u64,
    code: Seq<char>,
    other_peer: Seq<char>,
    other_id: Seq<char>,
)
    requires
        well_formed(m),
    ensures
        record_of(after_event(m, ev, now, code), other_peer, other_id) == if ev.peer == other_peer
            && ev.transaction_id == other_id {
            record_after_event(record_of(m, ev.peer, ev.transaction_id), ev, now, code)
        } else {
            record_of(m, other_peer, other_id)
        },
{
    if !holds(m, ev.peer, ev.transaction_id) {
        let t = TransactionView::fresh(ev.peer, ev.transaction_id);
        lemma_record_after_push(m, t, other_peer, other_id);
        lemma_record_after_push(m, t.with_start_accepted(), other_peer, other_id);
    } else {
        let i = index_of(m, ev.peer, ev.transaction_id);
        assert(m[i].well_formed());
        lemma_record_after_remove(m, i, other_peer, other_id);
        if accepts_start(m[i]) {
            lemma_record_after_update(m, i, m[i].with_start_accepted(), other_peer, other_id);
        }
        if m[i].state == State::Started {
            lemma_record_after_update(m, i, m[i].waiting(code, now), other_peer, other_id);
        }
    }
}

/// An offered code changes what is recorded under the key it is offered
/// to, and under no other.
pub proof fn lemma_offer_moves_one(
    m: Seq<TransactionView>,
    peer: Seq<char>,
    transaction_id: Seq<char>,
    received: Option<Seq<char>>,
    now: u64,
    other_peer: Seq<char>,
    other_id: Seq<char>,
)
    requires
        well_formed(m),
    ensures
        record_of(after_offer(m, peer, transaction_id, received, now), other_peer, other_id)
            == if peer == other_peer && transaction_id == other_id {
            record_after_offer(record_of(m, peer, transaction_id), received, now)
        } else {
            record_of(m, other_peer, other_id)
        },
{
    lemma_trigger_moves_one(m, peer, transaction_id, Trigger::CodeMatched, other_peer, other_id);
    lemma_trigger_moves_one(m, peer, transaction_id, Trigger::WindowElapsed, other_peer, other_id);
    if holds(m, peer, transaction_id) {
        let t = m[index_of(m, peer, transaction_id)];
        assert(t.well_formed());
    }
}

/// Whatever the orchestrator is fed, the registry stays well formed.
pub proof fn lemma_step_keeps_well_formed(m: Seq<TransactionView>, s: Stimulus)
    requires
        well_formed(m),
    ensures
        well_formed(step(m, s)),
{
    match s {
        Stimulus::Event { event, now, code } => {
            lemma_event_keeps_well_formed(m, event, now, code);
        },
        Stimulus::AcceptFinished { peer, transaction_id, succeeded } => {
            lemma_trigger_keeps_well_formed(m, peer, transaction_id, accept_trigger(succeeded));
        },
        Stimulus::Offer { peer, transaction_id, received, now } => {
            lemma_offer_keeps_well_formed(m, peer, transaction_id, received, now);
        },
        Stimulus::FinalizeFinished { peer, transaction_id, succeeded } => {
            lemma_trigger_keeps_well_formed(m, peer, transaction_id, finalize_trigger(succeeded));
        },
    }
}

/// Uniqueness: after any sequence of stimuli, fed to an orchestrator that
/// began empty, no two transactions in the registry share a key, and each
/// is under way.
pub proof fn lemma_one_transaction_per_key(stimuli: Seq<Stimulus>)
    ensures
        keys_distinct(run(Seq::empty(), stimuli)),
        well_formed(run(Seq::empty(), stimuli)),
    decreases stimuli.len(),
{
    if stimuli.len() > 0 {
        lemma_one_transaction_per_key(stimuli.drop_last());
        lemma_step_keeps_well_formed(run(Seq::empty(), stimuli.drop_last()), stimuli.last());
    }
}

/// Every stimulus changes what is recorded under the key it is meant for,
/// and leaves every other transaction exactly as it was.
pub proof fn lemma_stimulus_touches_one(
    m: Seq<TransactionView>,
    s: Stimulus,
    other_peer: Seq<char>,
    other_id: Seq<char>,
)
    requires
        well_formed(m),
    ensures
        record_of(step(m, s), other_peer, other_id) == if s.peer() == other_peer
            && s.transaction_id() == other_id {
            record_after(record_of(m, s.peer(), s.transaction_id()), s)
        } else {
            record_of(m, other_peer, other_id)
        },
{
    match s {
        Stimulus::Event { event, now, code } => {
            lemma_event_moves_one(m, event, now, code, other_peer, other_id);
        },
        Stimulus::AcceptFinished { peer, transaction_id, succeeded } => {
            lemma_trigger_moves_one(
                m,
                peer,
                transaction_id,
                accept_trigger(succeeded),
                other_peer,
                other_id,
            );
        },
        Stimulus::Offer { peer, transaction_id, received, now } => {
            lemma_offer_moves_one(m, peer, transaction_id, received, now, other_peer, other_id);
        },
        Stimulus::FinalizeFinished { peer, transaction_id, succeeded } => {
            lemma_trigger_moves_one(
                m,
                peer,
                transaction_id,
                finalize_trigger(succeeded),
                other_peer,
                other_id,
            );
        },
    }
}

/// The trigger of the transition table that a stimulus amounts to for a
/// transaction recorded as `r`, if it amounts to any.
pub open spec fn trigger_of(r: Option<TransactionView>, s: Stimulus) -> Option<Trigger> {
    match s {
        Stimulus::Event { event, .. } => Some(Trigger::Event(event.kind)),
        Stimulus::AcceptFinished { succeeded, .. } => Some(accept_trigger(succeeded)),
        Stimulus::Offer { received, now, .. } => match r {
            Some(t) => if t.state != State::WaitingHumanConfirmation {
                None
            } else if t.expired(now) {
                Some(Trigger::WindowElapsed)
            } else if received is Some && received == t.confirmation_code {
                Some(Trigger::CodeMatched)
            } else {
                None
            },
            None => None,
        },
        Stimulus::FinalizeFinished { succeeded, .. } => Some(finalize_trigger(succeeded)),
    }
}

/// The state a transaction is left in by a trigger, as the registry shows
/// it: a transaction that ended is gone, and shows as Idle.
pub open spec fn registered(state: State) -> State {
    if state.terminal() {
        State::Idle
    } else {
        state
    }
}

/// Every stimulus moves its transaction exactly as the transition table
/// says for the trigger it amounts to, or not at all where it amounts to
/// none.
pub proof fn lemma_stimulus_follows_table(r: Option<TransactionView>, s: Stimulus)
    requires
        r matches Some(t) ==> t.well_formed(),
    ensures
        state_of(record_after(r, s)) == match trigger_of(r, s) {
            Some(trigger) => registered(state_of(r).after(trigger)),
            None => state_of(r),
        },
{
}

/// Forward only: a transaction that is still registered after a stimulus
/// stands no earlier in the order of states than before it.
pub proof fn lemma_never_backwards(
    m: Seq<TransactionView>,
    s: Stimulus,
    peer: Seq<char>,
    transaction_id: Seq<char>,
)
    requires
        well_formed(m),
        holds(m, peer, transaction_id),
        holds(step(m, s), peer, transaction_id),
    ensures
        record_of(m, peer, transaction_id)->0.state.rank() <= record_of(
            step(m, s),
            peer,
            transaction_id,
        )->0.state.rank(),
{
    lemma_stimulus_touches_one(m, s, peer, transaction_id);
    let r = record_of(m, peer, transaction_id);
    assert(r->0.well_formed());
    if s.peer() == peer && s.transaction_id() == transaction_id {
        lemma_stimulus_follows_table(r, s);
        match trigger_of(r, s) {
            Some(trigger) => {
                lemma_forward_only(state_of(r), trigger);
            },
            None => {},
        }
    }
}

/// A transaction leaves the registry only by reaching a terminal state.
pub proof fn lemma_evicted_means_ended(
    m: Seq<TransactionView>,
    s: Stimulus,
    peer: Seq<char>,
    transaction_id: Seq<char>,
)
    requires
        well_formed(m),
        holds(m, peer, transaction_id),
        !holds(step(m, s), peer, transaction_id),
    ensures
        s.peer() == peer && s.transaction_id() == transaction_id,
        trigger_of(record_of(m, peer, transaction_id), s) matches Some(trigger) && record_of(
            m,
            peer,
            transaction_id,
        )->0.state.after(trigger).terminal(),
{
    lemma_stimulus_touches_one(m, s, peer, transaction_id);
    let r = record_of(m, peer, transaction_id);
    assert(r->0.well_formed());
    lemma_stimulus_follows_table(r, s);
}

/// Replaying a protocol event that was just handled changes nothing,
/// whatever instant and code the replay comes with.
pub proof fn lemma_replayed_event_changes_nothing(
    m: Seq<TransactionView>,
    ev: ProtocolEventView,
    now: u64,
    code: Seq<char>,
    later: u64,
    other_code: Seq<char>,
)
    requires
        well_formed(m),
    ensures
        after_event(after_event(m, ev, now, code), ev, later, other_code) == after_event(
            m,
            ev,
            now,
            code,
        ),
        action_for(after_event(m, ev, now, code), ev) == Action::Nothing,
{
    let m1 = after_event(m, ev, now, code);
    lemma_event_keeps_well_formed(m, ev, now, code);
    lemma_event_moves_one(m, ev, now, code, ev.peer, ev.transaction_id);
    let r = record_of(m, ev.peer, ev.transaction_id);
    if r is Some {
        assert(r->0.well_formed());
    }
}

/// Replaying any stimulus that was just taken changes nothing.
pub proof fn lemma_replay_changes_nothing(m: Seq<TransactionView>, s: Stimulus)
    requires
        well_formed(m),
    ensures
        step(step(m, s), s) == step(m, s),
{
    let m1 = step(m, s);
    lemma_step_keeps_well_formed(m, s);
    lemma_stimulus_touches_one(m, s, s.peer(), s.transaction_id());
    let r = record_of(m, s.peer(), s.transaction_id());
    if r is Some {
        assert(r->0.well_formed());
    }
    match s {
        Stimulus::Event { event, now, code } => {
            lemma_replayed_event_changes_nothing(m, event, now, code, now, code);
        },
        _ => {},
    }
}

/// Exact match: within the window, what a waiting transaction is offered
/// confirms it if and only if it is the transaction's own code, character
/// for character. Anything else, a code one character off or nothing at
/// all, leaves the transaction exactly as it was.
pub proof fn lemma_exact_match(
    m: Seq<TransactionView>,
    peer: Seq<char>,
    transaction_id: Seq<char>,
    received: Option<Seq<char>>,
    now: u64,
)
    requires
        well_formed(m),
        record_of(m, peer, transaction_id) matches Some(t) && t.state
            == State::WaitingHumanConfirmation && !t.expired(now),
    ensures
        ({
            let t = record_of(m, peer, transaction_id)->0;
            let matched = received == t.confirmation_code;
            let after = after_offer(m, peer, transaction_id, received, now);
            &&& verdict_for(m, peer, transaction_id, received, now) == Verdict::Matched <==> matched
            &&& matched ==> record_of(after, peer, transaction_id) == Some(
                t.in_state(State::Confirmed),
            )
            &&& !matched ==> after == m && verdict_for(m, peer, transaction_id, received, now)
                == Verdict::StillWaiting
        }),
{
    lemma_offer_moves_one(m, peer, transaction_id, received, now, peer, transaction_id);
    let t = record_of(m, peer, transaction_id)->0;
    assert(t.well_formed());
}

/// Isolation: a code offered to two waiting transactions with different
/// codes, in either order, confirms the one whose code it is and leaves the
/// other waiting, exactly as it was.
pub proof fn lemma_isolation(
    m: Seq<TransactionView>,
    peer_a: Seq<char>,
    id_a: Seq<char>,
    peer_b: Seq<char>,
    id_b: Seq<char>,
    code: Seq<char>,
    now: u64,
)
    requires
        well_formed(m),
        record_of(m, peer_a, id_a) matches Some(a) && a.state == State::WaitingHumanConfirmation
            && !a.expired(now) && a.confirmation_code == Some(code),
        record_of(m, peer_b, id_b) matches Some(b) && b.state == State::WaitingHumanConfirmation
            && !b.expired(now) && b.confirmation_code != Some(code),
    ensures
        ({
            let a = record_of(m, peer_a, id_a)->0;
            let b = record_of(m, peer_b, id_b)->0;
            let a_first = after_offer(
                after_offer(m, peer_a, id_a, Some(code), now),
                peer_b,
                id_b,
                Some(code),
                now,
            );
            let b_first = after_offer(
                after_offer(m, peer_b, id_b, Some(code), now),
                peer_a,
                id_a,
                Some(code),
                now,
            );
            &&& a_first == b_first
            &&& record_of(a_first, peer_a, id_a) == Some(a.in_state(State::Confirmed))
            &&& record_of(a_first, peer_b, id_b) == Some(b)
            &&& verdict_for(m, peer_b, id_b, Some(code), now) == Verdict::StillWaiting
        }),
{
    let a = record_of(m, peer_a, id_a)->0;
    let b = record_of(m, peer_b, id_b)->0;
    assert(a.well_formed() && b.well_formed());
    let m1 = after_offer(m, peer_a, id_a, Some(code), now);
    lemma_offer_keeps_well_formed(m, peer_a, id_a, Some(code), now);
    lemma_offer_moves_one(m, peer_a, id_a, Some(code), now, peer_a, id_a);
    lemma_offer_moves_one(m, peer_a, id_a, Some(code), now, peer_b, id_b);
    lemma_exact_match(m1, peer_b, id_b, Some(code), now);
    lemma_exact_match(m, peer_b, id_b, Some(code), now);
}

/// Timeout: once the window of a waiting transaction is over, whatever it
/// is offered, even its own code, times it out: it leaves the registry and
/// is never confirmed, so that its trust is never finalized.
pub proof fn lemma_timeout(
    m: Seq<TransactionView>,
    peer: Seq<char>,
    transaction_id: Seq<char>,
    received: Option<Seq<char>>,
    now: u64,
)
    requires
        well_formed(m),
        record_of(m, peer, transaction_id) matches Some(t) && t.state
            == State::WaitingHumanConfirmation && t.expired(now),
    ensures
        verdict_for(m, peer, transaction_id, received, now) == Verdict::Expired,
        !holds(after_offer(m, peer, transaction_id, received, now), peer, transaction_id),
        observed_state(m, peer, transaction_id, received, now) == State::TimedOut,
{
    lemma_offer_moves_one(m, peer, transaction_id, received, now, peer, transaction_id);
}

/// The state a transaction is seen in right after an offer, a terminal
/// state included.
pub open spec fn observed_state(
    m: Seq<TransactionView>,
    peer: Seq<char>,
    transaction_id: Seq<char>,
    received: Option<Seq<char>>,
    now: u64,
) -> State {
    let before = state_of(record_of(m, peer, transaction_id));
    match verdict_trigger(verdict_for(m, peer, transaction_id, received, now)) {
        Some(trigger) => before.after(trigger),
        None => before,
    }
}

/// Offers made one after the other to one transaction.
pub open spec fn after_offers(
    m: Seq<TransactionView>,
    peer: Seq<char>,
    transaction_id: Seq<char>,
    offers: Seq<(Option<Seq<char>>, u64)>,
) -> Seq<TransactionView>
    decreases offers.len(),
{
    if offers.len() == 0 {
        m
    } else {
        after_offer(
            after_offers(m, peer, transaction_id, offers.drop_last()),
            peer,
            transaction_id,
            offers.last().0,
            offers.last().1,
        )
    }
}

/// A wait that never sees the right code: as long as the window is open,
/// offers that do not match leave the transaction waiting, unchanged, and
/// none of them confirms it.
pub proof fn lemma_wrong_codes_keep_waiting(
    m: Seq<TransactionView>,
    peer: Seq<char>,
    transaction_id: Seq<char>,
    offers: Seq<(Option<Seq<char>>, u64)>,
)
    requires
        well_formed(m),
        record_of(m, peer, transaction_id) matches Some(t) && t.state
            == State::WaitingHumanConfirmation && forall|i: int|
            0 <= i < offers.len() ==> !t.expired((#[trigger] offers[i]).1) && offers[i].0
                != t.confirmation_code,
    ensures
        after_offers(m, peer, transaction_id, offers) == m,
        forall|i: int|
            0 <= i < offers.len() ==> verdict_for(
                m,
                peer,
                transaction_id,
                (#[trigger] offers[i]).0,
                offers[i].1,
            ) == Verdict::StillWaiting,
    decreases offers.len(),
{
    let t = record_of(m, peer, transaction_id)->0;
    if offers.len() > 0 {
        let rest = offers.drop_last();
        assert forall|i: int| 0 <= i < rest.len() implies !t.expired((#[trigger] rest[i]).1)
            && rest[i].0 != t.confirmation_code by {
            assert(rest[i] == offers[i]);
        }
        lemma_wrong_codes_keep_waiting(m, peer, transaction_id, rest);
        let last = offers.last();
        assert(last == offers[offers.len() - 1]);
        lemma_exact_match(m, peer, transaction_id, last.0, last.1);
    }
    assert forall|i: int| 0 <= i < offers.len() implies verdict_for(
        m,
        peer,
        transaction_id,
        (#[trigger] offers[i]).0,
        offers[i].1,
    ) == Verdict::StillWaiting by {
        lemma_exact_match(m, peer, transaction_id, offers[i].0, offers[i].1);
    }
}

/// The whole of a wait without a match: whatever wrong codes come while
/// the window is open, the first look after the window is over evicts the
/// transaction as timed out.
pub proof fn lemma_wait_without_match_times_out(
    m: Seq<TransactionView>,
    peer: Seq<char>,
    transaction_id: Seq<char>,
    offers: Seq<(Option<Seq<char>>, u64)>,
    last_received: Option<Seq<char>>,
    end: u64,
)
    requires
        well_formed(m),
        record_of(m, peer, transaction_id) matches Some(t) && t.state
            == State::WaitingHumanConfirmation && t.expired(end) && forall|i: int|
            0 <= i < offers.len() ==> !t.expired((#[trigger] offers[i]).1) && offers[i].0
                != t.confirmation_code,
    ensures
        ({
            let waited = after_offers(m, peer, transaction_id, offers);
            &&& waited == m
            &&& verdict_for(waited, peer, transaction_id, last_received, end) == Verdict::Expired
            &&& !holds(
                after_offer(waited, peer, transaction_id, last_received, end),
                peer,
                transaction_id,
            )
        }),
{
    lemma_wrong_codes_keep_waiting(m, peer, transaction_id, offers);
    lemma_timeout(m, peer, transaction_id, last_received, end);
}

/// Idempotent acceptance: a second request for a key changes nothing and
/// asks for nothing. After two requests for an unknown key the registry
/// holds one transaction more than before, with its accept pending: one
/// accept was asked for, so one outcome moves it on.
pub proof fn lemma_second_request_is_ignored(
    m: Seq<TransactionView>,
    ev: ProtocolEventView,
    now: u64,
    code: Seq<char>,
    later: u64,
    other_code: Seq<char>,
)
    requires
        well_formed(m),
        ev.kind == EventKind::Requested,
    ensures
        ({
            let once = after_event(m, ev, now, code);
            let twice = after_event(once, ev, later, other_code);
            &&& twice == once
            &&& action_for(once, ev) == Action::Nothing
            &&& keys_distinct(twice)
            &&& !holds(m, ev.peer, ev.transaction_id) ==> {
                &&& action_for(m, ev) == Action::AcceptRequest
                &&& twice.len() == m.len() + 1
                &&& record_of(twice, ev.peer, ev.transaction_id) == Some(
                    TransactionView::fresh(ev.peer, ev.transaction_id),
                )
            }
            &&& holds(m, ev.peer, ev.transaction_id) ==> once == m && action_for(m, ev)
                == Action::Nothing
        }),
{
    lemma_replayed_event_changes_nothing(m, ev, now, code, later, other_code);
    lemma_event_keeps_well_formed(m, ev, now, code);
    lemma_event_moves_one(m, ev, now, code, ev.peer, ev.transaction_id);
}

/// The confirmation code of a transaction is fixed: whatever the
/// orchestrator is fed, a transaction that has a code and stays registered
/// keeps that code, and its window keeps its beginning.
pub proof fn lemma_code_is_kept(
    m: Seq<TransactionView>,
    s: Stimulus,
    peer: Seq<char>,
    transaction_id: Seq<char>,
)
    requires
        well_formed(m),
        record_of(m, peer, transaction_id) matches Some(t) && t.confirmation_code is Some,
        holds(step(m, s), peer, transaction_id),
    ensures
        record_of(step(m, s), peer, transaction_id)->0.confirmation_code == record_of(
            m,
            peer,
            transaction_id,
        )->0.confirmation_code,
        record_of(step(m, s), peer, transaction_id)->0.started_at == record_of(
            m,
            peer,
            transaction_id,
        )->0.started_at,
{
    lemma_stimulus_touches_one(m, s, peer, transaction_id);
    let t = record_of(m, peer, transaction_id)->0;
    assert(t.well_formed());
}

/// Trust is finalized from the confirmed state only: the one verdict that
/// asks for it is given to a transaction that waited, within its window,
/// for exactly the code received, and leaves that transaction confirmed.
pub proof fn lemma_finalized_only_when_confirmed(
    m: Seq<TransactionView>,
    peer: Seq<char>,
    transaction_id: Seq<char>,
    received: Option<Seq<char>>,
    now: u64,
)
    requires
        well_formed(m),
        verdict_for(m, peer, transaction_id, received, now) == Verdict::Matched,
    ensures
        record_of(m, peer, transaction_id) matches Some(t) && t.state
            == State::WaitingHumanConfirmation && !t.expired(now) && received
            == t.confirmation_code,
        record_of(after_offer(m, peer, transaction_id, received, now), peer, transaction_id)
            == Some(record_of(m, peer, transaction_id)->0.in_state(State::Confirmed)),
{
    lemma_offer_moves_one(m, peer, transaction_id, received, now, peer, transaction_id);
    let t = record_of(m, peer, transaction_id)->0;
    assert(t.well_formed());
}

} // verus!
