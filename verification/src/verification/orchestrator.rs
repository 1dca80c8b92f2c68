//! The orchestrator: it takes protocol events and the outcomes of the work
//! it asked for, moves the transaction they belong to, and says what has to
//! be done next.
//!
//! The orchestrator decides; it performs nothing. Whoever drives it accepts
//! requests, shows codes, waits and finalizes, and reports back how each of
//! these went.

use vstd::prelude::*;
use crate::text::optional_text;
use crate::verification::bridge::{fresh_confirmation_code, is_confirmation_code, Subscription};
use crate::verification::event::{normalize, normalized, Envelope, ProtocolEvent, ProtocolEventView};
use crate::verification::registry::{
    holds,
    index_of,
    lemma_index_unique,
    lemma_push_keeps_well_formed,
    lemma_remove_keeps_well_formed,
    lemma_update_keeps_well_formed,
    moved,
    well_formed,
    Registry,
    TransactionView,
};
use crate::verification::state::{EventKind, State, Trigger};

verus! {

/// What the driver has to do after an event.
#[derive(Clone, Copy, Debug, PartialEq, Eq, Structural)]
pub enum Action {
    /// Nothing: the event was dropped or ignored.
    Nothing,
    /// Accept the verification request and report the outcome.
    AcceptRequest,
    /// Accept the start of the handshake and report the outcome.
    AcceptStart,
    /// Show the operator the code of the transaction and begin to offer it
    /// what the bridge receives.
    AwaitConfirmation,
}

/// What became of a code offered to a waiting transaction.
#[derive(Clone, Copy, Debug, PartialEq, Eq, Structural)]
pub enum Verdict {
    /// The code is the transaction's own and came in time: the transaction
    /// is confirmed, and trust has to be finalized now.
    Matched,
    /// Nothing matched; the transaction waits on.
    StillWaiting,
    /// The window is over: the transaction timed out and is gone.
    Expired,
    /// No transaction with this key is waiting.
    NotWaiting,
}

/// Whether a start event is taken up by a transaction in this condition:
/// once, and only before the key exchange.
pub open spec fn accepts_start(t: TransactionView) -> bool {
    (t.state == State::PendingAccept || t.state == State::Started) && !t.start_accepted
}

/// The registry after a protocol event. `code` is the confirmation code a
/// transaction gets if the event takes it into the wait, `now` the instant
/// its window then opens.
pub open spec fn after_event(
    m: Seq<TransactionView>,
    ev: ProtocolEventView,
    now: u64,
    code: Seq<char>,
) -> Seq<TransactionView> {
    if !holds(m, ev.peer, ev.transaction_id) {
        match ev.kind {
            EventKind::Requested => m.push(TransactionView::fresh(ev.peer, ev.transaction_id)),
            EventKind::Started => m.push(
                TransactionView::fresh(ev.peer, ev.transaction_id).with_start_accepted(),
            ),
            _ => m,
        }
    } else {
        let i = index_of(m, ev.peer, ev.transaction_id);
        match ev.kind {
            EventKind::Cancelled => m.remove(i),
            EventKind::Started => if accepts_start(m[i]) {
                m.update(i, m[i].with_start_accepted())
            } else {
                m
            },
            EventKind::KeyExchanged => if m[i].state == State::Started {
                m.update(i, m[i].waiting(code, now))
            } else {
                m
            },
            _ => m,
        }
    }
}

/// What the driver has to do after a protocol event.
pub open spec fn action_for(m: Seq<TransactionView>, ev: ProtocolEventView) -> Action {
    if !holds(m, ev.peer, ev.transaction_id) {
        match ev.kind {
            EventKind::Requested => Action::AcceptRequest,
            EventKind::Started => Action::AcceptStart,
            _ => Action::Nothing,
        }
    } else {
        let i = index_of(m, ev.peer, ev.transaction_id);
        match ev.kind {
            EventKind::Started => if accepts_start(m[i]) {
                Action::AcceptStart
            } else {
                Action::Nothing
            },
            EventKind::KeyExchanged => if m[i].state == State::Started {
                Action::AwaitConfirmation
            } else {
                Action::Nothing
            },
            _ => Action::Nothing,
        }
    }
}

/// The trigger an accept outcome stands for.
pub open spec fn accept_trigger(succeeded: bool) -> Trigger {
    if succeeded {
        Trigger::AcceptSucceeded
    } else {
        Trigger::AcceptFailed
    }
}

/// The trigger a finalization outcome stands for.
pub open spec fn finalize_trigger(succeeded: bool) -> Trigger {
    if succeeded {
        Trigger::FinalizeSucceeded
    } else {
        Trigger::FinalizeFailed
    }
}

/// The registry after `trigger` met the transaction with the given key: the
/// transaction moves as the table says, every other stays, and an unknown
/// key changes nothing.
pub open spec fn after_trigger(
    m: Seq<TransactionView>,
    peer: Seq<char>,
    transaction_id: Seq<char>,
    trigger: Trigger,
) -> Seq<TransactionView> {
    if holds(m, peer, transaction_id) {
        moved(m, index_of(m, peer, transaction_id), trigger)
    } else {
        m
    }
}

/// The state a transaction is seen in after `trigger`: the state the table
/// gives, counting an unknown transaction as Idle.
pub open spec fn observed_after(
    m: Seq<TransactionView>,
    peer: Seq<char>,
    transaction_id: Seq<char>,
    trigger: Trigger,
) -> State {
    if holds(m, peer, transaction_id) {
        m[index_of(m, peer, transaction_id)].state.after(trigger)
    } else {
        State::Idle
    }
}

/// What a code offered at `now` means to the transaction with the given
/// key. The window is looked at first: a code that comes late counts for
/// nothing, even the right one.
pub open spec fn verdict_for(
    m: Seq<TransactionView>,
    peer: Seq<char>,
    transaction_id: Seq<char>,
    received: Option<Seq<char>>,
    now: u64,
) -> Verdict {
    if !holds(m, peer, transaction_id) {
        Verdict::NotWaiting
    } else {
        let t = m[index_of(m, peer, transaction_id)];
        if t.state != State::WaitingHumanConfirmation {
            Verdict::NotWaiting
        } else if t.expired(now) {
            Verdict::Expired
        } else if received is Some && received == t.confirmation_code {
            Verdict::Matched
        } else {
            Verdict::StillWaiting
        }
    }
}

/// The trigger a verdict stands for, if any.
pub open spec fn verdict_trigger(verdict: Verdict) -> Option<Trigger> {
    match verdict {
        Verdict::Matched => Some(Trigger::CodeMatched),
        Verdict::Expired => Some(Trigger::WindowElapsed),
        _ => None,
    }
}

/// The registry after a code was offered to the transaction with the given
/// key.
pub open spec fn after_offer(
    m: Seq<TransactionView>,
    peer: Seq<char>,
    transaction_id: Seq<char>,
    received: Option<Seq<char>>,
    now: u64,
) -> Seq<TransactionView> {
    match verdict_trigger(verdict_for(m, peer, transaction_id, received, now)) {
        Some(trigger) => after_trigger(m, peer, transaction_id, trigger),
        None => m,
    }
}

/// A protocol event keeps the registry well formed.
pub proof fn lemma_event_keeps_well_formed(
    m: Seq<TransactionView>,
    ev: ProtocolEventView,
    now: u64,
    code: Seq<char>,
)
    requires
        well_formed(m),
    ensures
        well_formed(after_event(m, ev, now, code)),
{
    if !holds(m, ev.peer, ev.transaction_id) {
        let t = TransactionView::fresh(ev.peer, ev.transaction_id);
        lemma_push_keeps_well_formed(m, t);
        lemma_push_keeps_well_formed(m, t.with_start_accepted());
    } else {
        let i = index_of(m, ev.peer, ev.transaction_id);
        lemma_remove_keeps_well_formed(m, i);
        assert(m[i].well_formed());
        if accepts_start(m[i]) {
            lemma_update_keeps_well_formed(m, i, m[i].with_start_accepted());
        }
        if m[i].state == State::Started {
            lemma_update_keeps_well_formed(m, i, m[i].waiting(code, now));
        }
    }
}

/// A trigger that carries no code keeps the registry well formed.
pub proof fn lemma_trigger_keeps_well_formed(
    m: Seq<TransactionView>,
    peer: Seq<char>,
    transaction_id: Seq<char>,
    trigger: Trigger,
)
    requires
        well_formed(m),
        trigger != Trigger::Event(EventKind::KeyExchanged),
    ensures
        well_formed(after_trigger(m, peer, transaction_id, trigger)),
{
    if holds(m, peer, transaction_id) {
        let i = index_of(m, peer, transaction_id);
        let next = m[i].state.after(trigger);
        assert(m[i].well_formed());
        if next.terminal() {
            lemma_remove_keeps_well_formed(m, i);
        } else {
            lemma_update_keeps_well_formed(m, i, m[i].in_state(next));
        }
    }
}

/// An offered code keeps the registry well formed.
pub proof fn lemma_offer_keeps_well_formed(
    m: Seq<TransactionView>,
    peer: Seq<char>,
    transaction_id: Seq<char>,
    received: Option<Seq<char>>,
    now: u64,
)
    requires
        well_formed(m),
    ensures
        well_formed(after_offer(m, peer, transaction_id, received, now)),
{
    lemma_trigger_keeps_well_formed(m, peer, transaction_id, Trigger::CodeMatched);
    lemma_trigger_keeps_well_formed(m, peer, transaction_id, Trigger::WindowElapsed);
}

/// Decides for every live verification transaction what happens next.
#[derive(Debug)]
pub struct Orchestrator {
    registry: Registry,
}

impl View for Orchestrator {
    type V = Seq<TransactionView>;

    closed spec fn view(&self) -> Seq<TransactionView> {
        self.registry@
    }
}

impl Orchestrator {
    /// The invariant of the orchestrator: that of its registry.
    pub open spec fn wf(&self) -> bool {
        well_formed(self@)
    }

    /// An orchestrator with no transaction under way.
    pub fn new() -> (r: Orchestrator)
        ensures
            r.wf(),
            r@ == Seq::<TransactionView>::empty(),
    {
        Orchestrator { registry: Registry::new() }
    }

    /// The registry, to look at.
    pub fn registry(&self) -> (r: &Registry)
        ensures
            r@ == self@,
    {
        &self.registry
    }

    /// Takes one protocol event. `fresh_code` becomes the confirmation code
    /// of the transaction if the event takes it into the wait for the
    /// operator, whose window then opens at `now`; otherwise it is dropped.
    ///
    /// A request or a start for an unknown key registers the transaction
    /// and asks for the accept. A start for a known transaction is accepted
    /// once, before its keys are exchanged. A key exchange moves a started
    /// transaction into the wait. A cancellation evicts the transaction.
    /// Whatever does not fit the state of its transaction, and whatever
    /// names an unknown transaction without opening one, changes nothing.
    pub fn handle_event_with_code(
        &mut self,
        event: &ProtocolEvent,
        now: u64,
        fresh_code: String,
    ) -> (action: Action)
        requires
            old(self).wf(),
        ensures
            final(self).wf(),
            final(self)@ == after_event(old(self)@, event@, now, fresh_code@),
            action == action_for(old(self)@, event@),
    {
        proof {
            lemma_event_keeps_well_formed(self@, event@, now, fresh_code@);
        }
        match self.registry.position(&event.peer, &event.transaction_id) {
            None => match event.kind {
                EventKind::Requested => {
                    let _ = self.registry.lookup_or_create(&event.peer, &event.transaction_id);
                    Action::AcceptRequest
                },
                EventKind::Started => {
                    let (i, _) = self.registry.lookup_or_create(
                        &event.peer,
                        &event.transaction_id,
                    );
                    self.registry.mark_start_accepted(i);
                    proof {
                        let t = TransactionView::fresh(event@.peer, event@.transaction_id);
                        assert(self@ =~= old(self)@.push(t.with_start_accepted()));
                    }
                    Action::AcceptStart
                },
                _ => Action::Nothing,
            },
            Some(i) => {
                proof {
                    lemma_index_unique(self@, event@.peer, event@.transaction_id, i as int);
                }
                let t = self.registry.get(i);
                let state = t.state();
                let start_accepted = t.start_accepted();
                match event.kind {
                    EventKind::Cancelled => {
                        let _ = self.registry.advance(i, Trigger::Event(EventKind::Cancelled));
                        Action::Nothing
                    },
                    EventKind::Started => {
                        if (state == State::PendingAccept || state == State::Started)
                            && !start_accepted {
                            self.registry.mark_start_accepted(i);
                            Action::AcceptStart
                        } else {
                            Action::Nothing
                        }
                    },
                    EventKind::KeyExchanged => {
                        if state == State::Started {
                            self.registry.begin_wait(i, fresh_code, now);
                            Action::AwaitConfirmation
                        } else {
                            Action::Nothing
                        }
                    },
                    _ => Action::Nothing,
                }
            },
        }
    }

    /// Moves the transaction with the given key by a trigger that carries
    /// no code, and returns the state it is then seen in.
    fn apply(&mut self, peer: &String, transaction_id: &String, trigger: Trigger) -> (seen: State)
        requires
            old(self).wf(),
            trigger != Trigger::Event(EventKind::KeyExchanged),
        ensures
            final(self).wf(),
            final(self)@ == after_trigger(old(self)@, peer@, transaction_id@, trigger),
            seen == observed_after(old(self)@, peer@, transaction_id@, trigger),
    {
        match self.registry.position(peer, transaction_id) {
            None => State::Idle,
            Some(i) => {
                proof {
                    lemma_index_unique(self@, peer@, transaction_id@, i as int);
                }
                self.registry.advance(i, trigger)
            },
        }
    }

    /// Takes the outcome of an accept. Success moves a transaction whose
    /// accept was pending to Started; failure cancels a transaction that
    /// has not exchanged keys yet, which evicts it. Returns the state the
    /// transaction is then seen in, Idle for an unknown one.
    pub fn accept_finished(&mut self, peer: &String, transaction_id: &String, succeeded: bool) -> (seen:
        State)
        requires
            old(self).wf(),
        ensures
            final(self).wf(),
            final(self)@ == after_trigger(
                old(self)@,
                peer@,
                transaction_id@,
                accept_trigger(succeeded),
            ),
            seen == observed_after(old(self)@, peer@, transaction_id@, accept_trigger(succeeded)),
    {
        let trigger = if succeeded {
            Trigger::AcceptSucceeded
        } else {
            Trigger::AcceptFailed
        };
        self.apply(peer, transaction_id, trigger)
    }

    /// Takes the outcome of the finalization of a confirmed transaction,
    /// which ends it either way: Done on success, Cancelled on failure.
    /// Returns the state the transaction is then seen in; on `Done` the
    /// driver reports the peer's devices.
    pub fn finalize_finished(&mut self, peer: &String, transaction_id: &String, succeeded: bool) -> (seen:
        State)
        requires
            old(self).wf(),
        ensures
            final(self).wf(),
            final(self)@ == after_trigger(
                old(self)@,
                peer@,
                transaction_id@,
                finalize_trigger(succeeded),
            ),
            seen == observed_after(
                old(self)@,
                peer@,
                transaction_id@,
                finalize_trigger(succeeded),
            ),
    {
        let trigger = if succeeded {
            Trigger::FinalizeSucceeded
        } else {
            Trigger::FinalizeFailed
        };
        self.apply(peer, transaction_id, trigger)
    }

    /// Offers the transaction with the given key what the bridge received
    /// at the instant `now`: a code, or nothing. Once the window is over the
    /// transaction times out and is evicted, whatever was received. Within
    /// the window a code that equals the transaction's own, character for
    /// character, confirms it; anything else leaves it waiting.
    pub fn offer_code(
        &mut self,
        peer: &String,
        transaction_id: &String,
        received: Option<&String>,
        now: u64,
    ) -> (verdict: Verdict)
        requires
            old(self).wf(),
        ensures
            final(self).wf(),
            verdict == verdict_for(
                old(self)@,
                peer@,
                transaction_id@,
                match received {
                    Some(c) => Some(c@),
                    None => None,
                },
                now,
            ),
            final(self)@ == after_offer(
                old(self)@,
                peer@,
                transaction_id@,
                match received {
                    Some(c) => Some(c@),
                    None => None,
                },
                now,
            ),
    {
        match self.registry.position(peer, transaction_id) {
            None => Verdict::NotWaiting,
            Some(i) => {
                proof {
                    lemma_index_unique(self@, peer@, transaction_id@, i as int);
                }
                let t = self.registry.get(i);
                if t.state() != State::WaitingHumanConfirmation {
                    Verdict::NotWaiting
                } else if t.is_expired(now) {
                    let _ = self.registry.advance(i, Trigger::WindowElapsed);
                    Verdict::Expired
                } else {
                    let matches = match received {
                        Some(code) => t.code_is(code),
                        None => false,
                    };
                    if matches {
                        let _ = self.registry.advance(i, Trigger::CodeMatched);
                        Verdict::Matched
                    } else {
                        Verdict::StillWaiting
                    }
                }
            },
        }
    }

    /// Takes a message as a transport delivered it. An envelope that is
    /// unknown or malformed is dropped and changes nothing; any other is
    /// handled as the event it stands for.
    pub fn handle_envelope_with_code(
        &mut self,
        envelope: &Envelope,
        now: u64,
        fresh_code: String,
    ) -> (action: Action)
        requires
            old(self).wf(),
        ensures
            final(self).wf(),
            match normalized(*envelope) {
                Some(ev) => final(self)@ == after_event(old(self)@, ev, now, fresh_code@)
                    && action == action_for(old(self)@, ev),
                None => final(self)@ == old(self)@ && action == Action::Nothing,
            },
    {
        match normalize(envelope) {
            Some(event) => self.handle_event_with_code(&event, now, fresh_code),
            None => Action::Nothing,
        }
    }
    /// Takes one protocol event, as `handle_event_with_code` does, and draws
    /// the confirmation code itself where the event takes its transaction
    /// into the wait for the operator.
    pub fn handle_event(&mut self, event: &ProtocolEvent, now: u64) -> (action: Action)
        requires
            old(self).wf(),
        ensures
            final(self).wf(),
            action == action_for(old(self)@, event@),
            exists|code: Seq<char>|
                {
                    &&& final(self)@ == #[trigger] after_event(old(self)@, event@, now, code)
                    &&& action == Action::AwaitConfirmation ==> is_confirmation_code(code)
                },
    {
        let starts_wait = event.kind == EventKind::KeyExchanged && self.registry.state_of(
            &event.peer,
            &event.transaction_id,
        ) == State::Started;
        let code = if starts_wait {
            fresh_confirmation_code()
        } else {
            String::new()
        };
        let ghost chosen = code@;
        let action = self.handle_event_with_code(event, now, code);
        assert(self@ == after_event(old(self)@, event@, now, chosen));
        action
    }

    /// Takes a message as a transport delivered it, as
    /// `handle_envelope_with_code` does, and draws the confirmation code
    /// itself where one is needed.
    pub fn handle_envelope(&mut self, envelope: &Envelope, now: u64) -> (action: Action)
        requires
            old(self).wf(),
        ensures
            final(self).wf(),
            match normalized(*envelope) {
                Some(ev) => action == action_for(old(self)@, ev) && exists|code: Seq<char>|
                    {
                        &&& final(self)@ == #[trigger] after_event(old(self)@, ev, now, code)
                        &&& action == Action::AwaitConfirmation ==> is_confirmation_code(code)
                    },
                None => final(self)@ == old(self)@ && action == Action::Nothing,
            },
    {
        match normalize(envelope) {
            Some(event) => self.handle_event(&event, now),
            None => Action::Nothing,
        }
    }

    /// Looks at what the subscription of a waiting transaction has received
    /// and offers it to the transaction, as `offer_code` does. What was
    /// received is not known beforehand: the verdict is the one `offer_code`
    /// gives for it, whatever it was.
    pub fn poll(
        &mut self,
        subscription: &mut Subscription,
        peer: &String,
        transaction_id: &String,
        now: u64,
    ) -> (verdict: Verdict)
        requires
            old(self).wf(),
        ensures
            final(self).wf(),
            exists|received: Option<Seq<char>>|
                {
                    &&& verdict == #[trigger] verdict_for(
                        old(self)@,
                        peer@,
                        transaction_id@,
                        received,
                        now,
                    )
                    &&& final(self)@ == after_offer(
                        old(self)@,
                        peer@,
                        transaction_id@,
                        received,
                        now,
                    )
                },
    {
        let received = subscription.poll();
        let ghost seen: Option<Seq<char>> = optional_text(received);
        let verdict = self.offer_code(peer, transaction_id, received.as_ref(), now);
        assert(verdict == verdict_for(old(self)@, peer@, transaction_id@, seen, now));
        verdict
    }
}

} // verus!
