//! The states a verification transaction passes through, and what moves it.

use vstd::prelude::*;

verus! {

/// The five protocol events, whichever transport carried them.
#[derive(Clone, Copy, Debug, PartialEq, Eq, Structural)]
pub enum EventKind {
    Requested,
    Started,
    KeyExchanged,
    Done,
    Cancelled,
}

/// Where one verification transaction stands. `Idle` is the state of a
/// transaction nobody has heard of yet.
#[derive(Clone, Copy, Debug, PartialEq, Eq, Structural)]
pub enum State {
    Idle,
    PendingAccept,
    Started,
    WaitingHumanConfirmation,
    Confirmed,
    Done,
    Cancelled,
    TimedOut,
}

/// Everything that can move a transaction: a protocol event, the outcome of
/// an accept or of the finalization, a matching code, or the end of the
/// confirmation window.
#[derive(Clone, Copy, Debug, PartialEq, Eq, Structural)]
pub enum Trigger {
    Event(EventKind),
    AcceptSucceeded,
    AcceptFailed,
    CodeMatched,
    WindowElapsed,
    FinalizeSucceeded,
    FinalizeFailed,
}

impl State {
    /// Position of the state in the forward order. The three terminal
    /// states share the last position.
    pub open spec fn rank(self) -> nat {
        match self {
            State::Idle => 0,
            State::PendingAccept => 1,
            State::Started => 2,
            State::WaitingHumanConfirmation => 3,
            State::Confirmed => 4,
            State::Done => 5,
            State::Cancelled => 5,
            State::TimedOut => 5,
        }
    }

    /// Done, Cancelled and TimedOut end a transaction.
    pub open spec fn terminal(self) -> bool {
        self == State::Done || self == State::Cancelled || self == State::TimedOut
    }

    /// A live state is one a registered transaction can be in: neither Idle
    /// nor terminal.
    pub open spec fn live(self) -> bool {
        self != State::Idle && !self.terminal()
    }

    /// The transition table. A terminal state absorbs everything; a
    /// cancellation ends any other state; every pair not listed leaves the
    /// state as it is.
    ///
    /// A transaction begins with a request or, where the peer starts
    /// outright, with a start: either leaves the accept pending. An accept
    /// that fails ends the transaction as long as no keys were exchanged,
    /// be it the accept of the request or that of the start.
    pub open spec fn after(self, trigger: Trigger) -> State {
        if self.terminal() {
            self
        } else {
            match (self, trigger) {
                (_, Trigger::Event(EventKind::Cancelled)) => State::Cancelled,
                (State::Idle, Trigger::Event(EventKind::Requested)) => State::PendingAccept,
                (State::Idle, Trigger::Event(EventKind::Started)) => State::PendingAccept,
                (State::PendingAccept, Trigger::AcceptSucceeded) => State::Started,
                (State::PendingAccept, Trigger::AcceptFailed) => State::Cancelled,
                (State::Started, Trigger::AcceptFailed) => State::Cancelled,
                (State::Started, Trigger::Event(EventKind::KeyExchanged)) => {
                    State::WaitingHumanConfirmation
                },
                (State::WaitingHumanConfirmation, Trigger::CodeMatched) => State::Confirmed,
                (State::WaitingHumanConfirmation, Trigger::WindowElapsed) => State::TimedOut,
                (State::Confirmed, Trigger::FinalizeSucceeded) => State::Done,
                (State::Confirmed, Trigger::FinalizeFailed) => State::Cancelled,
                (s, _) => s,
            }
        }
    }

    /// Whether the state ends the transaction.
    pub fn is_terminal(self) -> (r: bool)
        ensures
            r == self.terminal(),
    {
        match self {
            State::Done | State::Cancelled | State::TimedOut => true,
            _ => false,
        }
    }

    /// Whether a registered transaction can be in this state.
    pub fn is_live(self) -> (r: bool)
        ensures
            r == self.live(),
    {
        match self {
            State::Idle | State::Done | State::Cancelled | State::TimedOut => false,
            _ => true,
        }
    }

    /// The state that follows `self` when `trigger` arrives.
    pub fn next(self, trigger: Trigger) -> (r: State)
        ensures
            r == self.after(trigger),
    {
        match self {
            State::Done | State::Cancelled | State::TimedOut => self,
            State::Idle => match trigger {
                Trigger::Event(EventKind::Cancelled) => State::Cancelled,
                Trigger::Event(EventKind::Requested) => State::PendingAccept,
                Trigger::Event(EventKind::Started) => State::PendingAccept,
                _ => self,
            },
            State::PendingAccept => match trigger {
                Trigger::Event(EventKind::Cancelled) => State::Cancelled,
                Trigger::AcceptSucceeded => State::Started,
                Trigger::AcceptFailed => State::Cancelled,
                _ => self,
            },
            State::Started => match trigger {
                Trigger::Event(EventKind::Cancelled) => State::Cancelled,
                Trigger::AcceptFailed => State::Cancelled,
                Trigger::Event(EventKind::KeyExchanged) => State::WaitingHumanConfirmation,
                _ => self,
            },
            State::WaitingHumanConfirmation => match trigger {
                Trigger::Event(EventKind::Cancelled) => State::Cancelled,
                Trigger::CodeMatched => State::Confirmed,
                Trigger::WindowElapsed => State::TimedOut,
                _ => self,
            },
            State::Confirmed => match trigger {
                Trigger::Event(EventKind::Cancelled) => State::Cancelled,
                Trigger::FinalizeSucceeded => State::Done,
                Trigger::FinalizeFailed => State::Cancelled,
                _ => self,
            },
        }
    }
}

/// A transaction never moves backwards: whatever arrives, the rank of the
/// state does not drop.
pub proof fn lemma_forward_only(state: State, trigger: Trigger)
    ensures
        state.rank() <= state.after(trigger).rank(),
{
}

/// Replaying a trigger that was just processed changes nothing.
pub proof fn lemma_replay_is_idle(state: State, trigger: Trigger)
    ensures
        state.after(trigger).after(trigger) == state.after(trigger),
{
}

/// Only a matching code or the end of the window moves a transaction out of
/// the wait for the operator, apart from a cancellation by the peer.
pub proof fn lemma_leaving_the_wait(trigger: Trigger)
    ensures
        State::WaitingHumanConfirmation.after(trigger) == State::Confirmed <==> trigger
            == Trigger::CodeMatched,
        State::WaitingHumanConfirmation.after(trigger) == State::TimedOut <==> trigger
            == Trigger::WindowElapsed,
        State::WaitingHumanConfirmation.after(trigger) != State::WaitingHumanConfirmation
            <==> (trigger == Trigger::CodeMatched || trigger == Trigger::WindowElapsed || trigger
            == Trigger::Event(EventKind::Cancelled)),
{
}

/// Done is reached from Confirmed and from nowhere else, and only by a
/// successful finalization.
pub proof fn lemma_done_only_from_confirmed(state: State, trigger: Trigger)
    requires
        state != State::Done,
    ensures
        state.after(trigger) == State::Done <==> (state == State::Confirmed && trigger
            == Trigger::FinalizeSucceeded),
{
}

} // verus!
