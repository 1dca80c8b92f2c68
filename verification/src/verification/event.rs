//! Protocol events and the two envelopes they arrive in.
//!
//! A verification message reaches the participant either as a direct
//! device-to-device message, which names its transaction outright, or inside
//! a conversation, where it points at the message that opened the
//! transaction. Both are brought to one shape here.

use vstd::prelude::*;
use crate::text::optional_text;
use crate::verification::state::EventKind;

verus! {

/// The view of a [`ProtocolEvent`].
pub struct ProtocolEventView {
    pub kind: EventKind,
    pub peer: Seq<char>,
    pub transaction_id: Seq<char>,
}

/// One protocol event in the shape the state machine consumes.
#[derive(Clone, Debug, PartialEq, Eq)]
pub struct ProtocolEvent {
    pub kind: EventKind,
    pub peer: String,
    pub transaction_id: String,
}

impl View for ProtocolEvent {
    type V = ProtocolEventView;

    open spec fn view(&self) -> ProtocolEventView {
        ProtocolEventView {
            kind: self.kind,
            peer: self.peer@,
            transaction_id: self.transaction_id@,
        }
    }
}

/// A direct device-to-device message. `kind` is `None` for a message that is
/// no verification message; `transaction_id` is `None` where the content
/// carried none.
#[derive(Clone, Debug, PartialEq, Eq)]
pub struct DirectEnvelope {
    pub kind: Option<EventKind>,
    pub sender: String,
    pub transaction_id: Option<String>,
}

/// A message seen in a conversation. A request opens its transaction, so its
/// own `event_id` names it; every later message names it through
/// `relates_to`.
#[derive(Clone, Debug, PartialEq, Eq)]
pub struct ConversationEnvelope {
    pub kind: Option<EventKind>,
    pub sender: String,
    pub event_id: String,
    pub relates_to: Option<String>,
}

/// A verification message as either transport delivers it.
#[derive(Clone, Debug, PartialEq, Eq)]
pub enum Envelope {
    Direct(DirectEnvelope),
    InConversation(ConversationEnvelope),
}

/// The transaction a direct message belongs to, if it says so.
pub open spec fn direct_correlation(e: DirectEnvelope) -> Option<Seq<char>> {
    optional_text(e.transaction_id)
}

/// The transaction a conversation message belongs to: its own id for a
/// request, the message it relates to for anything else.
pub open spec fn conversation_correlation(e: ConversationEnvelope) -> Option<Seq<char>> {
    if e.kind == Some(EventKind::Requested) {
        Some(e.event_id@)
    } else {
        optional_text(e.relates_to)
    }
}

/// The event an envelope with these three parts stands for: none unless the
/// kind is known and the transaction is named.
pub open spec fn event_from_parts(
    kind: Option<EventKind>,
    sender: Seq<char>,
    correlation: Option<Seq<char>>,
) -> Option<ProtocolEventView> {
    match (kind, correlation) {
        (Some(k), Some(id)) => Some(ProtocolEventView { kind: k, peer: sender, transaction_id: id }),
        _ => None,
    }
}

/// The event an envelope stands for, or `None` for an envelope that is
/// unknown or malformed.
pub open spec fn normalized(e: Envelope) -> Option<ProtocolEventView> {
    match e {
        Envelope::Direct(d) => event_from_parts(d.kind, d.sender@, direct_correlation(d)),
        Envelope::InConversation(c) => event_from_parts(
            c.kind,
            c.sender@,
            conversation_correlation(c),
        ),
    }
}

/// Builds the event from a known kind and a named transaction.
fn assemble(kind: Option<EventKind>, sender: &String, correlation: Option<&String>) -> (r: Option<
    ProtocolEvent,
>)
    ensures
        match r {
            Some(ev) => event_from_parts(
                kind,
                sender@,
                match correlation {
                    Some(id) => Some(id@),
                    None => None,
                },
            ) == Some(ev@),
            None => kind is None || correlation is None,
        },
{
    match (kind, correlation) {
        (Some(k), Some(id)) => Some(
            ProtocolEvent { kind: k, peer: sender.clone(), transaction_id: id.clone() },
        ),
        _ => None,
    }
}

/// Brings an envelope of either transport to the one internal event. An
/// envelope of unknown kind, or one that does not name its transaction, gives
/// `None`: the caller drops it.
pub fn normalize(envelope: &Envelope) -> (r: Option<ProtocolEvent>)
    ensures
        match r {
            Some(ev) => normalized(*envelope) == Some(ev@),
            None => normalized(*envelope) is None,
        },
{
    match envelope {
        Envelope::Direct(d) => assemble(d.kind, &d.sender, d.transaction_id.as_ref()),
        Envelope::InConversation(c) => {
            match c.kind {
                Some(EventKind::Requested) => assemble(c.kind, &c.sender, Some(&c.event_id)),
                _ => assemble(c.kind, &c.sender, c.relates_to.as_ref()),
            }
        },
    }
}

/// The two transports agree: a direct message and a conversation message
/// that carry the same kind, the same sender and name the same transaction
/// stand for the same event.
pub proof fn lemma_transports_agree(d: DirectEnvelope, c: ConversationEnvelope)
    requires
        d.kind == c.kind,
        d.sender@ == c.sender@,
        direct_correlation(d) == conversation_correlation(c),
    ensures
        normalized(Envelope::Direct(d)) == normalized(Envelope::InConversation(c)),
{
}

/// An envelope is dropped exactly when its kind is unknown or it does not
/// name its transaction; a conversation message other than a request names
/// it only through the message it relates to.
pub proof fn lemma_dropped_envelopes(e: Envelope)
    ensures
        normalized(e) is None <==> match e {
            Envelope::Direct(d) => d.kind is None || d.transaction_id is None,
            Envelope::InConversation(c) => c.kind is None || (c.kind != Some(
                EventKind::Requested,
            ) && c.relates_to is None),
        },
{
}

} // verus!
