//! The confirmation bridge: how a code the operator submits reaches the
//! transactions that wait for one.
//!
//! The bridge fans every submitted code out to all its subscribers. Each
//! waiting transaction holds one subscription and looks, at a short fixed
//! interval, at what has come in.

use vstd::prelude::*;
use vstd::string::StringExecFns;
use crate::text::{decimal_text, push_decimal};

verus! {

/// How many submitted codes the bridge holds for a slow subscriber.
pub const BRIDGE_CAPACITY: usize = 64;

/// The interval at which a waiting transaction looks at its subscription, in
/// milliseconds.
pub const POLL_INTERVAL_MS: u64 = 100;

/// A lower-case hexadecimal digit.
pub open spec fn is_lower_hex(c: char) -> bool {
    ('0' <= c && c <= '9') || ('a' <= c && c <= 'f')
}

/// The shape of a generated confirmation code: 32 lower-case hexadecimal
/// digits.
pub open spec fn is_confirmation_code(code: Seq<char>) -> bool {
    &&& code.len() == 32
    &&& forall|i: int| 0 <= i < code.len() ==> is_lower_hex(#[trigger] code[i])
}

/// Draws a confirmation code: `uuid::Uuid::new_v4()`, written out by
/// `simple()`. The contract claims the shape of that notation, 32 lower-case
/// hexadecimal digits, and nothing of the value, which is random. The call
/// panics if the system cannot supply random bytes.
#[verifier::external_body]
pub(crate) fn fresh_confirmation_code() -> (code: String)
    ensures
        is_confirmation_code(code@),
{
    uuid::Uuid::new_v4().simple().to_string()
}

/// `tokio::sync::broadcast::Sender`, the sending half of a broadcast
/// channel. Nothing is known of what it holds.
#[verifier::external_type_specification]
#[verifier::external_body]
#[verifier::reject_recursive_types(T)]
pub struct ExSender<T>(tokio::sync::broadcast::Sender<T>);

/// `tokio::sync::broadcast::Receiver`, one subscriber of a broadcast
/// channel. Nothing is known of what it holds.
#[verifier::external_type_specification]
#[verifier::external_body]
#[verifier::reject_recursive_types(T)]
pub struct ExReceiver<T>(tokio::sync::broadcast::Receiver<T>);

/// `tokio::sync::broadcast::channel`, of which the sending half is kept: a
/// channel that holds up to `capacity` values for a subscriber that lags.
/// The function panics for a capacity of zero or above `usize::MAX / 2`,
/// which the contract rules out; nothing is claimed of the result.
#[verifier::external_body]
fn open_channel(capacity: usize) -> (sender: tokio::sync::broadcast::Sender<String>)
    requires
        0 < capacity <= usize::MAX / 2,
{
    let (sender, _) = tokio::sync::broadcast::channel(capacity);
    sender
}

/// `Sender::send`: hands the value to every current subscriber and returns
/// how many there were, or nothing if there was none. The answer depends on
/// who is subscribed at that instant, so nothing is claimed of it.
#[verifier::external_body]
fn channel_send(sender: &tokio::sync::broadcast::Sender<String>, code: String) -> (receivers:
    Option<usize>) {
    sender.send(code).ok()
}

/// `Sender::subscribe`: a new subscriber, which sees the values sent from
/// now on. Nothing is claimed of it. The call panics once the channel has
/// more subscribers than a quarter of `usize::MAX`.
#[verifier::external_body]
fn channel_subscribe(sender: &tokio::sync::broadcast::Sender<String>) -> (receiver:
    tokio::sync::broadcast::Receiver<String>) {
    sender.subscribe()
}

/// `Receiver::try_recv`: the next value the subscriber has not seen yet, or
/// nothing where none is pending, the channel is closed or values were lost
/// to lag. What comes depends on the senders, so nothing is claimed of it.
#[verifier::external_body]
fn channel_try_recv(receiver: &mut tokio::sync::broadcast::Receiver<String>) -> (received: Option<
    String,
>) {
    receiver.try_recv().ok()
}

/// What the operator is told after submitting a code.
#[derive(Clone, Copy, Debug, PartialEq, Eq, Structural)]
pub enum SubmitStatus {
    /// The code was handed to the waiting transactions.
    Accepted,
    /// The broadcast did not take the code.
    InternalFailure,
}

impl SubmitStatus {
    /// The HTTP status that tells the operator: 200 or 500.
    pub open spec fn http_code(self) -> u16 {
        match self {
            SubmitStatus::Accepted => 200,
            SubmitStatus::InternalFailure => 500,
        }
    }

    /// The HTTP status that tells the operator: 200 or 500.
    pub fn http_status(self) -> (code: u16)
        ensures
            code == self.http_code(),
    {
        match self {
            SubmitStatus::Accepted => 200,
            SubmitStatus::InternalFailure => 500,
        }
    }
}

/// The status for a broadcast that reached `receivers` subscribers, or that
/// failed: a submission is accepted exactly when the broadcast took it.
pub fn status_for(receivers: Option<usize>) -> (status: SubmitStatus)
    ensures
        status == if receivers is Some {
            SubmitStatus::Accepted
        } else {
            SubmitStatus::InternalFailure
        },
{
    match receivers {
        Some(_) => SubmitStatus::Accepted,
        None => SubmitStatus::InternalFailure,
    }
}

/// The text before the port in the command shown to the operator.
pub open spec fn command_head() -> Seq<char> {
    "local: wget  -O - http://127.0.0.1:"@
}

/// The text between the port and the code.
pub open spec fn command_path() -> Seq<char> {
    "/verify/"@
}

/// The command that submits `code` to a bridge that listens on `port`.
pub open spec fn command_text(port: u16, code: Seq<char>) -> Seq<char> {
    command_head() + decimal_text(port as nat) + command_path() + code
}

/// The command the operator runs to confirm: it fetches the bridge's one
/// endpoint, `/verify/` followed by the code, on the loopback address.
pub fn confirmation_command(port: u16, code: &str) -> (line: String)
    ensures
        line@ == command_text(port, code@),
{
    let mut line = String::from_str("local: wget  -O - http://127.0.0.1:");
    push_decimal(&mut line, port as u64);
    line.append("/verify/");
    line.append(code);
    assert(line@ =~= command_text(port, code@));
    line
}

/// The question put to the operator above the emoji of a handshake.
pub open spec fn question_text(emoji: Seq<char>) -> Seq<char> {
    "\nDo the emojis match: \n"@ + emoji
}

/// The question put to the operator: whether the emoji shown here, already
/// laid out, are those the peer's device shows.
pub fn emoji_question(emoji: &str) -> (text: String)
    ensures
        text@ == question_text(emoji@),
{
    let mut text = String::from_str("\nDo the emojis match: \n");
    text.append(emoji);
    text
}

/// The line above the command shown to the operator.
pub fn command_heading() -> (text: &'static str)
    ensures
        text@ == "Please run the command to allow:"@,
{
    "Please run the command to allow:"
}

/// The sending side of the bridge, owned by whoever runs the endpoint.
pub struct Bridge {
    sender: tokio::sync::broadcast::Sender<String>,
    port: u16,
}

/// One waiting transaction's ear on the bridge.
pub struct Subscription {
    receiver: tokio::sync::broadcast::Receiver<String>,
}

impl Bridge {
    /// A bridge whose endpoint listens on `port`.
    pub fn new(port: u16) -> (bridge: Bridge)
        ensures
            bridge.port_number() == port,
    {
        Bridge { sender: open_channel(BRIDGE_CAPACITY), port }
    }

    /// The port of the endpoint.
    pub closed spec fn port_number(&self) -> u16 {
        self.port
    }

    /// The port of the endpoint.
    pub fn port(&self) -> (port: u16)
        ensures
            port == self.port_number(),
    {
        self.port
    }

    /// Takes a code from the operator and broadcasts it to every waiting
    /// transaction. The submission fails when the broadcast does not take
    /// the code, which is the case when nobody is subscribed.
    pub fn submit(&self, code: String) -> (status: SubmitStatus) {
        status_for(channel_send(&self.sender, code))
    }

    /// Subscribes a transaction that begins to wait.
    pub fn subscribe(&self) -> (subscription: Subscription) {
        Subscription { receiver: channel_subscribe(&self.sender) }
    }

    /// The command the operator runs to confirm `code` on this bridge.
    pub fn command_for(&self, code: &str) -> (line: String)
        ensures
            line@ == command_text(self.port_number(), code@),
    {
        confirmation_command(self.port, code)
    }
}

impl Subscription {
    /// The next submitted code this subscription has not seen, if one is
    /// pending. It does not wait.
    pub fn poll(&mut self) -> (received: Option<String>) {
        channel_try_recv(&mut self.receiver)
    }
}

} // verus!
