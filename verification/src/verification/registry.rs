//! The registry of live verification transactions.
//!
//! A transaction is known by the pair of its peer and its transaction id. The
//! registry holds at most one transaction per pair, and only transactions
//! that are under way: one that reaches a terminal state leaves at once.

use vstd::prelude::*;
use crate::verification::state::{EventKind, State, Trigger};

verus! {

/// How long a transaction waits for the operator's confirmation, in
/// milliseconds: five minutes.
pub const CONFIRMATION_WINDOW_MS: u64 = 300_000;

/// The view of a [`Transaction`].
pub struct TransactionView {
    pub peer: Seq<char>,
    pub transaction_id: Seq<char>,
    pub state: State,
    pub confirmation_code: Option<Seq<char>>,
    pub started_at: u64,
    pub start_accepted: bool,
}

impl TransactionView {
    /// Whether this is the transaction of `peer` named `transaction_id`.
    pub open spec fn has_key(self, peer: Seq<char>, transaction_id: Seq<char>) -> bool {
        self.peer == peer && self.transaction_id == transaction_id
    }

    /// Whether a confirmation code belongs to the state.
    pub open spec fn code_expected(self) -> bool {
        self.state == State::WaitingHumanConfirmation || self.state == State::Confirmed
    }

    /// A registered transaction is under way, and it has a confirmation code
    /// exactly while it waits for the operator or is being finalized.
    pub open spec fn well_formed(self) -> bool {
        &&& self.state.live()
        &&& self.confirmation_code is Some <==> self.code_expected()
    }

    /// Milliseconds spent waiting at the instant `now`; zero for an instant
    /// before the wait began.
    pub open spec fn elapsed(self, now: u64) -> int {
        if now >= self.started_at {
            now - self.started_at
        } else {
            0
        }
    }

    /// Whether the confirmation window is over at the instant `now`.
    pub open spec fn expired(self, now: u64) -> bool {
        self.elapsed(now) >= CONFIRMATION_WINDOW_MS
    }

    /// The transaction as `lookup_or_create` makes it: the accept is pending
    /// and nothing else has happened.
    pub open spec fn fresh(peer: Seq<char>, transaction_id: Seq<char>) -> TransactionView {
        TransactionView {
            peer,
            transaction_id,
            state: State::PendingAccept,
            confirmation_code: None,
            started_at: 0,
            start_accepted: false,
        }
    }

    /// The same transaction in another state.
    pub open spec fn in_state(self, state: State) -> TransactionView {
        TransactionView { state, ..self }
    }

    /// The same transaction once the start handshake has been accepted.
    pub open spec fn with_start_accepted(self) -> TransactionView {
        TransactionView { start_accepted: true, ..self }
    }

    /// The transaction as it begins to wait for the operator at `now`.
    pub open spec fn waiting(self, code: Seq<char>, now: u64) -> TransactionView {
        TransactionView {
            state: State::WaitingHumanConfirmation,
            confirmation_code: Some(code),
            started_at: now,
            ..self
        }
    }
}

/// One verification handshake under way.
#[derive(Debug)]
pub struct Transaction {
    peer: String,
    transaction_id: String,
    state: State,
    confirmation_code: Option<String>,
    started_at: u64,
    start_accepted: bool,
}

impl View for Transaction {
    type V = TransactionView;

    closed spec fn view(&self) -> TransactionView {
        TransactionView {
            peer: self.peer@,
            transaction_id: self.transaction_id@,
            state: self.state,
            confirmation_code: match self.confirmation_code {
                Some(c) => Some(c@),
                None => None,
            },
            started_at: self.started_at,
            start_accepted: self.start_accepted,
        }
    }
}

impl Transaction {
    /// The peer the handshake runs with.
    pub fn peer(&self) -> (r: &String)
        ensures
            r@ == self@.peer,
    {
        &self.peer
    }

    /// The id the protocol gave the handshake.
    pub fn transaction_id(&self) -> (r: &String)
        ensures
            r@ == self@.transaction_id,
    {
        &self.transaction_id
    }

    /// Where the handshake stands.
    pub fn state(&self) -> (r: State)
        ensures
            r == self@.state,
    {
        self.state
    }

    /// The code the operator has to submit, once there is one.
    pub fn confirmation_code(&self) -> (r: Option<&String>)
        ensures
            match r {
                Some(c) => self@.confirmation_code == Some(c@),
                None => self@.confirmation_code is None,
            },
    {
        self.confirmation_code.as_ref()
    }

    /// The instant the wait for the operator began, in milliseconds.
    pub fn started_at(&self) -> (r: u64)
        ensures
            r == self@.started_at,
    {
        self.started_at
    }

    /// Whether the start handshake has been accepted.
    pub fn start_accepted(&self) -> (r: bool)
        ensures
            r == self@.start_accepted,
    {
        self.start_accepted
    }

    /// Whether the confirmation window is over at the instant `now`.
    pub fn is_expired(&self, now: u64) -> (r: bool)
        ensures
            r == self@.expired(now),
    {
        now >= self.started_at && now - self.started_at >= CONFIRMATION_WINDOW_MS
    }

    /// Whether `code` is, character for character, the confirmation code of
    /// this transaction.
    pub fn code_is(&self, code: &String) -> (r: bool)
        ensures
            r == (self@.confirmation_code == Some(code@)),
    {
        match &self.confirmation_code {
            Some(c) => *c == *code,
            None => false,
        }
    }
}

/// Whether some transaction in `m` has the given key.
pub open spec fn holds(m: Seq<TransactionView>, peer: Seq<char>, transaction_id: Seq<char>) -> bool {
    exists|i: int| 0 <= i < m.len() && #[trigger] m[i].has_key(peer, transaction_id)
}

/// The place of the transaction with the given key, where `m` holds one.
pub open spec fn index_of(m: Seq<TransactionView>, peer: Seq<char>, transaction_id: Seq<char>) -> int {
    choose|i: int| 0 <= i < m.len() && #[trigger] m[i].has_key(peer, transaction_id)
}

/// No two transactions in `m` share a key.
pub open spec fn keys_distinct(m: Seq<TransactionView>) -> bool {
    forall|i: int, j: int|
        0 <= i < m.len() && 0 <= j < m.len() && i != j ==> !(#[trigger] m[i]).has_key(
            (#[trigger] m[j]).peer,
            m[j].transaction_id,
        )
}

/// What holds of the registry at all times: one transaction per key, each of
/// them under way.
pub open spec fn well_formed(m: Seq<TransactionView>) -> bool {
    &&& keys_distinct(m)
    &&& forall|i: int| 0 <= i < m.len() ==> (#[trigger] m[i]).well_formed()
}

/// What becomes of `m` when the transaction at `i` meets `trigger`: it moves
/// as the transition table says, and leaves if that ends it.
pub open spec fn moved(m: Seq<TransactionView>, i: int, trigger: Trigger) -> Seq<TransactionView> {
    let next = m[i].state.after(trigger);
    if next.terminal() {
        m.remove(i)
    } else {
        m.update(i, m[i].in_state(next))
    }
}

/// With distinct keys a key names one place.
pub proof fn lemma_index_unique(
    m: Seq<TransactionView>,
    peer: Seq<char>,
    transaction_id: Seq<char>,
    i: int,
)
    requires
        keys_distinct(m),
        0 <= i < m.len(),
        m[i].has_key(peer, transaction_id),
    ensures
        holds(m, peer, transaction_id),
        index_of(m, peer, transaction_id) == i,
{
    let j = index_of(m, peer, transaction_id);
    assert(0 <= j < m.len() && m[j].has_key(peer, transaction_id));
    if i != j {
        assert(!m[i].has_key(m[j].peer, m[j].transaction_id));
    }
}

/// The live transactions, one per key.
#[derive(Debug)]
pub struct Registry {
    entries: Vec<Transaction>,
}

impl View for Registry {
    type V = Seq<TransactionView>;

    closed spec fn view(&self) -> Seq<TransactionView> {
        Seq::new(self.entries@.len(), |i: int| self.entries@[i]@)
    }
}

impl Registry {
    /// The invariant of the registry.
    pub open spec fn wf(&self) -> bool {
        well_formed(self@)
    }

    /// A registry without transactions.
    pub fn new() -> (r: Registry)
        ensures
            r@ == Seq::<TransactionView>::empty(),
            r.wf(),
    {
        let r = Registry { entries: Vec::new() };
        assert(r@ =~= Seq::<TransactionView>::empty());
        r
    }

    /// How many transactions are under way.
    pub fn len(&self) -> (n: usize)
        ensures
            n == self@.len(),
    {
        self.entries.len()
    }

    /// Whether no transaction is under way.
    pub fn is_empty(&self) -> (r: bool)
        ensures
            r == (self@.len() == 0),
    {
        self.entries.len() == 0
    }

    /// The transaction at place `index`.
    pub fn get(&self, index: usize) -> (t: &Transaction)
        requires
            index < self@.len(),
        ensures
            t@ == self@[index as int],
    {
        &self.entries[index]
    }

    /// The place of the transaction with the given key, if one is under way.
    pub fn position(&self, peer: &String, transaction_id: &String) -> (r: Option<usize>)
        ensures
            match r {
                Some(i) => i < self@.len() && self@[i as int].has_key(peer@, transaction_id@),
                None => !holds(self@, peer@, transaction_id@),
            },
    {
        let mut i: usize = 0;
        while i < self.entries.len()
            invariant
                i <= self.entries@.len(),
                forall|j: int| 0 <= j < i ==> !(#[trigger] self@[j]).has_key(peer@, transaction_id@),
            decreases self.entries@.len() - i,
        {
            let t = &self.entries[i];
            if t.peer == *peer && t.transaction_id == *transaction_id {
                return Some(i);
            }
            i = i + 1;
        }
        None
    }

    /// Whether a transaction with the given key is under way.
    pub fn contains(&self, peer: &String, transaction_id: &String) -> (r: bool)
        ensures
            r == holds(self@, peer@, transaction_id@),
    {
        self.position(peer, transaction_id).is_some()
    }

    /// The state of the transaction with the given key: `Idle` for one that
    /// is not under way.
    pub fn state_of(&self, peer: &String, transaction_id: &String) -> (r: State)
        requires
            self.wf(),
        ensures
            r == state_in(self@, peer@, transaction_id@),
    {
        match self.position(peer, transaction_id) {
            Some(i) => {
                proof {
                    lemma_index_unique(self@, peer@, transaction_id@, i as int);
                }
                self.entries[i].state
            },
            None => State::Idle,
        }
    }

    /// The confirmation code of the transaction with the given key, if it
    /// is under way and has one.
    pub fn code_of(&self, peer: &String, transaction_id: &String) -> (r: Option<String>)
        requires
            self.wf(),
        ensures
            match r {
                Some(c) => code_in(self@, peer@, transaction_id@) == Some(c@),
                None => code_in(self@, peer@, transaction_id@) is None,
            },
    {
        match self.position(peer, transaction_id) {
            Some(i) => {
                proof {
                    lemma_index_unique(self@, peer@, transaction_id@, i as int);
                }
                match &self.entries[i].confirmation_code {
                    Some(c) => Some(c.clone()),
                    None => None,
                }
            },
            None => None,
        }
    }

    /// Finds the transaction with the given key, or registers it with its
    /// accept pending. Returns its place and whether it was registered by
    /// this call. The registry never holds a second transaction for a key.
    pub fn lookup_or_create(&mut self, peer: &String, transaction_id: &String) -> (r: (usize, bool))
        requires
            old(self).wf(),
        ensures
            final(self).wf(),
            r.1 == !holds(old(self)@, peer@, transaction_id@),
            r.1 ==> final(self)@ == old(self)@.push(TransactionView::fresh(peer@, transaction_id@))
                && r.0 == old(self)@.len(),
            !r.1 ==> final(self)@ == old(self)@ && r.0 == index_of(
                old(self)@,
                peer@,
                transaction_id@,
            ),
            r.0 < final(self)@.len(),
            final(self)@[r.0 as int].has_key(peer@, transaction_id@),
    {
        match self.position(peer, transaction_id) {
            Some(i) => {
                proof {
                    lemma_index_unique(self@, peer@, transaction_id@, i as int);
                }
                (i, false)
            },
            None => {
                let n = self.entries.len();
                let t = Transaction {
                    peer: peer.clone(),
                    transaction_id: transaction_id.clone(),
                    state: State::PendingAccept,
                    confirmation_code: None,
                    started_at: 0,
                    start_accepted: false,
                };
                self.entries.push(t);
                proof {
                    assert(self@ =~= old(self)@.push(
                        TransactionView::fresh(peer@, transaction_id@),
                    ));
                    lemma_push_keeps_well_formed(
                        old(self)@,
                        TransactionView::fresh(peer@, transaction_id@),
                    );
                }
                (n, true)
            },
        }
    }

    /// Moves the transaction at `index` as the transition table says for
    /// `trigger`, and evicts it if that ends it. Returns the state it
    /// moved to. The step into the wait for the operator is not taken here,
    /// since it needs a code: see `begin_wait`.
    pub fn advance(&mut self, index: usize, trigger: Trigger) -> (next: State)
        requires
            old(self).wf(),
            index < old(self)@.len(),
            trigger != Trigger::Event(EventKind::KeyExchanged),
        ensures
            final(self).wf(),
            next == old(self)@[index as int].state.after(trigger),
            final(self)@ == moved(old(self)@, index as int, trigger),
    {
        let next = self.entries[index].state.next(trigger);
        if next.is_terminal() {
            let _ = self.entries.remove(index);
            proof {
                assert(self@ =~= old(self)@.remove(index as int));
                lemma_remove_keeps_well_formed(old(self)@, index as int);
            }
        } else {
            self.entries[index].state = next;
            proof {
                let before = old(self)@;
                let t = before[index as int].in_state(next);
                assert(self@ =~= before.update(index as int, t));
                lemma_update_keeps_well_formed(before, index as int, t);
            }
        }
        next
    }

    /// Records that the start handshake of the transaction at `index` has
    /// been accepted.
    pub fn mark_start_accepted(&mut self, index: usize)
        requires
            old(self).wf(),
            index < old(self)@.len(),
        ensures
            final(self).wf(),
            final(self)@ == old(self)@.update(
                index as int,
                old(self)@[index as int].with_start_accepted(),
            ),
    {
        self.entries[index].start_accepted = true;
        proof {
            let before = old(self)@;
            let t = before[index as int].with_start_accepted();
            assert(self@ =~= before.update(index as int, t));
            lemma_update_keeps_well_formed(before, index as int, t);
        }
    }

    /// Takes the transaction at `index` from Started into the wait for the
    /// operator: it gets its confirmation code, and the window opens at
    /// `now`.
    pub fn begin_wait(&mut self, index: usize, code: String, now: u64)
        requires
            old(self).wf(),
            index < old(self)@.len(),
            old(self)@[index as int].state == State::Started,
        ensures
            final(self).wf(),
            final(self)@ == old(self)@.update(
                index as int,
                old(self)@[index as int].waiting(code@, now),
            ),
    {
        let ghost code_view = code@;
        self.entries[index].state = State::WaitingHumanConfirmation;
        self.entries[index].confirmation_code = Some(code);
        self.entries[index].started_at = now;
        proof {
            let before = old(self)@;
            let t = before[index as int].waiting(code_view, now);
            assert(self@ =~= before.update(index as int, t));
            lemma_update_keeps_well_formed(before, index as int, t);
        }
    }
}

/// The state of the transaction with the given key in `m`: `Idle` where `m`
/// holds none.
pub open spec fn state_in(m: Seq<TransactionView>, peer: Seq<char>, transaction_id: Seq<char>) -> State {
    if holds(m, peer, transaction_id) {
        m[index_of(m, peer, transaction_id)].state
    } else {
        State::Idle
    }
}

/// The confirmation code of the transaction with the given key in `m`.
pub open spec fn code_in(m: Seq<TransactionView>, peer: Seq<char>, transaction_id: Seq<char>) -> Option<
    Seq<char>,
> {
    if holds(m, peer, transaction_id) {
        m[index_of(m, peer, transaction_id)].confirmation_code
    } else {
        None
    }
}

/// Registering a transaction under a key that is free keeps the registry
/// well formed.
pub proof fn lemma_push_keeps_well_formed(m: Seq<TransactionView>, t: TransactionView)
    requires
        well_formed(m),
        t.well_formed(),
        !holds(m, t.peer, t.transaction_id),
    ensures
        well_formed(m.push(t)),
{
    let n = m.push(t);
    assert forall|i: int, j: int| 0 <= i < n.len() && 0 <= j < n.len() && i != j implies !(
    #[trigger] n[i]).has_key((#[trigger] n[j]).peer, n[j].transaction_id) by {
        if i < m.len() && j < m.len() {
            assert(!m[i].has_key(m[j].peer, m[j].transaction_id));
        } else if i < m.len() {
            assert(!m[i].has_key(t.peer, t.transaction_id));
        } else {
            assert(!m[j].has_key(t.peer, t.transaction_id));
        }
    }
    assert forall|i: int| 0 <= i < n.len() implies (#[trigger] n[i]).well_formed() by {
        if i < m.len() {
            assert(m[i].well_formed());
        }
    }
}

/// Evicting a transaction keeps the registry well formed, and frees its key.
pub proof fn lemma_remove_keeps_well_formed(m: Seq<TransactionView>, k: int)
    requires
        well_formed(m),
        0 <= k < m.len(),
    ensures
        well_formed(m.remove(k)),
        !holds(m.remove(k), m[k].peer, m[k].transaction_id),
{
    let n = m.remove(k);
    assert forall|i: int, j: int| 0 <= i < n.len() && 0 <= j < n.len() && i != j implies !(
    #[trigger] n[i]).has_key((#[trigger] n[j]).peer, n[j].transaction_id) by {
        let a = if i < k { i } else { i + 1 };
        let b = if j < k { j } else { j + 1 };
        assert(!m[a].has_key(m[b].peer, m[b].transaction_id));
    }
    assert forall|i: int| 0 <= i < n.len() implies (#[trigger] n[i]).well_formed() by {
        let a = if i < k { i } else { i + 1 };
        assert(m[a].well_formed());
    }
    assert forall|i: int| 0 <= i < n.len() implies !(#[trigger] n[i]).has_key(
        m[k].peer,
        m[k].transaction_id,
    ) by {
        let a = if i < k { i } else { i + 1 };
        assert(!m[a].has_key(m[k].peer, m[k].transaction_id));
    }
}

/// Replacing a transaction by a well-formed one with the same key keeps
/// the registry well formed.
pub proof fn lemma_update_keeps_well_formed(m: Seq<TransactionView>, k: int, t: TransactionView)
    requires
        well_formed(m),
        0 <= k < m.len(),
        t.well_formed(),
        t.has_key(m[k].peer, m[k].transaction_id),
    ensures
        well_formed(m.update(k, t)),
{
    let n = m.update(k, t);
    assert forall|i: int, j: int| 0 <= i < n.len() && 0 <= j < n.len() && i != j implies !(
    #[trigger] n[i]).has_key((#[trigger] n[j]).peer, n[j].transaction_id) by {
        assert(!m[i].has_key(m[j].peer, m[j].transaction_id));
    }
    assert forall|i: int| 0 <= i < n.len() implies (#[trigger] n[i]).well_formed() by {
        if i != k {
            assert(m[i].well_formed());
        }
    }
}

/// The transaction with the given key in `m`, where `m` holds one.
pub open spec fn record_of(m: Seq<TransactionView>, peer: Seq<char>, transaction_id: Seq<char>) -> Option<
    TransactionView,
> {
    if holds(m, peer, transaction_id) {
        Some(m[index_of(m, peer, transaction_id)])
    } else {
        None
    }
}

/// Registering a transaction under a free key changes what is recorded
/// under that key and under no other.
pub proof fn lemma_record_after_push(
    m: Seq<TransactionView>,
    t: TransactionView,
    peer: Seq<char>,
    transaction_id: Seq<char>,
)
    requires
        well_formed(m),
        t.well_formed(),
        !holds(m, t.peer, t.transaction_id),
    ensures
        record_of(m.push(t), peer, transaction_id) == if t.has_key(peer, transaction_id) {
            Some(t)
        } else {
            record_of(m, peer, transaction_id)
        },
{
    let n = m.push(t);
    lemma_push_keeps_well_formed(m, t);
    if t.has_key(peer, transaction_id) {
        assert(n[m.len() as int] == t);
        lemma_index_unique(n, peer, transaction_id, m.len() as int);
    } else if holds(m, peer, transaction_id) {
        let i = index_of(m, peer, transaction_id);
        assert(n[i] == m[i]);
        lemma_index_unique(n, peer, transaction_id, i);
    } else {
        if holds(n, peer, transaction_id) {
            let j = index_of(n, peer, transaction_id);
            if j < m.len() {
                assert(m[j].has_key(peer, transaction_id));
            }
        }
    }
}

/// Evicting a transaction clears what is recorded under its key and
/// touches no other.
pub proof fn lemma_record_after_remove(
    m: Seq<TransactionView>,
    k: int,
    peer: Seq<char>,
    transaction_id: Seq<char>,
)
    requires
        well_formed(m),
        0 <= k < m.len(),
    ensures
        record_of(m.remove(k), peer, transaction_id) == if m[k].has_key(peer, transaction_id) {
            None
        } else {
            record_of(m, peer, transaction_id)
        },
{
    let n = m.remove(k);
    lemma_remove_keeps_well_formed(m, k);
    if m[k].has_key(peer, transaction_id) {
    } else if holds(m, peer, transaction_id) {
        let i = index_of(m, peer, transaction_id);
        let j = if i < k {
            i
        } else {
            i - 1
        };
        assert(n[j] == m[i]);
        lemma_index_unique(n, peer, transaction_id, j);
    } else {
        if holds(n, peer, transaction_id) {
            let j = index_of(n, peer, transaction_id);
            let i = if j < k {
                j
            } else {
                j + 1
            };
            assert(m[i].has_key(peer, transaction_id));
        }
    }
}

/// Replacing a transaction by one with the same key changes what is
/// recorded under that key and under no other.
pub proof fn lemma_record_after_update(
    m: Seq<TransactionView>,
    k: int,
    t: TransactionView,
    peer: Seq<char>,
    transaction_id: Seq<char>,
)
    requires
        well_formed(m),
        0 <= k < m.len(),
        t.well_formed(),
        t.has_key(m[k].peer, m[k].transaction_id),
    ensures
        record_of(m.update(k, t), peer, transaction_id) == if t.has_key(peer, transaction_id) {
            Some(t)
        } else {
            record_of(m, peer, transaction_id)
        },
{
    let n = m.update(k, t);
    lemma_update_keeps_well_formed(m, k, t);
    if t.has_key(peer, transaction_id) {
        assert(n[k] == t);
        lemma_index_unique(n, peer, transaction_id, k);
    } else if holds(m, peer, transaction_id) {
        let i = index_of(m, peer, transaction_id);
        assert(n[i] == m[i]);
        lemma_index_unique(n, peer, transaction_id, i);
    } else {
        if holds(n, peer, transaction_id) {
            let j = index_of(n, peer, transaction_id);
            assert(m[j].has_key(peer, transaction_id));
        }
    }
}

} // verus!
