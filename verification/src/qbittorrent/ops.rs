//! What the plugin does with the torrents of its client: which it gives up
//! on, which it hands on, what it tells the conversation, and which links
//! it takes.

use vstd::prelude::*;
use crate::text::{copy_of, optional_text};

verus! {

/// A text that is set and not empty.
pub open spec fn non_empty(text: Option<Seq<char>>) -> Option<Seq<char>> {
    match text {
        Some(t) => if t.len() == 0 {
            None
        } else {
            Some(t)
        },
        None => None,
    }
}

/// The text an optional field holds, if it holds one that is not empty.
pub open spec fn non_empty_text(s: Option<String>) -> Option<Seq<char>> {
    non_empty(optional_text(s))
}

/// The text of a field that is set and not empty; `None` for a field that
/// is unset or empty.
pub fn extract_non_empty_str(s: &Option<String>) -> (r: Option<&String>)
    ensures
        match r {
            Some(t) => non_empty_text(*s) == Some(t@),
            None => non_empty_text(*s) is None,
        },
{
    if let Some(s) = s {
        if s.as_str().is_empty() {
            None
        } else {
            Some(s)
        }
    } else {
        None
    }
}

/// What the client says a torrent is doing.
#[derive(Clone, Copy, Debug, PartialEq, Eq, Structural)]
pub enum TorrentState {
    Error,
    MissingFiles,
    Uploading,
    PausedUP,
    QueuedUP,
    StalledUP,
    CheckingUP,
    ForcedUP,
    Allocating,
    Downloading,
    MetaDL,
    PausedDL,
    QueuedDL,
    StalledDL,
    CheckingDL,
    ForcedDL,
    CheckingResumeData,
    Moving,
    Unknown,
}

/// The view of a [`Torrent`].
pub struct TorrentView {
    pub added_on: Option<i64>,
    pub state: Option<TorrentState>,
    pub hash: Option<Seq<char>>,
    pub category: Option<Seq<char>>,
    pub tags: Option<Seq<char>>,
    pub name: Option<Seq<char>>,
    pub content_path: Option<Seq<char>>,
    pub magnet_uri: Option<Seq<char>>,
}

/// What the plugin reads of a torrent. The plugin files a torrent under
/// the room that asked for it, as its category, and tags it with the
/// message that asked.
#[derive(Clone, Debug, PartialEq, Eq)]
pub struct Torrent {
    pub added_on: Option<i64>,
    pub state: Option<TorrentState>,
    pub hash: Option<String>,
    pub category: Option<String>,
    pub tags: Option<String>,
    pub name: Option<String>,
    pub content_path: Option<String>,
    pub magnet_uri: Option<String>,
}

impl View for Torrent {
    type V = TorrentView;

    open spec fn view(&self) -> TorrentView {
        TorrentView {
            added_on: self.added_on,
            state: self.state,
            hash: optional_text(self.hash),
            category: optional_text(self.category),
            tags: optional_text(self.tags),
            name: optional_text(self.name),
            content_path: optional_text(self.content_path),
            magnet_uri: optional_text(self.magnet_uri),
        }
    }
}

impl Torrent {
    /// A copy of the torrent.
    pub fn duplicate(&self) -> (r: Torrent)
        ensures
            r@ == self@,
    {
        Torrent {
            added_on: self.added_on,
            state: self.state,
            hash: copy_of(&self.hash),
            category: copy_of(&self.category),
            tags: copy_of(&self.tags),
            name: copy_of(&self.name),
            content_path: copy_of(&self.content_path),
            magnet_uri: copy_of(&self.magnet_uri),
        }
    }
}

/// The views of a list of torrents.
pub open spec fn views(list: Seq<Torrent>) -> Seq<TorrentView> {
    Seq::new(list.len(), |i: int| list[i]@)
}

/// How long a download may take before the plugin gives up on it, in
/// seconds: seven days.
pub const PATIENCE_SECS: i64 = 604_800;

/// Whether a torrent in this state has all its data.
pub open spec fn is_finished(state: Option<TorrentState>) -> bool {
    state == Some(TorrentState::PausedUP) || state == Some(TorrentState::StalledUP) || state
        == Some(TorrentState::Uploading)
}

/// Whether a category is one the plugin filed a torrent under: the id of
/// a room, which begins with an exclamation mark.
pub open spec fn is_room_category(category: Option<Seq<char>>) -> bool {
    category matches Some(c) && c.len() > 0 && c[0] == '!'
}

/// Whether a torrent was added more than seven days before `now`. A
/// torrent that does not say when it was added counts as added at the
/// epoch.
pub open spec fn is_overdue(added_on: Option<i64>, now: u64) -> bool {
    let added = match added_on {
        Some(t) => t as int,
        None => 0,
    };
    now - added > PATIENCE_SECS
}

/// Whether the plugin gives up on a torrent at `now`: it is overdue and
/// not finished, it has a hash to be deleted by, and a room asked for it.
pub open spec fn should_expire(t: TorrentView, now: u64) -> bool {
    is_overdue(t.added_on, now) && !is_finished(t.state) && t.hash is Some && is_room_category(
        t.category,
    )
}

/// Whether the plugin hands a torrent on: it is finished, a room asked for
/// it, and it has a hash.
pub open spec fn should_upload(t: TorrentView) -> bool {
    is_finished(t.state) && is_room_category(t.category) && t.hash is Some
}

/// What a scan looks for.
#[derive(Clone, Copy, Debug, PartialEq, Eq, Structural)]
pub enum Purpose {
    Expire,
    Upload,
}

/// Whether a scan for `purpose` at `now` picks a torrent.
pub open spec fn picks(t: TorrentView, purpose: Purpose, now: u64) -> bool {
    match purpose {
        Purpose::Expire => should_expire(t, now),
        Purpose::Upload => should_upload(t),
    }
}

/// `s` without the torrents of the given hash.
pub open spec fn without_hash(s: Seq<TorrentView>, hash: Seq<char>) -> Seq<TorrentView>
    decreases s.len(),
{
    if s.len() == 0 {
        s
    } else if s.last().hash == Some(hash) {
        without_hash(s.drop_last(), hash)
    } else {
        without_hash(s.drop_last(), hash).push(s.last())
    }
}

/// What a scan for `purpose` collects from `s`: the picked torrents, one
/// per hash. A torrent picked later takes the place of one with the same
/// hash picked before it.
pub open spec fn collected(s: Seq<TorrentView>, purpose: Purpose, now: u64) -> Seq<TorrentView>
    decreases s.len(),
{
    if s.len() == 0 {
        Seq::empty()
    } else if picks(s.last(), purpose, now) {
        without_hash(collected(s.drop_last(), purpose, now), s.last().hash->0).push(s.last())
    } else {
        collected(s.drop_last(), purpose, now)
    }
}

/// Whether a torrent in this state has all its data.
pub fn finished(state: Option<TorrentState>) -> (r: bool)
    ensures
        r == is_finished(state),
{
    match state {
        Some(TorrentState::PausedUP) | Some(TorrentState::StalledUP) | Some(
            TorrentState::Uploading,
        ) => true,
        _ => false,
    }
}

/// Whether a category is the id of a room.
pub fn room_category(category: &Option<String>) -> (r: bool)
    ensures
        r == is_room_category(optional_text(*category)),
{
    match category {
        Some(c) => {
            let text = c.as_str();
            text.unicode_len() > 0 && text.get_char(0) == '!'
        },
        None => false,
    }
}

/// Whether a torrent was added more than seven days before `now`.
pub fn overdue(added_on: Option<i64>, now: u64) -> (r: bool)
    ensures
        r == is_overdue(added_on, now),
{
    let added: i128 = match added_on {
        Some(t) => t as i128,
        None => 0,
    };
    (now as i128) - added > (PATIENCE_SECS as i128)
}

/// Whether a scan for `purpose` at `now` picks the torrent.
pub fn is_picked(t: &Torrent, purpose: Purpose, now: u64) -> (r: bool)
    ensures
        r == picks(t@, purpose, now),
{
    match purpose {
        Purpose::Expire => overdue(t.added_on, now) && !finished(t.state) && t.hash.is_some()
            && room_category(&t.category),
        Purpose::Upload => finished(t.state) && room_category(&t.category) && t.hash.is_some(),
    }
}

/// Puts a torrent into a collection kept by hash: it takes the place of
/// any torrent of the same hash, at the end.
fn put(list: &mut Vec<Torrent>, t: Torrent)
    requires
        t@.hash is Some,
    ensures
        views(final(list)@) == without_hash(views(old(list)@), t@.hash->0).push(t@),
{
    let mut kept: Vec<Torrent> = Vec::new();
    let mut i: usize = 0;
    let ghost before = views(list@);
    let ghost hash = t@.hash->0;
    assert(before.subrange(0, 0) =~= Seq::<TorrentView>::empty());
    assert(views(kept@) =~= Seq::<TorrentView>::empty());
    while i < list.len()
        invariant
            i <= list@.len(),
            before == views(list@),
            t@.hash == Some(hash),
            views(kept@) == without_hash(before.subrange(0, i as int), hash),
        decreases list@.len() - i,
    {
        let ghost so_far = views(kept@);
        let same = match (&list[i].hash, &t.hash) {
            (Some(a), Some(b)) => *a == *b,
            _ => false,
        };
        proof {
            assert(before.subrange(0, i + 1).drop_last() =~= before.subrange(0, i as int));
            assert(before.subrange(0, i + 1).last() == list@[i as int]@);
        }
        if !same {
            kept.push(list[i].duplicate());
            assert(views(kept@) =~= so_far.push(list@[i as int]@));
        }
        i = i + 1;
    }
    let ghost filtered = views(kept@);
    kept.push(t);
    *list = kept;
    proof {
        assert(before.subrange(0, before.len() as int) =~= before);
        assert(views(list@) =~= filtered.push(t@));
    }
}

/// Collects from `torrents` what a scan for `purpose` at `now` picks, one
/// torrent per hash.
pub fn collect(torrents: &Vec<Torrent>, purpose: Purpose, now: u64) -> (picked: Vec<Torrent>)
    ensures
        views(picked@) == collected(views(torrents@), purpose, now),
{
    let mut picked: Vec<Torrent> = Vec::new();
    let ghost all = views(torrents@);
    let mut i: usize = 0;
    assert(views(picked@) =~= Seq::<TorrentView>::empty());
    assert(all.subrange(0, 0) =~= Seq::<TorrentView>::empty());
    while i < torrents.len()
        invariant
            i <= torrents@.len(),
            all == views(torrents@),
            views(picked@) == collected(all.subrange(0, i as int), purpose, now),
        decreases torrents@.len() - i,
    {
        proof {
            assert(all.subrange(0, i + 1).drop_last() =~= all.subrange(0, i as int));
            assert(all.subrange(0, i + 1).last() == torrents@[i as int]@);
        }
        if is_picked(&torrents[i], purpose, now) {
            put(&mut picked, torrents[i].duplicate());
        }
        i = i + 1;
    }
    assert(all.subrange(0, all.len() as int) =~= all);
    picked
}

/// What a scan found.
#[derive(Clone, Debug, PartialEq, Eq)]
pub struct Scan {
    /// The torrents to give up on.
    pub expire: Vec<Torrent>,
    /// The torrents to hand on.
    pub upload: Vec<Torrent>,
}

/// Sorts the client's torrents at the instant `now`, in seconds since the
/// epoch: those the plugin gives up on, and those it hands on. Either list
/// holds one torrent per hash.
pub fn scan_torrent(torrents: &Vec<Torrent>, now: u64) -> (scan: Scan)
    ensures
        views(scan.expire@) == collected(views(torrents@), Purpose::Expire, now),
        views(scan.upload@) == collected(views(torrents@), Purpose::Upload, now),
{
    Scan {
        expire: collect(torrents, Purpose::Expire, now),
        upload: collect(torrents, Purpose::Upload, now),
    }
}

/// A scan never gives up on a torrent it hands on, nor the other way
/// round.
pub proof fn lemma_expire_or_upload(t: TorrentView, now: u64)
    ensures
        !(should_expire(t, now) && should_upload(t)),
{
}

/// The torrents of a hash are gone from a list once they were left out,
/// and no other is.
pub proof fn lemma_without_hash(s: Seq<TorrentView>, hash: Seq<char>, t: TorrentView)
    ensures
        without_hash(s, hash).contains(t) <==> s.contains(t) && t.hash != Some(hash),
    decreases s.len(),
{
    if s.len() > 0 {
        let rest = s.drop_last();
        lemma_without_hash(rest, hash, t);
        if s.contains(t) {
            let i = choose|i: int| 0 <= i < s.len() && s[i] == t;
            if i < s.len() - 1 {
                assert(rest[i] == t);
            }
        }
        if rest.contains(t) {
            let i = choose|i: int| 0 <= i < rest.len() && rest[i] == t;
            assert(s[i] == t);
        }
        let w = without_hash(rest, hash);
        if s.last().hash != Some(hash) {
            let p = w.push(s.last());
            if p.contains(t) {
                let i = choose|i: int| 0 <= i < p.len() && p[i] == t;
                if i < w.len() {
                    assert(w[i] == t);
                } else {
                    assert(s[s.len() - 1] == t);
                }
            }
            if w.contains(t) {
                let i = choose|i: int| 0 <= i < w.len() && w[i] == t;
                assert(p[i] == t);
            }
            if t == s.last() {
                assert(p[w.len() as int] == t);
            }
        }
    }
}

/// Everything a scan collects was picked from the list, and has a hash.
pub proof fn lemma_collected_were_picked(
    s: Seq<TorrentView>,
    purpose: Purpose,
    now: u64,
    t: TorrentView,
)
    requires
        collected(s, purpose, now).contains(t),
    ensures
        s.contains(t),
        picks(t, purpose, now),
        t.hash is Some,
    decreases s.len(),
{
    if s.len() > 0 {
        let rest = s.drop_last();
        let prev = collected(rest, purpose, now);
        if picks(s.last(), purpose, now) {
            let w = without_hash(prev, s.last().hash->0);
            let p = w.push(s.last());
            let i = choose|i: int| 0 <= i < p.len() && p[i] == t;
            if i < w.len() {
                assert(w[i] == t);
                assert(w.contains(t));
                lemma_without_hash(prev, s.last().hash->0, t);
                lemma_collected_were_picked(rest, purpose, now, t);
                let j = choose|j: int| 0 <= j < rest.len() && rest[j] == t;
                assert(s[j] == t);
            } else {
                assert(s[s.len() - 1] == t);
            }
        } else {
            lemma_collected_were_picked(rest, purpose, now, t);
            let j = choose|j: int| 0 <= j < rest.len() && rest[j] == t;
            assert(s[j] == t);
        }
    }
}

/// No two torrents in `s` have the same hash, and each has one.
pub open spec fn one_per_hash(s: Seq<TorrentView>) -> bool {
    &&& forall|i: int| 0 <= i < s.len() ==> (#[trigger] s[i]).hash is Some
    &&& forall|i: int, j: int|
        0 <= i < s.len() && 0 <= j < s.len() && i != j ==> (#[trigger] s[i]).hash != (
        #[trigger] s[j]).hash
}

/// Leaving out the torrents of a hash keeps a list at one torrent per
/// hash.
pub proof fn lemma_without_hash_keeps_one_per_hash(s: Seq<TorrentView>, hash: Seq<char>)
    requires
        one_per_hash(s),
    ensures
        one_per_hash(without_hash(s, hash)),
        forall|i: int|
            0 <= i < without_hash(s, hash).len() ==> (#[trigger] without_hash(s, hash)[i]).hash
                != Some(hash),
        forall|i: int|
            0 <= i < without_hash(s, hash).len() ==> s.contains(#[trigger] without_hash(s, hash)[i]),
    decreases s.len(),
{
    if s.len() > 0 {
        let rest = s.drop_last();
        assert forall|i: int, j: int|
            0 <= i < rest.len() && 0 <= j < rest.len() && i != j implies (#[trigger] rest[i]).hash
            != (#[trigger] rest[j]).hash by {
            assert(rest[i] == s[i] && rest[j] == s[j]);
        }
        assert forall|i: int| 0 <= i < rest.len() implies (#[trigger] rest[i]).hash is Some by {
            assert(rest[i] == s[i]);
        }
        lemma_without_hash_keeps_one_per_hash(rest, hash);
        let w = without_hash(rest, hash);
        let out = without_hash(s, hash);
        assert forall|i: int| 0 <= i < out.len() implies s.contains(#[trigger] out[i]) by {
            if i < w.len() {
                assert(out[i] == w[i]);
                assert(rest.contains(w[i]));
                let k = choose|k: int| 0 <= k < rest.len() && rest[k] == w[i];
                assert(s[k] == out[i]);
            } else {
                assert(s[s.len() - 1] == out[i]);
            }
        }
        if s.last().hash != Some(hash) {
            assert forall|i: int, j: int|
                0 <= i < out.len() && 0 <= j < out.len() && i != j implies (#[trigger] out[i]).hash
                != (#[trigger] out[j]).hash by {
                if i < w.len() && j < w.len() {
                    assert(out[i] == w[i] && out[j] == w[j]);
                } else if i < w.len() {
                    assert(rest.contains(w[i]));
                    let k = choose|k: int| 0 <= k < rest.len() && rest[k] == w[i];
                    assert(s[k] == out[i]);
                    assert(s[s.len() - 1] == out[j]);
                } else {
                    assert(rest.contains(w[j]));
                    let k = choose|k: int| 0 <= k < rest.len() && rest[k] == w[j];
                    assert(s[k] == out[j]);
                    assert(s[s.len() - 1] == out[i]);
                }
            }
        }
    }
}

/// What a scan collects holds one torrent per hash.
pub proof fn lemma_collected_one_per_hash(s: Seq<TorrentView>, purpose: Purpose, now: u64)
    ensures
        one_per_hash(collected(s, purpose, now)),
    decreases s.len(),
{
    if s.len() > 0 {
        let prev = collected(s.drop_last(), purpose, now);
        lemma_collected_one_per_hash(s.drop_last(), purpose, now);
        if picks(s.last(), purpose, now) {
            let hash = s.last().hash->0;
            lemma_without_hash_keeps_one_per_hash(prev, hash);
            let w = without_hash(prev, hash);
            let out = w.push(s.last());
            assert forall|i: int, j: int|
                0 <= i < out.len() && 0 <= j < out.len() && i != j implies (#[trigger] out[i]).hash
                != (#[trigger] out[j]).hash by {
                if i < w.len() && j < w.len() {
                    assert(out[i] == w[i] && out[j] == w[j]);
                } else if i < w.len() {
                    assert(out[i] == w[i]);
                } else {
                    assert(out[j] == w[j]);
                }
            }
            assert forall|i: int| 0 <= i < out.len() implies (#[trigger] out[i]).hash is Some by {
                if i < w.len() {
                    assert(out[i] == w[i]);
                }
            }
        }
    }
}

} // verus!
