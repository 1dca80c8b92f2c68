//! Which links the plugin takes: magnet links, and none twice.

use vstd::prelude::*;
use crate::text::{ascii_lowercase, optional_text, same_text, to_ascii_lowercase};

verus! {

/// `regex::Error`, the error of a pattern that does not compile. It is
/// carried and never looked into.
#[verifier::external_type_specification]
#[verifier::external_body]
pub struct ExRegexError(regex::Error);

/// `url::ParseError`, the error of a text that is no URL. It is carried
/// and never looked into.
#[verifier::external_type_specification]
#[verifier::external_body]
pub struct ExUrlParseError(url::ParseError);

/// Whether the regular expression `pattern` matches somewhere in `text`,
/// as the `regex` crate decides it; `None` for a pattern it does not
/// compile.
pub uninterp spec fn regex_match(pattern: Seq<char>, text: Seq<char>) -> Option<bool>;

/// The pairs of name and value in the query of the URL `text`, decoded, in
/// their order, as the `url` crate reads them; `None` for a text it does
/// not parse as a URL.
pub uninterp spec fn url_query_pairs(text: Seq<char>) -> Option<Seq<(Seq<char>, Seq<char>)>>;

/// The views of a list of pairs of texts.
pub open spec fn pair_views(pairs: Seq<(String, String)>) -> Seq<(Seq<char>, Seq<char>)> {
    Seq::new(pairs.len(), |i: int| (pairs[i].0@, pairs[i].1@))
}

/// `regex::Regex::new` on `pattern`, then `Regex::is_match` on `text`.
/// The contract gives the outcome its name: whether the pattern matches is
/// a matter of the two texts alone, and the error is that of a pattern that
/// does not compile.
#[verifier::external_body]
fn regex_is_match(pattern: &str, text: &str) -> (r: Result<bool, regex::Error>)
    ensures
        match r {
            Ok(found) => regex_match(pattern@, text@) == Some(found),
            Err(_) => regex_match(pattern@, text@) is None,
        },
{
    match regex::Regex::new(pattern) {
        Ok(re) => Ok(re.is_match(text)),
        Err(e) => Err(e),
    }
}

/// `url::Url::parse` on `text`, then `Url::query_pairs`, each pair handed
/// out as two owned strings. The contract gives the outcome its name: the
/// pairs are a matter of the text alone, and the error is that of a text
/// that is no URL.
#[verifier::external_body]
fn query_pairs(text: &str) -> (r: Result<Vec<(String, String)>, url::ParseError>)
    ensures
        match r {
            Ok(pairs) => url_query_pairs(text@) == Some(pair_views(pairs@)),
            Err(_) => url_query_pairs(text@) is None,
        },
{
    match url::Url::parse(text) {
        Ok(url) => Ok(url.query_pairs().map(|(k, v)| (k.into_owned(), v.into_owned())).collect()),
        Err(e) => Err(e),
    }
}

/// Why a link is not taken.
#[derive(Clone, Copy, Debug, PartialEq, Eq, Structural)]
pub enum AddError {
    /// The link does not look like a magnet link.
    InvalidMagnet,
    /// The link, or that of a torrent the client has, is no URL.
    InvalidUrl,
    /// The client has a torrent with the same content already.
    AlreadyExists,
}

/// The pattern a magnet link has to match from its first character on.
pub open spec fn magnet_pattern() -> Seq<char> {
    "^(magnet:[\\?xt\\=\\w\\:\\&\\;\\+\\%.]+)"@
}

/// Whether a link looks like a magnet link.
pub open spec fn looks_like_magnet(link: Seq<char>) -> bool {
    regex_match(magnet_pattern(), link) == Some(true)
}

/// The content a magnet link names: the value of the first `xt` in its
/// query, in lower case.
pub open spec fn topic_of(pairs: Seq<(Seq<char>, Seq<char>)>) -> Option<Seq<char>>
    decreases pairs.len(),
{
    if pairs.len() == 0 {
        None
    } else if pairs[0].0 == "xt"@ {
        Some(ascii_lowercase(pairs[0].1))
    } else {
        topic_of(pairs.drop_first())
    }
}

/// The content a link names, or `None` for a link that is no URL. The
/// inner `None` is that of a URL without an `xt`.
pub open spec fn link_topic(link: Seq<char>) -> Option<Option<Seq<char>>> {
    match url_query_pairs(link) {
        Some(pairs) => Some(topic_of(pairs)),
        None => None,
    }
}

/// Whether the torrents the client has leave room for one of content
/// `topic`. They are gone through in order, those without a link passed
/// over: the first link that is no URL, or that names the same content,
/// ends the search with its error.
pub open spec fn room_for(topic: Option<Seq<char>>, existing: Seq<Option<Seq<char>>>) -> Result<
    (),
    AddError,
>
    decreases existing.len(),
{
    if existing.len() == 0 {
        Ok(())
    } else {
        match existing[0] {
            None => room_for(topic, existing.drop_first()),
            Some(uri) => match link_topic(uri) {
                None => Err(AddError::InvalidUrl),
                Some(other) => if other == topic {
                    Err(AddError::AlreadyExists)
                } else {
                    room_for(topic, existing.drop_first())
                },
            },
        }
    }
}

/// Whether a link is taken, given the links of the torrents the client
/// has.
pub open spec fn admission(link: Seq<char>, existing: Seq<Option<Seq<char>>>) -> Result<
    (),
    AddError,
> {
    if !looks_like_magnet(link) {
        Err(AddError::InvalidMagnet)
    } else {
        match link_topic(link) {
            None => Err(AddError::InvalidUrl),
            Some(topic) => room_for(topic, existing),
        }
    }
}

/// The views of a list of optional texts.
pub open spec fn link_views(links: Seq<Option<String>>) -> Seq<Option<Seq<char>>> {
    Seq::new(links.len(), |i: int| optional_text(links[i]))
}

impl AddError {
    /// The error in words, for the two errors that are the plugin's own.
    /// What is wrong with a link that is no URL is for the driver to say.
    pub fn message(&self) -> (text: Option<&'static str>)
        ensures
            match *self {
                AddError::InvalidMagnet => text matches Some(t) && t@ == "invalid magnet url"@,
                AddError::AlreadyExists => text matches Some(t) && t@
                    == "torrent already exists"@,
                AddError::InvalidUrl => text is None,
            },
    {
        match self {
            AddError::InvalidMagnet => Some("invalid magnet url"),
            AddError::AlreadyExists => Some("torrent already exists"),
            AddError::InvalidUrl => None,
        }
    }
}

/// Whether a link looks like a magnet link.
pub fn is_magnet(link: &str) -> (r: bool)
    ensures
        r == looks_like_magnet(link@),
{
    match regex_is_match("^(magnet:[\\?xt\\=\\w\\:\\&\\;\\+\\%.]+)", link) {
        Ok(found) => found,
        Err(_) => false,
    }
}

/// The content named by the pairs of a magnet link's query.
pub fn topic(pairs: &Vec<(String, String)>) -> (r: Option<String>)
    ensures
        optional_text(r) == topic_of(pair_views(pairs@)),
{
    let ghost all = pair_views(pairs@);
    let mut i: usize = 0;
    assert(all.subrange(0, all.len() as int) =~= all);
    while i < pairs.len()
        invariant
            i <= pairs@.len(),
            all == pair_views(pairs@),
            topic_of(all) == topic_of(all.subrange(i as int, all.len() as int)),
        decreases pairs@.len() - i,
    {
        let ghost rest = all.subrange(i as int, all.len() as int);
        assert(rest[0] == all[i as int]);
        if same_text(pairs[i].0.as_str(), "xt") {
            return Some(to_ascii_lowercase(pairs[i].1.as_str()));
        }
        assert(rest.drop_first() =~= all.subrange(i + 1, all.len() as int));
        i = i + 1;
    }
    None
}

/// Whether two optional texts are the same.
pub fn same_topic(a: &Option<String>, b: &Option<String>) -> (r: bool)
    ensures
        r == (optional_text(*a) == optional_text(*b)),
{
    match (a, b) {
        (Some(x), Some(y)) => *x == *y,
        (None, None) => true,
        _ => false,
    }
}

/// The content a link names.
pub fn topic_of_link(link: &str) -> (r: Result<Option<String>, AddError>)
    ensures
        match r {
            Ok(t) => link_topic(link@) == Some(optional_text(t)),
            Err(e) => link_topic(link@) is None && e == AddError::InvalidUrl,
        },
{
    match query_pairs(link) {
        Ok(pairs) => Ok(topic(&pairs)),
        Err(_) => Err(AddError::InvalidUrl),
    }
}

/// Decides whether a link is taken: it has to look like a magnet link and
/// be a URL, and no torrent the client has may name the same content.
/// `existing` holds the link of each torrent of the client, where it has
/// one.
pub fn check_new_torrent(magnet: &str, existing: &Vec<Option<String>>) -> (r: Result<(), AddError>)
    ensures
        r == admission(magnet@, link_views(existing@)),
{
    if !is_magnet(magnet) {
        return Err(AddError::InvalidMagnet);
    }
    let wanted = match topic_of_link(magnet) {
        Ok(t) => t,
        Err(e) => {
            return Err(e);
        },
    };
    let ghost all = link_views(existing@);
    let ghost goal = optional_text(wanted);
    let mut i: usize = 0;
    assert(all.subrange(0, all.len() as int) =~= all);
    while i < existing.len()
        invariant
            i <= existing@.len(),
            all == link_views(existing@),
            goal == optional_text(wanted),
            looks_like_magnet(magnet@),
            link_topic(magnet@) == Some(goal),
            room_for(goal, all) == room_for(goal, all.subrange(i as int, all.len() as int)),
        decreases existing@.len() - i,
    {
        let ghost rest = all.subrange(i as int, all.len() as int);
        assert(rest[0] == all[i as int]);
        assert(rest.drop_first() =~= all.subrange(i + 1, all.len() as int));
        if let Some(uri) = &existing[i] {
            match topic_of_link(uri.as_str()) {
                Ok(other) => {
                    if same_topic(&other, &wanted) {
                        return Err(AddError::AlreadyExists);
                    }
                },
                Err(e) => {
                    return Err(e);
                },
            }
        }
        i = i + 1;
    }
    Ok(())
}

} // verus!
