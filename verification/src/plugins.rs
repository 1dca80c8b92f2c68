//! Which plugins run: the selection the operator gives at start.

use vstd::prelude::*;
use crate::text::{
    chars_of,
    find_char,
    first_index_of,
    holds_text,
    text_between,
    texts,
    trim_bounds,
    trimmed,
};

verus! {

/// The plugins there are.
#[derive(Clone, Copy, Debug, PartialEq, Eq, Structural)]
pub enum Plugin {
    YandePopular,
    Webhook,
    Qbittorrent,
}

impl Plugin {
    /// The name the plugin is selected by.
    pub open spec fn name_text(self) -> Seq<char> {
        match self {
            Plugin::YandePopular => "yande_popular"@,
            Plugin::Webhook => "webhook"@,
            Plugin::Qbittorrent => "qbittorrent"@,
        }
    }

    /// The name the plugin is selected by.
    pub fn name(self) -> (r: &'static str)
        ensures
            r@ == self.name_text(),
    {
        match self {
            Plugin::YandePopular => "yande_popular",
            Plugin::Webhook => "webhook",
            Plugin::Qbittorrent => "qbittorrent",
        }
    }
}

/// The names a selection lists: the text is cut at every comma, and each
/// piece is freed of the white space around it.
pub open spec fn selection_of(s: Seq<char>) -> Seq<Seq<char>>
    decreases s.len(),
{
    let i = first_index_of(s, ',');
    if i >= s.len() {
        seq![trimmed(s)]
    } else {
        seq![trimmed(s.subrange(0, i as int))] + selection_of(
            s.subrange((i + 1) as int, s.len() as int),
        )
    }
}

/// Whether a list of names selects a plugin: by its own name, or by the
/// name `all`.
pub open spec fn selects(names: Seq<Seq<char>>, plugin: Plugin) -> bool {
    names.contains(plugin.name_text()) || names.contains("all"@)
}

/// Reads the names out of a selection such as `yande_popular, webhook`.
pub fn parse_selection(selection: &str) -> (names: Vec<String>)
    ensures
        texts(names@) == selection_of(selection@),
{
    let chars = chars_of(selection);
    let n = chars.len();
    let mut names: Vec<String> = Vec::new();
    let mut start: usize = 0;
    assert(chars@.subrange(0, n as int) =~= selection@);
    assert(texts(names@) =~= Seq::<Seq<char>>::empty());
    loop
        invariant_except_break
            selection_of(selection@) == texts(names@) + selection_of(
                chars@.subrange(start as int, n as int),
            ),
        invariant
            start <= n,
            n == chars@.len(),
            chars@ == selection@,
        ensures
            texts(names@) == selection_of(selection@),
        decreases n - start,
    {
        let ghost rest = chars@.subrange(start as int, n as int);
        let ghost before = texts(names@);
        let cut = find_char(&chars, start, n, ',');
        let (a, b) = trim_bounds(&chars, start, cut);
        names.push(text_between(&chars, a, b));
        proof {
            assert(rest.subrange(0, cut - start) =~= chars@.subrange(start as int, cut as int));
            assert(texts(names@) =~= before + seq![
                trimmed(chars@.subrange(start as int, cut as int)),
            ]);
        }
        if cut >= n {
            proof {
                assert(rest.subrange(0, rest.len() as int) =~= rest);
                assert(selection_of(rest) =~= seq![trimmed(rest)]);
            }
            break ;
        }
        proof {
            assert(rest.subrange(cut - start + 1, rest.len() as int) =~= chars@.subrange(
                cut + 1,
                n as int,
            ));
            assert(selection_of(selection@) =~= texts(names@) + selection_of(
                chars@.subrange(cut + 1, n as int),
            ));
        }
        start = cut + 1;
    }
    names
}

/// Whether the names select the plugin.
pub fn is_selected(names: &Vec<String>, plugin: Plugin) -> (r: bool)
    ensures
        r == selects(texts(names@), plugin),
{
    holds_text(names, plugin.name()) || holds_text(names, "all")
}

/// The plugins a selection starts, in the order they are started in.
pub open spec fn started_by(names: Seq<Seq<char>>) -> Seq<Plugin> {
    let first = if selects(names, Plugin::YandePopular) {
        seq![Plugin::YandePopular]
    } else {
        Seq::empty()
    };
    let second = if selects(names, Plugin::Webhook) {
        seq![Plugin::Webhook]
    } else {
        Seq::empty()
    };
    let third = if selects(names, Plugin::Qbittorrent) {
        seq![Plugin::Qbittorrent]
    } else {
        Seq::empty()
    };
    first + second + third
}

/// The plugins to start for a selection given as text.
pub fn load_plugins(selection: &str) -> (plugins: Vec<Plugin>)
    ensures
        plugins@ == started_by(selection_of(selection@)),
{
    let names = parse_selection(selection);
    let mut plugins: Vec<Plugin> = Vec::new();
    if is_selected(&names, Plugin::YandePopular) {
        plugins.push(Plugin::YandePopular);
    }
    if is_selected(&names, Plugin::Webhook) {
        plugins.push(Plugin::Webhook);
    }
    if is_selected(&names, Plugin::Qbittorrent) {
        plugins.push(Plugin::Qbittorrent);
    }
    assert(plugins@ =~= started_by(selection_of(selection@)));
    plugins
}

} // verus!
