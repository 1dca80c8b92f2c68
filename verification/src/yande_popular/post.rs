//! What the plugin posts along with the pictures of a post.

use vstd::prelude::*;
use vstd::string::StringExecFns;
use crate::text::{decimal_text, push_decimal};

verus! {

/// The page of a post on the picture board.
pub open spec fn post_page(id: u64) -> Seq<char> {
    "https://yande.re/post/show/"@ + decimal_text(id as nat)
}

/// The line that names the source of the pictures of a post, as a link to
/// the post's page that shows the page's address.
pub open spec fn source_text(id: u64) -> Seq<char> {
    "来源：["@ + post_page(id) + "]("@ + post_page(id) + ")"@
}

/// The line that names the source of the pictures of a post.
pub fn source_line(id: u64) -> (line: String)
    ensures
        line@ == source_text(id),
{
    let mut line = String::from_str("来源：[");
    line.append("https://yande.re/post/show/");
    push_decimal(&mut line, id);
    line.append("](");
    line.append("https://yande.re/post/show/");
    push_decimal(&mut line, id);
    line.append(")");
    assert(line@ =~= source_text(id));
    line
}

} // verus!
