//! The commands the plugin takes from a conversation, and what it answers.

use vstd::prelude::*;
use vstd::string::StringExecFns;
use crate::text::{
    begins_with,
    chars_of,
    first_word,
    first_word_bounds,
    skip_leading,
    starts_with,
    text_between,
    trim_bounds,
    trimmed,
    without_leading,
};

verus! {

/// The view of a [`Command`].
pub enum CommandView {
    Download { link: Seq<char> },
    Help,
    Status,
}

/// What a message asks of the plugin.
#[derive(Clone, Debug, PartialEq, Eq)]
pub enum Command {
    /// Fetch what the link points to.
    Download { link: String },
    /// Say what the plugin understands.
    Help,
    /// Say how the downloads stand.
    Status,
}

impl View for Command {
    type V = CommandView;

    open spec fn view(&self) -> CommandView {
        match *self {
            Command::Download { link } => CommandView::Download { link: link@ },
            Command::Help => CommandView::Help,
            Command::Status => CommandView::Status,
        }
    }
}

/// The word that asks for a download.
pub open spec fn download_word() -> Seq<char> {
    "!download"@
}

/// The word that asks for help.
pub open spec fn help_word() -> Seq<char> {
    "!qbithelp"@
}

/// The word that asks for the status.
pub open spec fn status_word() -> Seq<char> {
    "!status"@
}

/// The link of a download message: the first word after the command word,
/// however often that word is repeated. Empty where nothing follows.
pub open spec fn link_of(message: Seq<char>) -> Seq<char> {
    first_word(trimmed(without_leading(message, download_word())))
}

/// The command a message body holds. White space around the body does not
/// count; a body that is empty, or begins with none of the command words,
/// holds no command.
pub open spec fn command_of(body: Seq<char>) -> Option<CommandView> {
    let message = trimmed(body);
    if message.len() == 0 {
        None
    } else if starts_with(message, download_word()) {
        Some(CommandView::Download { link: link_of(message) })
    } else if starts_with(message, help_word()) {
        Some(CommandView::Help)
    } else if starts_with(message, status_word()) {
        Some(CommandView::Status)
    } else {
        None
    }
}

/// Reads the command out of a message body.
pub fn parse_command(body: &str) -> (r: Option<Command>)
    ensures
        match r {
            Some(c) => command_of(body@) == Some(c@),
            None => command_of(body@) is None,
        },
{
    let chars = chars_of(body);
    let (from, to) = trim_bounds(&chars, 0, chars.len());
    assert(chars@.subrange(0, chars@.len() as int) =~= body@);
    if from == to {
        return None;
    }
    let download = chars_of("!download");
    let help = chars_of("!qbithelp");
    let status = chars_of("!status");
    if begins_with(&chars, from, to, &download) {
        let rest = skip_leading(&chars, from, to, &download);
        let (a, b) = trim_bounds(&chars, rest, to);
        let (c, d) = first_word_bounds(&chars, a, b);
        Some(Command::Download { link: text_between(&chars, c, d) })
    } else if begins_with(&chars, from, to, &help) {
        Some(Command::Help)
    } else if begins_with(&chars, from, to, &status) {
        Some(Command::Status)
    } else {
        None
    }
}

/// The answer to a download that was taken up.
pub open spec fn download_accepted_text() -> Seq<char> {
    "添加成功"@
}

/// The beginning of the answer to a download that was refused.
pub open spec fn download_refused_head() -> Seq<char> {
    "添加失败: "@
}

/// The beginning of the answer to a status that could not be had.
pub open spec fn status_failed_head() -> Seq<char> {
    "获取失败: "@
}

/// What the plugin understands, as it tells it.
pub open spec fn help_text() -> Seq<char> {
    "!download <magnet_url> - 添加磁力至下载\n!status - 查看下载状态"@
}

/// The answer to a download command: that the link was added, or why it
/// was not.
pub fn download_reply(failure: Option<&str>) -> (reply: String)
    ensures
        reply@ == match failure {
            None => download_accepted_text(),
            Some(why) => download_refused_head() + why@,
        },
{
    match failure {
        None => String::from_str("添加成功"),
        Some(why) => {
            let mut reply = String::from_str("添加失败: ");
            reply.append(why);
            reply
        },
    }
}

/// The answer to a help command.
pub fn help_reply() -> (reply: String)
    ensures
        reply@ == help_text(),
{
    String::from_str("!download <magnet_url> - 添加磁力至下载\n!status - 查看下载状态")
}

/// The answer to a status command whose status could not be had.
pub fn status_failed_reply(why: &str) -> (reply: String)
    ensures
        reply@ == status_failed_head() + why@,
{
    let mut reply = String::from_str("获取失败: ");
    reply.append(why);
    reply
}

} // verus!
