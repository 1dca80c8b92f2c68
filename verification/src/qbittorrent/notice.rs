//! What the plugin tells a conversation when a download ends, one way or
//! the other.

use vstd::prelude::*;
use vstd::string::StringExecFns;
use crate::qbittorrent::ops::{extract_non_empty_str, non_empty, Torrent, TorrentView};
use crate::text::optional_text;

verus! {

/// The view of a [`Notice`].
pub struct NoticeView {
    pub room_id: Seq<char>,
    pub reply_to: Option<Seq<char>>,
    pub text: Seq<char>,
    pub markdown: bool,
}

/// A message for the room that asked for a download. Where the message
/// that asked is known, the notice answers it, and the tag that named it is
/// then cleared.
#[derive(Clone, Debug, PartialEq, Eq)]
pub struct Notice {
    pub room_id: String,
    pub reply_to: Option<String>,
    pub text: String,
    pub markdown: bool,
}

impl View for Notice {
    type V = NoticeView;

    open spec fn view(&self) -> NoticeView {
        NoticeView {
            room_id: self.room_id@,
            reply_to: optional_text(self.reply_to),
            text: self.text@,
            markdown: self.markdown,
        }
    }
}

/// What is said of a download that was given up on.
pub open spec fn expiry_text(name: Option<Seq<char>>) -> Seq<char> {
    match name {
        Some(n) => "文件名："@ + n + "  \n下载超时，已删除。"@,
        None => "下载超时，已删除。"@,
    }
}

/// What is said of a download that is done and can be fetched from `page`.
pub open spec fn completion_text(name: Option<Seq<char>>, page: Seq<char>) -> Seq<char> {
    match name {
        Some(n) => "文件名："@ + n + "  \n下载完成，[点击下载]("@ + page + ")。"@,
        None => "下载完成，[点击下载]("@ + page + ")。"@,
    }
}

/// The notice with the given text for the room a torrent is filed under,
/// in answer to the message it is tagged with. A torrent filed under no
/// room gets no notice. A notice that names the download is marked up.
pub open spec fn notice_of(t: TorrentView, text: Seq<char>) -> Option<NoticeView> {
    match non_empty(t.category) {
        Some(room) => Some(
            NoticeView {
                room_id: room,
                reply_to: non_empty(t.tags),
                text,
                markdown: t.name is Some,
            },
        ),
        None => None,
    }
}

/// Builds the notice with the given text for the room of a torrent.
fn notice_for(t: &Torrent, text: String) -> (r: Option<Notice>)
    ensures
        match r {
            Some(n) => notice_of(t@, text@) == Some(n@),
            None => notice_of(t@, text@) is None,
        },
{
    match extract_non_empty_str(&t.category) {
        Some(room) => {
            let reply_to = match extract_non_empty_str(&t.tags) {
                Some(tag) => Some(tag.clone()),
                None => None,
            };
            Some(Notice { room_id: room.clone(), reply_to, text, markdown: t.name.is_some() })
        },
        None => None,
    }
}

/// The notice that a download was given up on and deleted.
pub fn expiry_notice(t: &Torrent) -> (r: Option<Notice>)
    ensures
        match r {
            Some(n) => notice_of(t@, expiry_text(t@.name)) == Some(n@),
            None => notice_of(t@, expiry_text(t@.name)) is None,
        },
{
    let text = match &t.name {
        Some(name) => {
            let mut text = String::from_str("文件名：");
            text.append(name.as_str());
            text.append("  \n下载超时，已删除。");
            text
        },
        None => String::from_str("下载超时，已删除。"),
    };
    notice_for(t, text)
}

/// The notice that a download is done and can be fetched from
/// `download_page`. The torrent is deleted afterwards exactly when there is
/// such a notice, that is, when it is filed under a room.
pub fn completion_notice(t: &Torrent, download_page: &str) -> (r: Option<Notice>)
    ensures
        match r {
            Some(n) => notice_of(t@, completion_text(t@.name, download_page@)) == Some(n@),
            None => notice_of(t@, completion_text(t@.name, download_page@)) is None,
        },
{
    let text = match &t.name {
        Some(name) => {
            let mut text = String::from_str("文件名：");
            text.append(name.as_str());
            text.append("  \n下载完成，[点击下载](");
            text.append(download_page);
            text.append(")。");
            text
        },
        None => {
            let mut text = String::from_str("下载完成，[点击下载](");
            text.append(download_page);
            text.append(")。");
            text
        },
    };
    notice_for(t, text)
}

} // verus!
