//! The status of the downloads, as the plugin tells it to a conversation:
//! once as plain text, once as a table.

use vstd::prelude::*;
use vstd::string::StringExecFns;
use crate::qbittorrent::ops::TorrentState;

verus! {

/// The view of a [`StatusRow`].
pub struct StatusRowView {
    pub name: Seq<char>,
    pub state: Option<TorrentState>,
    pub progress: Seq<char>,
}

/// One download in the status: its name, what it is doing, and how far it
/// is, already written out.
#[derive(Clone, Debug, PartialEq, Eq)]
pub struct StatusRow {
    pub name: String,
    pub state: Option<TorrentState>,
    pub progress: String,
}

impl View for StatusRow {
    type V = StatusRowView;

    open spec fn view(&self) -> StatusRowView {
        StatusRowView { name: self.name@, state: self.state, progress: self.progress@ }
    }
}

/// The views of a list of rows.
pub open spec fn row_views(rows: Seq<StatusRow>) -> Seq<StatusRowView> {
    Seq::new(rows.len(), |i: int| rows[i]@)
}

/// What a state is called in the status. A torrent without a state is
/// called as one whose state is unknown.
pub open spec fn label_text(state: Option<TorrentState>) -> Seq<char> {
    match state {
        Some(TorrentState::PausedUP) => "下载完成"@,
        Some(TorrentState::StalledUP) => "下载完成"@,
        Some(TorrentState::Uploading) => "上传中"@,
        Some(TorrentState::PausedDL) => "暂停"@,
        Some(TorrentState::StalledDL) => "下载中(无连接)"@,
        Some(TorrentState::Downloading) => "下载中"@,
        Some(TorrentState::CheckingDL) => "检查中"@,
        Some(TorrentState::CheckingUP) => "检查中"@,
        Some(TorrentState::QueuedDL) => "等待下载"@,
        Some(TorrentState::QueuedUP) => "等待上传"@,
        Some(TorrentState::MetaDL) => "元数据下载中"@,
        Some(TorrentState::MissingFiles) => "缺少文件"@,
        Some(TorrentState::Unknown) => "未知"@,
        Some(TorrentState::Error) => "错误"@,
        Some(TorrentState::ForcedUP) => "强制上传"@,
        Some(TorrentState::ForcedDL) => "强制下载"@,
        Some(TorrentState::Allocating) => "分配空间"@,
        Some(TorrentState::CheckingResumeData) => "检查恢复数据"@,
        Some(TorrentState::Moving) => "移动中"@,
        None => "未知"@,
    }
}

/// What a state is called in the status.
pub fn state_label(state: Option<TorrentState>) -> (label: &'static str)
    ensures
        label@ == label_text(state),
{
    match state {
        Some(TorrentState::PausedUP) => "下载完成",
        Some(TorrentState::StalledUP) => "下载完成",
        Some(TorrentState::Uploading) => "上传中",
        Some(TorrentState::PausedDL) => "暂停",
        Some(TorrentState::StalledDL) => "下载中(无连接)",
        Some(TorrentState::Downloading) => "下载中",
        Some(TorrentState::CheckingDL) => "检查中",
        Some(TorrentState::CheckingUP) => "检查中",
        Some(TorrentState::QueuedDL) => "等待下载",
        Some(TorrentState::QueuedUP) => "等待上传",
        Some(TorrentState::MetaDL) => "元数据下载中",
        Some(TorrentState::MissingFiles) => "缺少文件",
        Some(TorrentState::Unknown) => "未知",
        Some(TorrentState::Error) => "错误",
        Some(TorrentState::ForcedUP) => "强制上传",
        Some(TorrentState::ForcedDL) => "强制下载",
        Some(TorrentState::Allocating) => "分配空间",
        Some(TorrentState::CheckingResumeData) => "检查恢复数据",
        Some(TorrentState::Moving) => "移动中",
        None => "未知",
    }
}

/// One row of the plain status: name, state and progress, set apart by
/// spaces, and a line feed.
pub open spec fn plain_row(row: StatusRowView) -> Seq<char> {
    row.name + " "@ + label_text(row.state) + " "@ + row.progress + "\n"@
}

/// The plain status: one row per download, in the order given.
pub open spec fn plain_status(rows: Seq<StatusRowView>) -> Seq<char>
    decreases rows.len(),
{
    if rows.len() == 0 {
        Seq::empty()
    } else {
        plain_status(rows.drop_last()) + plain_row(rows.last())
    }
}

/// The table up to its first row.
pub open spec fn table_head() -> Seq<char> {
    "<table>\n            <thead>\n            <tr>\n            <th>名称</th>\n            <th>状态</th>\n            <th>进度</th>\n            </tr>\n        </thead>\n        <tbody>"@
}

/// The end of the table.
pub open spec fn table_tail() -> Seq<char> {
    "</tbody></table>"@
}

/// One row of the table.
pub open spec fn table_row(row: StatusRowView) -> Seq<char> {
    "<tr>\n            <td>"@ + row.name + "</td>\n            <td>"@ + label_text(row.state)
        + "</td>\n            <td>"@ + row.progress + "</td>\n            </tr>"@
}

/// The rows of the table, in the order given.
pub open spec fn table_rows(rows: Seq<StatusRowView>) -> Seq<char>
    decreases rows.len(),
{
    if rows.len() == 0 {
        Seq::empty()
    } else {
        table_rows(rows.drop_last()) + table_row(rows.last())
    }
}

/// The status as a table. Names are put in as they are.
pub open spec fn table_status(rows: Seq<StatusRowView>) -> Seq<char> {
    table_head() + table_rows(rows) + table_tail()
}

/// The status of the downloads as plain text.
pub fn plain_text(rows: &Vec<StatusRow>) -> (text: String)
    ensures
        text@ == plain_status(row_views(rows@)),
{
    let mut text = String::new();
    let ghost all = row_views(rows@);
    let mut i: usize = 0;
    assert(all.subrange(0, 0) =~= Seq::<StatusRowView>::empty());
    while i < rows.len()
        invariant
            i <= rows@.len(),
            all == row_views(rows@),
            text@ == plain_status(all.subrange(0, i as int)),
        decreases rows@.len() - i,
    {
        let ghost before = text@;
        let row = &rows[i];
        text.append(row.name.as_str());
        text.append(" ");
        text.append(state_label(row.state));
        text.append(" ");
        text.append(row.progress.as_str());
        text.append("\n");
        proof {
            assert(all.subrange(0, i + 1).drop_last() =~= all.subrange(0, i as int));
            assert(all.subrange(0, i + 1).last() == rows@[i as int]@);
            assert(text@ =~= before + plain_row(rows@[i as int]@));
        }
        i = i + 1;
    }
    assert(all.subrange(0, all.len() as int) =~= all);
    text
}

/// The status of the downloads as a table.
pub fn table_text(rows: &Vec<StatusRow>) -> (text: String)
    ensures
        text@ == table_status(row_views(rows@)),
{
    let mut text = String::from_str(
        "<table>\n            <thead>\n            <tr>\n            <th>名称</th>\n            <th>状态</th>\n            <th>进度</th>\n            </tr>\n        </thead>\n        <tbody>",
    );
    let ghost all = row_views(rows@);
    let mut i: usize = 0;
    assert(all.subrange(0, 0) =~= Seq::<StatusRowView>::empty());
    assert(text@ =~= table_head() + table_rows(all.subrange(0, 0)));
    while i < rows.len()
        invariant
            i <= rows@.len(),
            all == row_views(rows@),
            text@ == table_head() + table_rows(all.subrange(0, i as int)),
        decreases rows@.len() - i,
    {
        let ghost before = text@;
        let row = &rows[i];
        text.append("<tr>\n            <td>");
        text.append(row.name.as_str());
        text.append("</td>\n            <td>");
        text.append(state_label(row.state));
        text.append("</td>\n            <td>");
        text.append(row.progress.as_str());
        text.append("</td>\n            </tr>");
        proof {
            assert(all.subrange(0, i + 1).drop_last() =~= all.subrange(0, i as int));
            assert(all.subrange(0, i + 1).last() == rows@[i as int]@);
            assert(text@ =~= before + table_row(rows@[i as int]@));
            assert(text@ =~= table_head() + table_rows(all.subrange(0, i + 1)));
        }
        i = i + 1;
    }
    assert(all.subrange(0, all.len() as int) =~= all);
    text.append("</tbody></table>");
    text
}

/// The status of the downloads, as plain text and as a table.
pub fn show_status(rows: &Vec<StatusRow>) -> (status: (String, String))
    ensures
        status.0@ == plain_status(row_views(rows@)),
        status.1@ == table_status(row_views(rows@)),
{
    (plain_text(rows), table_text(rows))
}

} // verus!
