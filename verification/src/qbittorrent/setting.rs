//! The settings of the download plugin.

use vstd::prelude::*;
use vstd::string::StringExecFns;
use crate::text::{after_last, after_last_index, chars_of, parse_u16, parsed_u16};

verus! {

/// The view of a [`RoomSetting`].
pub struct RoomSettingView {
    pub download_path: Seq<char>,
    pub room_id: Seq<char>,
    pub db_path: Seq<char>,
}

/// What the plugin does for one conversation.
#[derive(Clone, Debug, PartialEq, Eq, Hash)]
pub struct RoomSetting {
    pub download_path: String,
    pub room_id: String,
    pub db_path: String,
}

impl View for RoomSetting {
    type V = RoomSettingView;

    open spec fn view(&self) -> RoomSettingView {
        RoomSettingView {
            download_path: self.download_path@,
            room_id: self.room_id@,
            db_path: self.db_path@,
        }
    }
}

/// The settings of the plugin: the conversations it serves and the torrent
/// client it talks to.
#[derive(Clone, Debug, PartialEq, Eq)]
pub struct Setting {
    pub room: Vec<RoomSetting>,
    pub qbit_user: String,
    pub qbit_pass: String,
    pub qbit_url: String,
    pub use_internal_qbit: bool,
}

/// The text before the path in the notice that a settings file was
/// written and has to be filled in.
pub open spec fn edit_notice_head() -> Seq<char> {
    "please edit setting file: "@
}

/// The notice given when a settings file was missing and a template has
/// been written in its place: the file has to be edited before the plugin
/// can run.
pub fn edit_notice(setting_path: &str) -> (notice: String)
    ensures
        notice@ == edit_notice_head() + setting_path@,
{
    let mut notice = String::from_str("please edit setting file: ");
    notice.append(setting_path);
    notice
}

/// The port the plugin's own torrent client listens on when nothing else
/// can be read off the address.
pub const DEFAULT_PORT: u16 = 80;

/// The port named at the end of an address: what follows its last colon,
/// read as a number, or 80 where that is no 16-bit number.
pub open spec fn port_of(address: Seq<char>) -> u16 {
    match parsed_u16(after_last(address, ':')) {
        Some(port) => port,
        None => DEFAULT_PORT,
    }
}

impl Setting {
    /// The port the plugin's own torrent client is started on: the one
    /// named at the end of the client's address.
    pub fn internal_port(&self) -> (port: u16)
        ensures
            port == port_of(self.qbit_url@),
    {
        let chars = chars_of(self.qbit_url.as_str());
        let from = after_last_index(&chars, ':');
        match parse_u16(&chars, from, chars.len()) {
            Some(port) => port,
            None => DEFAULT_PORT,
        }
    }

    /// The settings written to a new file: one conversation with the two
    /// given paths and no room yet, and a torrent client of the plugin's own
    /// on the local host with its stock account.
    pub fn template(download_path: String, db_path: String) -> (setting: Setting)
        ensures
            setting.room@.len() == 1,
            setting.room@[0]@ == (RoomSettingView {
                download_path: download_path@,
                room_id: Seq::empty(),
                db_path: db_path@,
            }),
            setting.qbit_user@ == "admin"@,
            setting.qbit_pass@ == "adminadmin"@,
            setting.qbit_url@ == "http://127.0.0.1:8080"@,
            setting.use_internal_qbit,
    {
        let mut room: Vec<RoomSetting> = Vec::new();
        room.push(RoomSetting { download_path, room_id: String::new(), db_path });
        Setting {
            room,
            qbit_user: String::from_str("admin"),
            qbit_pass: String::from_str("adminadmin"),
            qbit_url: String::from_str("http://127.0.0.1:8080"),
            use_internal_qbit: true,
        }
    }

    /// The place of the settings that serve `room_id`. Where several name
    /// the same room the last one counts, as it does in a map filled in
    /// order.
    pub fn room_index(&self, room_id: &str) -> (r: Option<usize>)
        ensures
            match r {
                Some(i) => {
                    &&& i < self.room@.len()
                    &&& self.room@[i as int].room_id@ == room_id@
                    &&& forall|j: int|
                        i < j < self.room@.len() ==> (#[trigger] self.room@[j]).room_id@
                            != room_id@
                },
                None => forall|j: int|
                    0 <= j < self.room@.len() ==> (#[trigger] self.room@[j]).room_id@ != room_id@,
            },
    {
        let wanted = String::from_str(room_id);
        let mut found: Option<usize> = None;
        let mut i: usize = 0;
        while i < self.room.len()
            invariant
                i <= self.room@.len(),
                wanted@ == room_id@,
                match found {
                    Some(k) => {
                        &&& k < i
                        &&& self.room@[k as int].room_id@ == room_id@
                        &&& forall|j: int|
                            k < j < i ==> (#[trigger] self.room@[j]).room_id@ != room_id@
                    },
                    None => forall|j: int|
                        0 <= j < i ==> (#[trigger] self.room@[j]).room_id@ != room_id@,
                },
            decreases self.room@.len() - i,
        {
            if self.room[i].room_id == wanted {
                found = Some(i);
            }
            i = i + 1;
        }
        found
    }
}

} // verus!
