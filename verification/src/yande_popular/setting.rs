//! The settings of the picture plugin.

use vstd::prelude::*;
use vstd::string::StringExecFns;

verus! {

/// What the plugin does for one conversation: where it keeps its files,
/// which room it posts to, whether it scales pictures down, and which
/// listings it reads.
#[derive(Clone, Debug, PartialEq, Eq, Hash)]
pub struct RoomSetting {
    pub tmp_path: String,
    pub db_path: String,
    pub room_id: String,
    pub resize: Option<usize>,
    pub yande_url: Vec<String>,
}

/// The settings of the plugin: one entry per conversation.
#[derive(Clone, Debug, PartialEq, Eq)]
pub struct Setting {
    pub room: Vec<RoomSetting>,
}

/// The longest side, in pixels, that the template scales pictures to.
pub const DEFAULT_LONGEST_SIDE: usize = 1920;

impl Setting {
    /// The settings written to a new file: one conversation with the two
    /// given paths and no room yet, which scales pictures to 1920 pixels and
    /// reads the listing of recently popular pictures.
    pub fn template(tmp_path: String, db_path: String) -> (setting: Setting)
        ensures
            setting.room@.len() == 1,
            setting.room@[0].tmp_path@ == tmp_path@,
            setting.room@[0].db_path@ == db_path@,
            setting.room@[0].room_id@ == Seq::<char>::empty(),
            setting.room@[0].resize == Some(DEFAULT_LONGEST_SIDE),
            setting.room@[0].yande_url@.len() == 1,
            setting.room@[0].yande_url@[0]@ == "https://yande.re/post/popular_recent"@,
    {
        let mut yande_url: Vec<String> = Vec::new();
        yande_url.push(String::from_str("https://yande.re/post/popular_recent"));
        let mut room: Vec<RoomSetting> = Vec::new();
        room.push(
            RoomSetting {
                tmp_path,
                db_path,
                room_id: String::new(),
                resize: Some(DEFAULT_LONGEST_SIDE),
                yande_url,
            },
        );
        Setting { room }
    }
}

} // verus!
