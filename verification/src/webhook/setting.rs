//! The settings of the webhook plugin.

use vstd::prelude::*;
use vstd::string::StringExecFns;

verus! {

/// The settings of the plugin: the conversations it may post to, the token
/// a caller has to show, and the port it listens on.
#[derive(Clone, Debug, PartialEq, Eq)]
pub struct Setting {
    pub room_id: Vec<String>,
    pub token: Option<String>,
    pub port: u16,
}

impl Setting {
    /// The settings written to a new file: one room still to be named, a
    /// token to be replaced, and no port.
    pub fn template() -> (setting: Setting)
        ensures
            setting.room_id@.len() == 1,
            setting.room_id@[0]@ == Seq::<char>::empty(),
            setting.token matches Some(t) && t@ == "123456"@,
            setting.port == 0,
    {
        let mut room_id: Vec<String> = Vec::new();
        room_id.push(String::new());
        Setting { room_id, token: Some(String::from_str("123456")), port: 0 }
    }

    /// Whether the plugin may post to `room_id`.
    pub fn serves(&self, room_id: &str) -> (r: bool)
        ensures
            r == exists|i: int| 0 <= i < self.room_id@.len() && (#[trigger] self.room_id@[i])@
                == room_id@,
    {
        let wanted = String::from_str(room_id);
        let mut i: usize = 0;
        while i < self.room_id.len()
            invariant
                i <= self.room_id@.len(),
                wanted@ == room_id@,
                forall|j: int| 0 <= j < i ==> (#[trigger] self.room_id@[j])@ != room_id@,
            decreases self.room_id@.len() - i,
        {
            if self.room_id[i] == wanted {
                return true;
            }
            i = i + 1;
        }
        false
    }
}

} // verus!
