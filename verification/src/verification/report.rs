//! The trust report: what the operator reads once a verification is done.
//!
//! The reporter holds no state. It is handed what the crypto layer knows of
//! a peer's devices and lays it out, line by line.

use vstd::prelude::*;
use vstd::string::StringExecFns;
use crate::text::{padded, push_padded};

verus! {

/// The trust this participant places in a device.
#[derive(Clone, Copy, Debug, PartialEq, Eq, Structural)]
pub enum TrustState {
    Verified,
    BlackListed,
    Ignored,
    Unset,
}

/// The view of a [`DeviceRecord`].
pub struct DeviceRecordView {
    pub device_id: Seq<char>,
    pub display_name: Option<Seq<char>>,
    pub verified: bool,
}

/// One device of a peer, as the crypto layer knows it.
#[derive(Clone, Debug, PartialEq, Eq)]
pub struct DeviceRecord {
    pub device_id: String,
    pub display_name: Option<String>,
    pub verified: bool,
}

impl View for DeviceRecord {
    type V = DeviceRecordView;

    open spec fn view(&self) -> DeviceRecordView {
        DeviceRecordView {
            device_id: self.device_id@,
            display_name: match self.display_name {
                Some(n) => Some(n@),
                None => None,
            },
            verified: self.verified,
        }
    }
}

/// The width of the device id column.
pub const DEVICE_ID_WIDTH: usize = 10;

/// The width of the display name column.
pub const DISPLAY_NAME_WIDTH: usize = 30;

/// The name of a trust state.
pub open spec fn trust_text(trust: TrustState) -> Seq<char> {
    match trust {
        TrustState::Verified => "Verified"@,
        TrustState::BlackListed => "BlackListed"@,
        TrustState::Ignored => "Ignored"@,
        TrustState::Unset => "Unset"@,
    }
}

/// How a flag is written.
pub open spec fn flag_text(flag: bool) -> Seq<char> {
    if flag {
        "true"@
    } else {
        "false"@
    }
}

/// The name shown for a device: its display name, or a dash for a device
/// without one.
pub open spec fn shown_name(device: DeviceRecordView) -> Seq<char> {
    match device.display_name {
        Some(n) => n,
        None => "-"@,
    }
}

/// The line that announces a verified device.
pub open spec fn result_text(user_id: Seq<char>, device_id: Seq<char>, trust: TrustState) -> Seq<
    char,
> {
    "Successfully verified device "@ + user_id + " "@ + device_id + " "@ + trust_text(trust)
}

/// The line above the list of a peer's devices.
pub open spec fn header_text(user_id: Seq<char>) -> Seq<char> {
    "Devices of user "@ + user_id
}

/// The line for one device: indented by three spaces, then the device id
/// in a column of ten, the name in a column of thirty, and the flag.
pub open spec fn device_text(device: DeviceRecordView) -> Seq<char> {
    "   "@ + padded(device.device_id, DEVICE_ID_WIDTH as nat) + " "@ + padded(
        shown_name(device),
        DISPLAY_NAME_WIDTH as nat,
    ) + " "@ + flag_text(device.verified)
}

/// The whole report on a peer: the header, then one line per device, in
/// the order given.
pub open spec fn report_text(user_id: Seq<char>, devices: Seq<DeviceRecord>) -> Seq<Seq<char>> {
    Seq::new(
        devices.len() + 1,
        |i: int|
            if i == 0 {
                header_text(user_id)
            } else {
                device_text(devices[i - 1]@)
            },
    )
}

/// The line that announces the start of a handshake with a device.
pub open spec fn starting_text(user_id: Seq<char>, device_id: Seq<char>) -> Seq<char> {
    "Starting verification with "@ + user_id + " "@ + device_id
}

/// The line that announces a verified device, with the trust now placed in
/// it.
pub fn result_line(user_id: &str, device_id: &str, trust: TrustState) -> (line: String)
    ensures
        line@ == result_text(user_id@, device_id@, trust),
{
    let mut line = String::from_str("Successfully verified device ");
    line.append(user_id);
    line.append(" ");
    line.append(device_id);
    line.append(" ");
    match trust {
        TrustState::Verified => line.append("Verified"),
        TrustState::BlackListed => line.append("BlackListed"),
        TrustState::Ignored => line.append("Ignored"),
        TrustState::Unset => line.append("Unset"),
    }
    line
}

/// The line that announces the start of a handshake with a device.
pub fn starting_line(user_id: &str, device_id: &str) -> (line: String)
    ensures
        line@ == starting_text(user_id@, device_id@),
{
    let mut line = String::from_str("Starting verification with ");
    line.append(user_id);
    line.append(" ");
    line.append(device_id);
    line
}

/// The line above the list of a peer's devices.
pub fn devices_header(user_id: &str) -> (line: String)
    ensures
        line@ == header_text(user_id@),
{
    let mut line = String::from_str("Devices of user ");
    line.append(user_id);
    line
}

/// The line for one device.
pub fn device_line(device: &DeviceRecord) -> (line: String)
    ensures
        line@ == device_text(device@),
{
    let mut line = String::from_str("   ");
    push_padded(&mut line, device.device_id.as_str(), DEVICE_ID_WIDTH);
    line.append(" ");
    match &device.display_name {
        Some(name) => push_padded(&mut line, name.as_str(), DISPLAY_NAME_WIDTH),
        None => push_padded(&mut line, "-", DISPLAY_NAME_WIDTH),
    }
    line.append(" ");
    if device.verified {
        line.append("true");
    } else {
        line.append("false");
    }
    line
}

/// The whole report on a peer's devices: the header, then one line per
/// device, in the order given.
pub fn device_report(user_id: &str, devices: &Vec<DeviceRecord>) -> (lines: Vec<String>)
    ensures
        lines@.len() == devices@.len() + 1,
        forall|i: int|
            0 <= i < lines@.len() ==> (#[trigger] lines@[i])@ == report_text(user_id@, devices@)[i],
{
    let mut lines: Vec<String> = Vec::new();
    lines.push(devices_header(user_id));
    let mut i: usize = 0;
    while i < devices.len()
        invariant
            i <= devices@.len(),
            lines@.len() == i + 1,
            forall|j: int|
                0 <= j < lines@.len() ==> (#[trigger] lines@[j])@ == report_text(
                    user_id@,
                    devices@,
                )[j],
        decreases devices@.len() - i,
    {
        lines.push(device_line(&devices[i]));
        i = i + 1;
    }
    lines
}

} // verus!
