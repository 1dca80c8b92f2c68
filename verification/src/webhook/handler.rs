//! What the webhook answers.

use vstd::prelude::*;

verus! {

/// How a request to post a message ended.
#[derive(Clone, Copy, Debug, PartialEq, Eq, Structural)]
pub enum Delivery {
    /// The message was posted.
    Sent,
    /// The room took no message.
    SendFailed,
    /// The plugin does not serve the room.
    RoomUnknown,
}

/// The HTTP status that answers a request.
pub open spec fn status_code(delivery: Delivery) -> u16 {
    match delivery {
        Delivery::Sent => 200,
        Delivery::SendFailed => 500,
        Delivery::RoomUnknown => 404,
    }
}

/// How a request ended: a room the plugin does not serve is unknown,
/// whatever else; for a room it serves, the outcome of the posting counts.
pub fn delivery_of(room_known: bool, posted: bool) -> (delivery: Delivery)
    ensures
        delivery == if !room_known {
            Delivery::RoomUnknown
        } else if posted {
            Delivery::Sent
        } else {
            Delivery::SendFailed
        },
{
    if !room_known {
        Delivery::RoomUnknown
    } else if posted {
        Delivery::Sent
    } else {
        Delivery::SendFailed
    }
}

/// The HTTP status that answers a request: 200 for a message posted, 500
/// for one the room did not take, 404 for a room that is not served.
pub fn send_status(delivery: Delivery) -> (status: u16)
    ensures
        status == status_code(delivery),
{
    match delivery {
        Delivery::Sent => 200,
        Delivery::SendFailed => 500,
        Delivery::RoomUnknown => 404,
    }
}

/// The HTTP status for a request that fits no route.
pub fn not_found() -> (status: u16)
    ensures
        status == 404,
{
    404
}

} // verus!
