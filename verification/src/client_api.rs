//! What clients say and what it leads to.
use vstd::prelude::*;

use crate::db::DbError;
use crate::models::ClientMessage;
use crate::status::StatusCode;

pub mod hello;
pub mod kicked;
pub mod message;
pub mod payload;
pub mod session;
pub mod sync;

verus! {

/// Why a message of a client could not be dealt with.
#[derive(Clone, Copy, Debug, PartialEq, Eq, Structural)]
pub enum ClientError {
    /// The stored data could not be read or changed.
    Stored(DbError),
    /// A configuration could not be pushed.
    Push(StatusCode),
}

/// What to do with a message that came without a connection.
#[derive(Debug)]
pub enum DatagramRoute {
    /// The sender introduces itself.
    Hello,
    /// The sender is not known; the message is dropped.
    Drop,
    /// The message is a device's; `forget` tells whether it is the last from this sender.
    Handle { device_id: String, forget: bool },
}

/// What to do with a message that came without a connection.
pub open spec fn route_of(known: Option<String>, message: ClientMessage) -> DatagramRoute {
    if message is Hello {
        DatagramRoute::Hello
    } else {
        match known {
            Some(device_id) => DatagramRoute::Handle { device_id, forget: message is Disconnect },
            None => DatagramRoute::Drop,
        }
    }
}

/// Decides what to do with a message that came without a connection, from a sender that
/// introduced itself as a device or not at all.
pub fn route_datagram(known: Option<String>, message: &ClientMessage) -> (route: DatagramRoute)
    ensures
        route == route_of(known, *message),
{
    let last = match message {
        ClientMessage::Hello { .. } => return DatagramRoute::Hello,
        ClientMessage::Disconnect { .. } => true,
        _ => false,
    };
    match known {
        Some(device_id) => DatagramRoute::Handle { device_id, forget: last },
        None => DatagramRoute::Drop,
    }
}

} // verus!
