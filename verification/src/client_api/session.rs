//! The course of a connection to a client.
use vstd::prelude::*;

use crate::client_api::hello::{Welcome, KICKED};
use crate::db::devices::Reception;
use crate::models::{ClientMessage, ServerMessage};

verus! {

/// How far a connection has come.
#[derive(Debug)]
pub enum Session {
    /// The client was let in as a device.
    Open { device_id: String },
    /// The connection has no part to play any more.
    Ended,
}

/// What is to be done for a connection.
#[derive(Debug)]
pub enum SessionAction {
    /// Tell the client something.
    Tell { message: ServerMessage },
    /// Remember the connection as the device's.
    Register { device_id: String },
    /// Bring the device up to date.
    Refresh { device_id: String },
    /// Deal with a message of the device.
    Deal { device_id: String, message: ClientMessage },
    /// Take leave of the device.
    Leave { device_id: String },
}

impl SessionAction {
    /// Whether the action concerns a device that was let in.
    pub open spec fn concerns(self, device: String) -> bool {
        match self {
            SessionAction::Tell { .. } => false,
            SessionAction::Register { device_id } => device_id == device,
            SessionAction::Refresh { device_id } => device_id == device,
            SessionAction::Deal { device_id, .. } => device_id == device,
            SessionAction::Leave { device_id } => device_id == device,
        }
    }
}

/// What a welcome leads to: the client is told, and a device that is let in is remembered and
/// brought up to date, in this order.
pub open spec fn welcome_actions(welcome: Welcome) -> Seq<SessionAction> {
    let told = match welcome.message {
        Some(message) => Seq::<SessionAction>::empty().push(SessionAction::Tell { message }),
        None => Seq::<SessionAction>::empty(),
    };
    match welcome.device_id {
        Some(device_id) => told.push(SessionAction::Register { device_id }).push(
            SessionAction::Refresh { device_id },
        ),
        None => told,
    }
}

impl Session {
    /// The connection that a welcome begins.
    pub open spec fn begun_by(welcome: Welcome) -> Session {
        match welcome.device_id {
            Some(device_id) => Session::Open { device_id },
            None => Session::Ended,
        }
    }

    /// What a message on the connection leads to.
    pub open spec fn on_message(self, message: ClientMessage) -> Option<SessionAction> {
        match self {
            Session::Open { device_id } => Some(SessionAction::Deal { device_id, message }),
            Session::Ended => None,
        }
    }

    /// What the end of the connection leads to.
    pub open spec fn on_end(self) -> Option<SessionAction> {
        match self {
            Session::Open { device_id } => Some(SessionAction::Leave { device_id }),
            Session::Ended => None,
        }
    }

    /// Begins a connection with the welcome of its client.
    pub fn welcomed(welcome: Welcome) -> (begun: (Session, Vec<SessionAction>))
        ensures
            begun.0 == Session::begun_by(welcome),
            begun.1@ == welcome_actions(welcome),
    {
        let mut actions: Vec<SessionAction> = Vec::new();
        if let Some(message) = welcome.message {
            actions.push(SessionAction::Tell { message });
        }
        let session = match welcome.device_id {
            Some(device_id) => {
                actions.push(SessionAction::Register { device_id: device_id.clone() });
                actions.push(SessionAction::Refresh { device_id: device_id.clone() });
                Session::Open { device_id }
            },
            None => Session::Ended,
        };
        (session, actions)
    }

    /// Decides what to do with a message that came over the connection.
    pub fn received(&self, message: ClientMessage) -> (action: Option<SessionAction>)
        ensures
            action == self.on_message(message),
    {
        match self {
            Session::Open { device_id } => Some(
                SessionAction::Deal { device_id: device_id.clone(), message },
            ),
            Session::Ended => None,
        }
    }

    /// Decides what to do when the connection has been closed.
    pub fn closed(self) -> (action: Option<SessionAction>)
        ensures
            action == self.on_end(),
    {
        match self {
            Session::Open { device_id } => Some(SessionAction::Leave { device_id }),
            Session::Ended => None,
        }
    }
}

/// Nothing is done for a kicked device but telling it so: its welcome begins a connection that
/// has ended, and no action concerns any device.
pub proof fn law_nothing_is_done_for_a_kicked_device(
    welcome: Welcome,
    reception: Reception,
    device: String,
    i: int,
)
    requires
        welcome.acknowledges(reception),
        reception.status@ == KICKED@,
        0 <= i < welcome_actions(welcome).len(),
    ensures
        welcome_actions(welcome).len() == 1,
        !welcome_actions(welcome)[i].concerns(device),
{
}

} // verus!
