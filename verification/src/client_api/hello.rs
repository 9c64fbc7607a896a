//! How a client introduces itself.
use vstd::prelude::*;
use vstd::string::*;

use crate::api::CONSOLE_VERSION;
use crate::db::devices::{Introduction, Reception, UpsertDeviceHello};
use crate::db::rooms;
use crate::db::{Database, DbError};
use crate::flow;
use crate::flow::{Call, Fresh, Reply, Step};
use crate::models::{ClientMessage, ServerMessage};
use crate::outside;
use crate::text;

verus! {

/// Version of the protocol that clients speak.
pub const PROTOCOL_VERSION: u32 = 1;

/// Status of a device that is kept out.
pub const KICKED: &'static str = "kicked";

/// How an introduction ends.
#[derive(Debug)]
pub struct Welcome {
    /// What the client is told.
    pub message: Option<ServerMessage>,
    /// The device that is let in.
    pub device_id: Option<String>,
}

/// An introduction, under way.
#[derive(Debug)]
pub enum ClientHello {
    /// The room is being looked up.
    FindingRoom { device: Introduction },
    /// The device is being received.
    Receiving { inner: UpsertDeviceHello },
}

/// A step of an introduction.
pub type HelloStep = Step<ClientHello, Welcome>;

impl Welcome {
    /// Whether the client is sent away without a word.
    pub open spec fn is_silent(self) -> bool {
        self.message is None && self.device_id is None
    }

    /// Whether the client is told that it speaks another protocol.
    pub open spec fn is_outdated(self) -> bool {
        &&& self.message matches Some(ServerMessage::Kick { reason })
        &&& reason@ == "unsupported protocol version"@
        &&& self.device_id is None
    }

    /// Whether the client is told how it was received; it is let in unless it was kicked.
    pub open spec fn acknowledges(self, reception: Reception) -> bool {
        &&& self.message matches Some(
            ServerMessage::HelloAck { device_id, device_token, status, console_version },
        )
        &&& device_id == reception.device_id
        &&& device_token == reception.new_token
        &&& status == reception.status
        &&& console_version@ == CONSOLE_VERSION@
        &&& self.device_id == (if reception.status@ == KICKED@ {
            None
        } else {
            Some(reception.device_id)
        })
    }
}

impl ClientHello {
    /// The first step: a client that speaks the protocol is asked for its room.
    pub open spec fn started(hello: ClientMessage, peer_ip: String, step: HelloStep) -> bool {
        match hello {
            ClientMessage::Hello {
                room_id,
                device_id,
                device_token,
                device_name,
                protocol_version,
                client_version,
            } => if protocol_version != PROTOCOL_VERSION {
                step matches Step::Done(welcome) && welcome.is_outdated()
            } else {
                &&& step matches Step::Ask(state, call)
                &&& state == (ClientHello::FindingRoom {
                    device: Introduction {
                        room_id,
                        device_id,
                        device_token,
                        device_name,
                        client_version,
                        console_public_ip: Some(peer_ip),
                    },
                })
                &&& call.fetches(rooms::count_room(room_id@))
            },
            _ => step matches Step::Done(welcome) && welcome.is_silent(),
        }
    }

    /// The step when the reception of the device has taken one.
    pub open spec fn receives(
        sub: Step<UpsertDeviceHello, Result<Reception, DbError>>,
        step: HelloStep,
    ) -> bool {
        match sub {
            Step::Ask(inner, call) => step == HelloStep::Ask(
                ClientHello::Receiving { inner },
                call,
            ),
            Step::Done(Ok(reception)) => step matches Step::Done(welcome) && welcome.acknowledges(
                reception,
            ),
            Step::Done(Err(_)) => step matches Step::Done(welcome) && welcome.is_silent(),
        }
    }

    /// How an introduction goes on with a reply: who names no room that exists, or cannot prove
    /// to be a known device, is sent away without a word.
    pub open spec fn resumed(self, reply: Reply, fresh: Fresh, step: HelloStep) -> bool {
        match self {
            ClientHello::FindingRoom { device } => match flow::count_of(reply) {
                Some(n) if n > 0 => exists|sub: Step<UpsertDeviceHello, Result<Reception, DbError>>|
                    #[trigger]
                    UpsertDeviceHello::started(device, fresh, sub) && ClientHello::receives(
                        sub,
                        step,
                    ),
                _ => step matches Step::Done(welcome) && welcome.is_silent(),
            },
            ClientHello::Receiving { inner } => exists|
                sub: Step<UpsertDeviceHello, Result<Reception, DbError>>,
            | #[trigger] inner.resumed(reply, fresh, sub) && ClientHello::receives(sub, step),
        }
    }

    fn receive(sub: Step<UpsertDeviceHello, Result<Reception, DbError>>) -> (step: HelloStep)
        ensures
            ClientHello::receives(sub, step),
    {
        match sub {
            Step::Ask(inner, call) => Step::Ask(ClientHello::Receiving { inner }, call),
            Step::Done(Err(_)) => Step::Done(Welcome { message: None, device_id: None }),
            Step::Done(Ok(reception)) => {
                let admitted = if text::same_text(reception.status.as_str(), KICKED) {
                    None
                } else {
                    Some(reception.device_id.clone())
                };
                let message = ServerMessage::HelloAck {
                    device_id: reception.device_id,
                    device_token: reception.new_token,
                    status: reception.status,
                    console_version: CONSOLE_VERSION.to_string(),
                };
                Step::Done(Welcome { message: Some(message), device_id: admitted })
            },
        }
    }

    /// Takes the reply and goes on.
    pub fn resume(self, db: &Database, reply: Reply, fresh: Fresh) -> (step: HelloStep)
        ensures
            self.resumed(reply, fresh, step),
    {
        match self {
            ClientHello::FindingRoom { device } => {
                let known = match flow::count(reply) {
                    Some(n) => n > 0,
                    None => false,
                };
                if !known {
                    return Step::Done(Welcome { message: None, device_id: None });
                }
                let sub = db.upsert_device_hello(device, fresh);
                assert(UpsertDeviceHello::started(device, fresh, sub));
                ClientHello::receive(sub)
            },
            ClientHello::Receiving { inner } => {
                let sub = inner.resume(reply, fresh);
                assert(inner.resumed(reply, fresh, sub));
                ClientHello::receive(sub)
            },
        }
    }
}

/// Begins to deal with the introduction of a client.
pub fn handle_client_hello(db: &Database, hello: ClientMessage, peer_ip: String) -> (step:
    HelloStep)
    ensures
        ClientHello::started(hello, peer_ip, step),
{
    match hello {
        ClientMessage::Hello {
            room_id,
            device_id,
            device_token,
            device_name,
            protocol_version,
            client_version,
        } => {
            if protocol_version != PROTOCOL_VERSION {
                let message = ServerMessage::Kick {
                    reason: "unsupported protocol version".to_string(),
                };
                return Step::Done(Welcome { message: Some(message), device_id: None });
            }
            let query = db.room_exists(room_id.as_str());
            let device = Introduction {
                room_id,
                device_id,
                device_token,
                device_name,
                client_version,
                console_public_ip: Some(peer_ip),
            };
            Step::Ask(ClientHello::FindingRoom { device }, Call::Fetch(query))
        },
        _ => Step::Done(Welcome { message: None, device_id: None }),
    }
}

/// A kicked device is not let in: an introduction that acknowledges the status of a kicked
/// device ends without letting any in.
pub proof fn law_kicked_device_stays_out(welcome: Welcome, reception: Reception)
    requires
        welcome.acknowledges(reception),
        reception.status@ == KICKED@,
    ensures
        welcome.device_id is None,
{
}

/// Nobody is let in without the room: where the room does not exist, the introduction ends and
/// nothing is stored.
pub proof fn law_unknown_room_stores_nothing(
    device: Introduction,
    reply: Reply,
    fresh: Fresh,
    step: HelloStep,
)
    requires
        (ClientHello::FindingRoom { device }).resumed(reply, fresh, step),
        flow::count_of(reply) is None || flow::count_of(reply)->Some_0 <= 0,
    ensures
        step is Done,
        step->Done_0.is_silent(),
{
}

/// A client that names no token, or no identifier, is stored as a new, pending device, under the
/// fresh identifier, a random UUID, and with the fresh token that it will be told.
pub proof fn law_new_device_is_pending(
    device: Introduction,
    reply: Reply,
    fresh: Fresh,
    step: HelloStep,
)
    requires
        (ClientHello::FindingRoom { device }).resumed(reply, fresh, step),
        flow::count_of(reply) is Some && flow::count_of(reply)->Some_0 > 0,
        device.device_id is None || device.device_token is None,
        fresh.wf(),
    ensures
        step matches Step::Ask(
            ClientHello::Receiving { inner: UpsertDeviceHello::Storing { reception } },
            _,
        ) && reception.device_id == fresh.id && reception.new_token == Some(fresh.secret)
            && reception.status@ == "pending"@,
        outside::is_uuid_v4(fresh.id@),
{
}

} // verus!
