//! What the messages of a device do.
use vstd::prelude::*;
use vstd::string::*;

use crate::client_api::message::{EventReport, MessageFlow, MessageStep};
use crate::client_api::payload::{traffic_of, vnts_status_of};
use crate::client_api::sync::{SyncReport, SyncStep};
use crate::client_api::ClientError;
use crate::db::devices::set_vnts_status;
use crate::db::{Database, DbError};
use crate::flow::{Call, Fresh, Reply};
use crate::json::JsonDocument;
use crate::laws::runs;
use crate::models::ClientMessage;
use crate::sql::{stored_u64, SqlView};

verus! {

/// Whether a step stores an event.
pub open spec fn stores(
    step: MessageStep,
    device_id: Seq<char>,
    event_type: Seq<char>,
    payload: Seq<char>,
    fresh: Fresh,
) -> bool {
    &&& step is Ask
    &&& runs(
        step->Ask_1,
        "INSERT INTO events(id, device_id, event_type, payload, created_at) VALUES(?1, ?2, ?3, ?4, ?5)"@,
        seq![
            SqlView::Text(fresh.id@),
            SqlView::Text(device_id),
            SqlView::Text(event_type),
            SqlView::Text(payload),
            SqlView::Integer(fresh.now),
        ],
    )
}

/// Whether a step stores the traffic of a device.
pub open spec fn stores_traffic(
    step: MessageStep,
    device_id: Seq<char>,
    up: u64,
    down: u64,
    now: i64,
) -> bool {
    &&& step is Ask
    &&& runs(
        step->Ask_1,
        "UPDATE devices SET up_stream = ?1, down_stream = ?2, traffic_updated_at = ?3, last_seen = ?3 WHERE id = ?4"@,
        seq![
            SqlView::Integer(stored_u64(up)),
            SqlView::Integer(stored_u64(down)),
            SqlView::Integer(now),
            SqlView::Text(device_id),
        ],
    )
}

/// Whether a step ends well.
pub open spec fn ends(step: MessageStep) -> bool {
    step == MessageStep::Done(Ok(()))
}

/// A heartbeat notes when the device was heard of, and nothing else; a failure of the database is
/// told.
pub proof fn law_heartbeat_is_noted(
    device_id: String,
    message: ClientMessage,
    fresh: Fresh,
    first: MessageStep,
    db: Database,
    reply: Reply,
    second: MessageStep,
)
    requires
        message is Heartbeat,
        MessageFlow::started(device_id, message, fresh, first),
        first is Ask ==> (first->Ask_0).resumed(db, reply, fresh, second),
    ensures
        first is Ask,
        runs(
            first->Ask_1,
            "UPDATE devices SET last_seen = ?1 WHERE id = ?2"@,
            seq![SqlView::Integer(fresh.now), SqlView::Text(device_id@)],
        ),
        reply is Affected ==> ends(second),
        !(reply is Affected) ==> second == MessageStep::Done(
            Err(ClientError::Stored(DbError::Failed)),
        ),
{
}

/// Traffic that a device counts is stored as it counts it: what it sent as sent, what it received
/// as received.
pub proof fn law_counted_traffic_is_stored(
    device_id: String,
    message: ClientMessage,
    fresh: Fresh,
    first: MessageStep,
    db: Database,
    reply: Reply,
    second: MessageStep,
)
    requires
        message is TrafficStats,
        MessageFlow::started(device_id, message, fresh, first),
        first is Ask ==> (first->Ask_0).resumed(db, reply, fresh, second),
    ensures
        stores_traffic(
            first,
            device_id@,
            message->up_stream,
            message->down_stream,
            fresh.now,
        ),
        reply is Affected ==> ends(second),
{
}

/// Once a device confirms a version, it is stored as the one it runs with, and then the last push
/// to it that was open is marked as received.
pub proof fn law_confirmed_version_is_stored(
    device_id: String,
    message: ClientMessage,
    fresh: Fresh,
    first: MessageStep,
    db: Database,
    reply: Reply,
    second: MessageStep,
    reply2: Reply,
    third: MessageStep,
)
    requires
        message is ConfigAck,
        MessageFlow::started(device_id, message, fresh, first),
        first is Ask ==> (first->Ask_0).resumed(db, reply, fresh, second),
        second is Ask ==> (second->Ask_0).resumed(db, reply2, fresh, third),
        reply is Affected,
        reply2 is Affected,
    ensures
        first is Ask,
        runs(
            first->Ask_1,
            "UPDATE devices SET config_version = ?1, last_seen = ?2, status = CASE WHEN status = 'kicked' THEN status ELSE 'online' END WHERE id = ?3"@,
            seq![
                SqlView::Integer(message->ConfigAck_config_version as i64),
                SqlView::Integer(fresh.now),
                SqlView::Text(device_id@),
            ],
        ),
        second is Ask,
        runs(
            second->Ask_1,
            "UPDATE config_pushes SET acked = 1 WHERE id = (SELECT id FROM config_pushes WHERE device_id = ?1 AND acked = 0 ORDER BY pushed_at DESC LIMIT 1)"@,
            seq![SqlView::Text(device_id@)],
        ),
        ends(third),
{
}

/// A device that takes its leave is forgotten first and then marked offline, unless it was kicked;
/// the leave ends well whatever comes back.
pub proof fn law_leave_is_noted(
    device_id: String,
    message: ClientMessage,
    fresh: Fresh,
    first: MessageStep,
    db: Database,
    reply: Reply,
    second: MessageStep,
    reply2: Reply,
    third: MessageStep,
)
    requires
        message is Disconnect,
        MessageFlow::started(device_id, message, fresh, first),
        first is Ask ==> (first->Ask_0).resumed(db, reply, fresh, second),
        second is Ask ==> (second->Ask_0).resumed(db, reply2, fresh, third),
    ensures
        first is Ask && first->Ask_1 == (Call::Unregister { device_id }),
        second is Ask,
        runs(
            second->Ask_1,
            "UPDATE devices SET status = CASE WHEN status = 'kicked' THEN status ELSE 'offline' END WHERE id = ?1"@,
            seq![SqlView::Text(device_id@)],
        ),
        ends(third),
{
}

/// A second greeting does nothing.
pub proof fn law_second_greeting_does_nothing(
    device_id: String,
    message: ClientMessage,
    fresh: Fresh,
    first: MessageStep,
)
    requires
        message is Hello,
        MessageFlow::started(device_id, message, fresh, first),
    ensures
        ends(first),
{
}

/// A configuration that a device reports while it runs with it is noted under the version that the
/// device reports; of a device that does not run, nothing is noted. Then the room and the group of
/// the device are looked up.
pub proof fn law_reported_state_is_noted_where_it_runs(
    device_id: String,
    message: ClientMessage,
    fresh: Fresh,
    first: MessageStep,
    db: Database,
    reply: Reply,
    second: MessageStep,
)
    requires
        message is ConfigState,
        MessageFlow::started(device_id, message, fresh, first),
        first is Ask && message->running ==> (first->Ask_0).resumed(db, reply, fresh, second),
        first is Ask && !message->running ==> second == first,
        reply is Affected,
    ensures
        first is Ask,
        message->running ==> runs(
            first->Ask_1,
            "UPDATE devices SET config_version = ?1, last_seen = ?2, status = CASE WHEN status = 'kicked' THEN status ELSE 'online' END WHERE id = ?3"@,
            seq![
                SqlView::Integer(message->ConfigState_config_version as i64),
                SqlView::Integer(fresh.now),
                SqlView::Text(device_id@),
            ],
        ),
        second is Ask,
        crate::laws::reads(
            second->Ask_1,
            "SELECT room_id, group_id FROM devices WHERE id = ?1"@,
            seq![SqlView::Text(device_id@)],
            seq![crate::sql::Column::Text, crate::sql::Column::OptionalText],
        ),
        second->Ask_0 is Syncing && second->Ask_0->inner is Looking,
        ({
            let report = second->Ask_0->inner->Looking_report;
            &&& report.device_id == device_id
            &&& report.config_version == message->ConfigState_config_version
            &&& report.group_id == message->group_id
            &&& report.config_name == message->config_name
            &&& report.config == message->config
            &&& report.running == message->running
        }),
{
    let sub = choose|sub: SyncStep| #[trigger]
        SyncReport::started(
            crate::client_api::sync::ConfigReport {
                device_id,
                config_version: message->ConfigState_config_version,
                group_id: message->group_id,
                config_name: message->config_name,
                config: message->config,
                running: message->running,
            },
            fresh.now,
            sub,
        ) && MessageFlow::syncs(sub, first);
    if message->running {
        let next = choose|next: SyncStep| #[trigger]
            sub->Ask_0.resumed(db, reply, fresh, next) && MessageFlow::syncs(next, second);
    }
}

/// Whether the steps from one on store an event and tell those who follow the stream of it: under
/// the same identifier, with the same device, type, payload and time.
pub open spec fn stores_and_publishes(
    step: MessageStep,
    device_id: String,
    event_type: String,
    payload: JsonDocument,
    fresh: Fresh,
) -> bool {
    &&& stores(step, device_id@, event_type@, payload.text@, fresh)
    &&& forall|db: Database, reply: Reply, later: Fresh, next: MessageStep|
        reply is Affected && #[trigger] (step->Ask_0).resumed(db, reply, later, next) ==> {
            &&& next is Ask
            &&& next->Ask_1 is Publish
            &&& next->Ask_1->Publish_0.id == fresh.id
            &&& next->Ask_1->Publish_0.device_id == device_id
            &&& next->Ask_1->Publish_0.event_type == event_type
            &&& next->Ask_1->Publish_0.payload == payload
            &&& next->Ask_1->Publish_0.created_at == fresh.now
        }
    &&& forall|db: Database, reply: Reply, later: Fresh, next: MessageStep|
        !(reply is Affected) && #[trigger] (step->Ask_0).resumed(db, reply, later, next) ==> next
            == MessageStep::Done(Err(ClientError::Stored(DbError::Failed)))
}

/// Every reported event is stored and then published as it was stored, after the traffic or the
/// status that it tells of was stored.
pub proof fn law_reported_event_is_stored_and_published(
    device_id: String,
    message: ClientMessage,
    fresh: Fresh,
    first: MessageStep,
    db: Database,
    later: Fresh,
    second: MessageStep,
    n: u64,
)
    requires
        message is EventReport,
        MessageFlow::started(device_id, message, fresh, first),
        first is Ask ==> (first->Ask_0).resumed(db, Reply::Affected(n), later, second),
    ensures
        ({
            let event_type = message->event_type;
            let payload = message->payload;
            let traffic = traffic_of(event_type@, payload.row);
            let status = vnts_status_of(event_type@, payload.row);
            &&& traffic is Some ==> stores_traffic(
                first,
                device_id@,
                traffic->Some_0.0,
                traffic->Some_0.1,
                fresh.now,
            )
            &&& traffic is Some && status is None ==> stores_and_publishes(
                second,
                device_id,
                event_type,
                payload,
                later,
            )
            &&& traffic is None && status is Some ==> {
                &&& first is Ask
                &&& runs(
                    first->Ask_1,
                    "UPDATE devices SET vnts_status = ?1, vnts_error = ?2, vnts_updated_at = ?3, last_seen = ?3 WHERE id = ?4"@,
                    seq![
                        SqlView::Text(status->Some_0.0),
                        match status->Some_0.1 {
                            Some(error) => SqlView::Text(error),
                            None => SqlView::Null,
                        },
                        SqlView::Integer(fresh.now),
                        SqlView::Text(device_id@),
                    ],
                )
                &&& stores_and_publishes(second, device_id, event_type, payload, later)
            }
            &&& traffic is None && status is None ==> stores_and_publishes(
                first,
                device_id,
                event_type,
                payload,
                fresh,
            )
        }),
{
    let status = vnts_status_of(message->event_type@, message->payload.row);
    if status is Some && traffic_of(message->event_type@, message->payload.row) is None {
        let expected = status->Some_0;
        let error = choose|error: Option<String>|
            #![trigger set_vnts_status(device_id@, expected.0, error, fresh.now)]
            {
                &&& first->Ask_1.executes(
                    set_vnts_status(device_id@, expected.0, error, fresh.now),
                )
                &&& match (error, expected.1) {
                    (None, None) => true,
                    (Some(a), Some(b)) => a@ == b,
                    _ => false,
                }
            };
    }
}

/// A number is stored with the bits that it has.
pub proof fn law_stored_number_keeps_its_bits(n: u64)
    ensures
        stored_u64(n) as int % 0x1_0000_0000_0000_0000 == n,
        n <= 0x7fff_ffff_ffff_ffff ==> stored_u64(n) == n,
{
}

} // verus!
