//! Messages of a device that was let in.
use vstd::prelude::*;
use vstd::string::*;

use crate::api::push::{PushConfig, PushStep};
use crate::client_api::payload;
use crate::client_api::sync;
use crate::client_api::sync::{
    ClientOutcome, ConfigReport, DecisionStep, PushDecision, SyncReport, SyncStep,
};
use crate::client_api::ClientError;
use crate::db::device_config::{ConfigOutcome, DeviceConfig};
use crate::db::devices;
use crate::db::events;
use crate::db::{Database, DbError};
use crate::flow;
use crate::flow::{Call, EventNotice, Fresh, Reply, Step};
use crate::json::JsonDocument;
use crate::models::ClientMessage;

verus! {

/// An event as a device reported it.
#[derive(Debug)]
pub struct EventReport {
    pub device_id: String,
    pub event_type: String,
    pub payload: JsonDocument,
}

/// A message being dealt with.
#[derive(Debug)]
pub enum MessageFlow {
    /// The traffic that an event tells of is being stored.
    StoringTraffic { report: EventReport },
    /// The connection that an event tells of is being stored.
    StoringStatus { report: EventReport },
    /// An event is being stored.
    StoringEvent { notice: EventNotice },
    /// An event is being told to those who follow.
    Publishing,
    /// A version that a device received is being stored.
    Acknowledging { device_id: String },
    /// What a device reports of its configuration is being dealt with.
    Syncing { inner: SyncReport },
    /// The last statement is being run.
    Finishing,
    /// The connection of a device is being forgotten.
    Disconnecting { device_id: String },
    /// A device is being marked as gone.
    Leaving,
}

/// A step of dealing with a message.
pub type MessageStep = Step<MessageFlow, ClientOutcome>;

/// Whether a call stores the status and the error that an event tells of.
pub open spec fn stores_status(
    call: Call,
    device_id: Seq<char>,
    expected: (Seq<char>, Option<Seq<char>>),
    now: i64,
) -> bool {
    exists|error: Option<String>|
        #![trigger devices::set_vnts_status(device_id, expected.0, error, now)]
        {
            &&& call.executes(devices::set_vnts_status(device_id, expected.0, error, now))
            &&& match (error, expected.1) {
                (None, None) => true,
                (Some(a), Some(b)) => a@ == b,
                _ => false,
            }
        }
}

impl MessageFlow {
    /// The step that stores an event, under a fresh identifier.
    pub open spec fn stores_event(report: EventReport, fresh: Fresh, step: MessageStep) -> bool {
        &&& step matches Step::Ask(state, call)
        &&& state == (MessageFlow::StoringEvent {
            notice: EventNotice {
                id: fresh.id,
                device_id: report.device_id,
                event_type: report.event_type,
                payload: report.payload,
                created_at: fresh.now,
            },
        })
        &&& call.executes(
            events::insert_event(
                fresh.id@,
                report.device_id@,
                report.event_type@,
                report.payload.text@,
                fresh.now,
            ),
        )
    }

    /// The step after the traffic of an event: the connection that it tells of is stored, or
    /// else the event.
    pub open spec fn after_traffic(report: EventReport, fresh: Fresh, step: MessageStep) -> bool {
        match payload::vnts_status_of(report.event_type@, report.payload.row) {
            Some(expected) => {
                &&& step matches Step::Ask(MessageFlow::StoringStatus { report: r }, call)
                &&& r == report
                &&& stores_status(call, report.device_id@, expected, fresh.now)
            },
            None => MessageFlow::stores_event(report, fresh, step),
        }
    }

    /// The first step of an event: the traffic that it tells of is stored first.
    pub open spec fn reports(report: EventReport, fresh: Fresh, step: MessageStep) -> bool {
        match payload::traffic_of(report.event_type@, report.payload.row) {
            Some((up, down)) => {
                &&& step matches Step::Ask(MessageFlow::StoringTraffic { report: r }, call)
                &&& r == report
                &&& call.executes(
                    devices::set_traffic(report.device_id@, up, down, fresh.now),
                )
            },
            None => MessageFlow::after_traffic(report, fresh, step),
        }
    }

    /// The step when dealing with a report has taken one.
    pub open spec fn syncs(sub: SyncStep, step: MessageStep) -> bool {
        match sub {
            Step::Ask(inner, call) => step == MessageStep::Ask(
                MessageFlow::Syncing { inner },
                call,
            ),
            Step::Done(outcome) => step == MessageStep::Done(outcome),
        }
    }

    /// The step that forgets the connection of a device.
    pub open spec fn disconnects(device_id: String, step: MessageStep) -> bool {
        step == MessageStep::Ask(
            MessageFlow::Disconnecting { device_id },
            Call::Unregister { device_id },
        )
    }

    /// The first step for a message of a device.
    pub open spec fn started(
        device_id: String,
        message: ClientMessage,
        fresh: Fresh,
        step: MessageStep,
    ) -> bool {
        match message {
            ClientMessage::EventReport { event_type, payload, .. } => MessageFlow::reports(
                EventReport { device_id, event_type, payload },
                fresh,
                step,
            ),
            ClientMessage::ConfigAck { config_version } => {
                &&& step matches Step::Ask(state, call)
                &&& state == (MessageFlow::Acknowledging { device_id })
                &&& call.executes(
                    devices::mark_running(device_id@, config_version, fresh.now),
                )
            },
            ClientMessage::ConfigState {
                config_version,
                group_id,
                config_name,
                config,
                running,
            } => exists|sub: SyncStep| #[trigger]
                SyncReport::started(
                    ConfigReport {
                        device_id,
                        config_version,
                        group_id,
                        config_name,
                        config,
                        running,
                    },
                    fresh.now,
                    sub,
                ) && MessageFlow::syncs(sub, step),
            ClientMessage::Heartbeat { .. } => step matches Step::Ask(
                MessageFlow::Finishing,
                call,
            ) && call.executes(devices::mark_seen(device_id@, fresh.now)),
            ClientMessage::Disconnect { .. } => MessageFlow::disconnects(device_id, step),
            ClientMessage::TrafficStats { up_stream, down_stream, .. } => step matches Step::Ask(
                MessageFlow::Finishing,
                call,
            ) && call.executes(
                devices::set_traffic(device_id@, up_stream, down_stream, fresh.now),
            ),
            ClientMessage::Hello { .. } => step == MessageStep::Done(Ok(())),
        }
    }

    /// How it goes on with a reply.
    pub open spec fn resumed(
        self,
        db: Database,
        reply: Reply,
        fresh: Fresh,
        step: MessageStep,
    ) -> bool {
        let failed = MessageStep::Done(Err(ClientError::Stored(DbError::Failed)));
        match self {
            MessageFlow::StoringTraffic { report } => match flow::affected_of(reply) {
                None => step == failed,
                Some(_) => MessageFlow::after_traffic(report, fresh, step),
            },
            MessageFlow::StoringStatus { report } => match flow::affected_of(reply) {
                None => step == failed,
                Some(_) => MessageFlow::stores_event(report, fresh, step),
            },
            MessageFlow::StoringEvent { notice } => match flow::affected_of(reply) {
                None => step == failed,
                Some(_) => step == MessageStep::Ask(
                    MessageFlow::Publishing,
                    Call::Publish(notice),
                ),
            },
            MessageFlow::Publishing => step == MessageStep::Done(Ok(())),
            MessageFlow::Acknowledging { device_id } => match flow::affected_of(reply) {
                None => step == failed,
                Some(_) => step matches Step::Ask(MessageFlow::Finishing, call) && call.executes(
                    devices::mark_acked(device_id@),
                ),
            },
            MessageFlow::Syncing { inner } => exists|sub: SyncStep| #[trigger]
                inner.resumed(db, reply, fresh, sub) && MessageFlow::syncs(sub, step),
            MessageFlow::Finishing => step == MessageStep::Done(
                match flow::affected_of(reply) {
                    Some(_) => Ok(()),
                    None => Err(ClientError::Stored(DbError::Failed)),
                },
            ),
            MessageFlow::Disconnecting { device_id } => step matches Step::Ask(
                MessageFlow::Leaving,
                call,
            ) && call.executes(devices::mark_offline(device_id@)),
            MessageFlow::Leaving => step == MessageStep::Done(Ok(())),
        }
    }

    fn store_event(db: &Database, report: EventReport, fresh: Fresh) -> (step: MessageStep)
        ensures
            MessageFlow::stores_event(report, fresh, step),
    {
        let statement = db.insert_event(
            fresh.id.as_str(),
            report.device_id.as_str(),
            report.event_type.as_str(),
            report.payload.text.as_str(),
            fresh.now,
        );
        let notice = EventNotice {
            id: fresh.id,
            device_id: report.device_id,
            event_type: report.event_type,
            payload: report.payload,
            created_at: fresh.now,
        };
        Step::Ask(MessageFlow::StoringEvent { notice }, Call::Execute(statement))
    }

    fn store_status(db: &Database, report: EventReport, fresh: Fresh) -> (step: MessageStep)
        ensures
            MessageFlow::after_traffic(report, fresh, step),
    {
        match payload::vnts_status_from_payload(report.event_type.as_str(), &report.payload.row) {
            Some((status, error)) => {
                let statement = db.update_device_vnts_status(
                    report.device_id.as_str(),
                    status.as_str(),
                    &error,
                    fresh.now,
                );
                assert(statement@ == devices::set_vnts_status(
                    report.device_id@,
                    status@,
                    error,
                    fresh.now,
                ));
                Step::Ask(MessageFlow::StoringStatus { report }, Call::Execute(statement))
            },
            None => MessageFlow::store_event(db, report, fresh),
        }
    }

    fn report(db: &Database, report: EventReport, fresh: Fresh) -> (step: MessageStep)
        ensures
            MessageFlow::reports(report, fresh, step),
    {
        match payload::traffic_from_payload(report.event_type.as_str(), &report.payload.row) {
            Some((up, down)) => {
                let statement = db.update_device_traffic(
                    report.device_id.as_str(),
                    up,
                    down,
                    fresh.now,
                );
                Step::Ask(MessageFlow::StoringTraffic { report }, Call::Execute(statement))
            },
            None => MessageFlow::store_status(db, report, fresh),
        }
    }

    fn sync(sub: SyncStep) -> (step: MessageStep)
        ensures
            MessageFlow::syncs(sub, step),
    {
        match sub {
            Step::Ask(inner, call) => Step::Ask(MessageFlow::Syncing { inner }, call),
            Step::Done(outcome) => Step::Done(outcome),
        }
    }

    /// Takes the reply and goes on.
    pub fn resume(self, db: &Database, reply: Reply, fresh: Fresh) -> (step: MessageStep)
        ensures
            self.resumed(*db, reply, fresh, step),
    {
        match self {
            MessageFlow::StoringTraffic { report } => match flow::affected(reply) {
                None => Step::Done(Err(ClientError::Stored(DbError::Failed))),
                Some(_) => MessageFlow::store_status(db, report, fresh),
            },
            MessageFlow::StoringStatus { report } => match flow::affected(reply) {
                None => Step::Done(Err(ClientError::Stored(DbError::Failed))),
                Some(_) => MessageFlow::store_event(db, report, fresh),
            },
            MessageFlow::StoringEvent { notice } => match flow::affected(reply) {
                None => Step::Done(Err(ClientError::Stored(DbError::Failed))),
                Some(_) => Step::Ask(MessageFlow::Publishing, Call::Publish(notice)),
            },
            MessageFlow::Publishing => Step::Done(Ok(())),
            MessageFlow::Acknowledging { device_id } => match flow::affected(reply) {
                None => Step::Done(Err(ClientError::Stored(DbError::Failed))),
                Some(_) => Step::Ask(
                    MessageFlow::Finishing,
                    Call::Execute(db.acknowledge_push(device_id.as_str())),
                ),
            },
            MessageFlow::Syncing { inner } => {
                let sub = inner.resume(db, reply, fresh);
                assert(inner.resumed(*db, reply, fresh, sub));
                MessageFlow::sync(sub)
            },
            MessageFlow::Finishing => match flow::affected(reply) {
                Some(_) => Step::Done(Ok(())),
                None => Step::Done(Err(ClientError::Stored(DbError::Failed))),
            },
            MessageFlow::Disconnecting { device_id } => Step::Ask(
                MessageFlow::Leaving,
                Call::Execute(db.mark_device_offline(device_id.as_str())),
            ),
            MessageFlow::Leaving => Step::Done(Ok(())),
        }
    }
}

/// Begins to deal with a message of a device.
pub fn handle_client_message(
    db: &Database,
    device_id: String,
    message: ClientMessage,
    fresh: Fresh,
) -> (step: MessageStep)
    ensures
        MessageFlow::started(device_id, message, fresh, step),
{
    match message {
        ClientMessage::EventReport { event_type, payload, timestamp: _ } => MessageFlow::report(
            db,
            EventReport { device_id, event_type, payload },
            fresh,
        ),
        ClientMessage::ConfigAck { config_version } => {
            let statement = db.mark_device_running(device_id.as_str(), config_version, fresh.now);
            Step::Ask(MessageFlow::Acknowledging { device_id }, Call::Execute(statement))
        },
        ClientMessage::ConfigState { config_version, group_id, config_name, config, running } => {
            let report = ConfigReport {
                device_id,
                config_version,
                group_id,
                config_name,
                config,
                running,
            };
            let sub = sync::sync_reported_config_state(db, report, fresh.now);
            assert(SyncReport::started(report, fresh.now, sub));
            MessageFlow::sync(sub)
        },
        ClientMessage::Heartbeat { timestamp: _ } => Step::Ask(
            MessageFlow::Finishing,
            Call::Execute(db.mark_device_seen(device_id.as_str(), fresh.now)),
        ),
        ClientMessage::Disconnect { timestamp: _ } => close_session(device_id),
        ClientMessage::TrafficStats { up_stream, down_stream, timestamp: _ } => Step::Ask(
            MessageFlow::Finishing,
            Call::Execute(
                db.update_device_traffic(device_id.as_str(), up_stream, down_stream, fresh.now),
            ),
        ),
        ClientMessage::Hello { .. } => Step::Done(Ok(())),
    }
}

/// Begins to take leave of a device whose connection has ended.
pub fn close_session(device_id: String) -> (step: MessageStep)
    ensures
        MessageFlow::disconnects(device_id, step),
{
    let leaving = device_id.clone();
    Step::Ask(
        MessageFlow::Disconnecting { device_id },
        Call::Unregister { device_id: leaving },
    )
}

/// Traffic is stored alike however it is reported: an event that tells of traffic begins with the
/// statement that a message of its own for the same numbers consists of.
pub proof fn law_traffic_is_stored_alike(
    report: EventReport,
    fresh: Fresh,
    event_step: MessageStep,
    timestamp: u64,
    message_step: MessageStep,
)
    requires
        payload::traffic_of(report.event_type@, report.payload.row) is Some,
        MessageFlow::reports(report, fresh, event_step),
        ({
            let (up_stream, down_stream) = payload::traffic_of(
                report.event_type@,
                report.payload.row,
            )->Some_0;
            MessageFlow::started(
                report.device_id,
                ClientMessage::TrafficStats { up_stream, down_stream, timestamp },
                fresh,
                message_step,
            )
        }),
    ensures
        event_step is Ask && message_step is Ask,
        event_step->Ask_1 is Execute && message_step->Ask_1 is Execute,
        event_step->Ask_1->Execute_0@ == message_step->Ask_1->Execute_0@,
{
}

proof fn lemma_config_tells_nobody(
    inner: DeviceConfig,
    db: Database,
    reply: Reply,
    sub: Step<DeviceConfig, ConfigOutcome>,
)
    requires
        inner.resumed(db, reply, sub),
    ensures
        sub is Ask ==> !(sub->Ask_1 is Publish),
{
}

proof fn lemma_push_tells_nobody(
    inner: PushConfig,
    db: Database,
    reply: Reply,
    fresh: Fresh,
    sub: PushStep,
)
    requires
        inner.resumed(db, reply, fresh, sub),
    ensures
        sub is Ask ==> !(sub->Ask_1 is Publish),
{
    if let PushConfig::Composing { device_id, inner: config } = inner {
        let step = choose|step: Step<DeviceConfig, ConfigOutcome>| #[trigger]
            config.resumed(db, reply, step) && PushConfig::composed(device_id, step, sub);
        lemma_config_tells_nobody(config, db, reply, step);
    }
}

proof fn lemma_decision_tells_nobody(
    inner: PushDecision,
    db: Database,
    reply: Reply,
    fresh: Fresh,
    sub: DecisionStep,
)
    requires
        inner.resumed(db, reply, fresh, sub),
    ensures
        sub is Ask ==> !(sub->Ask_1 is Publish),
{
    match inner {
        PushDecision::Comparing { device_id, rule, inner: config } => {
            let step = choose|step: Step<DeviceConfig, ConfigOutcome>| #[trigger]
                config.resumed(db, reply, step) && PushDecision::compares(
                    device_id,
                    rule,
                    step,
                    sub,
                );
            lemma_config_tells_nobody(config, db, reply, step);
        },
        PushDecision::Pushing { inner: push } => {
            let step = choose|step: PushStep| #[trigger]
                push.resumed(db, reply, fresh, step) && PushDecision::pushes(step, sub);
            lemma_push_tells_nobody(push, db, reply, fresh, step);
        },
    }
}

proof fn lemma_sync_tells_nobody(
    inner: SyncReport,
    db: Database,
    reply: Reply,
    fresh: Fresh,
    sub: SyncStep,
)
    requires
        inner.resumed(db, reply, fresh, sub),
    ensures
        sub is Ask ==> !(sub->Ask_1 is Publish),
{
    match inner {
        SyncReport::Deciding { inner: decision } => {
            let step = choose|step: DecisionStep| #[trigger]
                decision.resumed(db, reply, fresh, step) && SyncReport::decides(step, sub);
            lemma_decision_tells_nobody(decision, db, reply, fresh, step);
        },
        _ => {},
    }
}

/// An event is told to those who follow only after it was stored, and as it was stored.
pub proof fn law_event_is_stored_before_it_is_told(
    state: MessageFlow,
    db: Database,
    reply: Reply,
    fresh: Fresh,
    step: MessageStep,
    notice: EventNotice,
)
    requires
        state.resumed(db, reply, fresh, step),
        step is Ask,
        step->Ask_1 == Call::Publish(notice),
    ensures
        state == (MessageFlow::StoringEvent { notice }),
        flow::affected_of(reply) is Some,
{
    if let MessageFlow::Syncing { inner } = state {
        let sub = choose|sub: SyncStep| #[trigger]
            inner.resumed(db, reply, fresh, sub) && MessageFlow::syncs(sub, step);
        lemma_sync_tells_nobody(inner, db, reply, fresh, sub);
    }
}

} // verus!
