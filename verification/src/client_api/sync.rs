//! Keeping the configuration of a device and that of the console in step.
use vstd::prelude::*;
use vstd::string::*;

use crate::api::push;
use crate::api::push::{PushConfig, PushStep};
use crate::client_api::ClientError;
use crate::db::device_config;
use crate::db::device_config::{ConfigOutcome, DeviceConfig};
use crate::db::devices;
use crate::db::group_store;
use crate::db::group_store::{CreateGroup, SetDeviceGroup};
use crate::db::{Database, DbError};
use crate::flow;
use crate::flow::{Call, Fresh, Reply, Step};
use crate::models::{Group, VntClientConfig};
use crate::sql;
use crate::sql::{Column, Query, QueryView, Statement};
use crate::text;

verus! {

/// When a device is sent the console's configuration.
#[derive(Clone, Copy, Debug, PartialEq, Eq, Structural)]
pub enum PushRule {
    /// When the console's version is newer than the stored version of the device.
    Newer { device_version: i64 },
    /// When the console's version differs from the one that the device reported.
    Differs { reported_version: u32 },
}

impl PushRule {
    /// Whether a version of the console is to be sent.
    pub open spec fn calls_for(self, version: i64) -> bool {
        match self {
            PushRule::Newer { device_version } => version > device_version,
            PushRule::Differs { reported_version } => sql::low_u32(version) != reported_version,
        }
    }

    fn applies(&self, version: i64) -> (applies: bool)
        ensures
            applies == self.calls_for(version),
    {
        match self {
            PushRule::Newer { device_version } => version > *device_version,
            PushRule::Differs { reported_version } => sql::truncate_u32(version)
                != *reported_version,
        }
    }
}

/// The outcome of dealing with a message of a client.
pub type ClientOutcome = Result<(), ClientError>;

/// A configuration that is pushed where a rule calls for it.
#[derive(Debug)]
pub enum PushDecision {
    /// The configuration of the device is being put together.
    Comparing { device_id: String, rule: PushRule, inner: DeviceConfig },
    /// The configuration is being pushed.
    Pushing { inner: PushConfig },
}

/// A step of such a push.
pub type DecisionStep = Step<PushDecision, ClientOutcome>;

impl PushDecision {
    /// The first step: the console's configuration of the device is put together.
    pub open spec fn started(device_id: String, rule: PushRule, step: DecisionStep) -> bool {
        &&& step matches Step::Ask(state, call)
        &&& state == (PushDecision::Comparing {
            device_id,
            rule,
            inner: DeviceConfig::Looking { device_id, override_group_id: None },
        })
        &&& call.fetches(device_config::select_device(device_id@))
    }

    /// The step when the push has taken one.
    pub open spec fn pushes(sub: PushStep, step: DecisionStep) -> bool {
        match sub {
            Step::Ask(inner, call) => step == DecisionStep::Ask(
                PushDecision::Pushing { inner },
                call,
            ),
            Step::Done(Ok(_)) => step == DecisionStep::Done(Ok(())),
            Step::Done(Err(status)) => step == DecisionStep::Done(Err(ClientError::Push(status))),
        }
    }

    /// The step when the search for the configuration has taken one: where the rule calls for
    /// it, the configuration is pushed.
    pub open spec fn compares(
        device_id: String,
        rule: PushRule,
        sub: Step<DeviceConfig, ConfigOutcome>,
        step: DecisionStep,
    ) -> bool {
        match sub {
            Step::Ask(inner, call) => step == DecisionStep::Ask(
                PushDecision::Comparing { device_id, rule, inner },
                call,
            ),
            Step::Done(Err(e)) => step == DecisionStep::Done(Err(ClientError::Stored(e))),
            Step::Done(Ok(None)) => step == DecisionStep::Done(Ok(())),
            Step::Done(Ok(Some(effective))) => if rule.calls_for(effective.version) {
                exists|push: PushStep| #[trigger]
                    PushConfig::started(device_id, None, push) && PushDecision::pushes(push, step)
            } else {
                step == DecisionStep::Done(Ok(()))
            },
        }
    }

    /// How it goes on with a reply.
    pub open spec fn resumed(
        self,
        db: Database,
        reply: Reply,
        fresh: Fresh,
        step: DecisionStep,
    ) -> bool {
        match self {
            PushDecision::Comparing { device_id, rule, inner } => exists|
                sub: Step<DeviceConfig, ConfigOutcome>,
            | #[trigger]
                inner.resumed(db, reply, sub) && PushDecision::compares(
                    device_id,
                    rule,
                    sub,
                    step,
                ),
            PushDecision::Pushing { inner } => exists|sub: PushStep| #[trigger]
                inner.resumed(db, reply, fresh, sub) && PushDecision::pushes(sub, step),
        }
    }

    fn push(sub: PushStep) -> (step: DecisionStep)
        ensures
            PushDecision::pushes(sub, step),
    {
        match sub {
            Step::Ask(inner, call) => Step::Ask(PushDecision::Pushing { inner }, call),
            Step::Done(Ok(_)) => Step::Done(Ok(())),
            Step::Done(Err(status)) => Step::Done(Err(ClientError::Push(status))),
        }
    }

    fn start(db: &Database, device_id: String, rule: PushRule) -> (step: DecisionStep)
        ensures
            PushDecision::started(device_id, rule, step),
    {
        match db.device_config(device_id.clone(), None) {
            Step::Ask(inner, call) => Step::Ask(
                PushDecision::Comparing { device_id, rule, inner },
                call,
            ),
            Step::Done(_) => Step::Done(Ok(())),
        }
    }

    /// Takes the reply and goes on.
    pub fn resume(self, db: &Database, reply: Reply, fresh: Fresh) -> (step: DecisionStep)
        ensures
            self.resumed(*db, reply, fresh, step),
    {
        match self {
            PushDecision::Comparing { device_id, rule, inner } => {
                let sub = inner.resume(db, reply);
                assert(inner.resumed(*db, reply, sub));
                match sub {
                    Step::Ask(inner, call) => Step::Ask(
                        PushDecision::Comparing { device_id, rule, inner },
                        call,
                    ),
                    Step::Done(Err(e)) => Step::Done(Err(ClientError::Stored(e))),
                    Step::Done(Ok(None)) => Step::Done(Ok(())),
                    Step::Done(Ok(Some(effective))) => if rule.applies(effective.version) {
                        let push = push::push_config_to_device(db, device_id, None);
                        assert(PushConfig::started(device_id, None, push));
                        PushDecision::push(push)
                    } else {
                        Step::Done(Ok(()))
                    },
                }
            },
            PushDecision::Pushing { inner } => {
                let sub = inner.resume(db, reply, fresh);
                assert(inner.resumed(*db, reply, fresh, sub));
                PushDecision::push(sub)
            },
        }
    }
}

/// Text of the query for the group and the version of a device.
pub const SELECT_STANDING: &'static str =
    "SELECT group_id, config_version FROM devices WHERE id = ?1";

/// Finds the group and the version of a device.
pub open spec fn select_standing(device_id: Seq<char>) -> QueryView {
    sql::query(sql::statement(SELECT_STANDING@).text(device_id)).column(
        Column::OptionalText,
    ).column(Column::Integer)
}

/// A device that was let in being brought up to date.
#[derive(Debug)]
pub enum PushCurrent {
    /// The group and the version of the device are being looked up.
    Looking { device_id: String },
    /// The console's configuration is being compared and pushed.
    Deciding { inner: PushDecision },
}

/// A step of bringing a device up to date.
pub type CurrentStep = Step<PushCurrent, ClientOutcome>;

impl PushCurrent {
    /// The first step: the group and the version of the device are looked up.
    pub open spec fn started(device_id: String, step: CurrentStep) -> bool {
        step matches Step::Ask(state, call) && state == (PushCurrent::Looking { device_id })
            && call.fetches(select_standing(device_id@))
    }

    /// The step when the decision has taken one.
    pub open spec fn decides(sub: DecisionStep, step: CurrentStep) -> bool {
        match sub {
            Step::Ask(inner, call) => step == CurrentStep::Ask(
                PushCurrent::Deciding { inner },
                call,
            ),
            Step::Done(outcome) => step == CurrentStep::Done(outcome),
        }
    }

    /// How it goes on with a reply: a device in a group is sent the configuration of the
    /// console where it is newer.
    pub open spec fn resumed(
        self,
        db: Database,
        reply: Reply,
        fresh: Fresh,
        step: CurrentStep,
    ) -> bool {
        match self {
            PushCurrent::Looking { device_id } => match flow::row_of(reply) {
                None => step == CurrentStep::Done(Err(ClientError::Stored(DbError::Failed))),
                Some(None) => step == CurrentStep::Done(Ok(())),
                Some(Some(row)) => match (
                    sql::optional_text_cell(row, 0),
                    sql::integer_cell(row, 1),
                ) {
                    (Some(None), Some(_)) => step == CurrentStep::Done(Ok(())),
                    (Some(Some(_)), Some(device_version)) => exists|sub: DecisionStep| #[trigger]
                        PushDecision::started(device_id, PushRule::Newer { device_version }, sub)
                            && PushCurrent::decides(sub, step),
                    _ => step == CurrentStep::Done(Err(ClientError::Stored(DbError::Failed))),
                },
            },
            PushCurrent::Deciding { inner } => exists|sub: DecisionStep| #[trigger]
                inner.resumed(db, reply, fresh, sub) && PushCurrent::decides(sub, step),
        }
    }

    fn decide(sub: DecisionStep) -> (step: CurrentStep)
        ensures
            PushCurrent::decides(sub, step),
    {
        match sub {
            Step::Ask(inner, call) => Step::Ask(PushCurrent::Deciding { inner }, call),
            Step::Done(outcome) => Step::Done(outcome),
        }
    }

    /// Takes the reply and goes on.
    pub fn resume(self, db: &Database, reply: Reply, fresh: Fresh) -> (step: CurrentStep)
        ensures
            self.resumed(*db, reply, fresh, step),
    {
        match self {
            PushCurrent::Looking { device_id } => {
                let row = match flow::first_row(reply) {
                    None => return Step::Done(Err(ClientError::Stored(DbError::Failed))),
                    Some(None) => return Step::Done(Ok(())),
                    Some(Some(row)) => row,
                };
                match (sql::optional_text_at(&row, 0), sql::integer_at(&row, 1)) {
                    (Some(None), Some(_)) => Step::Done(Ok(())),
                    (Some(Some(_)), Some(device_version)) => {
                        let rule = PushRule::Newer { device_version };
                        let sub = PushDecision::start(db, device_id, rule);
                        assert(PushDecision::started(device_id, rule, sub));
                        PushCurrent::decide(sub)
                    },
                    _ => Step::Done(Err(ClientError::Stored(DbError::Failed))),
                }
            },
            PushCurrent::Deciding { inner } => {
                let sub = inner.resume(db, reply, fresh);
                assert(inner.resumed(*db, reply, fresh, sub));
                PushCurrent::decide(sub)
            },
        }
    }
}

/// Begins to bring a device up to date.
pub fn push_current_config_if_needed(device_id: String) -> (step: CurrentStep)
    ensures
        PushCurrent::started(device_id, step),
{
    let query = Query::new(Statement::new(SELECT_STANDING).text(device_id.as_str())).column(
        Column::OptionalText,
    ).column(Column::Integer);
    Step::Ask(PushCurrent::Looking { device_id }, Call::Fetch(query))
}

/// What a device reports of the configuration it has.
#[derive(Debug)]
pub struct ConfigReport {
    pub device_id: String,
    pub config_version: u32,
    pub group_id: Option<String>,
    pub config_name: Option<String>,
    pub config: VntClientConfig,
    /// Whether the device runs with it.
    pub running: bool,
}

/// Text of the query for the room and the group of a device.
pub const SELECT_HOME: &'static str = "SELECT room_id, group_id FROM devices WHERE id = ?1";

/// Finds the room and the group of a device.
pub open spec fn select_home(device_id: Seq<char>) -> QueryView {
    sql::query(sql::statement(SELECT_HOME@).text(device_id)).column(Column::Text).column(
        Column::OptionalText,
    )
}

fn select_home_query(device_id: &str) -> (q: Query)
    ensures
        q@ == select_home(device_id@),
{
    Query::new(Statement::new(SELECT_HOME).text(device_id)).column(Column::Text).column(
        Column::OptionalText,
    )
}

/// Name of a group that is made of a configuration without a name.
pub const CACHED_CONFIG_NAME: &'static str = "客户端缓存配置";

/// Whether a name is the one that a group gets: the reported one, unless it is blank.
pub open spec fn is_group_name(reported: Option<String>, name: Seq<char>) -> bool {
    match reported {
        Some(n) if !text::is_blank(n@) => name == n@,
        _ => name == CACHED_CONFIG_NAME@,
    }
}

fn choose_group_name(reported: Option<String>) -> (name: String)
    ensures
        is_group_name(reported, name@),
{
    match reported {
        Some(n) => if text::blank(n.as_str()) {
            CACHED_CONFIG_NAME.to_string()
        } else {
            n
        },
        None => CACHED_CONFIG_NAME.to_string(),
    }
}

/// A report of a device being dealt with.
#[derive(Debug)]
pub enum SyncReport {
    /// It is being noted what the device runs with.
    Noting { report: ConfigReport },
    /// The room and the group of the device are being looked up.
    Looking { report: ConfigReport },
    /// The reported group is being looked up in the room.
    Finding { report: ConfigReport, room_id: String, group_id: String },
    /// The device is being moved into the reported group.
    Joining { device_id: String, config_version: u32, inner: SetDeviceGroup },
    /// The console's configuration is being compared and pushed.
    Deciding { inner: PushDecision },
    /// A group is being made of the reported configuration.
    Creating { device_id: String, room_id: String, config_version: u32, inner: CreateGroup },
    /// The device is being moved into the new group.
    Assigning { device_id: String, config_version: u32, inner: SetDeviceGroup },
    /// The version of the device is being stored.
    Versioning,
}

/// A step of dealing with a report.
pub type SyncStep = Step<SyncReport, ClientOutcome>;

impl SyncReport {
    /// The step that looks up the room and the group of the device.
    pub open spec fn looks(report: ConfigReport, step: SyncStep) -> bool {
        &&& step matches Step::Ask(state, call)
        &&& state == (SyncReport::Looking { report })
        &&& call.fetches(select_home(report.device_id@))
    }

    /// The first step: what the device runs with is noted first, where it runs.
    pub open spec fn started(report: ConfigReport, now: i64, step: SyncStep) -> bool {
        if report.running {
            &&& step matches Step::Ask(state, call)
            &&& state == (SyncReport::Noting { report })
            &&& call.executes(
                devices::mark_running(report.device_id@, report.config_version, now),
            )
        } else {
            SyncReport::looks(report, step)
        }
    }

    /// The step when the decision to push has taken one.
    pub open spec fn decides(sub: DecisionStep, step: SyncStep) -> bool {
        match sub {
            Step::Ask(inner, call) => step == SyncStep::Ask(SyncReport::Deciding { inner }, call),
            Step::Done(outcome) => step == SyncStep::Done(outcome),
        }
    }

    /// The step that sends the console's configuration where the reported version differs.
    pub open spec fn corrects(device_id: String, reported_version: u32, step: SyncStep) -> bool {
        exists|sub: DecisionStep| #[trigger]
            PushDecision::started(device_id, PushRule::Differs { reported_version }, sub)
                && SyncReport::decides(sub, step)
    }

    /// The step when the creation of a group has taken one: the device moves into the group.
    pub open spec fn creates(
        device_id: String,
        room_id: String,
        config_version: u32,
        sub: Step<CreateGroup, Result<Group, DbError>>,
        step: SyncStep,
    ) -> bool {
        match sub {
            Step::Ask(inner, call) => step == SyncStep::Ask(
                SyncReport::Creating { device_id, room_id, config_version, inner },
                call,
            ),
            Step::Done(Err(e)) => step == SyncStep::Done(Err(ClientError::Stored(e))),
            Step::Done(Ok(group)) => exists|move_step: Step<SetDeviceGroup, Result<(), DbError>>|
                #[trigger]
                SetDeviceGroup::started(room_id, Some(group.id), device_id, move_step)
                    && SyncReport::assigns(device_id, config_version, move_step, step),
        }
    }

    /// The step that makes a group of the reported configuration, with the reported version.
    pub open spec fn adopts(report: ConfigReport, room_id: String, step: SyncStep) -> bool {
        exists|name: String, sub: Step<CreateGroup, Result<Group, DbError>>|
            is_group_name(report.config_name, name@) && #[trigger] CreateGroup::started(
                room_id,
                name,
                report.config,
                report.config_version as i64,
                sub,
            ) && SyncReport::creates(
                report.device_id,
                room_id,
                report.config_version,
                sub,
                step,
            )
    }

    /// The step when the move into the new group has taken one.
    pub open spec fn assigns(
        device_id: String,
        config_version: u32,
        sub: Step<SetDeviceGroup, Result<(), DbError>>,
        step: SyncStep,
    ) -> bool {
        match sub {
            Step::Ask(inner, call) => step == SyncStep::Ask(
                SyncReport::Assigning { device_id, config_version, inner },
                call,
            ),
            Step::Done(Err(e)) => step == SyncStep::Done(Err(ClientError::Stored(e))),
            Step::Done(Ok(())) => step matches Step::Ask(SyncReport::Versioning, call)
                && call.executes(devices::set_device_version(device_id@, config_version)),
        }
    }

    /// The step when the move into the reported group has taken one.
    pub open spec fn joins(
        device_id: String,
        config_version: u32,
        sub: Step<SetDeviceGroup, Result<(), DbError>>,
        step: SyncStep,
    ) -> bool {
        match sub {
            Step::Ask(inner, call) => step == SyncStep::Ask(
                SyncReport::Joining { device_id, config_version, inner },
                call,
            ),
            Step::Done(Err(e)) => step == SyncStep::Done(Err(ClientError::Stored(e))),
            Step::Done(Ok(())) => SyncReport::corrects(device_id, config_version, step),
        }
    }

    /// How a report is dealt with: a device in a group is corrected; a device without one joins
    /// the group it reports, where the room has it; otherwise its configuration becomes a group
    /// of the room, and the device moves into it.
    pub open spec fn resumed(
        self,
        db: Database,
        reply: Reply,
        fresh: Fresh,
        step: SyncStep,
    ) -> bool {
        match self {
            SyncReport::Noting { report } => match flow::affected_of(reply) {
                None => step == SyncStep::Done(Err(ClientError::Stored(DbError::Failed))),
                Some(_) => SyncReport::looks(report, step),
            },
            SyncReport::Looking { report } => match flow::row_of(reply) {
                None => step == SyncStep::Done(Err(ClientError::Stored(DbError::Failed))),
                Some(None) => step == SyncStep::Done(Ok(())),
                Some(Some(row)) => match (
                    sql::text_cell(row, 0),
                    sql::optional_text_cell(row, 1),
                ) {
                    (Some(_), Some(Some(_))) => SyncReport::corrects(
                        report.device_id,
                        report.config_version,
                        step,
                    ),
                    (Some(room_id), Some(None)) => match report.group_id {
                        Some(group_id) if !text::is_blank(group_id@) => {
                            &&& step matches Step::Ask(
                                SyncReport::Finding { report: r, room_id: h, group_id: g },
                                call,
                            )
                            &&& r == report
                            &&& h == room_id
                            &&& g == group_id
                            &&& call.fetches(group_store::count_group(group_id@, room_id@))
                        },
                        _ => SyncReport::adopts(report, room_id, step),
                    },
                    _ => step == SyncStep::Done(Err(ClientError::Stored(DbError::Failed))),
                },
            },
            SyncReport::Finding { report, room_id, group_id } => match flow::count_of(reply) {
                None => step == SyncStep::Done(Err(ClientError::Stored(DbError::Failed))),
                Some(n) => if n > 0 {
                    exists|sub: Step<SetDeviceGroup, Result<(), DbError>>| #[trigger]
                        SetDeviceGroup::started(room_id, Some(group_id), report.device_id, sub)
                            && SyncReport::joins(
                            report.device_id,
                            report.config_version,
                            sub,
                            step,
                        )
                } else {
                    SyncReport::adopts(report, room_id, step)
                },
            },
            SyncReport::Joining { device_id, config_version, inner } => exists|
                sub: Step<SetDeviceGroup, Result<(), DbError>>,
            | #[trigger]
                inner.resumed(reply, sub) && SyncReport::joins(
                    device_id,
                    config_version,
                    sub,
                    step,
                ),
            SyncReport::Deciding { inner } => exists|sub: DecisionStep| #[trigger]
                inner.resumed(db, reply, fresh, sub) && SyncReport::decides(sub, step),
            SyncReport::Creating { device_id, room_id, config_version, inner } => exists|
                sub: Step<CreateGroup, Result<Group, DbError>>,
            | #[trigger]
                inner.resumed(db, reply, fresh, sub) && SyncReport::creates(
                    device_id,
                    room_id,
                    config_version,
                    sub,
                    step,
                ),
            SyncReport::Assigning { device_id, config_version, inner } => exists|
                sub: Step<SetDeviceGroup, Result<(), DbError>>,
            | #[trigger]
                inner.resumed(reply, sub) && SyncReport::assigns(
                    device_id,
                    config_version,
                    sub,
                    step,
                ),
            SyncReport::Versioning => step == SyncStep::Done(
                match flow::affected_of(reply) {
                    Some(_) => Ok(()),
                    None => Err(ClientError::Stored(DbError::Failed)),
                },
            ),
        }
    }

    fn look(report: ConfigReport) -> (step: SyncStep)
        ensures
            SyncReport::looks(report, step),
    {
        let query = select_home_query(report.device_id.as_str());
        Step::Ask(SyncReport::Looking { report }, Call::Fetch(query))
    }

    fn decide(sub: DecisionStep) -> (step: SyncStep)
        ensures
            SyncReport::decides(sub, step),
    {
        match sub {
            Step::Ask(inner, call) => Step::Ask(SyncReport::Deciding { inner }, call),
            Step::Done(outcome) => Step::Done(outcome),
        }
    }

    fn correct(db: &Database, device_id: String, reported_version: u32) -> (step: SyncStep)
        ensures
            SyncReport::corrects(device_id, reported_version, step),
    {
        let rule = PushRule::Differs { reported_version };
        let sub = PushDecision::start(db, device_id, rule);
        assert(PushDecision::started(device_id, rule, sub));
        SyncReport::decide(sub)
    }

    fn assign(
        db: &Database,
        device_id: String,
        config_version: u32,
        sub: Step<SetDeviceGroup, Result<(), DbError>>,
    ) -> (step: SyncStep)
        ensures
            SyncReport::assigns(device_id, config_version, sub, step),
    {
        match sub {
            Step::Ask(inner, call) => Step::Ask(
                SyncReport::Assigning { device_id, config_version, inner },
                call,
            ),
            Step::Done(Err(e)) => Step::Done(Err(ClientError::Stored(e))),
            Step::Done(Ok(())) => Step::Ask(
                SyncReport::Versioning,
                Call::Execute(db.set_device_version(device_id.as_str(), config_version)),
            ),
        }
    }

    fn create(
        db: &Database,
        device_id: String,
        room_id: String,
        config_version: u32,
        sub: Step<CreateGroup, Result<Group, DbError>>,
    ) -> (step: SyncStep)
        ensures
            SyncReport::creates(device_id, room_id, config_version, sub, step),
    {
        match sub {
            Step::Ask(inner, call) => Step::Ask(
                SyncReport::Creating { device_id, room_id, config_version, inner },
                call,
            ),
            Step::Done(Err(e)) => Step::Done(Err(ClientError::Stored(e))),
            Step::Done(Ok(group)) => {
                let move_step = db.set_device_group(room_id, Some(group.id), device_id.clone());
                assert(SetDeviceGroup::started(room_id, Some(group.id), device_id, move_step));
                SyncReport::assign(db, device_id, config_version, move_step)
            },
        }
    }

    fn adopt(db: &Database, report: ConfigReport, room_id: String) -> (step: SyncStep)
        ensures
            SyncReport::adopts(report, room_id, step),
    {
        let name = choose_group_name(report.config_name);
        let version: i64 = report.config_version as i64;
        let ghost chosen = name;
        let sub = db.create_group_with_version(room_id.clone(), name, report.config, version);
        assert(CreateGroup::started(room_id, chosen, report.config, version, sub));
        SyncReport::create(db, report.device_id, room_id, report.config_version, sub)
    }

    fn join(
        db: &Database,
        device_id: String,
        config_version: u32,
        sub: Step<SetDeviceGroup, Result<(), DbError>>,
    ) -> (step: SyncStep)
        ensures
            SyncReport::joins(device_id, config_version, sub, step),
    {
        match sub {
            Step::Ask(inner, call) => Step::Ask(
                SyncReport::Joining { device_id, config_version, inner },
                call,
            ),
            Step::Done(Err(e)) => Step::Done(Err(ClientError::Stored(e))),
            Step::Done(Ok(())) => SyncReport::correct(db, device_id, config_version),
        }
    }

    fn settle(db: &Database, report: ConfigReport, reply: Reply, fresh: Fresh) -> (step: SyncStep)
        ensures
            (SyncReport::Looking { report }).resumed(*db, reply, fresh, step),
    {
        let row = match flow::first_row(reply) {
            None => return Step::Done(Err(ClientError::Stored(DbError::Failed))),
            Some(None) => return Step::Done(Ok(())),
            Some(Some(row)) => row,
        };
        match (sql::text_at(&row, 0), sql::optional_text_at(&row, 1)) {
            (Some(_), Some(Some(_))) => SyncReport::correct(
                db,
                report.device_id,
                report.config_version,
            ),
            (Some(room_id), Some(None)) => {
                let reported = match &report.group_id {
                    Some(group_id) => if text::blank(group_id.as_str()) {
                        None
                    } else {
                        Some(group_id.clone())
                    },
                    None => None,
                };
                match reported {
                    Some(group_id) => {
                        let query = group_store::count_group_query(
                            group_id.as_str(),
                            room_id.as_str(),
                        );
                        Step::Ask(
                            SyncReport::Finding { report, room_id, group_id },
                            Call::Fetch(query),
                        )
                    },
                    None => SyncReport::adopt(db, report, room_id),
                }
            },
            _ => Step::Done(Err(ClientError::Stored(DbError::Failed))),
        }
    }

    /// Takes the reply and goes on.
    pub fn resume(self, db: &Database, reply: Reply, fresh: Fresh) -> (step: SyncStep)
        ensures
            self.resumed(*db, reply, fresh, step),
    {
        match self {
            SyncReport::Noting { report } => match flow::affected(reply) {
                None => Step::Done(Err(ClientError::Stored(DbError::Failed))),
                Some(_) => SyncReport::look(report),
            },
            SyncReport::Looking { report } => SyncReport::settle(db, report, reply, fresh),
            SyncReport::Finding { report, room_id, group_id } => match flow::count(reply) {
                None => Step::Done(Err(ClientError::Stored(DbError::Failed))),
                Some(n) => if n > 0 {
                    let device_id = report.device_id;
                    let sub = db.set_device_group(room_id, Some(group_id), device_id.clone());
                    assert(SetDeviceGroup::started(room_id, Some(group_id), device_id, sub));
                    SyncReport::join(db, device_id, report.config_version, sub)
                } else {
                    SyncReport::adopt(db, report, room_id)
                },
            },
            SyncReport::Joining { device_id, config_version, inner } => {
                let sub = inner.resume(reply);
                assert(inner.resumed(reply, sub));
                SyncReport::join(db, device_id, config_version, sub)
            },
            SyncReport::Deciding { inner } => {
                let sub = inner.resume(db, reply, fresh);
                assert(inner.resumed(*db, reply, fresh, sub));
                SyncReport::decide(sub)
            },
            SyncReport::Creating { device_id, room_id, config_version, inner } => {
                let sub = inner.resume(db, reply, fresh);
                assert(inner.resumed(*db, reply, fresh, sub));
                SyncReport::create(db, device_id, room_id, config_version, sub)
            },
            SyncReport::Assigning { device_id, config_version, inner } => {
                let sub = inner.resume(reply);
                assert(inner.resumed(reply, sub));
                SyncReport::assign(db, device_id, config_version, sub)
            },
            SyncReport::Versioning => match flow::affected(reply) {
                Some(_) => Step::Done(Ok(())),
                None => Step::Done(Err(ClientError::Stored(DbError::Failed))),
            },
        }
    }
}

/// Begins to deal with what a device reports of the configuration it has.
pub fn sync_reported_config_state(db: &Database, report: ConfigReport, now: i64) -> (step: SyncStep)
    ensures
        SyncReport::started(report, now, step),
{
    if report.running {
        let statement = db.mark_device_running(
            report.device_id.as_str(),
            report.config_version,
            now,
        );
        Step::Ask(SyncReport::Noting { report }, Call::Execute(statement))
    } else {
        SyncReport::look(report)
    }
}

} // verus!
