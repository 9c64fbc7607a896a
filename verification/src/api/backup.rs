//! Events and backups.
use vstd::prelude::*;
use vstd::string::*;

use crate::api::{Answer, Body};
use crate::auth::AuthUser;
use crate::db::backup;
use crate::db::backup::{Export, ImportOutcome};
use crate::db::events;
use crate::db::{Database, DbError};
use crate::flow::{Call, Reply, Step};
use crate::models::{BackupData, BackupEnvelope};
use crate::sql::QueryView;
use crate::status::StatusCode;
use crate::text;

verus! {

/// Which events a user wants to see.
#[derive(Debug)]
pub struct EventQuery {
    pub device_id: Option<String>,
    pub event_type: Option<String>,
    pub limit: Option<i64>,
}

/// How many events are listed: what is asked for, but at least one and at most a thousand; two
/// hundred where nothing is asked for.
pub open spec fn event_limit(asked: Option<i64>) -> i64 {
    let wanted = match asked {
        Some(n) => n,
        None => 200,
    };
    if wanted < 1 {
        1
    } else if wanted > 1000 {
        1000
    } else {
        wanted
    }
}

fn limit_events(asked: Option<i64>) -> (limit: i64)
    ensures
        limit == event_limit(asked),
        1 <= limit <= 1000,
{
    let wanted: i64 = match asked {
        Some(n) => n,
        None => 200,
    };
    if wanted < 1 {
        1
    } else if wanted > 1000 {
        1000
    } else {
        wanted
    }
}

/// The events that a user gets to see: an administrator all, anyone else those of their rooms.
pub open spec fn event_query(user: AuthUser, query: EventQuery) -> QueryView {
    if user.admin() {
        events::select_events(query.device_id, query.event_type, event_limit(query.limit))
    } else {
        events::select_owned_events(
            user.id@,
            query.device_id,
            query.event_type,
            event_limit(query.limit),
        )
    }
}

/// Events being listed.
#[derive(Debug)]
pub struct ListEvents;

/// A step of a list of events.
pub type ListEventsStep = Step<ListEvents, Answer>;

impl ListEvents {
    /// The first step: the events that are asked for are fetched.
    pub open spec fn started(user: AuthUser, query: EventQuery, step: ListEventsStep) -> bool {
        step matches Step::Ask(_, call) && call.fetches(event_query(user, query))
    }

    /// How the list ends.
    pub open spec fn resumed(self, reply: Reply, step: ListEventsStep) -> bool {
        match step {
            Step::Done(Ok(Body::Events(list))) => reply matches Reply::Rows(rows)
                && events::are_events(rows@, list@),
            Step::Done(Err(StatusCode::InternalServerError)) => !(reply matches Reply::Rows(rows)
                && forall|i: int|
                0 <= i < rows@.len() ==> events::event_row(#[trigger] rows@[i]@) is Some),
            _ => false,
        }
    }

    /// Takes the reply and ends.
    pub fn resume(self, reply: Reply) -> (step: ListEventsStep)
        ensures
            self.resumed(reply, step),
    {
        match reply {
            Reply::Rows(rows) => match events::read_events(&rows) {
                Some(list) => Step::Done(Ok(Body::Events(list))),
                None => Step::Done(Err(StatusCode::InternalServerError)),
            },
            _ => Step::Done(Err(StatusCode::InternalServerError)),
        }
    }
}

/// Begins to list events.
pub fn list_events(db: &Database, user: &AuthUser, query: &EventQuery) -> (step: ListEventsStep)
    ensures
        ListEvents::started(*user, *query, step),
{
    let limit = limit_events(query.limit);
    let fetched = if user.is_admin() {
        db.list_events(&query.device_id, &query.event_type, limit)
    } else {
        db.list_events_for_owner(user.id.as_str(), &query.device_id, &query.event_type, limit)
    };
    Step::Ask(ListEvents, Call::Fetch(fetched))
}

/// Whether a user may follow the stream of events.
pub open spec fn may_follow(user: AuthUser) -> Result<(), StatusCode> {
    if user.admin() {
        Ok(())
    } else {
        Err(StatusCode::Forbidden)
    }
}

/// Tells whether a user may follow the stream of events: only an administrator may.
pub fn events_stream(user: &AuthUser) -> (allowed: Result<(), StatusCode>)
    ensures
        allowed == may_follow(*user),
{
    if user.is_admin() {
        Ok(())
    } else {
        Err(StatusCode::Forbidden)
    }
}

/// Scope of a backup of all data.
pub const FULL_SCOPE: &'static str = "full";

/// Scope of a backup of one user's data.
pub const USER_SCOPE: &'static str = "user";

/// Version of the form that backups have.
pub const BACKUP_FORMAT: u32 = 1;

/// The scope of a backup: what is asked for, or else as much as the user may have.
pub open spec fn scope_of(user: AuthUser, asked: Option<String>) -> Seq<char> {
    match asked {
        Some(scope) => scope@,
        None => if user.admin() {
            FULL_SCOPE@
        } else {
            USER_SCOPE@
        },
    }
}

/// A backup being taken out for a user.
#[derive(Debug)]
pub struct ExportBackup {
    pub scope: String,
    pub inner: Export,
}

/// A step of a backup.
pub type ExportStep = Step<ExportBackup, Answer>;

impl ExportBackup {
    /// The step when the stored data has taken one.
    pub open spec fn lifts(
        scope: Seq<char>,
        sub: Step<Export, Result<BackupData, DbError>>,
        now: i64,
        step: ExportStep,
    ) -> bool {
        match sub {
            Step::Ask(inner, call) => {
                &&& step matches Step::Ask(ExportBackup { scope: s, inner: i }, c)
                &&& s@ == scope
                &&& i == inner
                &&& c == call
            },
            Step::Done(Ok(data)) => {
                &&& step matches Step::Done(Ok(Body::Backup(envelope)))
                &&& envelope.format_version == BACKUP_FORMAT
                &&& envelope.exported_at == now
                &&& envelope.source_mode@ == "sqlite"@
                &&& envelope.scope@ == scope
                &&& envelope.data == data
            },
            Step::Done(Err(_)) => step == ExportStep::Done(Err(StatusCode::InternalServerError)),
        }
    }

    /// The first step: an administrator may take out all data, anyone their own.
    pub open spec fn started(
        user: AuthUser,
        asked: Option<String>,
        now: i64,
        step: ExportStep,
    ) -> bool {
        let scope = scope_of(user, asked);
        if scope == FULL_SCOPE@ {
            if !user.admin() {
                step == ExportStep::Done(Err(StatusCode::Forbidden))
            } else {
                exists|sub: Step<Export, Result<BackupData, DbError>>| #[trigger]
                    Export::advanced(Seq::empty(), backup::full_export(), sub)
                        && ExportBackup::lifts(scope, sub, now, step)
            }
        } else if scope == USER_SCOPE@ {
            exists|sub: Step<Export, Result<BackupData, DbError>>| #[trigger]
                Export::advanced(Seq::empty(), backup::personal_export(user.id@), sub)
                    && ExportBackup::lifts(scope, sub, now, step)
        } else {
            step == ExportStep::Done(Err(StatusCode::BadRequest))
        }
    }

    /// How a backup goes on with a reply.
    pub open spec fn resumed(self, reply: Reply, now: i64, step: ExportStep) -> bool {
        exists|sub: Step<Export, Result<BackupData, DbError>>| #[trigger]
            self.inner.resumed(reply, sub) && ExportBackup::lifts(self.scope@, sub, now, step)
    }

    fn lift(scope: String, sub: Step<Export, Result<BackupData, DbError>>, now: i64) -> (step:
        ExportStep)
        ensures
            ExportBackup::lifts(scope@, sub, now, step),
    {
        match sub {
            Step::Ask(inner, call) => Step::Ask(ExportBackup { scope, inner }, call),
            Step::Done(Ok(data)) => Step::Done(
                Ok(
                    Body::Backup(
                        BackupEnvelope {
                            format_version: BACKUP_FORMAT,
                            exported_at: now,
                            source_mode: "sqlite".to_string(),
                            scope,
                            data,
                        },
                    ),
                ),
            ),
            Step::Done(Err(_)) => Step::Done(Err(StatusCode::InternalServerError)),
        }
    }

    /// Takes the reply and goes on.
    pub fn resume(self, reply: Reply, now: i64) -> (step: ExportStep)
        ensures
            self.resumed(reply, now, step),
    {
        let scope = self.scope;
        let inner = self.inner;
        let sub = inner.resume(reply);
        assert(self.inner.resumed(reply, sub));
        ExportBackup::lift(scope, sub, now)
    }
}

/// Begins to take out a backup.
pub fn export_backup(db: &Database, user: &AuthUser, asked: Option<String>, now: i64) -> (step:
    ExportStep)
    ensures
        ExportBackup::started(*user, asked, now, step),
{
    let scope = match asked {
        Some(scope) => scope,
        None => if user.is_admin() {
            FULL_SCOPE.to_string()
        } else {
            USER_SCOPE.to_string()
        },
    };
    if text::same_text(scope.as_str(), FULL_SCOPE) {
        if !user.is_admin() {
            return Step::Done(Err(StatusCode::Forbidden));
        }
        let sub = db.export_backup();
        ExportBackup::lift(scope, sub, now)
    } else if text::same_text(scope.as_str(), USER_SCOPE) {
        let sub = db.export_user_backup(user.id.as_str());
        ExportBackup::lift(scope, sub, now)
    } else {
        Step::Done(Err(StatusCode::BadRequest))
    }
}

/// Only an administrator takes out all data: whoever else asks for anything at all gets the six
/// tables of their own data, or is refused.
pub proof fn law_full_backup_needs_the_administrator(
    user: AuthUser,
    asked: Option<String>,
    now: i64,
    step: ExportStep,
)
    requires
        ExportBackup::started(user, asked, now, step),
        !user.admin(),
    ensures
        step is Ask ==> step->Ask_1.fetches_table(backup::personal_export(user.id@)[0])
            && step->Ask_0.inner.planned() == 6,
        step is Ask || step == ExportStep::Done(Err(StatusCode::Forbidden)) || step
            == ExportStep::Done(Err(StatusCode::BadRequest)),
{
    reveal_strlit("full");
    reveal_strlit("user");
    if scope_of(user, asked) == USER_SCOPE@ {
        assert(FULL_SCOPE@.len() == 4 && FULL_SCOPE@[0] == 'f');
        assert(USER_SCOPE@[0] == 'u');
        let sub = choose|sub: Step<Export, Result<BackupData, DbError>>| #[trigger]
            Export::advanced(Seq::empty(), backup::personal_export(user.id@), sub)
                && ExportBackup::lifts(scope_of(user, asked), sub, now, step);
        let inner = sub->Ask_0;
        assert(crate::db::transaction::views(inner.pending@).len() == inner.pending@.len());
    }
}

/// A backup being put in for an administrator.
#[derive(Debug)]
pub struct ImportBackup {
    pub inner: backup::ImportBackup,
}

/// A step of the import of a backup.
pub type ImportStep = Step<ImportBackup, Answer>;

impl ImportBackup {
    /// The step when the stored data has taken one.
    pub open spec fn lifts(
        sub: Step<backup::ImportBackup, ImportOutcome>,
        step: ImportStep,
    ) -> bool {
        match sub {
            Step::Ask(inner, call) => step == ImportStep::Ask(ImportBackup { inner }, call),
            Step::Done(Ok(report)) => step == ImportStep::Done(Ok(Body::Imported(report))),
            Step::Done(Err(_)) => step == ImportStep::Done(Err(StatusCode::InternalServerError)),
        }
    }

    /// The first step: an administrator may put in a backup of the known form, in place of what
    /// is there where the mode says so.
    pub open spec fn started(
        user: AuthUser,
        mode: Option<String>,
        envelope: BackupEnvelope,
        step: ImportStep,
    ) -> bool {
        if !user.admin() {
            step == ImportStep::Done(Err(StatusCode::Forbidden))
        } else if envelope.format_version != BACKUP_FORMAT {
            step == ImportStep::Done(Err(StatusCode::BadRequest))
        } else {
            &&& step matches Step::Ask(
                ImportBackup { inner: backup::ImportBackup::Beginning { plan } },
                Call::Begin,
            )
            &&& plan.prepared(
                envelope.data,
                mode is Some && mode->Some_0@ == "overwrite"@,
                envelope.source_mode,
                envelope.scope,
            )
        }
    }

    /// How the import goes on with a reply.
    pub open spec fn resumed(self, reply: Reply, step: ImportStep) -> bool {
        exists|sub: Step<backup::ImportBackup, ImportOutcome>| #[trigger]
            self.inner.resumed(reply, sub) && ImportBackup::lifts(sub, step)
    }

    /// Takes the reply and goes on.
    pub fn resume(self, reply: Reply) -> (step: ImportStep)
        requires
            self.inner.wf(),
        ensures
            self.resumed(reply, step),
            step matches Step::Ask(next, _) ==> next.inner.wf(),
    {
        let inner = self.inner;
        let sub = inner.resume(reply);
        assert(self.inner.resumed(reply, sub));
        match sub {
            Step::Ask(inner, call) => Step::Ask(ImportBackup { inner }, call),
            Step::Done(Ok(report)) => Step::Done(Ok(Body::Imported(report))),
            Step::Done(Err(_)) => Step::Done(Err(StatusCode::InternalServerError)),
        }
    }
}

/// Begins to put in a backup.
pub fn import_backup(
    db: &Database,
    user: &AuthUser,
    mode: Option<String>,
    envelope: BackupEnvelope,
) -> (step: ImportStep)
    ensures
        ImportBackup::started(*user, mode, envelope, step),
        step matches Step::Ask(next, _) ==> next.inner.wf(),
{
    if !user.is_admin() {
        return Step::Done(Err(StatusCode::Forbidden));
    }
    if envelope.format_version != BACKUP_FORMAT {
        return Step::Done(Err(StatusCode::BadRequest));
    }
    let overwrite = match &mode {
        Some(m) => text::same_text(m.as_str(), "overwrite"),
        None => false,
    };
    match db.import_backup(envelope.data, overwrite, envelope.source_mode, envelope.scope) {
        Step::Ask(inner, call) => Step::Ask(ImportBackup { inner }, call),
        Step::Done(_) => Step::Done(Err(StatusCode::InternalServerError)),
    }
}

} // verus!
