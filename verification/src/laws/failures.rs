//! What comes of calls that fail.
use vstd::prelude::*;
use vstd::string::*;

use crate::api::account::{
    ChangePassword, ChangePasswordStep, DeleteAccount, DeleteAccountStep, Login, LoginStep,
};
use crate::api::backup::{
    ExportBackup, ExportStep, ImportBackup, ImportStep, ListEvents, ListEventsStep,
};
use crate::api::push::{PushConfig, PushStep};
use crate::api::rooms::{
    identifiers, ListRooms, ListRoomsStep, NewRoom, NewRoomStep, RoomRequest, RoomStep,
};
use crate::api::Body;
use crate::client_api::message::{MessageFlow, MessageStep};
use crate::client_api::sync::{
    CurrentStep, DecisionStep, PushCurrent, PushDecision, SyncReport, SyncStep,
};
use crate::client_api::ClientError;
use crate::db::backup;
use crate::db::backup::Export;
use crate::db::device_config::DeviceConfig;
use crate::db::devices::{Reception, UpdateDevice, UpsertDeviceHello};
use crate::db::group_store::{group_records, CreateGroup, ListGroups, SetDeviceGroup, UpdateGroup};
use crate::db::rooms::CreateRoom;
use crate::db::schema::Init;
use crate::db::system::{EnsureTlsCert, PemPair, TlsPem};
use crate::db::transaction::Transaction;
use crate::db::users::{AdminOutcome, EnsureAdmin};
use crate::db::{Database, DbError};
use crate::flow::{Fresh, Reply, Step};
use crate::laws::device_config::ConfigStep;
use crate::laws::upkeep::is_device_row;
use crate::laws::gives;
use crate::models::{BackupData, Group, Room};
use crate::sql::{Row, SqlValue};
use crate::state::LoginFailure;
use crate::status::StatusCode;

verus! {

/// Whether a reply says that a call failed, or holds a first row that does not fit any query.
pub open spec fn is_useless(reply: Reply) -> bool {
    reply is Failed || (reply is Rows && reply->Rows_0@.len() > 0 && reply->Rows_0@[0]@.len() == 0)
}

/// Whatever of the stored data cannot be read or changed ends the operation on it, with nothing
/// else done.
pub proof fn law_failed_call_ends_the_operation(
    reply: Reply,
    db: Database,
    fresh: Fresh,
    config: DeviceConfig,
    config_step: ConfigStep,
    create: CreateGroup,
    create_step: Step<CreateGroup, Result<Group, DbError>>,
    update: UpdateGroup,
    update_step: Step<UpdateGroup, Result<Group, DbError>>,
    list: ListGroups,
    list_step: Step<ListGroups, Result<Vec<Group>, DbError>>,
    moving: SetDeviceGroup,
    move_step: Step<SetDeviceGroup, Result<(), DbError>>,
    room: CreateRoom,
    room_step: Step<CreateRoom, Result<Room, DbError>>,
    device: UpdateDevice,
    device_step: Step<UpdateDevice, Result<(), DbError>>,
    hello: UpsertDeviceHello,
    hello_step: Step<UpsertDeviceHello, Result<Reception, DbError>>,
)
    requires
        is_useless(reply),
        config.resumed(db, reply, config_step),
        create.resumed(db, reply, fresh, create_step),
        update.resumed(db, reply, fresh, update_step),
        list.resumed(db, reply, list_step),
        moving.resumed(reply, move_step),
        room.resumed(reply, fresh, room_step),
        device.resumed(reply, device_step),
        hello.resumed(reply, fresh, hello_step),
    ensures
        config_step == ConfigStep::Done(Err(DbError::Failed)),
        create_step == Step::<CreateGroup, Result<Group, DbError>>::Done(Err(DbError::Failed)),
        update_step == Step::<UpdateGroup, Result<Group, DbError>>::Done(Err(DbError::Failed)),
        list_step == Step::<ListGroups, Result<Vec<Group>, DbError>>::Done(Err(DbError::Failed)),
        move_step == Step::<SetDeviceGroup, Result<(), DbError>>::Done(Err(DbError::Failed)),
        room_step == Step::<CreateRoom, Result<Room, DbError>>::Done(Err(DbError::Failed)),
        device_step == Step::<UpdateDevice, Result<(), DbError>>::Done(Err(DbError::Failed)),
        hello_step == Step::<UpsertDeviceHello, Result<Reception, DbError>>::Done(
            Err(DbError::Failed),
        ),
{
    if reply is Rows {
        lemma_no_groups(reply->Rows_0@);
    }
}

/// The same holds of a transaction, of the tables being set up, of the administrator, of the
/// server's certificate and of a backup being taken out or put in.
pub proof fn law_failed_call_ends_the_upkeep(
    reply: Reply,
    fresh: Fresh,
    transaction: Transaction,
    transaction_step: Step<Transaction, Result<(), DbError>>,
    init: Init,
    init_step: Step<Init, Result<(), DbError>>,
    admin: EnsureAdmin,
    admin_step: Step<EnsureAdmin, Result<AdminOutcome, DbError>>,
    export: Export,
    export_step: Step<Export, Result<BackupData, DbError>>,
    certificate: EnsureTlsCert,
    certificate_step: Step<EnsureTlsCert, Result<(), DbError>>,
    pem: TlsPem,
    pem_step: Step<TlsPem, Result<PemPair, DbError>>,
    import: backup::ImportBackup,
    import_step: Step<backup::ImportBackup, backup::ImportOutcome>,
)
    requires
        is_useless(reply),
        transaction.resumed(reply, transaction_step),
        init.resumed(Reply::Failed, init_step),
        admin.resumed(reply, fresh, admin_step),
        export.resumed(reply, export_step),
        certificate.resumed(reply, fresh, certificate_step),
        pem.resumed(reply, pem_step),
        import.resumed(reply, import_step),
    ensures
        transaction_step == Step::<Transaction, Result<(), DbError>>::Done(Err(DbError::Failed)),
        init_step == Step::<Init, Result<(), DbError>>::Done(Err(DbError::Failed)),
        admin_step == Step::<EnsureAdmin, Result<AdminOutcome, DbError>>::Done(
            Err(DbError::Failed),
        ),
        export_step == Step::<Export, Result<BackupData, DbError>>::Done(Err(DbError::Failed)),
        certificate_step == Step::<EnsureTlsCert, Result<(), DbError>>::Done(
            Err(DbError::Failed),
        ),
        pem_step == Step::<TlsPem, Result<PemPair, DbError>>::Done(Err(DbError::Failed)),
        import_step == Step::<backup::ImportBackup, backup::ImportOutcome>::Done(
            Err(DbError::Failed),
        ),
{
}

/// The status that a request within a room ends with where a call fails.
pub open spec fn status_of_failure(state: RoomRequest) -> StatusCode {
    match state {
        RoomRequest::Guarding { action, .. } => if action is DeleteDevice {
            StatusCode::InternalServerError
        } else {
            StatusCode::NotFound
        },
        RoomRequest::UpdatingDevice { .. } => StatusCode::NotFound,
        RoomRequest::Rekeying { .. } => StatusCode::NotFound,
        RoomRequest::UpdatingGroup { .. } => StatusCode::NotFound,
        RoomRequest::Moving { .. } => StatusCode::NotFound,
        _ => StatusCode::InternalServerError,
    }
}

/// A request within a room ends with a failure of the server where a call fails, and with what was
/// changed not being found where a change fails. What only tells a device something cannot fail.
pub proof fn law_failed_request_has_its_status(
    reply: Reply,
    db: Database,
    fresh: Fresh,
    state: RoomRequest,
    step: RoomStep,
)
    requires
        is_useless(reply),
        state.resumed(db, reply, fresh, step),
    ensures
        state is Disconnecting ==> step == RoomStep::Done(Ok(state->body)),
        state is Expelling ==> step == RoomStep::Done(Ok(Body::Done)),
        !(state is Disconnecting) && !(state is Expelling) ==> step == RoomStep::Done(
            Err(status_of_failure(state)),
        ),
{
    if reply is Rows {
        lemma_no_groups(reply->Rows_0@);
        lemma_no_identifiers(reply->Rows_0@);
    }
    match state {
        RoomRequest::PushingDevice { inner } => {
            let sub = choose|sub: PushStep| #[trigger]
                inner.resumed(db, reply, fresh, sub) && RoomRequest::pushes_device(
                    sub,
                    step,
                );
            lemma_push_fails(reply, db, fresh, inner, sub);
        },
        RoomRequest::PushingGroup { group_id, pending, pushed, inner } => {
            let sub = choose|sub: PushStep| #[trigger]
                inner.resumed(db, reply, fresh, sub) && match sub {
                    Step::Ask(..) => RoomRequest::pushes_group(
                        group_id,
                        pending@,
                        pushed,
                        sub,
                        step,
                    ),
                    Step::Done(Err(status)) => step == RoomStep::Done(Err(status)),
                    Step::Done(Ok(reached)) => RoomRequest::serves(
                        group_id,
                        pending@,
                        if reached {
                            crate::api::rooms::one_more(pushed)
                        } else {
                            pushed
                        },
                        step,
                    ),
                };
            lemma_push_fails(reply, db, fresh, inner, sub);
        },
        _ => {},
    }
}

/// A push ends with a failure of the server where a call fails.
proof fn lemma_push_fails(
    reply: Reply,
    db: Database,
    fresh: Fresh,
    state: PushConfig,
    step: PushStep,
)
    requires
        is_useless(reply),
        state.resumed(db, reply, fresh, step),
    ensures
        step == PushStep::Done(Err(StatusCode::InternalServerError)),
{
    if state is Composing {
        let sub = choose|sub: ConfigStep| #[trigger]
            state->Composing_inner.resumed(db, reply, sub) && PushConfig::composed(
                state->Composing_device_id,
                sub,
                step,
            );
        assert(sub == ConfigStep::Done(Err(DbError::Failed)));
    }
}

/// Every other request ends with a failure of the server where a call fails.
pub proof fn law_failed_call_is_told_as_such(
    reply: Reply,
    fresh: Fresh,
    now: i64,
    rooms: ListRoomsStep,
    new_room: NewRoom,
    room: NewRoomStep,
    events: ListEventsStep,
    export: ExportBackup,
    exported: ExportStep,
    import: ImportBackup,
    imported: ImportStep,
    change: ChangePassword,
    changed: ChangePasswordStep,
    deleted: DeleteAccountStep,
)
    requires
        is_useless(reply),
        ListRooms.resumed(reply, rooms),
        new_room.resumed(reply, fresh, room),
        ListEvents.resumed(reply, events),
        export.resumed(reply, now, exported),
        import.resumed(reply, imported),
        change.resumed(reply, changed),
        DeleteAccount.resumed(reply, deleted),
    ensures
        rooms == ListRoomsStep::Done(Err(StatusCode::InternalServerError)),
        room == NewRoomStep::Done(Err(StatusCode::InternalServerError)),
        events == ListEventsStep::Done(Err(StatusCode::InternalServerError)),
        exported == ExportStep::Done(Err(StatusCode::InternalServerError)),
        imported == ImportStep::Done(Err(StatusCode::InternalServerError)),
        changed == ChangePasswordStep::Done(Err(StatusCode::InternalServerError)),
        deleted == DeleteAccountStep::Done(Err(StatusCode::InternalServerError)),
{
}

/// An attempt to log in that fails for want of the database is no failed attempt: nothing is
/// counted, and it ends with a failure of the server.
pub proof fn law_failed_call_is_no_failed_attempt(
    reply: Reply,
    state: Login,
    secret: Seq<char>,
    failures: Map<Seq<char>, LoginFailure>,
    now: i64,
    after: Map<Seq<char>, LoginFailure>,
    step: LoginStep,
)
    requires
        is_useless(reply),
        state.resumed(secret, failures, reply, now, after, step),
    ensures
        after == failures,
        step == LoginStep::Done(Err(StatusCode::InternalServerError)),
{
}

/// What a device sends is given up where a call fails, and why is told; only a leave goes through
/// all the same, and what was published is not taken back.
pub proof fn law_failed_call_ends_the_message(
    reply: Reply,
    db: Database,
    fresh: Fresh,
    state: MessageFlow,
    step: MessageStep,
)
    requires
        is_useless(reply),
        !(state is Syncing),
        state.resumed(db, reply, fresh, step),
    ensures
        state is Publishing || state is Leaving ==> step == MessageStep::Done(Ok(())),
        state is Disconnecting ==> step is Ask && step->Ask_0 is Leaving,
        !(state is Publishing) && !(state is Leaving) && !(state is Disconnecting) ==> step
            == MessageStep::Done(Err(ClientError::Stored(DbError::Failed))),
{
}

/// The upkeep of a device ends with what went wrong: with the stored data or with a push.
pub proof fn law_failed_upkeep_is_told(
    reply: Reply,
    db: Database,
    fresh: Fresh,
    report: SyncReport,
    report_step: SyncStep,
    current: PushCurrent,
    current_step: CurrentStep,
)
    requires
        is_useless(reply),
        report.resumed(db, reply, fresh, report_step),
        current.resumed(db, reply, fresh, current_step),
    ensures
        report is Deciding && report->Deciding_inner is Pushing ==> report_step == SyncStep::Done(
            Err(ClientError::Push(StatusCode::InternalServerError)),
        ),
        !(report is Deciding && report->Deciding_inner is Pushing) ==> report_step
            == SyncStep::Done(Err(ClientError::Stored(DbError::Failed))),
        current is Deciding && current->inner is Pushing ==> current_step == CurrentStep::Done(
            Err(ClientError::Push(StatusCode::InternalServerError)),
        ),
        !(current is Deciding && current->inner is Pushing) ==> current_step == CurrentStep::Done(
            Err(ClientError::Stored(DbError::Failed)),
        ),
{
    if report is Deciding {
        let inner = report->Deciding_inner;
        let sub = choose|sub: DecisionStep| #[trigger]
            inner.resumed(db, reply, fresh, sub) && SyncReport::decides(
                sub,
                report_step,
            );
        lemma_decision_fails(reply, db, fresh, inner, sub);
    }
    if current is Deciding {
        let inner = current->inner;
        let sub = choose|sub: DecisionStep| #[trigger]
            inner.resumed(db, reply, fresh, sub) && PushCurrent::decides(
                sub,
                current_step,
            );
        lemma_decision_fails(reply, db, fresh, inner, sub);
    }
}

proof fn lemma_decision_fails(
    reply: Reply,
    db: Database,
    fresh: Fresh,
    state: PushDecision,
    step: DecisionStep,
)
    requires
        is_useless(reply),
        state.resumed(db, reply, fresh, step),
    ensures
        state is Pushing ==> step == DecisionStep::Done(
            Err(ClientError::Push(StatusCode::InternalServerError)),
        ),
        state is Comparing ==> step == DecisionStep::Done(
            Err(ClientError::Stored(DbError::Failed)),
        ),
{
    match state {
        PushDecision::Pushing { inner } => {
            let sub = choose|sub: PushStep| #[trigger]
                inner.resumed(db, reply, fresh, sub) && PushDecision::pushes(sub, step);
            lemma_push_fails(reply, db, fresh, inner, sub);
        },
        PushDecision::Comparing { device_id, rule, inner } => {
            let sub = choose|sub: ConfigStep| #[trigger]
                inner.resumed(db, reply, sub) && PushDecision::compares(
                    device_id,
                    rule,
                    sub,
                    step,
                );
            assert(sub == ConfigStep::Done(Err(DbError::Failed)));
        },
    }
}

/// A push that reached its device or did not ends the upkeep well.
pub proof fn law_push_ends_the_upkeep(
    db: Database,
    fresh: Fresh,
    reached: bool,
    report_step: SyncStep,
    current_step: CurrentStep,
)
    requires
        (SyncReport::Deciding {
            inner: PushDecision::Pushing { inner: PushConfig::Sending },
        }).resumed(db, Reply::Sent(reached), fresh, report_step),
        (PushCurrent::Deciding {
            inner: PushDecision::Pushing { inner: PushConfig::Sending },
        }).resumed(db, Reply::Sent(reached), fresh, current_step),
    ensures
        report_step == SyncStep::Done(Ok(())),
        current_step == CurrentStep::Done(Ok(())),
{
    let inner = PushDecision::Pushing { inner: PushConfig::Sending };
    let sub = choose|sub: DecisionStep| #[trigger]
        inner.resumed(db, Reply::Sent(reached), fresh, sub) && SyncReport::decides(
            sub,
            report_step,
        );
    let other = choose|other: DecisionStep| #[trigger]
        inner.resumed(db, Reply::Sent(reached), fresh, other) && PushCurrent::decides(
            other,
            current_step,
        );
}

/// A version that cannot be raised any more is told as such: neither a change of a group nor the
/// configuration of a device without a group goes past the greatest number.
pub proof fn law_versions_do_not_run_over(
    db: Database,
    fresh: Fresh,
    room_id: String,
    group_id: String,
    request: crate::models::UpdateGroupRequest,
    group_reply: Reply,
    group_row: Seq<SqlValue>,
    group_step: Step<UpdateGroup, Result<Group, DbError>>,
    device_id: String,
    device_reply: Reply,
    device_row: Seq<SqlValue>,
    device_step: ConfigStep,
)
    requires
        (UpdateGroup::Looking { room_id, group_id, request }).resumed(
            db,
            group_reply,
            fresh,
            group_step,
        ),
        gives(group_reply, group_row),
        crate::laws::group_change::is_group_row(group_row),
        group_row[1] == SqlValue::Integer(i64::MAX),
        (DeviceConfig::Looking { device_id, override_group_id: None }).resumed(
            db,
            device_reply,
            device_step,
        ),
        gives(device_reply, device_row),
        is_device_row(device_row),
        device_row[5] == SqlValue::Integer(i64::MAX),
        device_row[6] is Null,
    ensures
        group_step == Step::<UpdateGroup, Result<Group, DbError>>::Done(
            Err(DbError::VersionExhausted),
        ),
        device_step == ConfigStep::Done(Err(DbError::VersionExhausted)),
{
}

proof fn lemma_no_groups(rows: Seq<Row>)
    requires
        rows.len() > 0 && rows[0]@.len() == 0,
    ensures
        group_records(rows) is None,
    decreases rows.len(),
{
    if rows.len() > 1 {
        assert(rows.drop_last()[0] == rows[0]);
        lemma_no_groups(rows.drop_last());
    }
}

proof fn lemma_no_identifiers(rows: Seq<Row>)
    requires
        rows.len() > 0 && rows[0]@.len() == 0,
    ensures
        identifiers(rows) is None,
    decreases rows.len(),
{
    if rows.len() > 1 {
        assert(rows.drop_last()[0] == rows[0]);
        lemma_no_identifiers(rows.drop_last());
    }
}

} // verus!
