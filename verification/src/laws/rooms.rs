//! Requests within a room.
use vstd::prelude::*;
use vstd::string::*;

use crate::api::backup::{ImportBackup as ImportRequest, ImportStep};
use crate::api::push::PushConfig;
use crate::api::rooms::{identifiers, NewRoom, NewRoomStep, RoomAction, RoomRequest, RoomStep};
use crate::api::Body;
use crate::auth::AuthUser;
use crate::db::backup::ImportBackup;
use crate::db::device_config::DeviceConfig;
use crate::db::devices::UpdateDevice;
use crate::db::group_store::{CreateGroup, ListGroups, SetDeviceGroup, UpdateGroup};
use crate::db::rooms::CreateRoom;
use crate::db::transaction::{views, Transaction};
use crate::db::{Database, DbError};
use crate::flow::{Call, Fresh, Reply, Step};
use crate::laws::group_change::{
    is_group_in, is_listed_row, law_listed_groups_are_their_rows, ListStep,
};
use crate::laws::groups::{has_no_secret, law_document_leaves_out_secrets_only};
use crate::laws::upkeep::reads_device;
use crate::laws::{counts, is_statement, reads, runs};
use crate::models::{BackupImportReport, CreateRoomRequest, Group, Room};
use crate::sql::{Column, Row, SqlValue, SqlView};
use crate::status::StatusCode;

verus! {

/// A request within a room asks first whether the room is there, for an administrator, or whether
/// it is the user's, for anyone else. Where it is not, the administrator is told that it is not
/// found and anyone else that it is forbidden, and nothing is done.
pub proof fn law_request_needs_access_to_its_room(
    user: AuthUser,
    room_id: String,
    action: RoomAction,
    first: RoomStep,
    db: Database,
    reply: Reply,
    fresh: Fresh,
    second: RoomStep,
)
    requires
        RoomRequest::started(user, room_id, action, first),
        first is Ask ==> (first->Ask_0).resumed(db, reply, fresh, second),
    ensures
        first is Ask,
        user.role@ == "admin"@ ==> reads(
            first->Ask_1,
            "SELECT COUNT(*) FROM rooms WHERE id = ?1"@,
            seq![SqlView::Text(room_id@)],
            seq![Column::Integer],
        ),
        user.role@ != "admin"@ ==> reads(
            first->Ask_1,
            "SELECT COUNT(*) FROM rooms WHERE id = ?1 AND owner_id = ?2"@,
            seq![SqlView::Text(room_id@), SqlView::Text(user.id@)],
            seq![Column::Integer],
        ),
        counts(reply, 0) && user.role@ == "admin"@ ==> second == RoomStep::Done(
            Err(StatusCode::NotFound),
        ),
        counts(reply, 0) && user.role@ != "admin"@ ==> second == RoomStep::Done(
            Err(StatusCode::Forbidden),
        ),
        !(reply is Rows) ==> second == RoomStep::Done(Err(StatusCode::InternalServerError)),
        first->Ask_0 == (RoomRequest::Checking {
            admin: user.role@ == "admin"@,
            user_id: user.id,
            room_id,
            action,
        }),
{
}

/// A user who is no administrator is asked whose the device is before it is deleted or gets a new
/// token, and whose the group is before a device is put into it.
pub proof fn law_owner_is_asked_for_first(
    db: Database,
    user_id: String,
    room_id: String,
    action: RoomAction,
    reply: Reply,
    n: int,
    fresh: Fresh,
    step: RoomStep,
)
    requires
        (RoomRequest::Checking { admin: false, user_id, room_id, action }).resumed(
            db,
            reply,
            fresh,
            step,
        ),
        counts(reply, n) && n > 0,
    ensures
        ({
            let device = match action {
                RoomAction::DeleteDevice { device_id } => Some(device_id),
                RoomAction::RegenerateToken { device_id } => Some(device_id),
                _ => None,
            };
            let group = match action {
                RoomAction::UpdateDevice { request, .. } => request.group_id,
                _ => None,
            };
            &&& device is Some ==> step is Ask && reads(
                step->Ask_1,
                "SELECT COUNT(*) FROM devices d JOIN rooms r ON d.room_id = r.id WHERE d.id = ?1 AND r.owner_id <> ?2"@,
                seq![SqlView::Text(device->Some_0@), SqlView::Text(user_id@)],
                seq![Column::Integer],
            )
            &&& group is Some ==> step is Ask && reads(
                step->Ask_1,
                "SELECT COUNT(*) FROM groups g JOIN rooms r ON g.room_id = r.id WHERE g.id = ?1 AND r.owner_id <> ?2"@,
                seq![SqlView::Text(group->Some_0@), SqlView::Text(user_id@)],
                seq![Column::Integer],
            )
            &&& device is Some || group is Some ==> step->Ask_0 == (RoomRequest::Guarding {
                room_id,
                action,
            })
        }),
{
}

/// What is another owner's is spared: the deletion is answered as done, the new token as if it were
/// stored, and the change as one that was not found; nothing is stored.
pub proof fn law_others_are_spared(
    db: Database,
    room_id: String,
    action: RoomAction,
    reply: Reply,
    n: int,
    fresh: Fresh,
    step: RoomStep,
)
    requires
        (RoomRequest::Guarding { room_id, action }).resumed(db, reply, fresh, step),
        counts(reply, n) && n > 0,
    ensures
        action is DeleteDevice ==> step == RoomStep::Done(Ok(Body::Done)),
        action is RegenerateToken ==> step == RoomStep::Done(
            Ok(Body::DeviceToken(fresh.secret)),
        ),
        action is UpdateDevice ==> step == RoomStep::Done(Err(StatusCode::NotFound)),
{
}

/// Whether a transaction begins that will run some statements, given by texts and parameters.
pub open spec fn begins(
    step: RoomStep,
    inner: Transaction,
    statements: Seq<(Seq<char>, Seq<SqlView>)>,
) -> bool {
    &&& step is Ask && step->Ask_1 is Begin
    &&& inner is Beginning
    &&& inner->statements@.len() == statements.len()
    &&& forall|i: int|
        0 <= i < statements.len() ==> is_statement(
            (#[trigger] inner->statements@[i])@,
            statements[i].0,
            statements[i].1,
        )
}

/// Whether the first step of an action is the right one.
pub open spec fn acts_on(
    step: RoomStep,
    room_id: String,
    action: RoomAction,
    fresh: Fresh,
) -> bool {
    &&& step is Ask
    &&& match action {
        RoomAction::DeleteRoom => step->Ask_0 is DeletingRoom && begins(
            step,
            step->Ask_0->DeletingRoom_inner,
            seq![
                (
                    "DELETE FROM config_pushes WHERE device_id IN (SELECT id FROM devices WHERE room_id = ?1)"@,
                    seq![SqlView::Text(room_id@)],
                ),
                (
                    "DELETE FROM events WHERE device_id IN (SELECT id FROM devices WHERE room_id = ?1)"@,
                    seq![SqlView::Text(room_id@)],
                ),
                ("DELETE FROM devices WHERE room_id = ?1"@, seq![SqlView::Text(room_id@)]),
                ("DELETE FROM groups WHERE room_id = ?1"@, seq![SqlView::Text(room_id@)]),
                ("DELETE FROM rooms WHERE id = ?1"@, seq![SqlView::Text(room_id@)]),
            ],
        ),
        RoomAction::ListDevices => {
            &&& step->Ask_0 is ListingDevices
            &&& step->Ask_1 is Fetch
            &&& step->Ask_1->Fetch_0.statement.sql@
                == "SELECT id, room_id, group_id, display_name, network_ip, network_node_id, last_seen, status, config_version, COALESCE(up_stream, 0), COALESCE(down_stream, 0), traffic_updated_at, created_at, client_version, console_public_ip, vnts_status, vnts_error, vnts_updated_at FROM devices WHERE room_id = ?1 ORDER BY created_at DESC"@
            &&& step->Ask_1->Fetch_0.statement.params@.map_values(|p: SqlValue| p@) =~= seq![
                SqlView::Text(room_id@),
            ]
        },
        RoomAction::UpdateDevice { device_id, request } => {
            &&& step->Ask_0 == (RoomRequest::UpdatingDevice {
                inner: UpdateDevice::Looking { room_id, device_id, request },
            })
            &&& reads(
                step->Ask_1,
                "SELECT display_name, group_id, network_ip, network_node_id FROM devices WHERE id = ?1 AND room_id = ?2"@,
                seq![SqlView::Text(device_id@), SqlView::Text(room_id@)],
                seq![
                    Column::Text,
                    Column::OptionalText,
                    Column::OptionalText,
                    Column::OptionalText,
                ],
            )
        },
        RoomAction::DeleteDevice { device_id } => {
            &&& step->Ask_0 is DeletingDevice
            &&& step->Ask_0->DeletingDevice_device_id == device_id
            &&& begins(
                step,
                step->Ask_0->DeletingDevice_inner,
                seq![
                    (
                        "DELETE FROM config_pushes WHERE device_id = ?1"@,
                        seq![SqlView::Text(device_id@)],
                    ),
                    ("DELETE FROM events WHERE device_id = ?1"@, seq![SqlView::Text(device_id@)]),
                    (
                        "DELETE FROM devices WHERE id = ?1 AND room_id = ?2"@,
                        seq![SqlView::Text(device_id@), SqlView::Text(room_id@)],
                    ),
                ],
            )
        },
        RoomAction::RegenerateToken { device_id } => {
            &&& step->Ask_0 == (RoomRequest::Rekeying { device_id, token: fresh.secret })
            &&& runs(
                step->Ask_1,
                "UPDATE devices SET device_token = ?1 WHERE id = ?2 AND room_id = ?3"@,
                seq![
                    SqlView::Text(fresh.secret@),
                    SqlView::Text(device_id@),
                    SqlView::Text(room_id@),
                ],
            )
        },
        RoomAction::KickDevice { device_id } => {
            &&& step->Ask_0 == (RoomRequest::Kicking { device_id })
            &&& runs(
                step->Ask_1,
                "UPDATE devices SET status = 'kicked' WHERE id = ?1 AND room_id = ?2"@,
                seq![SqlView::Text(device_id@), SqlView::Text(room_id@)],
            )
        },
        RoomAction::PushDevice { device_id } => {
            &&& step->Ask_0 == (RoomRequest::FindingDevice { device_id })
            &&& reads(
                step->Ask_1,
                "SELECT COUNT(*) FROM devices WHERE id = ?1 AND room_id = ?2"@,
                seq![SqlView::Text(device_id@), SqlView::Text(room_id@)],
                seq![Column::Integer],
            )
        },
        RoomAction::ListGroups => {
            &&& step->Ask_0 == (RoomRequest::ListingGroups { inner: ListGroups::Fetching })
            &&& step->Ask_1 is Fetch
            &&& step->Ask_1->Fetch_0.statement.sql@
                == "SELECT id, room_id, name, config_version, created_at, updated_at, encrypted_token, encrypted_server, encrypted_password, extra_config FROM groups WHERE room_id = ?1 ORDER BY created_at DESC"@
            &&& step->Ask_1->Fetch_0.statement.params@.map_values(|p: SqlValue| p@) =~= seq![
                SqlView::Text(room_id@),
            ]
        },
        RoomAction::CreateGroup { request } => {
            &&& step->Ask_0 == (RoomRequest::CreatingGroup {
                inner: CreateGroup::Encoding {
                    room_id,
                    name: request.name,
                    config: request.config,
                    version: 1,
                },
            })
            &&& step->Ask_1 is EncodeConfig
            &&& has_no_secret(step->Ask_1->EncodeConfig_0, request.config)
        },
        RoomAction::UpdateGroup { group_id, request } => {
            &&& step->Ask_0 == (RoomRequest::UpdatingGroup {
                inner: UpdateGroup::Looking { room_id, group_id, request },
            })
            &&& reads(
                step->Ask_1,
                "SELECT name, config_version, created_at, encrypted_token, encrypted_server, encrypted_password, extra_config FROM groups WHERE id = ?1 AND room_id = ?2"@,
                seq![SqlView::Text(group_id@), SqlView::Text(room_id@)],
                seq![
                    Column::Text,
                    Column::Integer,
                    Column::Integer,
                    Column::OptionalText,
                    Column::OptionalText,
                    Column::OptionalText,
                    Column::OptionalText,
                ],
            )
        },
        RoomAction::DeleteGroup { group_id } => step->Ask_0 is DeletingGroup && begins(
            step,
            step->Ask_0->DeletingGroup_inner,
            seq![
                (
                    "UPDATE devices SET group_id = NULL WHERE room_id = ?1 AND group_id = ?2"@,
                    seq![SqlView::Text(room_id@), SqlView::Text(group_id@)],
                ),
                (
                    "DELETE FROM groups WHERE id = ?1 AND room_id = ?2"@,
                    seq![SqlView::Text(group_id@), SqlView::Text(room_id@)],
                ),
            ],
        ),
        RoomAction::PushGroup { group_id } => {
            &&& step->Ask_0 == (RoomRequest::FindingGroup { room_id, group_id })
            &&& reads(
                step->Ask_1,
                "SELECT COUNT(*) FROM groups WHERE id = ?1 AND room_id = ?2"@,
                seq![SqlView::Text(group_id@), SqlView::Text(room_id@)],
                seq![Column::Integer],
            )
        },
        RoomAction::MoveDevice { group_id, device_id } => match group_id {
            Some(id) => {
                &&& step->Ask_0 == (RoomRequest::Moving {
                    inner: SetDeviceGroup::Checking { room_id, group_id: id, device_id },
                })
                &&& reads(
                    step->Ask_1,
                    "SELECT COUNT(*) FROM groups WHERE id = ?1 AND room_id = ?2"@,
                    seq![SqlView::Text(id@), SqlView::Text(room_id@)],
                    seq![Column::Integer],
                )
            },
            None => {
                &&& step->Ask_0 == (RoomRequest::Moving { inner: SetDeviceGroup::Moving })
                &&& runs(
                    step->Ask_1,
                    "UPDATE devices SET group_id = ?1 WHERE id = ?2 AND room_id = ?3"@,
                    seq![
                        SqlView::Null,
                        SqlView::Text(device_id@),
                        SqlView::Text(room_id@),
                    ],
                )
            },
        },
    }
}

/// An administrator's request on a room that is there, and an owner's once nothing in it turned out
/// to be another's, does what it says, to what it names and in its own room.
pub proof fn law_request_does_what_it_says(
    db: Database,
    state: RoomRequest,
    user_id: String,
    room_id: String,
    action: RoomAction,
    reply: Reply,
    n: int,
    fresh: Fresh,
    step: RoomStep,
)
    requires
        state.resumed(db, reply, fresh, step),
        counts(reply, n),
        ({
            ||| n > 0 && state == (RoomRequest::Checking { admin: true, user_id, room_id, action })
            ||| n == 0 && state == (RoomRequest::Guarding { room_id, action })
            ||| n > 0 && state == (RoomRequest::Checking {
                admin: false,
                user_id,
                room_id,
                action,
            }) && !(action is DeleteDevice) && !(action is RegenerateToken) && !(
            action is UpdateDevice && action->UpdateDevice_request.group_id is Some)
        }),
    ensures
        acts_on(step, room_id, action, fresh),
{
    assert(RoomRequest::begun(room_id, action, fresh, step));
    match action {
        RoomAction::DeleteRoom => {
            let inner = step->Ask_0->DeletingRoom_inner;
            assert(views(inner->statements@).len() == 5);
            assert forall|i: int| 0 <= i < 5 implies (#[trigger] inner->statements@[i])@ == views(
                inner->statements@,
            )[i] by {}
        },
        RoomAction::DeleteDevice { device_id } => {
            let inner = step->Ask_0->DeletingDevice_inner;
            assert(views(inner->statements@).len() == 3);
            assert forall|i: int| 0 <= i < 3 implies (#[trigger] inner->statements@[i])@ == views(
                inner->statements@,
            )[i] by {}
        },
        RoomAction::DeleteGroup { group_id } => {
            let inner = step->Ask_0->DeletingGroup_inner;
            assert(views(inner->statements@).len() == 2);
            assert forall|i: int| 0 <= i < 2 implies (#[trigger] inner->statements@[i])@ == views(
                inner->statements@,
            )[i] by {}
        },
        RoomAction::CreateGroup { request } => {
            law_document_leaves_out_secrets_only(
                request.config,
                step->Ask_1->EncodeConfig_0,
            );
        },
        _ => {},
    }
}

/// A device with a new token loses its connection and the user is told that token; a device that
/// was deleted loses its connection too.
pub proof fn law_connection_ends_with_token_and_device(
    db: Database,
    device_id: String,
    token: String,
    n: u64,
    fresh: Fresh,
    first: RoomStep,
    deleted: RoomStep,
    reply: Reply,
    second: RoomStep,
    third: RoomStep,
)
    requires
        (RoomRequest::Rekeying { device_id, token }).resumed(
            db,
            Reply::Affected(n),
            fresh,
            first,
        ),
        (RoomRequest::DeletingDevice { device_id, inner: Transaction::Committing }).resumed(
            db,
            Reply::Finished,
            fresh,
            deleted,
        ),
        first is Ask ==> (first->Ask_0).resumed(db, reply, fresh, second),
        deleted is Ask ==> (deleted->Ask_0).resumed(db, reply, fresh, third),
    ensures
        first is Ask && first->Ask_1 == (Call::Unregister { device_id }),
        second == RoomStep::Done(Ok(Body::DeviceToken(token))),
        deleted is Ask && deleted->Ask_1 == (Call::Unregister { device_id }),
        third == RoomStep::Done(Ok(Body::Done)),
{
}

/// A device that was marked as kicked is expelled with that word; where none was marked, none is
/// found and none is expelled.
pub proof fn law_kicked_device_is_expelled(
    db: Database,
    device_id: String,
    n: u64,
    fresh: Fresh,
    first: RoomStep,
    reply: Reply,
    second: RoomStep,
)
    requires
        (RoomRequest::Kicking { device_id }).resumed(db, Reply::Affected(n), fresh, first),
        n > 0 && first is Ask ==> (first->Ask_0).resumed(db, reply, fresh, second),
    ensures
        n == 0 ==> first == RoomStep::Done(Err(StatusCode::NotFound)),
        n > 0 ==> {
            &&& first is Ask
            &&& first->Ask_1 is Expel
            &&& first->Ask_1->Expel_device_id == device_id
            &&& first->Ask_1->Expel_message is Kick
            &&& first->Ask_1->Expel_message->Kick_reason@ == "kicked by console"@
            &&& second == RoomStep::Done(Ok(Body::Done))
        },
{
}

/// A push to one device goes to that device with its own group; a push to a device that the room
/// does not have is not found.
pub proof fn law_push_goes_to_a_device_of_the_room(
    db: Database,
    device_id: String,
    reply: Reply,
    n: int,
    fresh: Fresh,
    step: RoomStep,
)
    requires
        (RoomRequest::FindingDevice { device_id }).resumed(db, reply, fresh, step),
        counts(reply, n) && n >= 0,
    ensures
        n == 0 ==> step == RoomStep::Done(Err(StatusCode::NotFound)),
        n > 0 ==> {
            &&& step is Ask
            &&& reads_device(step->Ask_1, device_id@)
            &&& step->Ask_0 == (RoomRequest::PushingDevice {
                inner: PushConfig::Composing {
                    device_id,
                    inner: DeviceConfig::Looking { device_id, override_group_id: None },
                },
            })
        },
{
}

/// Whether a push to the devices of a group goes on with one of them: with the configuration of
/// that group.
pub open spec fn serves_device(
    step: RoomStep,
    group_id: String,
    device_id: String,
    rest: Seq<String>,
    reached: int,
) -> bool {
    &&& step is Ask
    &&& reads_device(step->Ask_1, device_id@)
    &&& step->Ask_0 is PushingGroup
    &&& step->Ask_0->PushingGroup_group_id == group_id
    &&& step->Ask_0->pending@ == rest
    &&& step->Ask_0->pushed == reached
    &&& step->Ask_0->PushingGroup_inner == (PushConfig::Composing {
        device_id,
        inner: DeviceConfig::Looking { device_id, override_group_id: Some(group_id) },
    })
}

/// A push to a group goes to the devices that the group has in the room, one after the other, each
/// with the configuration of the group; a group that the room does not have is not found.
pub proof fn law_push_to_a_group_goes_to_its_devices(
    db: Database,
    room_id: String,
    group_id: String,
    reply: Reply,
    n: int,
    fresh: Fresh,
    first: RoomStep,
    members: Reply,
    second: RoomStep,
)
    requires
        (RoomRequest::FindingGroup { room_id, group_id }).resumed(db, reply, fresh, first),
        counts(reply, n) && n >= 0,
        first is Ask ==> (first->Ask_0).resumed(db, members, fresh, second),
        members is Rows,
        forall|i: int|
            0 <= i < members->Rows_0@.len() ==> (#[trigger] members->Rows_0@[i])@.len() == 1
                && members->Rows_0@[i]@[0] is Text,
    ensures
        n == 0 ==> first == RoomStep::Done(Err(StatusCode::NotFound)),
        n > 0 ==> {
            let rows = members->Rows_0@;
            &&& first is Ask
            &&& reads(
                first->Ask_1,
                "SELECT id FROM devices WHERE room_id = ?1 AND group_id = ?2"@,
                seq![SqlView::Text(room_id@), SqlView::Text(group_id@)],
                seq![Column::Text],
            )
            &&& rows.len() == 0 ==> second == RoomStep::Done(Ok(Body::PushedTo(0)))
            &&& rows.len() > 0 ==> serves_device(
                second,
                group_id,
                rows[0]@[0]->Text_0,
                Seq::new((rows.len() - 1) as nat, |i: int| rows[i + 1]@[0]->Text_0),
                0,
            )
        },
{
    let rows = members->Rows_0@;
    if n > 0 {
        lemma_identifiers(rows);
        let ids = identifiers(rows)->Some_0;
        if rows.len() > 0 {
            assert(ids.drop_first() =~= Seq::new(
                (rows.len() - 1) as nat,
                |i: int| rows[i + 1]@[0]->Text_0,
            ));
        }
    }
}

/// A device that was reached counts, one that was not does not; then the next device is served, and
/// once none is left the number of those reached is told. A push that fails ends with its status.
pub proof fn law_reached_devices_are_counted(
    db: Database,
    group_id: String,
    pending: Vec<String>,
    pushed: u64,
    reached: bool,
    fresh: Fresh,
    step: RoomStep,
)
    requires
        (RoomRequest::PushingGroup {
            group_id,
            pending,
            pushed,
            inner: PushConfig::Sending,
        }).resumed(db, Reply::Sent(reached), fresh, step),
        pushed < u64::MAX,
    ensures
        ({
            let total: int = if reached {
                pushed + 1
            } else {
                pushed as int
            };
            &&& pending@.len() == 0 ==> step == RoomStep::Done(Ok(Body::PushedTo(total as u64)))
            &&& pending@.len() > 0 ==> serves_device(
                step,
                group_id,
                pending@[0],
                pending@.drop_first(),
                total,
            )
        }),
{
}

proof fn lemma_identifiers(rows: Seq<Vec<SqlValue>>)
    requires
        forall|i: int|
            0 <= i < rows.len() ==> (#[trigger] rows[i])@.len() == 1 && rows[i]@[0] is Text,
    ensures
        identifiers(rows) is Some,
        identifiers(rows)->Some_0.len() == rows.len(),
        forall|i: int|
            0 <= i < rows.len() ==> #[trigger] identifiers(rows)->Some_0[i]
                == rows[i]@[0]->Text_0,
    decreases rows.len(),
{
    if rows.len() > 0 {
        let front = rows.drop_last();
        assert forall|i: int| 0 <= i < front.len() implies (#[trigger] front[i])@.len() == 1
            && front[i]@[0] is Text by {
            assert(front[i] == rows[i]);
        }
        lemma_identifiers(front);
        assert(rows.last() == rows[rows.len() - 1]);
        assert forall|i: int| 0 <= i < rows.len() implies #[trigger] identifiers(rows)->Some_0[i]
            == rows[i]@[0]->Text_0 by {
            if i < front.len() {
                assert(identifiers(front)->Some_0[i] == front[i]@[0]->Text_0);
            }
        }
    }
}

/// What an action came to is told: done, or with the status of its failure.
pub proof fn law_outcome_is_told(
    db: Database,
    reply: Reply,
    fresh: Fresh,
    room: RoomStep,
    group: RoomStep,
    moved: RoomStep,
    changed: RoomStep,
    pushed: RoomStep,
)
    requires
        (RoomRequest::DeletingRoom { inner: Transaction::Committing }).resumed(
            db,
            reply,
            fresh,
            room,
        ),
        (RoomRequest::DeletingGroup { inner: Transaction::Committing }).resumed(
            db,
            reply,
            fresh,
            group,
        ),
        (RoomRequest::Moving { inner: SetDeviceGroup::Moving }).resumed(db, reply, fresh, moved),
        (RoomRequest::UpdatingDevice { inner: UpdateDevice::Writing }).resumed(
            db,
            reply,
            fresh,
            changed,
        ),
        (RoomRequest::PushingDevice { inner: PushConfig::Sending }).resumed(
            db,
            reply,
            fresh,
            pushed,
        ),
    ensures
        room == RoomStep::Done(
            if reply is Finished {
                Ok(Body::Done)
            } else {
                Err(StatusCode::InternalServerError)
            },
        ),
        group == RoomStep::Done(
            if reply is Finished {
                Ok(Body::Done)
            } else {
                Err(StatusCode::InternalServerError)
            },
        ),
        moved == RoomStep::Done(
            if reply is Affected && reply->Affected_0 > 0 {
                Ok(Body::Done)
            } else {
                Err(StatusCode::NotFound)
            },
        ),
        changed == RoomStep::Done(
            if reply is Affected {
                Ok(Body::Done)
            } else {
                Err(StatusCode::NotFound)
            },
        ),
        pushed == RoomStep::Done(
            if reply is Sent {
                Ok(Body::Pushed(reply->Sent_0))
            } else {
                Err(StatusCode::InternalServerError)
            },
        ),
{
}

/// A room is created for the user who asks and under the name asked for, beginning with the
/// identifier that was drawn.
pub proof fn law_new_room_is_the_users(
    user: AuthUser,
    request: CreateRoomRequest,
    fresh: Fresh,
    step: NewRoomStep,
)
    requires
        NewRoom::started(user, request, fresh, step),
    ensures
        step is Ask,
        step->Ask_0.inner == (CreateRoom::Checking {
            owner_id: user.id,
            name: request.name,
            id: fresh.room_id,
            attempt: 1,
        }),
        reads(
            step->Ask_1,
            "SELECT COUNT(*) FROM rooms WHERE id = ?1"@,
            seq![SqlView::Text(fresh.room_id@)],
            seq![Column::Integer],
        ),
{
    let sub = choose|sub: Step<CreateRoom, Result<Room, DbError>>| #[trigger]
        CreateRoom::checks(user.id, request.name, fresh.room_id, 1, sub) && NewRoom::lifts(
            sub,
            step,
        );
}

/// A group that was created or changed is told as it was stored, and so is a backup that was put
/// in.
pub proof fn law_what_was_stored_is_told(
    db: Database,
    fresh: Fresh,
    group: Group,
    n: u64,
    created: RoomStep,
    changed: RoomStep,
    report: BackupImportReport,
    imported: ImportStep,
)
    requires
        (RoomRequest::CreatingGroup { inner: CreateGroup::Inserting { group } }).resumed(
            db,
            Reply::Affected(n),
            fresh,
            created,
        ),
        (RoomRequest::UpdatingGroup { inner: UpdateGroup::Writing { group } }).resumed(
            db,
            Reply::Affected(n),
            fresh,
            changed,
        ),
        (ImportRequest { inner: ImportBackup::Committing { report } }).resumed(
            Reply::Finished,
            imported,
        ),
    ensures
        created == RoomStep::Done(Ok(Body::Group(group))),
        changed == RoomStep::Done(Ok(Body::Group(group))),
        imported == ImportStep::Done(Ok(Body::Imported(report))),
{
}

/// A list of groups is told once it is complete.
pub proof fn law_listed_groups_are_told(
    db: Database,
    fresh: Fresh,
    rows: Vec<Row>,
    step: RoomStep,
)
    requires
        (RoomRequest::ListingGroups { inner: ListGroups::Fetching }).resumed(
            db,
            Reply::Rows(rows),
            fresh,
            step,
        ),
        forall|i: int|
            0 <= i < rows@.len() ==> is_listed_row((#[trigger] rows@[i])@) && rows@[i]@[9] is Null,
    ensures
        step is Done && step->Done_0 is Ok && step->Done_0->Ok_0 is Groups,
        step->Done_0->Ok_0->Groups_0@.len() == rows@.len(),
        forall|i: int|
            0 <= i < rows@.len() ==> is_group_in(
                #[trigger] step->Done_0->Ok_0->Groups_0@[i],
                rows@[i]@,
            ),
{
    let sub = choose|sub: ListStep| #[trigger]
        ListGroups::Fetching.resumed(db, Reply::Rows(rows), sub) && RoomRequest::lists_groups(
            sub,
            step,
        );
    law_listed_groups_are_their_rows(Seq::empty(), db, rows, sub);
}

} // verus!
