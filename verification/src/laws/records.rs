//! Rooms, users and events as they are stored, and what goes with a record that is deleted.
use vstd::prelude::*;
use vstd::string::*;

use crate::api::backup::{ListEvents, ListEventsStep};
use crate::api::rooms::{ListRooms, ListRoomsStep, NewRoom, NewRoomStep, RoomRequest};
use crate::api::{Answer, Body};
use crate::auth::accepts;
use crate::db::devices::{delete_device_statements, device_row};
use crate::db::events::{event_row, select_events, select_owned_events};
use crate::db::group_store::delete_group_statements;
use crate::db::rooms::{
    count_owned_room, delete_room_statements, room_row, select_rooms, CreateRoom,
};
use crate::db::transaction::Transaction;
use crate::db::users::{
    count_admin, insert_admin, insert_user, remove_user, select_user, set_password, user_of,
    AdminOutcome, EnsureAdmin,
};
use crate::db::{Database, DbError};
use crate::flow::{Fresh, Reply, Step};
use crate::laws::{counts, gives, gives_none, is_query, is_statement, reads, runs, text_in};
use crate::models::{EventItem, Room};
use crate::sql::{Column, Row, SqlValue, SqlView, StatementView};
use crate::status::StatusCode;

verus! {

/// A step of creating a room.
pub type RoomStep = Step<CreateRoom, Result<Room, DbError>>;

/// A room is created under an identifier that no room has: the identifier is looked up first, and
/// where a room has it already another one is tried, five in all. What is told is what is stored.
pub proof fn law_room_is_stored_under_a_free_identifier(
    owner_id: String,
    name: String,
    id: String,
    attempt: u32,
    first: RoomStep,
    reply: Reply,
    n: int,
    fresh: Fresh,
    second: RoomStep,
    m: u64,
    third: RoomStep,
)
    requires
        CreateRoom::checks(owner_id, name, id, attempt, first),
        first is Ask ==> (first->Ask_0).resumed(reply, fresh, second),
        counts(reply, n),
        n == 0 && second is Ask ==> (second->Ask_0).resumed(Reply::Affected(m), fresh, third),
    ensures
        first is Ask,
        reads(
            first->Ask_1,
            "SELECT COUNT(*) FROM rooms WHERE id = ?1"@,
            seq![SqlView::Text(id@)],
            seq![Column::Integer],
        ),
        n == 0 ==> {
            &&& second is Ask
            &&& runs(
                second->Ask_1,
                "INSERT INTO rooms(id, name, owner_id, created_at) VALUES(?1, ?2, ?3, ?4)"@,
                seq![
                    SqlView::Text(id@),
                    SqlView::Text(name@),
                    SqlView::Text(owner_id@),
                    SqlView::Integer(fresh.now),
                ],
            )
            &&& third == RoomStep::Done(
                Ok(Room { id, name, owner_id, created_at: fresh.now }),
            )
        },
        n != 0 && attempt < 5 ==> {
            &&& second is Ask
            &&& second->Ask_0 == (CreateRoom::Checking {
                owner_id,
                name,
                id: fresh.room_id,
                attempt: (attempt + 1) as u32,
            })
            &&& reads(
                second->Ask_1,
                "SELECT COUNT(*) FROM rooms WHERE id = ?1"@,
                seq![SqlView::Text(fresh.room_id@)],
                seq![Column::Integer],
            )
        },
        n != 0 && attempt >= 5 ==> second == RoomStep::Done(Err(DbError::RoomIdConflict)),
{
}

/// The rooms of an owner are listed from the youngest on, each field from its own column, and
/// whether a room is an owner's is asked of both.
pub proof fn law_listed_room_is_its_row(
    room_id: Seq<char>,
    owner_id: Seq<char>,
    row: Seq<SqlValue>,
    room: Room,
)
    requires
        room_row(row) == Some(room),
    ensures
        is_query(
            select_rooms(owner_id),
            "SELECT id, name, owner_id, created_at FROM rooms WHERE owner_id = ?1 ORDER BY created_at DESC"@,
            seq![SqlView::Text(owner_id)],
            seq![Column::Text, Column::Text, Column::Text, Column::Integer],
        ),
        row.len() >= 4,
        row[0] == SqlValue::Text(room.id),
        row[1] == SqlValue::Text(room.name),
        row[2] == SqlValue::Text(room.owner_id),
        row[3] == SqlValue::Integer(room.created_at),
        is_query(
            count_owned_room(room_id, owner_id),
            "SELECT COUNT(*) FROM rooms WHERE id = ?1 AND owner_id = ?2"@,
            seq![SqlView::Text(room_id), SqlView::Text(owner_id)],
            seq![Column::Integer],
        ),
{
}

/// A user is found by name, with identifier, password hash and role as they are stored.
pub proof fn law_user_is_found_by_name(username: Seq<char>, reply: Reply, row: Seq<SqlValue>)
    requires
        !(reply is Rows) || gives_none(reply) || (gives(reply, row) && row.len() == 3
            && row[0] is Text && row[1] is Text && row[2] is Text),
    ensures
        is_query(
            select_user(username),
            "SELECT id, password, role FROM users WHERE username = ?1"@,
            seq![SqlView::Text(username)],
            seq![Column::Text, Column::Text, Column::Text],
        ),
        !(reply is Rows) ==> user_of(reply) is Err && user_of(reply)->Err_0 is Failed,
        gives_none(reply) ==> user_of(reply) is Ok && user_of(reply)->Ok_0 is None,
        gives(reply, row) ==> {
            &&& user_of(reply) is Ok && user_of(reply)->Ok_0 is Some
            &&& user_of(reply)->Ok_0->Some_0.id == row[0]->Text_0
            &&& user_of(reply)->Ok_0->Some_0.password_hash == row[1]->Text_0
            &&& user_of(reply)->Ok_0->Some_0.role == row[2]->Text_0
        },
{
}

/// A new user is stored with the role of a user, a changed password with its user, and a deletion
/// touches that user alone.
pub proof fn law_user_is_stored_under_its_identifier(
    id: Seq<char>,
    username: Seq<char>,
    hash: Seq<char>,
    now: i64,
)
    ensures
        is_statement(
            insert_user(id, username, hash, now),
            "INSERT INTO users(id, username, password, role, created_at) VALUES(?1, ?2, ?3, 'user', ?4)"@,
            seq![
                SqlView::Text(id),
                SqlView::Text(username),
                SqlView::Text(hash),
                SqlView::Integer(now),
            ],
        ),
        is_statement(
            set_password(hash, id),
            "UPDATE users SET password = ?1 WHERE id = ?2"@,
            seq![SqlView::Text(hash), SqlView::Text(id)],
        ),
        is_statement(
            remove_user(id),
            "DELETE FROM users WHERE id = ?1"@,
            seq![SqlView::Text(id)],
        ),
{
}

/// Where no user is called `admin`, one is stored under a fresh identifier, with the role of an
/// administrator and a hash that accepts the password `admin`; where there is one, nothing is.
pub proof fn law_administrator_is_there(
    reply: Reply,
    n: int,
    fresh: Fresh,
    first: Step<EnsureAdmin, Result<AdminOutcome, DbError>>,
)
    requires
        EnsureAdmin::Looking.resumed(reply, fresh, first),
        counts(reply, n),
    ensures
        is_query(
            count_admin(),
            "SELECT COUNT(*) FROM users WHERE username = 'admin'"@,
            seq![],
            seq![Column::Integer],
        ),
        n != 0 ==> first == Step::<EnsureAdmin, Result<AdminOutcome, DbError>>::Done(
            Ok(AdminOutcome::Present),
        ),
        n == 0 ==> {
            let call = first->Ask_1;
            &&& first is Ask
            &&& call is Execute
            &&& call->Execute_0.sql@
                == "INSERT INTO users(id, username, password, role, created_at) VALUES(?1, 'admin', ?2, 'admin', ?3)"@
            &&& call->Execute_0.params@.len() == 3
            &&& call->Execute_0.params@[0]@ == SqlView::Text(fresh.id@)
            &&& call->Execute_0.params@[1] is Text
            &&& accepts(call->Execute_0.params@[1]->Text_0@, "admin"@)
            &&& call->Execute_0.params@[2]@ == SqlView::Integer(fresh.now)
        },
{
    if n == 0 {
        let hash = choose|hash: Seq<char>|
            accepts(hash, "admin"@) && first->Ask_1.executes(
                #[trigger] insert_admin(fresh.id@, hash, fresh.now),
            );
        let params = first->Ask_1->Execute_0.params@;
        let seen = params.map_values(|p: SqlValue| p@);
        assert(seen == insert_admin(fresh.id@, hash, fresh.now).params);
        assert(seen.len() == 3);
        assert(params[0]@ == seen[0]);
        assert(params[1]@ == seen[1]);
        assert(params[2]@ == seen[2]);
    }
}

/// What follows the words `SELECT` in a list of events: the columns in order.
pub open spec fn lists_events(
    query: crate::sql::QueryView,
    sql: Seq<char>,
    params: Seq<SqlView>,
) -> bool {
    is_query(
        query,
        sql,
        params,
        seq![Column::Text, Column::Text, Column::Text, Column::OptionalText, Column::Integer],
    )
}

/// Events are listed from the youngest on, no more than asked for, of the device and of the type
/// that are asked for.
pub proof fn law_events_are_those_asked_for(device: String, event_type: String, limit: i64)
    ensures
        lists_events(
            select_events(None, None, limit),
            "SELECT id, device_id, event_type, payload, created_at FROM events ORDER BY created_at DESC LIMIT ?1"@,
            seq![SqlView::Integer(limit)],
        ),
        lists_events(
            select_events(Some(device), None, limit),
            "SELECT id, device_id, event_type, payload, created_at FROM events WHERE device_id = ?1 ORDER BY created_at DESC LIMIT ?2"@,
            seq![SqlView::Text(device@), SqlView::Integer(limit)],
        ),
        lists_events(
            select_events(None, Some(event_type), limit),
            "SELECT id, device_id, event_type, payload, created_at FROM events WHERE event_type = ?1 ORDER BY created_at DESC LIMIT ?2"@,
            seq![SqlView::Text(event_type@), SqlView::Integer(limit)],
        ),
        lists_events(
            select_events(Some(device), Some(event_type), limit),
            "SELECT id, device_id, event_type, payload, created_at FROM events WHERE device_id = ?1 AND event_type = ?2 ORDER BY created_at DESC LIMIT ?3"@,
            seq![SqlView::Text(device@), SqlView::Text(event_type@), SqlView::Integer(limit)],
        ),
{
}

/// The events of an owner are those of the devices in the owner's rooms, of the device and of the
/// type that are asked for.
pub proof fn law_owned_events_are_the_owners(
    owner_id: Seq<char>,
    device: String,
    event_type: String,
    limit: i64,
)
    ensures
        lists_events(
            select_owned_events(owner_id, None, None, limit),
            "SELECT e.id, e.device_id, e.event_type, e.payload, e.created_at FROM events e JOIN devices d ON e.device_id = d.id JOIN rooms r ON d.room_id = r.id WHERE r.owner_id = ?1 ORDER BY e.created_at DESC LIMIT ?2"@,
            seq![SqlView::Text(owner_id), SqlView::Integer(limit)],
        ),
        lists_events(
            select_owned_events(owner_id, Some(device), None, limit),
            "SELECT e.id, e.device_id, e.event_type, e.payload, e.created_at FROM events e JOIN devices d ON e.device_id = d.id JOIN rooms r ON d.room_id = r.id WHERE r.owner_id = ?1 AND e.device_id = ?2 ORDER BY e.created_at DESC LIMIT ?3"@,
            seq![SqlView::Text(owner_id), SqlView::Text(device@), SqlView::Integer(limit)],
        ),
        lists_events(
            select_owned_events(owner_id, None, Some(event_type), limit),
            "SELECT e.id, e.device_id, e.event_type, e.payload, e.created_at FROM events e JOIN devices d ON e.device_id = d.id JOIN rooms r ON d.room_id = r.id WHERE r.owner_id = ?1 AND e.event_type = ?2 ORDER BY e.created_at DESC LIMIT ?3"@,
            seq![SqlView::Text(owner_id), SqlView::Text(event_type@), SqlView::Integer(limit)],
        ),
        lists_events(
            select_owned_events(owner_id, Some(device), Some(event_type), limit),
            "SELECT e.id, e.device_id, e.event_type, e.payload, e.created_at FROM events e JOIN devices d ON e.device_id = d.id JOIN rooms r ON d.room_id = r.id WHERE r.owner_id = ?1 AND e.device_id = ?2 AND e.event_type = ?3 ORDER BY e.created_at DESC LIMIT ?4"@,
            seq![
                SqlView::Text(owner_id),
                SqlView::Text(device@),
                SqlView::Text(event_type@),
                SqlView::Integer(limit),
            ],
        ),
{
}

/// Each field of a listed event is the value of its own column.
pub proof fn law_listed_event_is_its_row(row: Seq<SqlValue>, event: EventItem)
    requires
        event_row(row) == Some(event),
    ensures
        row.len() >= 5,
        row[0] == SqlValue::Text(event.id),
        row[1] == SqlValue::Text(event.device_id),
        row[2] == SqlValue::Text(event.event_type),
        event.payload == text_in(row[3]),
        row[4] == SqlValue::Integer(event.created_at),
{
}

/// A step of a transaction.
pub type TransactionStep = Step<Transaction, Result<(), DbError>>;

/// Whether each step of a transaction of some statements follows from the one before, with every
/// call going well.
pub open spec fn goes_well(steps: Seq<TransactionStep>, affected: Seq<u64>) -> bool {
    let count = affected.len() as int;
    &&& steps.len() == count + 3
    &&& steps[0] is Ask ==> (steps[0]->Ask_0).resumed(Reply::Finished, steps[1])
    &&& forall|k: int|
        #![trigger affected[k]]
        0 <= k < count && steps[k + 1] is Ask ==> (steps[k + 1]->Ask_0).resumed(
            Reply::Affected(affected[k]),
            steps[k + 2],
        )
    &&& steps[count + 1] is Ask ==> (steps[count + 1]->Ask_0).resumed(
        Reply::Finished,
        steps[count + 2],
    )
}

/// Whether the steps of a transaction begin it, run the statements in order, commit it and end.
pub open spec fn runs_in_order(
    steps: Seq<TransactionStep>,
    statements: Seq<StatementView>,
) -> bool {
    let count = statements.len() as int;
    &&& steps[0] is Ask && steps[0]->Ask_1 is Begin
    &&& forall|k: int|
        0 <= k < count ==> (#[trigger] steps[k + 1]) is Ask && steps[k + 1]->Ask_1.executes(
            statements[k],
        )
    &&& steps[count + 1] is Ask && steps[count + 1]->Ask_1 is Commit
    &&& steps[count + 2] == TransactionStep::Done(Ok(()))
}

/// A transaction runs its statements in order, between its beginning and its commit.
pub proof fn law_transaction_runs_in_order(
    statements: Seq<StatementView>,
    steps: Seq<TransactionStep>,
    affected: Seq<u64>,
)
    requires
        affected.len() == statements.len(),
        goes_well(steps, affected),
        Transaction::started(statements, steps[0]),
    ensures
        runs_in_order(steps, statements),
{
    let count = statements.len() as int;
    assert(statements.skip(0) =~= statements);
    assert(steps[0] is Ask);
    assert(Transaction::advanced(statements, steps[1]));
    lemma_left(statements, steps, affected, 0);
}

proof fn lemma_left(
    statements: Seq<StatementView>,
    steps: Seq<TransactionStep>,
    affected: Seq<u64>,
    i: int,
)
    requires
        affected.len() == statements.len(),
        goes_well(steps, affected),
        0 <= i <= statements.len(),
        Transaction::advanced(statements.skip(i), steps[i + 1]),
    ensures
        forall|k: int|
            i <= k < statements.len() ==> (#[trigger] steps[k + 1]) is Ask
                && steps[k + 1]->Ask_1.executes(statements[k]),
        steps[statements.len() as int + 1] is Ask,
        steps[statements.len() as int + 1]->Ask_1 is Commit,
        steps[statements.len() as int + 2] == TransactionStep::Done(Ok(())),
    decreases statements.len() - i,
{
    let left = statements.skip(i);
    if i < statements.len() {
        assert(left.drop_first() =~= statements.skip(i + 1));
        assert((steps[i + 1]->Ask_0).resumed(Reply::Affected(affected[i]), steps[i + 2]));
        assert(Transaction::advanced(statements.skip(i + 1), steps[i + 2]));
        lemma_left(statements, steps, affected, i + 1);
    } else {
        assert(steps[i + 1] is Ask);
    }
}

/// With a room go, in this order, the pushes and the events of its devices, its devices, its groups
/// and the room.
pub proof fn law_room_goes_with_everything_in_it(room_id: Seq<char>)
    ensures
        delete_room_statements(room_id).len() == 5,
        is_statement(
            delete_room_statements(room_id)[0],
            "DELETE FROM config_pushes WHERE device_id IN (SELECT id FROM devices WHERE room_id = ?1)"@,
            seq![SqlView::Text(room_id)],
        ),
        is_statement(
            delete_room_statements(room_id)[1],
            "DELETE FROM events WHERE device_id IN (SELECT id FROM devices WHERE room_id = ?1)"@,
            seq![SqlView::Text(room_id)],
        ),
        is_statement(
            delete_room_statements(room_id)[2],
            "DELETE FROM devices WHERE room_id = ?1"@,
            seq![SqlView::Text(room_id)],
        ),
        is_statement(
            delete_room_statements(room_id)[3],
            "DELETE FROM groups WHERE room_id = ?1"@,
            seq![SqlView::Text(room_id)],
        ),
        is_statement(
            delete_room_statements(room_id)[4],
            "DELETE FROM rooms WHERE id = ?1"@,
            seq![SqlView::Text(room_id)],
        ),
{
}

/// With a device of a room go the pushes to it and its events.
pub proof fn law_device_goes_with_what_is_its_own(room_id: Seq<char>, device_id: Seq<char>)
    ensures
        delete_device_statements(room_id, device_id).len() == 3,
        is_statement(
            delete_device_statements(room_id, device_id)[0],
            "DELETE FROM config_pushes WHERE device_id = ?1"@,
            seq![SqlView::Text(device_id)],
        ),
        is_statement(
            delete_device_statements(room_id, device_id)[1],
            "DELETE FROM events WHERE device_id = ?1"@,
            seq![SqlView::Text(device_id)],
        ),
        is_statement(
            delete_device_statements(room_id, device_id)[2],
            "DELETE FROM devices WHERE id = ?1 AND room_id = ?2"@,
            seq![SqlView::Text(device_id), SqlView::Text(room_id)],
        ),
{
}

/// The devices of a group of a room leave it before it goes.
pub proof fn law_devices_leave_a_group_before_it_goes(room_id: Seq<char>, group_id: Seq<char>)
    ensures
        delete_group_statements(room_id, group_id).len() == 2,
        is_statement(
            delete_group_statements(room_id, group_id)[0],
            "UPDATE devices SET group_id = NULL WHERE room_id = ?1 AND group_id = ?2"@,
            seq![SqlView::Text(room_id), SqlView::Text(group_id)],
        ),
        is_statement(
            delete_group_statements(room_id, group_id)[1],
            "DELETE FROM groups WHERE id = ?1 AND room_id = ?2"@,
            seq![SqlView::Text(group_id), SqlView::Text(room_id)],
        ),
{
}

/// A list of rooms has one room for each row, in the order of the rows, and so has a list of
/// events; a list with a row that is none is a failure of the server.
pub proof fn law_lists_follow_their_rows(
    rows: Vec<Row>,
    rooms: ListRoomsStep,
    events: ListEventsStep,
    i: int,
)
    requires
        ListRooms.resumed(Reply::Rows(rows), rooms),
        ListEvents.resumed(Reply::Rows(rows), events),
        0 <= i < rows@.len(),
    ensures
        rooms is Done && events is Done,
        rooms->Done_0 is Ok ==> {
            &&& rooms->Done_0->Ok_0 is Rooms
            &&& rooms->Done_0->Ok_0->Rooms_0@.len() == rows@.len()
            &&& room_row(rows@[i]@) == Some(rooms->Done_0->Ok_0->Rooms_0@[i])
        },
        room_row(rows@[i]@) is None ==> rooms == ListRoomsStep::Done(
            Err(StatusCode::InternalServerError),
        ),
        events->Done_0 is Ok ==> {
            &&& events->Done_0->Ok_0 is Events
            &&& events->Done_0->Ok_0->Events_0@.len() == rows@.len()
            &&& event_row(rows@[i]@) == Some(events->Done_0->Ok_0->Events_0@[i])
        },
        event_row(rows@[i]@) is None ==> events == ListEventsStep::Done(
            Err(StatusCode::InternalServerError),
        ),
        (forall|k: int| 0 <= k < rows@.len() ==> room_row((#[trigger] rows@[k])@) is Some)
            ==> rooms->Done_0 is Ok,
        (forall|k: int| 0 <= k < rows@.len() ==> event_row((#[trigger] rows@[k])@) is Some)
            ==> events->Done_0 is Ok,
{
}

/// A room that was created is told, and a list of devices has one device for each row.
pub proof fn law_room_and_devices_are_told(
    db: Database,
    fresh: Fresh,
    room: Room,
    n: u64,
    created: NewRoomStep,
    rows: Vec<Row>,
    listed: RoomRequestStep,
    i: int,
)
    requires
        (NewRoom { inner: CreateRoom::Inserting { room } }).resumed(
            Reply::Affected(n),
            fresh,
            created,
        ),
        RoomRequest::ListingDevices.resumed(db, Reply::Rows(rows), fresh, listed),
        0 <= i < rows@.len(),
    ensures
        created == NewRoomStep::Done(Ok(Body::Room(room))),
        listed is Done,
        listed->Done_0 is Ok ==> {
            &&& listed->Done_0->Ok_0 is Devices
            &&& listed->Done_0->Ok_0->Devices_0@.len() == rows@.len()
            &&& device_row(rows@[i]@) == Some(listed->Done_0->Ok_0->Devices_0@[i])
        },
        device_row(rows@[i]@) is None ==> listed == RoomRequestStep::Done(
            Err(StatusCode::InternalServerError),
        ),
        (forall|k: int| 0 <= k < rows@.len() ==> device_row((#[trigger] rows@[k])@) is Some)
            ==> listed->Done_0 is Ok,
{
}

/// A step of a request within a room.
pub type RoomRequestStep = Step<RoomRequest, Answer>;

} // verus!
