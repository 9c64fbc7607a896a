//! Rooms.
use vstd::prelude::*;
use vstd::string::*;

use crate::crypto;
use crate::db::transaction::{views, Transaction};
use crate::db::{Database, DbError};
use crate::flow;
use crate::flow::{Call, Fresh, Reply, Step};
use crate::models::Room;
use crate::sql;
use crate::sql::{Column, Query, QueryView, Row, SqlValue, Statement, StatementView};

verus! {

/// Text of the query that counts a room.
pub const COUNT_ROOM: &'static str = "SELECT COUNT(*) FROM rooms WHERE id = ?1";

/// Counts the rooms with an identifier.
pub open spec fn count_room(room_id: Seq<char>) -> QueryView {
    sql::query(sql::statement(COUNT_ROOM@).text(room_id)).column(Column::Integer)
}

/// Text of the query that counts a room of an owner.
pub const COUNT_OWNED_ROOM: &'static str =
    "SELECT COUNT(*) FROM rooms WHERE id = ?1 AND owner_id = ?2";

/// Counts the rooms of an owner with an identifier.
pub open spec fn count_owned_room(room_id: Seq<char>, user_id: Seq<char>) -> QueryView {
    sql::query(sql::statement(COUNT_OWNED_ROOM@).text(room_id).text(user_id)).column(
        Column::Integer,
    )
}

/// Text of the statement that stores a room.
pub const INSERT_ROOM: &'static str =
    "INSERT INTO rooms(id, name, owner_id, created_at) VALUES(?1, ?2, ?3, ?4)";

/// Stores a room.
pub open spec fn insert_room(room: Room) -> StatementView {
    sql::statement(INSERT_ROOM@).text(room.id@).text(room.name@).text(room.owner_id@).integer(
        room.created_at,
    )
}

fn insert_room_statement(room: &Room) -> (s: Statement)
    ensures
        s@ == insert_room(*room),
{
    Statement::new(INSERT_ROOM).text(room.id.as_str()).text(room.name.as_str()).text(
        room.owner_id.as_str(),
    ).integer(room.created_at)
}

/// How often an identifier is drawn for a room.
pub const ROOM_ID_ATTEMPTS: u32 = 5;

/// A room being created.
#[derive(Debug)]
pub enum CreateRoom {
    /// An identifier is being checked; `attempt` counts the identifiers drawn so far.
    Checking { owner_id: String, name: String, id: String, attempt: u32 },
    /// The room is being stored.
    Inserting { room: Room },
}

impl CreateRoom {
    /// The step that checks whether an identifier is unused.
    pub open spec fn checks(
        owner_id: String,
        name: String,
        id: String,
        attempt: u32,
        step: Step<CreateRoom, Result<Room, DbError>>,
    ) -> bool {
        &&& step matches Step::Ask(state, call)
        &&& state == (CreateRoom::Checking { owner_id, name, id, attempt })
        &&& call.fetches(count_room(id@))
    }

    /// How the creation goes on with a reply: an identifier that is in use is drawn anew, five
    /// times at most; an unused one is stored.
    pub open spec fn resumed(
        self,
        reply: Reply,
        fresh: Fresh,
        step: Step<CreateRoom, Result<Room, DbError>>,
    ) -> bool {
        match self {
            CreateRoom::Checking { owner_id, name, id, attempt } => match flow::count_of(reply) {
                None => step == Step::<CreateRoom, Result<Room, DbError>>::Done(
                    Err(DbError::Failed),
                ),
                Some(0) => {
                    let room = Room { id, name, owner_id, created_at: fresh.now };
                    &&& step matches Step::Ask(state, call)
                    &&& state == (CreateRoom::Inserting { room })
                    &&& call.executes(insert_room(room))
                },
                Some(_) => if attempt >= ROOM_ID_ATTEMPTS {
                    step == Step::<CreateRoom, Result<Room, DbError>>::Done(
                        Err(DbError::RoomIdConflict),
                    )
                } else {
                    CreateRoom::checks(owner_id, name, fresh.room_id, (attempt + 1) as u32, step)
                },
            },
            CreateRoom::Inserting { room } => step == Step::<
                CreateRoom,
                Result<Room, DbError>,
            >::Done(
                match flow::affected_of(reply) {
                    Some(_) => Ok(room),
                    None => Err(DbError::Failed),
                },
            ),
        }
    }

    fn check(owner_id: String, name: String, id: String, attempt: u32) -> (step: Step<
        CreateRoom,
        Result<Room, DbError>,
    >)
        ensures
            CreateRoom::checks(owner_id, name, id, attempt, step),
    {
        let query = Query::new(Statement::new(COUNT_ROOM).text(id.as_str())).column(
            Column::Integer,
        );
        Step::Ask(CreateRoom::Checking { owner_id, name, id, attempt }, Call::Fetch(query))
    }

    /// Takes the reply and goes on.
    pub fn resume(self, reply: Reply, fresh: Fresh) -> (step: Step<
        CreateRoom,
        Result<Room, DbError>,
    >)
        ensures
            self.resumed(reply, fresh, step),
    {
        match self {
            CreateRoom::Checking { owner_id, name, id, attempt } => match flow::count(reply) {
                None => Step::Done(Err(DbError::Failed)),
                Some(n) => if n == 0 {
                    let room = Room { id, name, owner_id, created_at: fresh.now };
                    let statement = insert_room_statement(&room);
                    Step::Ask(CreateRoom::Inserting { room }, Call::Execute(statement))
                } else if attempt >= ROOM_ID_ATTEMPTS {
                    Step::Done(Err(DbError::RoomIdConflict))
                } else {
                    CreateRoom::check(owner_id, name, fresh.room_id, attempt + 1)
                },
            },
            CreateRoom::Inserting { room } => match flow::affected(reply) {
                Some(_) => Step::Done(Ok(room)),
                None => Step::Done(Err(DbError::Failed)),
            },
        }
    }
}

/// A room is only ever stored under an identifier that was just found unused.
pub proof fn law_room_id_is_unused(
    state: CreateRoom,
    reply: Reply,
    fresh: Fresh,
    step: Step<CreateRoom, Result<Room, DbError>>,
)
    requires
        state.resumed(reply, fresh, step),
    ensures
        step matches Step::Ask(CreateRoom::Inserting { room }, _) ==> state matches CreateRoom::Checking {
            id,
            ..
        } && room.id == id && flow::count_of(reply) == Some(0i64),
{
}

/// Whether the identifier that a creation works with has the form of a room identifier.
pub open spec fn has_room_id(state: CreateRoom) -> bool {
    match state {
        CreateRoom::Checking { id, .. } => crypto::is_room_id(id@),
        CreateRoom::Inserting { room } => crypto::is_room_id(room.id@),
    }
}

/// The identifier of every room has sixteen lower-case hexadecimal digits: a creation that
/// works with one goes on with one and ends with one.
pub proof fn law_room_id_has_its_form(
    state: CreateRoom,
    reply: Reply,
    fresh: Fresh,
    step: Step<CreateRoom, Result<Room, DbError>>,
)
    requires
        has_room_id(state),
        fresh.wf(),
        state.resumed(reply, fresh, step),
    ensures
        step matches Step::Ask(next, _) ==> has_room_id(next),
        step matches Step::Done(Ok(room)) ==> crypto::is_room_id(room.id@) && room.id@.len() == 16,
{
}

/// The room in a row of `select_rooms`.
pub open spec fn room_row(row: Seq<SqlValue>) -> Option<Room> {
    match (
        sql::text_cell(row, 0),
        sql::text_cell(row, 1),
        sql::text_cell(row, 2),
        sql::integer_cell(row, 3),
    ) {
        (Some(id), Some(name), Some(owner_id), Some(created_at)) => Some(
            Room { id, name, owner_id, created_at },
        ),
        _ => None,
    }
}

fn read_room(row: &Row) -> (room: Option<Room>)
    ensures
        room == room_row(row@),
{
    match (
        sql::text_at(row, 0),
        sql::text_at(row, 1),
        sql::text_at(row, 2),
        sql::integer_at(row, 3),
    ) {
        (Some(id), Some(name), Some(owner_id), Some(created_at)) => Some(
            Room { id, name, owner_id, created_at },
        ),
        _ => None,
    }
}

/// Whether rooms are what the rows of a result hold, in order.
pub open spec fn are_rooms(rows: Seq<Row>, rooms: Seq<Room>) -> bool {
    &&& rooms.len() == rows.len()
    &&& forall|i: int| 0 <= i < rows.len() ==> room_row(#[trigger] rows[i]@) == Some(rooms[i])
}

/// Reads the rooms of a result; `None` where a row is no room.
pub fn read_rooms(rows: &Vec<Row>) -> (rooms: Option<Vec<Room>>)
    ensures
        match rooms {
            Some(r) => are_rooms(rows@, r@),
            None => exists|i: int| 0 <= i < rows@.len() && room_row(#[trigger] rows@[i]@) is None,
        },
{
    let mut rooms: Vec<Room> = Vec::new();
    let mut i: usize = 0;
    while i < rows.len()
        invariant
            i <= rows@.len(),
            rooms@.len() == i,
            forall|j: int| 0 <= j < i ==> room_row(#[trigger] rows@[j]@) == Some(rooms@[j]),
        decreases rows@.len() - i,
    {
        match read_room(&rows[i]) {
            Some(room) => {
                rooms.push(room);
            },
            None => {
                assert(room_row(rows@[i as int]@) is None);
                return None;
            },
        }
        i = i + 1;
    }
    Some(rooms)
}

/// Text of the query for the rooms of an owner.
pub const SELECT_ROOMS: &'static str =
    "SELECT id, name, owner_id, created_at FROM rooms WHERE owner_id = ?1 ORDER BY created_at DESC";

/// Lists the rooms of an owner, the youngest first.
pub open spec fn select_rooms(owner_id: Seq<char>) -> QueryView {
    sql::query(sql::statement(SELECT_ROOMS@).text(owner_id)).column(Column::Text).column(
        Column::Text,
    ).column(Column::Text).column(Column::Integer)
}

/// Text of the statement that deletes the pushes to the devices of a room.
pub const DELETE_ROOM_PUSHES: &'static str =
    "DELETE FROM config_pushes WHERE device_id IN (SELECT id FROM devices WHERE room_id = ?1)";

/// Text of the statement that deletes the events of the devices of a room.
pub const DELETE_ROOM_EVENTS: &'static str =
    "DELETE FROM events WHERE device_id IN (SELECT id FROM devices WHERE room_id = ?1)";

/// Text of the statement that deletes the devices of a room.
pub const DELETE_ROOM_DEVICES: &'static str = "DELETE FROM devices WHERE room_id = ?1";

/// Text of the statement that deletes the groups of a room.
pub const DELETE_ROOM_GROUPS: &'static str = "DELETE FROM groups WHERE room_id = ?1";

/// Text of the statement that deletes a room.
pub const DELETE_ROOM: &'static str = "DELETE FROM rooms WHERE id = ?1";

/// Deletes a room with everything in it: what refers to a record goes before the record.
pub open spec fn delete_room_statements(room_id: Seq<char>) -> Seq<StatementView> {
    Seq::empty().push(sql::statement(DELETE_ROOM_PUSHES@).text(room_id)).push(
        sql::statement(DELETE_ROOM_EVENTS@).text(room_id),
    ).push(sql::statement(DELETE_ROOM_DEVICES@).text(room_id)).push(
        sql::statement(DELETE_ROOM_GROUPS@).text(room_id),
    ).push(sql::statement(DELETE_ROOM@).text(room_id))
}

impl Database {
    /// Begins to create a room.
    pub fn create_room(&self, owner_id: String, name: String, fresh: Fresh) -> (step: Step<
        CreateRoom,
        Result<Room, DbError>,
    >)
        ensures
            CreateRoom::checks(owner_id, name, fresh.room_id, 1, step),
    {
        CreateRoom::check(owner_id, name, fresh.room_id, 1)
    }

    /// The query for the rooms of an owner.
    pub fn list_rooms(&self, owner_id: &str) -> (q: Query)
        ensures
            q@ == select_rooms(owner_id@),
    {
        Query::new(Statement::new(SELECT_ROOMS).text(owner_id)).column(Column::Text).column(
            Column::Text,
        ).column(Column::Text).column(Column::Integer)
    }

    /// The query that tells whether a room exists: whether it counts any.
    pub fn room_exists(&self, room_id: &str) -> (q: Query)
        ensures
            q@ == count_room(room_id@),
    {
        Query::new(Statement::new(COUNT_ROOM).text(room_id)).column(Column::Integer)
    }

    /// The query that tells whether a room belongs to a user: whether it counts any.
    pub fn room_belongs_to(&self, room_id: &str, user_id: &str) -> (q: Query)
        ensures
            q@ == count_owned_room(room_id@, user_id@),
    {
        Query::new(Statement::new(COUNT_OWNED_ROOM).text(room_id).text(user_id)).column(
            Column::Integer,
        )
    }

    /// Begins to delete a room with everything in it.
    pub fn delete_room(&self, room_id: &str) -> (step: Step<Transaction, Result<(), DbError>>)
        ensures
            Transaction::started(delete_room_statements(room_id@), step),
    {
        let mut statements: Vec<Statement> = Vec::new();
        statements.push(Statement::new(DELETE_ROOM_PUSHES).text(room_id));
        statements.push(Statement::new(DELETE_ROOM_EVENTS).text(room_id));
        statements.push(Statement::new(DELETE_ROOM_DEVICES).text(room_id));
        statements.push(Statement::new(DELETE_ROOM_GROUPS).text(room_id));
        statements.push(Statement::new(DELETE_ROOM).text(room_id));
        assert(views(statements@) =~= delete_room_statements(room_id@));
        Transaction::start(statements)
    }
}

} // verus!
