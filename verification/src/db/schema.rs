//! The tables and their columns.
use vstd::prelude::*;
use vstd::string::*;

use crate::db::transaction::views;
use crate::db::{Database, DbError};
use crate::flow;
use crate::flow::{Call, Reply, Step};
use crate::sql;
use crate::sql::{Column, Query, QueryView, Row, Statement, StatementView};
use crate::text;

verus! {

/// Text of the statement that creates the table of users.
pub const CREATE_USERS: &'static str =
    "CREATE TABLE IF NOT EXISTS users (id TEXT PRIMARY KEY, username TEXT UNIQUE NOT NULL, password TEXT NOT NULL, role TEXT NOT NULL DEFAULT 'user', created_at INTEGER NOT NULL)";

/// Text of the statement that creates the table of rooms.
pub const CREATE_ROOMS: &'static str =
    "CREATE TABLE IF NOT EXISTS rooms (id TEXT PRIMARY KEY, name TEXT NOT NULL, owner_id TEXT NOT NULL, created_at INTEGER NOT NULL, FOREIGN KEY(owner_id) REFERENCES users(id))";

/// Text of the statement that creates the index of the rooms.
pub const CREATE_ROOM_INDEX: &'static str =
    "CREATE UNIQUE INDEX IF NOT EXISTS idx_rooms_id ON rooms(id)";

/// Text of the statement that creates the table of groups.
pub const CREATE_GROUPS: &'static str =
    "CREATE TABLE IF NOT EXISTS groups (id TEXT PRIMARY KEY, room_id TEXT NOT NULL, name TEXT NOT NULL, encrypted_token TEXT, encrypted_server TEXT, encrypted_password TEXT, extra_config TEXT, config_version INTEGER NOT NULL DEFAULT 1, created_at INTEGER NOT NULL, updated_at INTEGER NOT NULL, FOREIGN KEY(room_id) REFERENCES rooms(id))";

/// Text of the statement that creates the table of events.
pub const CREATE_EVENTS: &'static str =
    "CREATE TABLE IF NOT EXISTS events (id TEXT PRIMARY KEY, device_id TEXT NOT NULL, event_type TEXT NOT NULL, payload TEXT, created_at INTEGER NOT NULL, FOREIGN KEY(device_id) REFERENCES devices(id))";

/// Text of the statement that creates the table of pushed configurations.
pub const CREATE_PUSHES: &'static str =
    "CREATE TABLE IF NOT EXISTS config_pushes (id TEXT PRIMARY KEY, device_id TEXT NOT NULL, group_id TEXT, config_snapshot TEXT NOT NULL, pushed_at INTEGER NOT NULL, acked INTEGER NOT NULL DEFAULT 0, FOREIGN KEY(device_id) REFERENCES devices(id))";

/// Text of the statement that creates the table of sessions.
pub const CREATE_SESSIONS: &'static str =
    "CREATE TABLE IF NOT EXISTS sessions (token TEXT PRIMARY KEY, user_id TEXT NOT NULL, created_at INTEGER NOT NULL, expires_at INTEGER NOT NULL, FOREIGN KEY(user_id) REFERENCES users(id))";

/// Text of the statement that creates the table of settings.
pub const CREATE_SETTINGS: &'static str =
    "CREATE TABLE IF NOT EXISTS system_config (key TEXT PRIMARY KEY, value TEXT NOT NULL, updated_at INTEGER NOT NULL)";

/// A column of the devices.
pub struct DeviceColumn {
    pub name: &'static str,
    pub definition: &'static str,
}

/// A column in specifications: name and definition.
pub open spec fn column_view(column: DeviceColumn) -> (Seq<char>, Seq<char>) {
    (column.name@, column.definition@)
}

/// The columns that the devices are created with.
pub open spec fn first_device_columns() -> Seq<(Seq<char>, Seq<char>)> {
    Seq::empty().push(("id"@, "TEXT PRIMARY KEY"@)).push(("room_id"@, "TEXT NOT NULL"@)).push(
        ("group_id"@, "TEXT"@),
    ).push(("display_name"@, "TEXT NOT NULL"@)).push(("network_ip"@, "TEXT"@)).push(
        ("network_node_id"@, "TEXT"@),
    ).push(("device_token"@, "TEXT NOT NULL"@)).push(("last_seen"@, "INTEGER"@)).push(
        ("status"@, "TEXT NOT NULL DEFAULT 'pending'"@),
    ).push(("config_version"@, "INTEGER NOT NULL DEFAULT 0"@)).push(
        ("up_stream"@, "INTEGER DEFAULT 0"@),
    ).push(("down_stream"@, "INTEGER DEFAULT 0"@)).push(("traffic_updated_at"@, "INTEGER"@)).push(
        ("created_at"@, "INTEGER NOT NULL"@),
    )
}

fn list_first_device_columns() -> (columns: Vec<DeviceColumn>)
    ensures
        columns@.map_values(|c: DeviceColumn| column_view(c)) == first_device_columns(),
{
    let mut columns: Vec<DeviceColumn> = Vec::new();
    columns.push(DeviceColumn { name: "id", definition: "TEXT PRIMARY KEY" });
    columns.push(DeviceColumn { name: "room_id", definition: "TEXT NOT NULL" });
    columns.push(DeviceColumn { name: "group_id", definition: "TEXT" });
    columns.push(DeviceColumn { name: "display_name", definition: "TEXT NOT NULL" });
    columns.push(DeviceColumn { name: "network_ip", definition: "TEXT" });
    columns.push(DeviceColumn { name: "network_node_id", definition: "TEXT" });
    columns.push(DeviceColumn { name: "device_token", definition: "TEXT NOT NULL" });
    columns.push(DeviceColumn { name: "last_seen", definition: "INTEGER" });
    columns.push(DeviceColumn { name: "status", definition: "TEXT NOT NULL DEFAULT 'pending'" });
    columns.push(DeviceColumn { name: "config_version", definition: "INTEGER NOT NULL DEFAULT 0" });
    columns.push(DeviceColumn { name: "up_stream", definition: "INTEGER DEFAULT 0" });
    columns.push(DeviceColumn { name: "down_stream", definition: "INTEGER DEFAULT 0" });
    columns.push(DeviceColumn { name: "traffic_updated_at", definition: "INTEGER" });
    columns.push(DeviceColumn { name: "created_at", definition: "INTEGER NOT NULL" });
    assert(columns@.map_values(|c: DeviceColumn| column_view(c)) =~= first_device_columns());
    columns
}

/// A column as it stands in the statement that creates its table.
pub open spec fn column_clause(column: (Seq<char>, Seq<char>)) -> Seq<char> {
    column.0 + " "@ + column.1
}

/// Text of the statement that creates the table of devices.
pub open spec fn create_devices() -> Seq<char> {
    "CREATE TABLE IF NOT EXISTS devices ("@ + text::joined(
        first_device_columns().map_values(|c: (Seq<char>, Seq<char>)| column_clause(c)),
        ", "@,
    )
        + ", FOREIGN KEY(room_id) REFERENCES rooms(id), FOREIGN KEY(group_id) REFERENCES groups(id))"@
}

fn write_create_devices() -> (sql: String)
    ensures
        sql@ == create_devices(),
{
    let columns = list_first_device_columns();
    let ghost all = first_device_columns();
    let ghost clauses = all.map_values(|c: (Seq<char>, Seq<char>)| column_clause(c));
    let mut parts: Vec<String> = Vec::new();
    let mut i: usize = 0;
    while i < columns.len()
        invariant
            i <= columns@.len(),
            all == columns@.map_values(|c: DeviceColumn| column_view(c)),
            parts@.len() == i,
            forall|j: int| 0 <= j < i ==> (#[trigger] parts@[j])@ == column_clause(all[j]),
        decreases columns@.len() - i,
    {
        assert(all[i as int] == column_view(columns@[i as int]));
        parts.push(text::pair(columns[i].name, " ", columns[i].definition));
        i = i + 1;
    }
    assert(parts@.map_values(|p: String| p@) =~= clauses);
    let list = text::join(&parts, ", ");
    let mut sql = "CREATE TABLE IF NOT EXISTS devices (".to_string();
    sql.append(list.as_str());
    sql.append(
        ", FOREIGN KEY(room_id) REFERENCES rooms(id), FOREIGN KEY(group_id) REFERENCES groups(id))",
    );
    sql
}

/// The columns of the devices that older tables lack: traffic, then what a device reports of
/// itself.
pub open spec fn device_columns() -> Seq<(Seq<char>, Seq<char>)> {
    Seq::empty().push(("up_stream"@, "INTEGER DEFAULT 0"@)).push(
        ("down_stream"@, "INTEGER DEFAULT 0"@),
    ).push(("traffic_updated_at"@, "INTEGER"@)).push(("client_version"@, "TEXT"@)).push(
        ("console_public_ip"@, "TEXT"@),
    ).push(("vnts_status"@, "TEXT"@)).push(("vnts_error"@, "TEXT"@)).push(
        ("vnts_updated_at"@, "INTEGER"@),
    )
}

fn list_device_columns() -> (columns: Vec<DeviceColumn>)
    ensures
        columns@.map_values(|c: DeviceColumn| column_view(c)) == device_columns(),
{
    let mut columns: Vec<DeviceColumn> = Vec::new();
    columns.push(DeviceColumn { name: "up_stream", definition: "INTEGER DEFAULT 0" });
    columns.push(DeviceColumn { name: "down_stream", definition: "INTEGER DEFAULT 0" });
    columns.push(DeviceColumn { name: "traffic_updated_at", definition: "INTEGER" });
    columns.push(DeviceColumn { name: "client_version", definition: "TEXT" });
    columns.push(DeviceColumn { name: "console_public_ip", definition: "TEXT" });
    columns.push(DeviceColumn { name: "vnts_status", definition: "TEXT" });
    columns.push(DeviceColumn { name: "vnts_error", definition: "TEXT" });
    columns.push(DeviceColumn { name: "vnts_updated_at", definition: "INTEGER" });
    assert(columns@.map_values(|c: DeviceColumn| column_view(c)) =~= device_columns());
    columns
}

/// Creates what is missing of the tables, those that others refer to first.
pub open spec fn create_statements() -> Seq<StatementView> {
    Seq::empty().push(sql::statement(CREATE_USERS@)).push(sql::statement(CREATE_ROOMS@))
        .push(sql::statement(CREATE_ROOM_INDEX@)).push(sql::statement(CREATE_GROUPS@))
        .push(sql::statement(create_devices())).push(sql::statement(CREATE_EVENTS@))
        .push(sql::statement(CREATE_PUSHES@)).push(sql::statement(CREATE_SESSIONS@))
        .push(sql::statement(CREATE_SETTINGS@))
}

fn create_all() -> (statements: Vec<Statement>)
    ensures
        views(statements@) == create_statements(),
{
    let mut statements: Vec<Statement> = Vec::new();
    statements.push(Statement::new(CREATE_USERS));
    statements.push(Statement::new(CREATE_ROOMS));
    statements.push(Statement::new(CREATE_ROOM_INDEX));
    statements.push(Statement::new(CREATE_GROUPS));
    let devices = write_create_devices();
    statements.push(Statement::new(devices.as_str()));
    statements.push(Statement::new(CREATE_EVENTS));
    statements.push(Statement::new(CREATE_PUSHES));
    statements.push(Statement::new(CREATE_SESSIONS));
    statements.push(Statement::new(CREATE_SETTINGS));
    assert(views(statements@) =~= create_statements());
    statements
}

/// Text of the query for the columns of the devices.
pub const DEVICE_COLUMNS: &'static str = "PRAGMA table_info(devices)";

/// Lists the columns of the devices: number and name.
pub open spec fn select_device_columns() -> QueryView {
    sql::query(sql::statement(DEVICE_COLUMNS@)).column(Column::Integer).column(Column::Text)
}

/// Adds a column to the devices.
pub open spec fn add_column(column: (Seq<char>, Seq<char>)) -> StatementView {
    sql::statement("ALTER TABLE devices ADD COLUMN "@ + column.0 + " "@ + column.1)
}

/// Whether a row of a result names a column.
pub open spec fn names_column(row: Row, name: Seq<char>) -> bool {
    sql::text_cell(row@, 1) matches Some(n) && n@ == name
}

/// Whether a result names a column.
pub open spec fn column_known(rows: Seq<Row>, name: Seq<char>) -> bool {
    exists|i: int| 0 <= i < rows.len() && names_column(#[trigger] rows[i], name)
}

/// Adds the columns that a result does not name, in order.
pub open spec fn alterations(columns: Seq<(Seq<char>, Seq<char>)>, rows: Seq<Row>) -> Seq<
    StatementView,
>
    decreases columns.len(),
{
    if columns.len() == 0 {
        Seq::empty()
    } else if column_known(rows, columns.last().0) {
        alterations(columns.drop_last(), rows)
    } else {
        alterations(columns.drop_last(), rows).push(add_column(columns.last()))
    }
}

fn knows_column(rows: &Vec<Row>, name: &str) -> (known: bool)
    ensures
        known == column_known(rows@, name@),
{
    let mut i: usize = 0;
    while i < rows.len()
        invariant
            i <= rows@.len(),
            forall|j: int| 0 <= j < i ==> !names_column(#[trigger] rows@[j], name@),
        decreases rows@.len() - i,
    {
        if let Some(found) = sql::text_at(&rows[i], 1) {
            if text::same_text(found.as_str(), name) {
                assert(names_column(rows@[i as int], name@));
                return true;
            }
        }
        i = i + 1;
    }
    false
}

/// Builds the statements that add the missing columns of the devices.
pub fn missing_columns(rows: &Vec<Row>) -> (statements: Vec<Statement>)
    ensures
        views(statements@) == alterations(device_columns(), rows@),
{
    let columns = list_device_columns();
    let ghost all = device_columns();
    let mut statements: Vec<Statement> = Vec::new();
    let mut i: usize = 0;
    assert(views(statements@) =~= alterations(all.take(0), rows@));
    while i < columns.len()
        invariant
            i <= columns@.len(),
            all == columns@.map_values(|c: DeviceColumn| column_view(c)),
            views(statements@) == alterations(all.take(i as int), rows@),
        decreases columns@.len() - i,
    {
        let ghost before = statements@;
        assert(all[i as int] == column_view(columns@[i as int]));
        assert(all.take(i + 1).drop_last() =~= all.take(i as int));
        assert(all.take(i + 1).last() == all[i as int]);
        if !knows_column(rows, columns[i].name) {
            let mut statement = "ALTER TABLE devices ADD COLUMN ".to_string();
            statement.append(columns[i].name);
            statement.append(" ");
            statement.append(columns[i].definition);
            statements.push(Statement::new(statement.as_str()));
            assert(views(statements@) =~= views(before).push(add_column(all[i as int])));
        }
        i = i + 1;
    }
    assert(all.take(i as int) =~= all);
    statements
}

proof fn lemma_alterations(columns: Seq<(Seq<char>, Seq<char>)>, rows: Seq<Row>, i: int)
    requires
        0 <= i < columns.len(),
    ensures
        !column_known(rows, columns[i].0) ==> alterations(columns, rows).contains(
            add_column(columns[i]),
        ),
    decreases columns.len(),
{
    let shorter = alterations(columns.drop_last(), rows);
    if i < columns.len() - 1 {
        lemma_alterations(columns.drop_last(), rows, i);
        assert(columns.drop_last()[i] == columns[i]);
        if !column_known(rows, columns[i].0) {
            let k = choose|k: int| 0 <= k < shorter.len() && shorter[k] == add_column(columns[i]);
            assert(alterations(columns, rows)[k] == add_column(columns[i]));
        }
    } else if !column_known(rows, columns[i].0) {
        assert(alterations(columns, rows)[shorter.len() as int] == add_column(columns[i]));
    }
}

/// Every column that the devices lack is added.
pub proof fn law_missing_column_is_added(rows: Seq<Row>, i: int)
    requires
        0 <= i < device_columns().len(),
        !column_known(rows, device_columns()[i].0),
    ensures
        alterations(device_columns(), rows).contains(add_column(device_columns()[i])),
{
    lemma_alterations(device_columns(), rows, i);
}

/// Where no column is missing, nothing is altered.
pub proof fn law_complete_table_stays(columns: Seq<(Seq<char>, Seq<char>)>, rows: Seq<Row>)
    requires
        forall|i: int| 0 <= i < columns.len() ==> column_known(rows, #[trigger] columns[i].0),
    ensures
        alterations(columns, rows) == Seq::<StatementView>::empty(),
    decreases columns.len(),
{
    if columns.len() > 0 {
        assert(column_known(rows, columns[columns.len() - 1].0));
        assert forall|i: int| 0 <= i < columns.drop_last().len() implies column_known(
            rows,
            #[trigger] columns.drop_last()[i].0,
        ) by {
            assert(column_known(rows, columns[i].0));
        }
        law_complete_table_stays(columns.drop_last(), rows);
    }
}

/// The tables being prepared.
#[derive(Debug)]
pub enum Init {
    /// A table is being created; the rest follows.
    Creating { rest: Vec<Statement> },
    /// The columns of the devices are being listed.
    Inspecting,
    /// A column is being added; the rest follows.
    Altering { rest: Vec<Statement> },
}

impl Init {
    /// The step when tables are left to create, or none.
    pub open spec fn creates(left: Seq<StatementView>, step: Step<Init, Result<(), DbError>>) -> bool {
        if left.len() == 0 {
            step matches Step::Ask(Init::Inspecting, call) && call.fetches(select_device_columns())
        } else {
            &&& step matches Step::Ask(Init::Creating { rest }, call)
            &&& call.executes(left[0])
            &&& views(rest@) == left.drop_first()
        }
    }

    /// The step when columns are left to add, or none.
    pub open spec fn alters(left: Seq<StatementView>, step: Step<Init, Result<(), DbError>>) -> bool {
        if left.len() == 0 {
            step == Step::<Init, Result<(), DbError>>::Done(Ok(()))
        } else {
            &&& step matches Step::Ask(Init::Altering { rest }, call)
            &&& call.executes(left[0])
            &&& views(rest@) == left.drop_first()
        }
    }

    /// How it goes on with a reply: all tables, then the columns that the devices lack.
    pub open spec fn resumed(self, reply: Reply, step: Step<Init, Result<(), DbError>>) -> bool {
        match self {
            Init::Creating { rest } => if flow::affected_of(reply) is Some {
                Init::creates(views(rest@), step)
            } else {
                step == Step::<Init, Result<(), DbError>>::Done(Err(DbError::Failed))
            },
            Init::Inspecting => match flow::rows_of(reply) {
                Some(rows) => Init::alters(alterations(device_columns(), rows), step),
                None => step == Step::<Init, Result<(), DbError>>::Done(Err(DbError::Failed)),
            },
            Init::Altering { rest } => if flow::affected_of(reply) is Some {
                Init::alters(views(rest@), step)
            } else {
                step == Step::<Init, Result<(), DbError>>::Done(Err(DbError::Failed))
            },
        }
    }

    fn create(left: Vec<Statement>) -> (step: Step<Init, Result<(), DbError>>)
        ensures
            Init::creates(views(left@), step),
    {
        let mut left = left;
        if left.len() == 0 {
            let query = Query::new(Statement::new(DEVICE_COLUMNS)).column(Column::Integer).column(
                Column::Text,
            );
            Step::Ask(Init::Inspecting, Call::Fetch(query))
        } else {
            let ghost all = left@;
            let first = left.remove(0);
            assert(views(left@) =~= views(all).drop_first());
            Step::Ask(Init::Creating { rest: left }, Call::Execute(first))
        }
    }

    fn alter(left: Vec<Statement>) -> (step: Step<Init, Result<(), DbError>>)
        ensures
            Init::alters(views(left@), step),
    {
        let mut left = left;
        if left.len() == 0 {
            Step::Done(Ok(()))
        } else {
            let ghost all = left@;
            let first = left.remove(0);
            assert(views(left@) =~= views(all).drop_first());
            Step::Ask(Init::Altering { rest: left }, Call::Execute(first))
        }
    }

    /// Takes the reply and goes on.
    pub fn resume(self, reply: Reply) -> (step: Step<Init, Result<(), DbError>>)
        ensures
            self.resumed(reply, step),
    {
        match self {
            Init::Creating { rest } => match flow::affected(reply) {
                Some(_) => Init::create(rest),
                None => Step::Done(Err(DbError::Failed)),
            },
            Init::Inspecting => match flow::rows(reply) {
                Some(rows) => Init::alter(missing_columns(&rows)),
                None => Step::Done(Err(DbError::Failed)),
            },
            Init::Altering { rest } => match flow::affected(reply) {
                Some(_) => Init::alter(rest),
                None => Step::Done(Err(DbError::Failed)),
            },
        }
    }
}

impl Database {
    /// Begins to prepare the tables.
    pub fn init(&self) -> (step: Step<Init, Result<(), DbError>>)
        ensures
            Init::creates(create_statements(), step),
    {
        Init::create(create_all())
    }
}

} // verus!
