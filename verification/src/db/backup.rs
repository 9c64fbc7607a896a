//! Taking the stored data out as a backup and putting a backup in.
use vstd::prelude::*;
use vstd::string::*;

use crate::db::schema;
use crate::db::transaction::views;
use crate::db::{Database, DbError};
use crate::flow;
use crate::flow::{Call, Reply, Step, Table};
use crate::json;
use crate::json::{JsonCell, JsonMember, JsonRow};
use crate::models::{BackupData, BackupImportReport, BackupImportTableReport};
use crate::sql;
use crate::sql::{Row, SqlValue, SqlView, Statement, StatementView};
use crate::text;

verus! {

/// A table that a backup holds.
#[derive(Clone, Copy, Debug, PartialEq, Eq, Structural)]
pub enum BackupTable {
    Users,
    Rooms,
    Groups,
    Devices,
    Events,
    ConfigPushes,
    SystemConfig,
}

impl BackupTable {
    /// The name of the table.
    pub open spec fn title(self) -> Seq<char> {
        match self {
            BackupTable::Users => "users"@,
            BackupTable::Rooms => "rooms"@,
            BackupTable::Groups => "groups"@,
            BackupTable::Devices => "devices"@,
            BackupTable::Events => "events"@,
            BackupTable::ConfigPushes => "config_pushes"@,
            BackupTable::SystemConfig => "system_config"@,
        }
    }

    /// The columns that are put in, in order.
    pub open spec fn columns(self) -> Seq<Seq<char>> {
        match self {
            BackupTable::Users => Seq::empty().push("id"@).push("username"@).push("password"@)
                .push("role"@).push("created_at"@),
            BackupTable::Rooms => Seq::empty().push("id"@).push("name"@).push("owner_id"@)
                .push("created_at"@),
            BackupTable::Groups => Seq::empty().push("id"@).push("room_id"@).push("name"@)
                .push("encrypted_token"@).push("encrypted_server"@).push("encrypted_password"@)
                .push("extra_config"@).push("config_version"@).push("created_at"@)
                .push("updated_at"@),
            BackupTable::Devices => Seq::empty().push("id"@).push("room_id"@).push("group_id"@)
                .push("display_name"@).push("network_ip"@).push("network_node_id"@)
                .push("device_token"@).push("last_seen"@).push("status"@).push("config_version"@)
                .push("up_stream"@).push("down_stream"@).push("traffic_updated_at"@)
                .push("created_at"@).push("client_version"@).push("console_public_ip"@)
                .push("vnts_status"@).push("vnts_error"@).push("vnts_updated_at"@),
            BackupTable::Events => Seq::empty().push("id"@).push("device_id"@).push("event_type"@)
                .push("payload"@).push("created_at"@),
            BackupTable::ConfigPushes => Seq::empty().push("id"@).push("device_id"@)
                .push("group_id"@).push("config_snapshot"@).push("pushed_at"@).push("acked"@),
            BackupTable::SystemConfig => Seq::empty().push("key"@).push("value"@)
                .push("updated_at"@),
        }
    }

    /// Gives the name of the table.
    pub fn name(&self) -> (name: &'static str)
        ensures
            name@ == self.title(),
    {
        match self {
            BackupTable::Users => "users",
            BackupTable::Rooms => "rooms",
            BackupTable::Groups => "groups",
            BackupTable::Devices => "devices",
            BackupTable::Events => "events",
            BackupTable::ConfigPushes => "config_pushes",
            BackupTable::SystemConfig => "system_config",
        }
    }

    /// Lists the columns that are put in.
    pub fn column_names(&self) -> (names: Vec<String>)
        ensures
            names@.map_values(|n: String| n@) == self.columns(),
    {
        let mut names: Vec<String> = Vec::new();
        match self {
            BackupTable::Users => {
                names.push("id".to_string());
                names.push("username".to_string());
                names.push("password".to_string());
                names.push("role".to_string());
                names.push("created_at".to_string());
            },
            BackupTable::Rooms => {
                names.push("id".to_string());
                names.push("name".to_string());
                names.push("owner_id".to_string());
                names.push("created_at".to_string());
            },
            BackupTable::Groups => {
                names.push("id".to_string());
                names.push("room_id".to_string());
                names.push("name".to_string());
                names.push("encrypted_token".to_string());
                names.push("encrypted_server".to_string());
                names.push("encrypted_password".to_string());
                names.push("extra_config".to_string());
                names.push("config_version".to_string());
                names.push("created_at".to_string());
                names.push("updated_at".to_string());
            },
            BackupTable::Devices => {
                names.push("id".to_string());
                names.push("room_id".to_string());
                names.push("group_id".to_string());
                names.push("display_name".to_string());
                names.push("network_ip".to_string());
                names.push("network_node_id".to_string());
                names.push("device_token".to_string());
                names.push("last_seen".to_string());
                names.push("status".to_string());
                names.push("config_version".to_string());
                names.push("up_stream".to_string());
                names.push("down_stream".to_string());
                names.push("traffic_updated_at".to_string());
                names.push("created_at".to_string());
                names.push("client_version".to_string());
                names.push("console_public_ip".to_string());
                names.push("vnts_status".to_string());
                names.push("vnts_error".to_string());
                names.push("vnts_updated_at".to_string());
            },
            BackupTable::Events => {
                names.push("id".to_string());
                names.push("device_id".to_string());
                names.push("event_type".to_string());
                names.push("payload".to_string());
                names.push("created_at".to_string());
            },
            BackupTable::ConfigPushes => {
                names.push("id".to_string());
                names.push("device_id".to_string());
                names.push("group_id".to_string());
                names.push("config_snapshot".to_string());
                names.push("pushed_at".to_string());
                names.push("acked".to_string());
            },
            BackupTable::SystemConfig => {
                names.push("key".to_string());
                names.push("value".to_string());
                names.push("updated_at".to_string());
            },
        }
        assert(names@.map_values(|n: String| n@) =~= self.columns());
        names
    }
}

/// A stored value as a JSON value: text, integer or null.
pub open spec fn is_exported_cell(value: SqlView, cell: JsonCell) -> bool {
    match value {
        SqlView::Text(t) => cell.string() is Some && cell.string()->Some_0@ == t,
        SqlView::Integer(n) => cell == (if n >= 0 {
            JsonCell::Unsigned(n as u64)
        } else {
            JsonCell::Negative(n)
        }),
        SqlView::Null => cell == JsonCell::Null,
    }
}

/// The value of a row in a column; null where the row is shorter.
pub open spec fn cell_at(row: Seq<SqlValue>, i: int) -> SqlView {
    if i < row.len() {
        row[i]@
    } else {
        SqlView::Null
    }
}

fn export_cell(row: &Row, i: usize) -> (cell: JsonCell)
    ensures
        is_exported_cell(cell_at(row@, i as int), cell),
{
    if i < row.len() {
        match &row[i] {
            SqlValue::Text(t) => JsonCell::Text(t.clone()),
            SqlValue::Integer(n) => if *n >= 0 {
                JsonCell::Unsigned(*n as u64)
            } else {
                JsonCell::Negative(*n)
            },
            SqlValue::Null => JsonCell::Null,
        }
    } else {
        JsonCell::Null
    }
}

/// Whether columns have different names.
pub open spec fn distinct_names(columns: Seq<String>) -> bool {
    forall|i: int, j: int|
        0 <= i < j < columns.len() ==> (#[trigger] columns[i])@ != (#[trigger] columns[j])@
}

/// Whether the members of an object are the values of a row, column by column.
pub open spec fn are_members(
    columns: Seq<String>,
    row: Seq<SqlValue>,
    members: Seq<JsonMember>,
) -> bool {
    &&& members.len() == columns.len()
    &&& forall|i: int|
        0 <= i < columns.len() ==> (#[trigger] members[i]).name == columns[i] && is_exported_cell(
            cell_at(row, i),
            members[i].value,
        )
}

/// Whether a JSON row is the object of a row.
pub open spec fn is_exported_row(columns: Seq<String>, row: Seq<SqlValue>, out: JsonRow) -> bool {
    out matches JsonRow::Object(members) && are_members(columns, row, members@)
}

/// Whether JSON rows are the objects of the rows of a table, in order.
pub open spec fn is_exported(table: Table, out: Seq<JsonRow>) -> bool {
    &&& out.len() == table.rows@.len()
    &&& forall|i: int|
        0 <= i < out.len() ==> is_exported_row(
            table.columns@,
            table.rows@[i]@,
            #[trigger] out[i],
        )
}

fn export_row(columns: &Vec<String>, row: &Row) -> (out: JsonRow)
    ensures
        is_exported_row(columns@, row@, out),
{
    let mut members: Vec<JsonMember> = Vec::new();
    let mut i: usize = 0;
    while i < columns.len()
        invariant
            i <= columns@.len(),
            members@.len() == i,
            forall|j: int|
                0 <= j < i ==> (#[trigger] members@[j]).name == columns@[j] && is_exported_cell(
                    cell_at(row@, j),
                    members@[j].value,
                ),
        decreases columns@.len() - i,
    {
        members.push(JsonMember { name: columns[i].clone(), value: export_cell(row, i) });
        i = i + 1;
    }
    JsonRow::Object(members)
}

/// Turns the rows of a table into JSON objects. The columns of a table have different names.
pub fn export_query(table: &Table) -> (out: Vec<JsonRow>)
    ensures
        is_exported(*table, out@),
{
    let mut out: Vec<JsonRow> = Vec::new();
    let mut i: usize = 0;
    while i < table.rows.len()
        invariant
            i <= table.rows@.len(),
            out@.len() == i,
            forall|j: int|
                0 <= j < i ==> is_exported_row(
                    table.columns@,
                    table.rows@[j]@,
                    #[trigger] out@[j],
                ),
        decreases table.rows@.len() - i,
    {
        let row = export_row(&table.columns, &table.rows[i]);
        out.push(row);
        i = i + 1;
    }
    out
}

/// Selects a whole table.
pub open spec fn select_all(table: BackupTable) -> StatementView {
    sql::statement("SELECT * FROM "@ + table.title())
}

fn select_all_statement(table: BackupTable) -> (s: Statement)
    ensures
        s@ == select_all(table),
{
    let text = text::concat("SELECT * FROM ", table.name());
    Statement::new(text.as_str())
}

/// The tables of a backup, in order.
pub open spec fn backup_tables() -> Seq<BackupTable> {
    Seq::empty().push(BackupTable::Users).push(BackupTable::Rooms).push(BackupTable::Groups).push(
        BackupTable::Devices,
    ).push(BackupTable::Events).push(BackupTable::ConfigPushes).push(BackupTable::SystemConfig)
}

/// The statements that select all data, table by table.
pub open spec fn full_export() -> Seq<StatementView> {
    backup_tables().map_values(|t: BackupTable| select_all(t))
}

/// Text of the statement that selects the record of a user.
pub const PERSONAL_USERS: &'static str =
    "SELECT * FROM users WHERE id = ?1";

/// Text of the statement that selects the rooms of a user.
pub const PERSONAL_ROOMS: &'static str =
    "SELECT * FROM rooms WHERE owner_id = ?1";

/// Text of the statement that selects the groups of a user.
pub const PERSONAL_GROUPS: &'static str =
    "SELECT g.* FROM groups g JOIN rooms r ON g.room_id = r.id WHERE r.owner_id = ?1";

/// Text of the statement that selects the devices of a user.
pub const PERSONAL_DEVICES: &'static str =
    "SELECT d.* FROM devices d JOIN rooms r ON d.room_id = r.id WHERE r.owner_id = ?1";

/// Text of the statement that selects the events of a user.
pub const PERSONAL_EVENTS: &'static str =
    "SELECT e.* FROM events e JOIN devices d ON e.device_id = d.id JOIN rooms r ON d.room_id = r.id WHERE r.owner_id = ?1";

/// Text of the statement that selects the pushed configurations of a user.
pub const PERSONAL_PUSHES: &'static str =
    "SELECT c.* FROM config_pushes c JOIN devices d ON c.device_id = d.id JOIN rooms r ON d.room_id = r.id WHERE r.owner_id = ?1";

/// The statements that select the data of one user, table by table, without settings.
pub open spec fn personal_export(user_id: Seq<char>) -> Seq<StatementView> {
    Seq::empty().push(sql::statement(PERSONAL_USERS@).text(user_id))
        .push(sql::statement(PERSONAL_ROOMS@).text(user_id))
        .push(sql::statement(PERSONAL_GROUPS@).text(user_id))
        .push(sql::statement(PERSONAL_DEVICES@).text(user_id))
        .push(sql::statement(PERSONAL_EVENTS@).text(user_id))
        .push(sql::statement(PERSONAL_PUSHES@).text(user_id))
}

/// A backup being taken out.
#[derive(Debug)]
pub struct Export {
    /// The tables that are complete.
    pub done: Vec<Vec<JsonRow>>,
    /// The statements for the tables that follow the one being fetched.
    pub pending: Vec<Statement>,
}

/// A table of a list of tables; empty where the list is shorter.
pub open spec fn table_at(tables: Seq<Vec<JsonRow>>, i: int) -> Seq<JsonRow> {
    if i < tables.len() {
        tables[i]@
    } else {
        Seq::empty()
    }
}

/// Whether a backup holds the given tables, in order.
pub open spec fn holds_tables(data: BackupData, tables: Seq<Vec<JsonRow>>) -> bool {
    &&& data.users@ == table_at(tables, 0)
    &&& data.rooms@ == table_at(tables, 1)
    &&& data.groups@ == table_at(tables, 2)
    &&& data.devices@ == table_at(tables, 3)
    &&& data.events@ == table_at(tables, 4)
    &&& data.config_pushes@ == table_at(tables, 5)
    &&& data.system_config@ == table_at(tables, 6)
}

fn take_table(tables: &mut Vec<Vec<JsonRow>>) -> (table: Vec<JsonRow>)
    ensures
        table@ == table_at(old(tables)@, 0),
        final(tables)@ == (if old(tables)@.len() > 0 {
            old(tables)@.drop_first()
        } else {
            old(tables)@
        }),
{
    if tables.len() > 0 {
        let ghost before = tables@;
        let table = tables.remove(0);
        assert(tables@ =~= before.drop_first());
        table
    } else {
        Vec::new()
    }
}

impl Export {
    /// The step when the given tables are complete and the given statements are left.
    pub open spec fn advanced(
        done: Seq<Vec<JsonRow>>,
        pending: Seq<StatementView>,
        step: Step<Export, Result<BackupData, DbError>>,
    ) -> bool {
        if pending.len() == 0 {
            step matches Step::Done(Ok(data)) && holds_tables(data, done)
        } else {
            &&& step matches Step::Ask(Export { done: d, pending: p }, call)
            &&& d@ == done
            &&& views(p@) == pending.drop_first()
            &&& call.fetches_table(pending[0])
        }
    }

    /// How it goes on with a reply.
    pub open spec fn resumed(
        self,
        reply: Reply,
        step: Step<Export, Result<BackupData, DbError>>,
    ) -> bool {
        match reply {
            Reply::Table(table) => exists|rows: Vec<JsonRow>| #[trigger]
                is_exported(table, rows@) && Export::advanced(
                    self.done@.push(rows),
                    views(self.pending@),
                    step,
                ),
            _ => step == Step::<Export, Result<BackupData, DbError>>::Done(Err(DbError::Failed)),
        }
    }

    /// How many tables the backup will hold.
    pub open spec fn planned(self) -> nat {
        self.done@.len() + 1 + self.pending@.len()
    }

    fn advance(done: Vec<Vec<JsonRow>>, pending: Vec<Statement>) -> (step: Step<
        Export,
        Result<BackupData, DbError>,
    >)
        ensures
            Export::advanced(done@, views(pending@), step),
    {
        let mut pending = pending;
        if pending.len() > 0 {
            let ghost all = pending@;
            let first = pending.remove(0);
            assert(views(pending@) =~= views(all).drop_first());
            return Step::Ask(Export { done, pending }, Call::FetchTable(first));
        }
        let mut tables = done;
        let users = take_table(&mut tables);
        let rooms = take_table(&mut tables);
        let groups = take_table(&mut tables);
        let devices = take_table(&mut tables);
        let events = take_table(&mut tables);
        let config_pushes = take_table(&mut tables);
        let system_config = take_table(&mut tables);
        Step::Done(
            Ok(
                BackupData {
                    users,
                    rooms,
                    groups,
                    devices,
                    events,
                    config_pushes,
                    system_config,
                },
            ),
        )
    }

    /// Takes the reply and goes on.
    pub fn resume(self, reply: Reply) -> (step: Step<Export, Result<BackupData, DbError>>)
        ensures
            self.resumed(reply, step),
    {
        match reply {
            Reply::Table(table) => {
                let rows = export_query(&table);
                assert(is_exported(table, rows@));
                let mut done = self.done;
                done.push(rows);
                Export::advance(done, self.pending)
            },
            _ => Step::Done(Err(DbError::Failed)),
        }
    }
}

/// A backup holds as many tables as it was begun with: a personal one, begun with six, has no
/// settings in it.
pub proof fn law_personal_backup_has_no_settings(
    state: Export,
    reply: Reply,
    step: Step<Export, Result<BackupData, DbError>>,
)
    requires
        state.resumed(reply, step),
    ensures
        step matches Step::Ask(next, _) ==> next.planned() == state.planned(),
        step matches Step::Done(Ok(data)) ==> (state.planned() <= 6 ==> data.system_config@.len()
            == 0),
{
    if let Reply::Table(table) = reply {
        let rows = choose|rows: Vec<JsonRow>| #[trigger]
            is_exported(table, rows@) && Export::advanced(
                state.done@.push(rows),
                views(state.pending@),
                step,
            );
        assert(views(state.pending@).len() == state.pending@.len());
        if let Step::Ask(next, _) = step {
            assert(views(next.pending@).len() == next.pending@.len());
        }
    }
}

/// The value that a member of an imported row is stored as: integers in two's complement, texts
/// as they are, anything else as its JSON text, and null where there is no such member.
pub open spec fn import_value(cell: Option<JsonCell>) -> SqlView {
    match cell {
        None => SqlView::Null,
        Some(JsonCell::Null) => SqlView::Null,
        Some(JsonCell::Unsigned(n)) => SqlView::Integer(sql::stored_u64(n)),
        Some(JsonCell::Negative(n)) => SqlView::Integer(n),
        Some(JsonCell::Text(t)) => SqlView::Text(t@),
        Some(JsonCell::Other(t)) => SqlView::Text(t@),
    }
}

fn bind_cell(statement: Statement, cell: Option<&JsonCell>) -> (bound: Statement)
    ensures
        bound@ == statement@.bind(
            import_value(
                match cell {
                    Some(c) => Some(*c),
                    None => None,
                },
            ),
        ),
{
    match cell {
        None => statement.bind(SqlValue::Null),
        Some(c) => match c {
            JsonCell::Null => statement.bind(SqlValue::Null),
            JsonCell::Unsigned(n) => statement.bind(SqlValue::Integer(sql::wrap_u64(*n))),
            JsonCell::Negative(n) => statement.bind(SqlValue::Integer(*n)),
            JsonCell::Text(t) => statement.bind(SqlValue::Text(t.clone())),
            JsonCell::Other(t) => statement.bind(SqlValue::Text(t.clone())),
        },
    }
}

/// The names of the parameters of a statement, counted from one.
pub open spec fn placeholders(n: nat) -> Seq<Seq<char>> {
    Seq::new(n, |i: int| "?"@ + text::decimal((i + 1) as nat))
}

fn list_placeholders(n: usize) -> (names: Vec<String>)
    ensures
        names@.map_values(|p: String| p@) == placeholders(n as nat),
{
    let mut names: Vec<String> = Vec::new();
    let mut i: usize = 0;
    while i < n
        invariant
            i <= n,
            names@.len() == i,
            forall|j: int|
                0 <= j < i ==> (#[trigger] names@[j])@ == "?"@ + text::decimal((j + 1) as nat),
        decreases n - i,
    {
        i = i + 1;
        let digits = text::decimal_text(i as u64);
        names.push(text::concat("?", digits.as_str()));
    }
    assert(names@.map_values(|p: String| p@) =~= placeholders(n as nat));
    names
}

/// The text of the statement that puts a row into a table: a row that is there already is
/// replaced or kept.
pub open spec fn import_text(table: BackupTable, overwrite: bool) -> Seq<char> {
    (if overwrite {
        "INSERT OR REPLACE"@
    } else {
        "INSERT OR IGNORE"@
    }) + " INTO "@ + table.title() + "("@ + text::joined(table.columns(), ", "@) + ") VALUES("@
        + text::joined(placeholders(table.columns().len()), ", "@) + ")"@
}

fn write_import_text(table: BackupTable, names: &Vec<String>, overwrite: bool) -> (sql: String)
    requires
        names@.map_values(|n: String| n@) == table.columns(),
    ensures
        sql@ == import_text(table, overwrite),
{
    let mut sql = if overwrite {
        "INSERT OR REPLACE".to_string()
    } else {
        "INSERT OR IGNORE".to_string()
    };
    assert(table.columns().len() == names@.len());
    let columns = text::join(names, ", ");
    let parameters = list_placeholders(names.len());
    let marks = text::join(&parameters, ", ");
    sql.append(" INTO ");
    sql.append(table.name());
    sql.append("(");
    sql.append(columns.as_str());
    sql.append(") VALUES(");
    sql.append(marks.as_str());
    sql.append(")");
    sql
}

/// The statement that puts an object into a table: every column gets the member of its name.
pub open spec fn import_statement(
    table: BackupTable,
    members: Seq<JsonMember>,
    overwrite: bool,
) -> StatementView {
    StatementView {
        sql: import_text(table, overwrite),
        params: table.columns().map_values(
            |c: Seq<char>| import_value(json::member_of(members, c)),
        ),
    }
}

fn build_import_statement(
    table: BackupTable,
    names: &Vec<String>,
    text: &String,
    members: &Vec<JsonMember>,
    overwrite: bool,
) -> (statement: Statement)
    requires
        names@.map_values(|n: String| n@) == table.columns(),
        text@ == import_text(table, overwrite),
    ensures
        statement@ == import_statement(table, members@, overwrite),
{
    let mut statement = Statement::new(text.as_str());
    let mut i: usize = 0;
    let ghost columns = table.columns();
    let ghost params = columns.map_values(
        |c: Seq<char>| import_value(json::member_of(members@, c)),
    );
    assert(params.take(0) =~= Seq::empty());
    assert(columns.len() == names@.len());
    while i < names.len()
        invariant
            i <= names@.len() == columns.len(),
            columns == names@.map_values(|n: String| n@),
            params == columns.map_values(
                |c: Seq<char>| import_value(json::member_of(members@, c)),
            ),
            statement@ == (StatementView { sql: text@, params: params.take(i as int) }),
        decreases names@.len() - i,
    {
        assert(columns[i as int] == names@[i as int]@);
        statement = bind_cell(statement, json::member(members, names[i].as_str()));
        assert(params.take(i + 1) =~= params.take(i as int).push(params[i as int]));
        i = i + 1;
    }
    assert(params.take(i as int) =~= params);
    statement
}

/// Whether an object is the record of the administrator.
pub open spec fn is_admin_record(members: Seq<JsonMember>) -> bool {
    json::member_of(members, "username"@) matches Some(cell) && cell.string() matches Some(name)
        && name@ == "admin"@
}

fn admin_record(members: &Vec<JsonMember>) -> (admin: bool)
    ensures
        admin == is_admin_record(members@),
{
    match json::member(members, "username") {
        Some(cell) => match cell.as_str() {
            Some(name) => text::same_text(name.as_str(), "admin"),
            None => false,
        },
        None => false,
    }
}

/// The statement for a row of a backup. A row that is no object gets none; nor does the
/// administrator's record, unless everything is replaced.
pub open spec fn row_statement(table: BackupTable, row: JsonRow, overwrite: bool) -> Option<
    StatementView,
> {
    match row {
        JsonRow::Other => None,
        JsonRow::Object(members) => if !overwrite && table == BackupTable::Users
            && is_admin_record(members@) {
            None
        } else {
            Some(import_statement(table, members@, overwrite))
        },
    }
}

/// The statements for the rows of a table, the first one last.
pub open spec fn row_statements(table: BackupTable, rows: Seq<JsonRow>, overwrite: bool) -> Seq<
    StatementView,
>
    decreases rows.len(),
{
    if rows.len() == 0 {
        Seq::empty()
    } else {
        let later = row_statements(table, rows.drop_first(), overwrite);
        match row_statement(table, rows[0], overwrite) {
            Some(statement) => later.push(statement),
            None => later,
        }
    }
}

/// The rows of one table on their way into the database.
#[derive(Debug)]
pub struct TableImport {
    pub table: BackupTable,
    pub attempted: u64,
    pub imported: u64,
    pub skipped: u64,
    /// The statements that are still to be run, the next one last.
    pub pending: Vec<Statement>,
}

impl TableImport {
    /// Whether every row is counted once: imported, skipped, pending or on its way.
    pub open spec fn balanced(self, on_its_way: nat) -> bool {
        self.imported + self.skipped + self.pending@.len() + on_its_way == self.attempted
    }

    /// The import of a table before its first statement is run.
    pub open spec fn prepared(
        self,
        table: BackupTable,
        rows: Seq<JsonRow>,
        overwrite: bool,
    ) -> bool {
        &&& self.table == table
        &&& self.attempted == rows.len()
        &&& self.imported == 0
        &&& views(self.pending@) == row_statements(table, rows, overwrite)
        &&& self.balanced(0)
    }

    /// Whether this is another import with its next statement taken out.
    pub open spec fn taken_from(self, other: TableImport) -> bool {
        &&& self == (TableImport { pending: self.pending, ..other })
        &&& self.pending@ == other.pending@.drop_last()
    }

    /// The import after its statement on its way changed a number of rows.
    pub open spec fn counted(self, affected: u64) -> TableImport {
        if affected > 0 {
            TableImport { imported: (self.imported + 1) as u64, ..self }
        } else {
            TableImport { skipped: (self.skipped + 1) as u64, ..self }
        }
    }

    /// What is reported of the import of a table.
    pub open spec fn reported(self, report: BackupImportTableReport) -> bool {
        &&& report.table@ == self.table.title()
        &&& report.attempted == self.attempted
        &&& report.imported == self.imported
        &&& report.skipped == self.skipped
    }
}

/// Prepares the import of the rows of a table.
pub fn import_rows(table: BackupTable, rows: Vec<JsonRow>, overwrite: bool) -> (import: TableImport)
    ensures
        import.prepared(table, rows@, overwrite),
{
    let names = table.column_names();
    let text = write_import_text(table, &names, overwrite);
    let mut pending: Vec<Statement> = Vec::new();
    let mut skipped: u64 = 0;
    let total: usize = rows.len();
    let mut i: usize = total;
    assert(rows@.skip(i as int) =~= Seq::empty());
    assert(views(pending@) =~= Seq::empty());
    while i > 0
        invariant
            i <= rows@.len() == total,
            names@.map_values(|n: String| n@) == table.columns(),
            text@ == import_text(table, overwrite),
            views(pending@) == row_statements(table, rows@.skip(i as int), overwrite),
            skipped + pending@.len() == rows@.len() - i,
        decreases i,
    {
        i = i - 1;
        let ghost before = pending@;
        assert(rows@.skip(i as int).drop_first() =~= rows@.skip(i + 1));
        assert(rows@.skip(i as int)[0] == rows@[i as int]);
        match &rows[i] {
            JsonRow::Other => {
                skipped = skipped + 1;
            },
            JsonRow::Object(members) => {
                let administrator = match table {
                    BackupTable::Users => !overwrite && admin_record(members),
                    _ => false,
                };
                if administrator {
                    skipped = skipped + 1;
                } else {
                    let statement = build_import_statement(
                        table,
                        &names,
                        &text,
                        members,
                        overwrite,
                    );
                    pending.push(statement);
                    assert(views(pending@) =~= views(before).push(statement@));
                }
            },
        }
    }
    assert(rows@.skip(0) =~= rows@);
    TableImport { table, attempted: total as u64, imported: 0, skipped, pending }
}

/// Deletes everything in a table.
pub open spec fn clear_table(name: Seq<char>) -> StatementView {
    sql::statement("DELETE FROM "@ + name)
}

/// The tables that are cleared before everything is replaced: what refers to a record goes before
/// the record. The sessions are in no backup.
pub open spec fn cleared_tables() -> Seq<Seq<char>> {
    Seq::empty().push(BackupTable::ConfigPushes.title()).push(BackupTable::Events.title()).push(
        BackupTable::Devices.title(),
    ).push(BackupTable::Groups.title()).push(BackupTable::Rooms.title()).push("sessions"@).push(
        BackupTable::Users.title(),
    ).push(BackupTable::SystemConfig.title())
}

/// Deletes everything.
pub open spec fn clear_statements() -> Seq<StatementView> {
    cleared_tables().map_values(|name: Seq<char>| clear_table(name))
}

fn clear_table_statement(name: &str) -> (s: Statement)
    ensures
        s@ == clear_table(name@),
{
    let text = text::concat("DELETE FROM ", name);
    Statement::new(text.as_str())
}

fn list_clear_statements() -> (statements: Vec<Statement>)
    ensures
        views(statements@) == clear_statements(),
{
    let mut statements: Vec<Statement> = Vec::new();
    statements.push(clear_table_statement(BackupTable::ConfigPushes.name()));
    statements.push(clear_table_statement(BackupTable::Events.name()));
    statements.push(clear_table_statement(BackupTable::Devices.name()));
    statements.push(clear_table_statement(BackupTable::Groups.name()));
    statements.push(clear_table_statement(BackupTable::Rooms.name()));
    statements.push(clear_table_statement("sessions"));
    statements.push(clear_table_statement(BackupTable::Users.name()));
    statements.push(clear_table_statement(BackupTable::SystemConfig.name()));
    assert(views(statements@) =~= clear_statements());
    statements
}

/// Where everything is replaced, every table that a backup holds is cleared first; and a backup
/// of all data holds every table.
pub proof fn law_every_table_is_saved_and_cleared(table: BackupTable)
    ensures
        clear_statements().contains(clear_table(table.title())),
        full_export().contains(select_all(table)),
{
    let cleared: int = match table {
        BackupTable::ConfigPushes => 0,
        BackupTable::Events => 1,
        BackupTable::Devices => 2,
        BackupTable::Groups => 3,
        BackupTable::Rooms => 4,
        BackupTable::Users => 6,
        BackupTable::SystemConfig => 7,
    };
    let saved: int = match table {
        BackupTable::Users => 0,
        BackupTable::Rooms => 1,
        BackupTable::Groups => 2,
        BackupTable::Devices => 3,
        BackupTable::Events => 4,
        BackupTable::ConfigPushes => 5,
        BackupTable::SystemConfig => 6,
    };
    assert(clear_statements()[cleared] == clear_table(table.title()));
    assert(full_export()[saved] == select_all(table));
}

/// An import as far as it has come.
#[derive(Debug)]
pub struct ImportPlan {
    pub overwrite: bool,
    pub source_mode: String,
    pub scope: String,
    /// The tables that are not complete.
    pub tables: Vec<TableImport>,
    /// What is reported of the complete ones.
    pub reports: Vec<BackupImportTableReport>,
}

/// What is taken out is what is put in: every value of a row, taken out under the name of its
/// column and put in again, is the same value, and it is bound to the column of that name.
pub proof fn law_export_then_import(columns: Seq<String>, row: Seq<SqlValue>, out: JsonRow, i: int)
    requires
        distinct_names(columns),
        is_exported_row(columns, row, out),
        0 <= i < columns.len(),
    ensures
        import_value(out.value_of(columns[i]@)) == cell_at(row, i),
        forall|table: BackupTable, overwrite: bool, k: int|
            0 <= k < table.columns().len() && #[trigger] table.columns()[k] == columns[i]@
                ==> #[trigger] import_statement(
                table,
                out->Object_0@,
                overwrite,
            ).params[k] == cell_at(row, i),
{
    let members = out->Object_0@;
    assert forall|j: int| 0 <= j < i implies (#[trigger] members[j]).name@ != columns[i]@ by {
        assert(members[j].name == columns[j]);
    }
    assert(members[i].name == columns[i]);
    json::lemma_member_at(members, columns[i]@, i);
}

/// All of a device is put in: the columns that are put in are those that the table of devices is
/// created with and those that are added to it, and no others.
pub proof fn law_every_device_column_is_put_in()
    ensures
        BackupTable::Devices.columns().len() == 19,
        forall|i: int|
            0 <= i < schema::first_device_columns().len() ==> BackupTable::Devices.columns().contains(
                (#[trigger] schema::first_device_columns()[i]).0,
            ),
        forall|i: int|
            0 <= i < schema::device_columns().len() ==> BackupTable::Devices.columns().contains(
                (#[trigger] schema::device_columns()[i]).0,
            ),
        forall|k: int|
            0 <= k < BackupTable::Devices.columns().len() ==> {
                ||| schema::first_device_columns().map_values(
                    |c: (Seq<char>, Seq<char>)| c.0,
                ).contains(#[trigger] BackupTable::Devices.columns()[k])
                ||| schema::device_columns().map_values(|c: (Seq<char>, Seq<char>)| c.0).contains(
                    BackupTable::Devices.columns()[k],
                )
            },
{
    let put = BackupTable::Devices.columns();
    let first = schema::first_device_columns();
    let added = schema::device_columns();
    assert forall|i: int| 0 <= i < first.len() implies put.contains((#[trigger] first[i]).0) by {
        assert(put[i] == first[i].0);
    }
    assert forall|i: int| 0 <= i < added.len() implies put.contains((#[trigger] added[i]).0) by {
        assert(put[if i < 3 {
            i + 10
        } else {
            i + 11
        }] == added[i].0);
    }
    let first_names = first.map_values(|c: (Seq<char>, Seq<char>)| c.0);
    let added_names = added.map_values(|c: (Seq<char>, Seq<char>)| c.0);
    assert forall|k: int| 0 <= k < put.len() implies first_names.contains(#[trigger] put[k])
        || added_names.contains(put[k]) by {
        if k < 14 {
            assert(first_names[k] == put[k]);
        } else {
            assert(added_names[k - 11] == put[k]);
        }
    }
}

/// Whether a report accounts for every row.
pub open spec fn accounts(report: BackupImportTableReport) -> bool {
    report.attempted == report.imported + report.skipped
}

impl ImportPlan {
    /// The import of a backup before anything is stored.
    pub open spec fn prepared(
        self,
        data: BackupData,
        overwrite: bool,
        source_mode: String,
        scope: String,
    ) -> bool {
        &&& self.overwrite == overwrite
        &&& self.source_mode == source_mode
        &&& self.scope == scope
        &&& self.reports@.len() == 0
        &&& self.tables@.len() == 7
        &&& self.tables@[0].prepared(BackupTable::Users, data.users@, overwrite)
        &&& self.tables@[1].prepared(BackupTable::Rooms, data.rooms@, overwrite)
        &&& self.tables@[2].prepared(BackupTable::Groups, data.groups@, overwrite)
        &&& self.tables@[3].prepared(BackupTable::Devices, data.devices@, overwrite)
        &&& self.tables@[4].prepared(BackupTable::Events, data.events@, overwrite)
        &&& self.tables@[5].prepared(BackupTable::ConfigPushes, data.config_pushes@, overwrite)
        &&& self.tables@[6].prepared(BackupTable::SystemConfig, data.system_config@, overwrite)
    }

    /// Whether every row is counted once; `on_its_way` rows of the first table are.
    pub open spec fn wf(self, on_its_way: nat) -> bool {
        &&& on_its_way > 0 ==> self.tables@.len() > 0
        &&& forall|i: int|
            0 <= i < self.tables@.len() ==> (#[trigger] self.tables@[i]).balanced(
                if i == 0 {
                    on_its_way
                } else {
                    0
                },
            )
        &&& forall|i: int| 0 <= i < self.reports@.len() ==> accounts(#[trigger] self.reports@[i])
    }

    /// Whether this is another plan with the same settings.
    pub open spec fn continues(self, other: ImportPlan) -> bool {
        &&& self.overwrite == other.overwrite
        &&& self.source_mode == other.source_mode
        &&& self.scope == other.scope
    }
}

/// A backup being put in.
#[derive(Debug)]
pub enum ImportBackup {
    /// The transaction is being begun.
    Beginning { plan: ImportPlan },
    /// A table is being cleared; the rest follows.
    Clearing { plan: ImportPlan, rest: Vec<Statement> },
    /// A row of the first table of the plan is being stored.
    Inserting { plan: ImportPlan },
    /// The transaction is being committed.
    Committing { report: BackupImportReport },
}

/// The outcome of an import.
pub type ImportOutcome = Result<BackupImportReport, DbError>;

impl ImportBackup {
    /// Whether every row is counted once.
    pub open spec fn wf(self) -> bool {
        match self {
            ImportBackup::Beginning { plan } => plan.wf(0),
            ImportBackup::Clearing { plan, .. } => plan.wf(0),
            ImportBackup::Inserting { plan } => plan.wf(1),
            ImportBackup::Committing { report } => forall|i: int|
                0 <= i < report.tables@.len() ==> accounts(#[trigger] report.tables@[i]),
        }
    }

    /// The step when tables are left to store, or none: a complete table is reported, the next
    /// row of the first that is not is stored, and when none is left the import is committed.
    pub open spec fn stores(
        plan: ImportPlan,
        tables: Seq<TableImport>,
        reports: Seq<BackupImportTableReport>,
        step: Step<ImportBackup, ImportOutcome>,
    ) -> bool
        decreases tables.len(),
    {
        if tables.len() == 0 {
            &&& step matches Step::Ask(ImportBackup::Committing { report }, Call::Commit)
            &&& report.ok
            &&& report.mode@ == (if plan.overwrite {
                "overwrite"@
            } else {
                "merge"@
            })
            &&& report.source_mode == plan.source_mode
            &&& report.scope == plan.scope
            &&& report.tables@ == reports
        } else if tables[0].pending@.len() == 0 {
            exists|report: BackupImportTableReport| #[trigger]
                tables[0].reported(report) && ImportBackup::stores(
                    plan,
                    tables.drop_first(),
                    reports.push(report),
                    step,
                )
        } else {
            &&& step matches Step::Ask(ImportBackup::Inserting { plan: next }, call)
            &&& call.executes(tables[0].pending@.last()@)
            &&& next.continues(plan)
            &&& next.reports@ == reports
            &&& next.tables@.len() == tables.len()
            &&& next.tables@[0].taken_from(tables[0])
            &&& next.tables@.drop_first() == tables.drop_first()
        }
    }

    /// The step when tables are left to clear, or none.
    pub open spec fn clears(
        plan: ImportPlan,
        left: Seq<StatementView>,
        step: Step<ImportBackup, ImportOutcome>,
    ) -> bool {
        if left.len() == 0 {
            ImportBackup::stores(plan, plan.tables@, plan.reports@, step)
        } else {
            &&& step matches Step::Ask(ImportBackup::Clearing { plan: p, rest }, call)
            &&& p == plan
            &&& call.executes(left[0])
            &&& views(rest@) == left.drop_first()
        }
    }

    /// How it goes on with a reply. Whatever fails ends it without a commit.
    pub open spec fn resumed(self, reply: Reply, step: Step<ImportBackup, ImportOutcome>) -> bool {
        match self {
            ImportBackup::Beginning { plan } => if reply is Finished {
                ImportBackup::clears(
                    plan,
                    if plan.overwrite {
                        clear_statements()
                    } else {
                        Seq::empty()
                    },
                    step,
                )
            } else {
                step == Step::<ImportBackup, ImportOutcome>::Done(Err(DbError::Failed))
            },
            ImportBackup::Clearing { plan, rest } => if flow::affected_of(reply) is Some {
                ImportBackup::clears(plan, views(rest@), step)
            } else {
                step == Step::<ImportBackup, ImportOutcome>::Done(Err(DbError::Failed))
            },
            ImportBackup::Inserting { plan } => match flow::affected_of(reply) {
                Some(n) => ImportBackup::stores(
                    plan,
                    plan.tables@.update(0, plan.tables@[0].counted(n)),
                    plan.reports@,
                    step,
                ),
                None => step == Step::<ImportBackup, ImportOutcome>::Done(Err(DbError::Failed)),
            },
            ImportBackup::Committing { report } => step == Step::<
                ImportBackup,
                ImportOutcome,
            >::Done(
                if reply is Finished {
                    Ok(report)
                } else {
                    Err(DbError::Failed)
                },
            ),
        }
    }

    fn store(plan: ImportPlan) -> (step: Step<ImportBackup, ImportOutcome>)
        requires
            plan.wf(0),
        ensures
            ImportBackup::stores(plan, plan.tables@, plan.reports@, step),
            step matches Step::Ask(next, _) ==> next.wf(),
        decreases plan.tables@.len(),
    {
        let mut plan = plan;
        let ghost begun = plan;
        if plan.tables.len() == 0 {
            let report = BackupImportReport {
                ok: true,
                mode: if plan.overwrite {
                    "overwrite".to_string()
                } else {
                    "merge".to_string()
                },
                source_mode: plan.source_mode,
                scope: plan.scope,
                tables: plan.reports,
            };
            return Step::Ask(ImportBackup::Committing { report }, Call::Commit);
        }
        let mut first = plan.tables.remove(0);
        assert(first.balanced(0));
        assert(plan.tables@ =~= begun.tables@.drop_first());
        assert forall|i: int| 0 <= i < plan.tables@.len() implies (
        #[trigger] plan.tables@[i]).balanced(0) by {
            assert(plan.tables@[i] == begun.tables@[i + 1]);
            assert(begun.tables@[i + 1].balanced(0));
        }
        match first.pending.pop() {
            None => {
                let report = BackupImportTableReport {
                    table: first.table.name().to_string(),
                    attempted: first.attempted,
                    imported: first.imported,
                    skipped: first.skipped,
                };
                assert(begun.tables@[0].reported(report));
                plan.reports.push(report);
                let step = ImportBackup::store(plan);
                proof {
                    lemma_same_settings(
                        plan,
                        begun,
                        begun.tables@.drop_first(),
                        begun.reports@.push(report),
                        step,
                    );
                }
                step
            },
            Some(statement) => {
                plan.tables.insert(0, first);
                assert(plan.tables@.drop_first() =~= begun.tables@.drop_first());
                assert forall|i: int| 0 <= i < plan.tables@.len() implies (
                #[trigger] plan.tables@[i]).balanced(
                    if i == 0 {
                        1
                    } else {
                        0
                    },
                ) by {
                    if i > 0 {
                        assert(plan.tables@[i] == begun.tables@[i]);
                        assert(begun.tables@[i].balanced(0));
                    }
                }
                Step::Ask(ImportBackup::Inserting { plan }, Call::Execute(statement))
            },
        }
    }

    fn clear(plan: ImportPlan, left: Vec<Statement>) -> (step: Step<ImportBackup, ImportOutcome>)
        requires
            plan.wf(0),
        ensures
            ImportBackup::clears(plan, views(left@), step),
            step matches Step::Ask(next, _) ==> next.wf(),
    {
        let mut left = left;
        if left.len() == 0 {
            ImportBackup::store(plan)
        } else {
            let ghost all = left@;
            let first = left.remove(0);
            assert(views(left@) =~= views(all).drop_first());
            Step::Ask(ImportBackup::Clearing { plan, rest: left }, Call::Execute(first))
        }
    }

    /// Takes the reply and goes on.
    pub fn resume(self, reply: Reply) -> (step: Step<ImportBackup, ImportOutcome>)
        requires
            self.wf(),
        ensures
            self.resumed(reply, step),
            step matches Step::Ask(next, _) ==> next.wf(),
    {
        match self {
            ImportBackup::Beginning { plan } => if flow::finished(&reply) {
                let left = if plan.overwrite {
                    list_clear_statements()
                } else {
                    let none: Vec<Statement> = Vec::new();
                    assert(views(none@) =~= Seq::empty());
                    none
                };
                ImportBackup::clear(plan, left)
            } else {
                Step::Done(Err(DbError::Failed))
            },
            ImportBackup::Clearing { plan, rest } => match flow::affected(reply) {
                Some(_) => ImportBackup::clear(plan, rest),
                None => Step::Done(Err(DbError::Failed)),
            },
            ImportBackup::Inserting { plan } => match flow::affected(reply) {
                Some(n) => {
                    let mut plan = plan;
                    let ghost begun = plan;
                    assert(begun.tables@[0].balanced(1));
                    let mut first = plan.tables.remove(0);
                    if n > 0 {
                        first.imported = first.imported + 1;
                    } else {
                        first.skipped = first.skipped + 1;
                    }
                    plan.tables.insert(0, first);
                    assert(plan.tables@ =~= begun.tables@.update(0, begun.tables@[0].counted(n)));
                    assert forall|i: int| 0 <= i < plan.tables@.len() implies (
                    #[trigger] plan.tables@[i]).balanced(0) by {
                        if i > 0 {
                            assert(plan.tables@[i] == begun.tables@[i]);
                            assert(begun.tables@[i].balanced(0));
                        }
                    }
                    let step = ImportBackup::store(plan);
                    proof {
                        lemma_same_settings(plan, begun, plan.tables@, plan.reports@, step);
                    }
                    step
                },
                None => Step::Done(Err(DbError::Failed)),
            },
            ImportBackup::Committing { report } => if flow::finished(&reply) {
                Step::Done(Ok(report))
            } else {
                Step::Done(Err(DbError::Failed))
            },
        }
    }
}

proof fn lemma_same_settings(
    a: ImportPlan,
    b: ImportPlan,
    tables: Seq<TableImport>,
    reports: Seq<BackupImportTableReport>,
    step: Step<ImportBackup, ImportOutcome>,
)
    requires
        a.continues(b),
        ImportBackup::stores(a, tables, reports, step),
    ensures
        ImportBackup::stores(b, tables, reports, step),
    decreases tables.len(),
{
    if tables.len() > 0 && tables[0].pending@.len() == 0 {
        let report = choose|report: BackupImportTableReport| #[trigger]
            tables[0].reported(report) && ImportBackup::stores(
                a,
                tables.drop_first(),
                reports.push(report),
                step,
            );
        lemma_same_settings(a, b, tables.drop_first(), reports.push(report), step);
    }
}

/// An import reports every row of every table, as imported or as skipped: what an import that is
/// well-formed ends with accounts for all rows. The states that an import runs through are
/// well-formed.
pub proof fn law_import_accounts_for_every_row(
    state: ImportBackup,
    reply: Reply,
    step: Step<ImportBackup, ImportOutcome>,
)
    requires
        state.wf(),
        state.resumed(reply, step),
    ensures
        step matches Step::Done(Ok(report)) ==> state is Committing && reply is Finished && forall|
            i: int,
        |
            0 <= i < report.tables@.len() ==> accounts(#[trigger] report.tables@[i]),
{
    law_import_reports_every_table(state, reply, step);
}

/// How many tables an import deals with.
pub open spec fn table_count(state: ImportBackup) -> nat {
    match state {
        ImportBackup::Beginning { plan } => plan.tables@.len() + plan.reports@.len(),
        ImportBackup::Clearing { plan, .. } => plan.tables@.len() + plan.reports@.len(),
        ImportBackup::Inserting { plan } => plan.tables@.len() + plan.reports@.len(),
        ImportBackup::Committing { report } => report.tables@.len(),
    }
}

proof fn lemma_stores_counts(
    plan: ImportPlan,
    tables: Seq<TableImport>,
    reports: Seq<BackupImportTableReport>,
    step: Step<ImportBackup, ImportOutcome>,
)
    requires
        ImportBackup::stores(plan, tables, reports, step),
    ensures
        step is Ask,
        table_count(step->Ask_0) == tables.len() + reports.len(),
        step->Ask_1 is Commit <==> step->Ask_0 is Committing,
    decreases tables.len(),
{
    if tables.len() > 0 && tables[0].pending@.len() == 0 {
        let report = choose|report: BackupImportTableReport| #[trigger]
            tables[0].reported(report) && ImportBackup::stores(
                plan,
                tables.drop_first(),
                reports.push(report),
                step,
            );
        lemma_stores_counts(plan, tables.drop_first(), reports.push(report), step);
    }
}

/// An import reports every table, and is committed only when every table is reported: the tables
/// that are complete and those that are not stay as many as the import was begun with, and with
/// the commit all of them are in the report.
pub proof fn law_import_reports_every_table(
    state: ImportBackup,
    reply: Reply,
    step: Step<ImportBackup, ImportOutcome>,
)
    requires
        state.wf(),
        state.resumed(reply, step),
    ensures
        step matches Step::Ask(next, call) ==> table_count(next) == table_count(state) && (
        call is Commit <==> next is Committing),
        step matches Step::Done(Ok(report)) ==> state is Committing && reply is Finished
            && report.tables@.len() == table_count(state),
{
    match state {
        ImportBackup::Beginning { plan } => {
            if reply is Finished && !plan.overwrite {
                lemma_stores_counts(plan, plan.tables@, plan.reports@, step);
            }
        },
        ImportBackup::Clearing { plan, rest } => {
            if flow::affected_of(reply) is Some && views(rest@).len() == 0 {
                lemma_stores_counts(plan, plan.tables@, plan.reports@, step);
            }
        },
        ImportBackup::Inserting { plan } => {
            if let Some(n) = flow::affected_of(reply) {
                lemma_stores_counts(
                    plan,
                    plan.tables@.update(0, plan.tables@[0].counted(n)),
                    plan.reports@,
                    step,
                );
            }
        },
        ImportBackup::Committing { .. } => {},
    }
}

/// The statements that are left to be run for tables, in the order in which they are run.
pub open spec fn script(tables: Seq<TableImport>) -> Seq<StatementView>
    decreases tables.len(),
{
    if tables.len() == 0 {
        Seq::empty()
    } else {
        views(tables[0].pending@).reverse() + script(tables.drop_first())
    }
}

/// The statements that an import has left to run, in order.
pub open spec fn remaining(state: ImportBackup) -> Seq<StatementView> {
    match state {
        ImportBackup::Beginning { plan } => (if plan.overwrite {
            clear_statements()
        } else {
            Seq::empty()
        }) + script(plan.tables@),
        ImportBackup::Clearing { plan, rest } => views(rest@) + script(plan.tables@),
        ImportBackup::Inserting { plan } => script(plan.tables@),
        ImportBackup::Committing { .. } => Seq::empty(),
    }
}

/// Whether a step runs the first of the statements that are left, or commits where none is.
pub open spec fn follows(left: Seq<StatementView>, step: Step<ImportBackup, ImportOutcome>) -> bool {
    match step {
        Step::Ask(next, call) => if left.len() > 0 {
            call.executes(left[0]) && remaining(next) == left.drop_first()
        } else {
            call is Commit && next is Committing
        },
        Step::Done(_) => false,
    }
}

proof fn lemma_stores_follows(
    plan: ImportPlan,
    tables: Seq<TableImport>,
    reports: Seq<BackupImportTableReport>,
    step: Step<ImportBackup, ImportOutcome>,
)
    requires
        ImportBackup::stores(plan, tables, reports, step),
    ensures
        follows(script(tables), step),
    decreases tables.len(),
{
    if tables.len() > 0 {
        let pending = tables[0].pending@;
        let later = script(tables.drop_first());
        if pending.len() == 0 {
            let report = choose|report: BackupImportTableReport| #[trigger]
                tables[0].reported(report) && ImportBackup::stores(
                    plan,
                    tables.drop_first(),
                    reports.push(report),
                    step,
                );
            lemma_stores_follows(plan, tables.drop_first(), reports.push(report), step);
            assert(script(tables) =~= later);
        } else {
            let next = step->Ask_0->Inserting_plan;
            assert(views(pending).reverse()[0] == pending.last()@);
            assert(views(next.tables@[0].pending@).reverse() =~= views(
                pending,
            ).reverse().drop_first());
            assert(script(next.tables@) =~= script(tables).drop_first());
        }
    }
}

/// An import runs its statements in order and leaves none out: a step runs the first statement
/// that is left and goes on with the others, and commits exactly when none is left; what fails
/// ends it.
pub proof fn law_import_runs_in_order(
    state: ImportBackup,
    reply: Reply,
    step: Step<ImportBackup, ImportOutcome>,
)
    requires
        state.wf(),
        state.resumed(reply, step),
        step is Ask,
    ensures
        follows(remaining(state), step),
{
    match state {
        ImportBackup::Beginning { plan } => {
            if plan.overwrite {
                assert(remaining(state).drop_first() =~= clear_statements().drop_first() + script(
                    plan.tables@,
                ));
            } else {
                assert(remaining(state) =~= script(plan.tables@));
                lemma_stores_follows(plan, plan.tables@, plan.reports@, step);
            }
        },
        ImportBackup::Clearing { plan, rest } => {
            if views(rest@).len() == 0 {
                assert(remaining(state) =~= script(plan.tables@));
                lemma_stores_follows(plan, plan.tables@, plan.reports@, step);
            } else {
                assert(remaining(state).drop_first() =~= views(rest@).drop_first() + script(
                    plan.tables@,
                ));
            }
        },
        ImportBackup::Inserting { plan } => {
            let n = flow::affected_of(reply)->Some_0;
            let counted = plan.tables@.update(0, plan.tables@[0].counted(n));
            assert(counted.drop_first() =~= plan.tables@.drop_first());
            assert(script(counted) == script(plan.tables@));
            lemma_stores_follows(plan, counted, plan.reports@, step);
        },
        ImportBackup::Committing { .. } => {},
    }
}

/// Where a backup is merged into what is there, the administrator's record is not touched: no
/// statement is run for a record of the administrator, and none replaces a row that is there.
pub proof fn law_merge_keeps_what_is_there(table: BackupTable, row: JsonRow)
    ensures
        table == BackupTable::Users && row is Object && is_admin_record(row->Object_0@)
            ==> row_statement(table, row, false) is None,
        row_statement(table, row, false) matches Some(statement) ==> statement.sql
            == "INSERT OR IGNORE"@ + " INTO "@ + table.title() + "("@ + text::joined(
            table.columns(),
            ", "@,
        ) + ") VALUES("@ + text::joined(placeholders(table.columns().len()), ", "@) + ")"@,
{
}

/// Whether a statement puts the values of a row into a table, each into the column of its name.
pub open spec fn puts_row(
    statement: StatementView,
    table: BackupTable,
    columns: Seq<String>,
    row: Seq<SqlValue>,
) -> bool {
    &&& statement.sql == import_text(table, true)
    &&& statement.params.len() == table.columns().len()
    &&& forall|k: int, j: int|
        0 <= k < table.columns().len() && 0 <= j < columns.len() && #[trigger] table.columns()[k]
            == (#[trigger] columns[j])@ ==> statement.params[k] == cell_at(row, j)
}

pub(crate) proof fn lemma_exported_row_is_put(
    table: BackupTable,
    columns: Seq<String>,
    row: Seq<SqlValue>,
    out: JsonRow,
)
    requires
        distinct_names(columns),
        is_exported_row(columns, row, out),
    ensures
        puts_row(import_statement(table, out->Object_0@, true), table, columns, row),
{
    let statement = import_statement(table, out->Object_0@, true);
    assert forall|k: int, j: int|
        0 <= k < table.columns().len() && 0 <= j < columns.len() && #[trigger] table.columns()[k]
            == (#[trigger] columns[j])@ implies statement.params[k] == cell_at(row, j) by {
        law_export_then_import(columns, row, out, j);
    }
}

pub(crate) proof fn lemma_every_row_has_its_statement(table: BackupTable, rows: Seq<JsonRow>, r: int)
    requires
        forall|i: int| 0 <= i < rows.len() ==> (#[trigger] rows[i]) is Object,
        0 <= r < rows.len(),
    ensures
        row_statements(table, rows, true).len() == rows.len(),
        row_statements(table, rows, true)[rows.len() - 1 - r] == import_statement(
            table,
            rows[r]->Object_0@,
            true,
        ),
    decreases rows.len(),
{
    let later = rows.drop_first();
    assert(rows[0] is Object);
    assert forall|i: int| 0 <= i < later.len() implies (#[trigger] later[i]) is Object by {
        assert(later[i] == rows[i + 1]);
    }
    if later.len() > 0 {
        if r > 0 {
            lemma_every_row_has_its_statement(table, later, r - 1);
        } else {
            lemma_every_row_has_its_statement(table, later, 0);
        }
    } else {
        reveal_with_fuel(row_statements, 2);
    }
}

pub(crate) proof fn lemma_script_holds(tables: Seq<TableImport>, t: int, p: int) -> (i: int)
    requires
        0 <= t < tables.len(),
        0 <= p < tables[t].pending@.len(),
    ensures
        0 <= i < script(tables).len(),
        script(tables)[i] == views(tables[t].pending@)[p],
    decreases tables.len(),
{
    let first = views(tables[0].pending@).reverse();
    if t == 0 {
        let i = tables[0].pending@.len() - 1 - p;
        assert(first[i] == views(tables[0].pending@)[p]);
        i
    } else {
        assert(tables.drop_first()[t - 1] == tables[t]);
        let i = lemma_script_holds(tables.drop_first(), t - 1, p);
        first.len() + i
    }
}

/// Whether a statement that comes behind those that clear the tables puts a row in.
pub open spec fn puts_row_later(
    plan: ImportPlan,
    i: int,
    table: BackupTable,
    columns: Seq<String>,
    row: Seq<SqlValue>,
) -> bool {
    &&& clear_statements().len() <= i < remaining(ImportBackup::Beginning { plan }).len()
    &&& puts_row(remaining(ImportBackup::Beginning { plan })[i], table, columns, row)
}

/// Where everything is replaced, all that was taken out of a table is put in: first every table is
/// cleared, and of the statements that follow one puts in each row that was taken out, all its
/// values in the columns that they were taken out of.
pub proof fn law_overwrite_puts_every_row_in(
    plan: ImportPlan,
    data: BackupData,
    source_mode: String,
    scope: String,
    table: BackupTable,
    source: Table,
    r: int,
)
    requires
        plan.prepared(data, true, source_mode, scope),
        is_exported(source, rows_for(data, table)),
        distinct_names(source.columns@),
        0 <= r < source.rows@.len(),
    ensures
        remaining(ImportBackup::Beginning { plan }).take(clear_statements().len() as int)
            == clear_statements(),
        exists|i: int| #[trigger]
            puts_row_later(plan, i, table, source.columns@, source.rows@[r]@),
{
    let all = remaining(ImportBackup::Beginning { plan });
    assert(all.take(clear_statements().len() as int) =~= clear_statements());
    let rows = rows_for(data, table);
    assert forall|i: int| 0 <= i < rows.len() implies (#[trigger] rows[i]) is Object by {
        assert(is_exported_row(source.columns@, source.rows@[i]@, rows[i]));
    }
    let t: int = match table {
        BackupTable::Users => 0,
        BackupTable::Rooms => 1,
        BackupTable::Groups => 2,
        BackupTable::Devices => 3,
        BackupTable::Events => 4,
        BackupTable::ConfigPushes => 5,
        BackupTable::SystemConfig => 6,
    };
    assert(plan.tables@[t].prepared(table, rows, true));
    lemma_every_row_has_its_statement(table, rows, r);
    let i = lemma_script_holds(plan.tables@, t, rows.len() - 1 - r);
    let place = clear_statements().len() + i;
    assert(all[place] == script(plan.tables@)[i]);
    assert(is_exported_row(source.columns@, source.rows@[r]@, rows[r]));
    lemma_exported_row_is_put(table, source.columns@, source.rows@[r]@, rows[r]);
    assert(puts_row_later(plan, place, table, source.columns@, source.rows@[r]@));
}

/// The rows of a backup for a table.
pub open spec fn rows_for(data: BackupData, table: BackupTable) -> Seq<JsonRow> {
    match table {
        BackupTable::Users => data.users@,
        BackupTable::Rooms => data.rooms@,
        BackupTable::Groups => data.groups@,
        BackupTable::Devices => data.devices@,
        BackupTable::Events => data.events@,
        BackupTable::ConfigPushes => data.config_pushes@,
        BackupTable::SystemConfig => data.system_config@,
    }
}

/// Whether a statement adds a row of a backup to its table, where none with its key is there: an
/// insert that ignores conflicts, of the values of an object of the backup that is not the
/// administrator's record.
pub open spec fn adds_row(
    statement: StatementView,
    table: BackupTable,
    members: Vec<JsonMember>,
    data: BackupData,
) -> bool {
    &&& rows_for(data, table).contains(JsonRow::Object(members))
    &&& statement == import_statement(table, members@, false)
    &&& statement.sql == import_text(table, false)
    &&& !(table == BackupTable::Users && is_admin_record(members@))
}

/// Whether a statement adds a row of a backup.
pub open spec fn adds_some_row(statement: StatementView, data: BackupData) -> bool {
    exists|table: BackupTable, members: Vec<JsonMember>| #[trigger]
        adds_row(statement, table, members, data)
}

proof fn lemma_row_statements_add(
    table: BackupTable,
    rows: Seq<JsonRow>,
    data: BackupData,
    from: int,
    i: int,
)
    requires
        rows == rows_for(data, table).skip(from),
        0 <= from <= rows_for(data, table).len(),
        0 <= i < row_statements(table, rows, false).len(),
    ensures
        adds_some_row(row_statements(table, rows, false)[i], data),
    decreases rows.len(),
{
    if rows.len() > 0 {
        let all = rows_for(data, table);
        let later = row_statements(table, rows.drop_first(), false);
        assert(rows.drop_first() =~= all.skip(from + 1));
        if i < later.len() {
            lemma_row_statements_add(table, rows.drop_first(), data, from + 1, i);
        } else {
            let members = rows[0]->Object_0;
            assert(all[from] == JsonRow::Object(members));
            assert(adds_row(row_statements(table, rows, false)[i], table, members, data));
        }
    }
}

proof fn lemma_script_adds(tables: Seq<TableImport>, data: BackupData, i: int)
    requires
        forall|t: int|
            0 <= t < tables.len() ==> (#[trigger] tables[t]).prepared(
                tables[t].table,
                rows_for(data, tables[t].table),
                false,
            ),
        0 <= i < script(tables).len(),
    ensures
        adds_some_row(script(tables)[i], data),
    decreases tables.len(),
{
    if tables.len() > 0 {
        let pending = views(tables[0].pending@);
        let table = tables[0].table;
        assert(tables[0].prepared(table, rows_for(data, table), false));
        assert(rows_for(data, table).skip(0) =~= rows_for(data, table));
        if i < pending.len() {
            assert(script(tables)[i] == pending[pending.len() - 1 - i]);
            lemma_row_statements_add(
                table,
                rows_for(data, table),
                data,
                0,
                pending.len() - 1 - i,
            );
        } else {
            assert forall|t: int| 0 <= t < tables.drop_first().len() implies (
            #[trigger] tables.drop_first()[t]).prepared(
                tables.drop_first()[t].table,
                rows_for(data, tables.drop_first()[t].table),
                false,
            ) by {
                assert(tables.drop_first()[t] == tables[t + 1]);
            }
            assert(script(tables)[i] == script(tables.drop_first())[i - pending.len()]);
            lemma_script_adds(tables.drop_first(), data, i - pending.len());
        }
    }
}

/// A merge does nothing but add rows of the backup: every statement that it runs, from the first
/// to the last, is an insert that ignores conflicts, of the values of an object of the backup;
/// none clears a table, none replaces or changes a row, and none adds the administrator's record.
pub proof fn law_merge_only_adds(
    plan: ImportPlan,
    data: BackupData,
    source_mode: String,
    scope: String,
    i: int,
)
    requires
        plan.prepared(data, false, source_mode, scope),
        0 <= i < remaining(ImportBackup::Beginning { plan }).len(),
    ensures
        adds_some_row(remaining(ImportBackup::Beginning { plan })[i], data),
{
    assert(remaining(ImportBackup::Beginning { plan }) =~= script(plan.tables@));
    lemma_script_adds(plan.tables@, data, i);
}

/// What is stored: the values of every row in the order of the columns, by table and row number.
pub type StoredRows = Map<(BackupTable, int), Seq<SqlView>>;

/// What the columns of the tables make of the values that are put into them.
pub type Affinity = spec_fn(BackupTable, int, SqlView) -> SqlView;

/// The row that values become in a table.
pub open spec fn row_of_values(affinity: Affinity, table: BackupTable, values: Seq<SqlView>) -> Seq<
    SqlView,
> {
    Seq::new(values.len(), |k: int| affinity(table, k, values[k]))
}

/// Whether a table holds a row with a key. The key of a row is its first value; null is no key.
pub open spec fn holds_key(stored: StoredRows, table: BackupTable, key: SqlView) -> bool {
    !(key is Null) && exists|number: int| #[trigger]
        stored.dom().contains((table, number)) && stored[(table, number)][0] == key
}

/// Whether what is stored grows by one row of a table, whose key is not there.
pub open spec fn grows(
    before: StoredRows,
    table: BackupTable,
    number: int,
    row: Seq<SqlView>,
    after: StoredRows,
) -> bool {
    &&& !before.dom().contains((table, number))
    &&& !holds_key(before, table, row[0])
    &&& after == before.insert((table, number), row)
}

/// What an insert that ignores conflicts does to what is stored: it adds its row, which changes
/// one row, or it changes none.
pub open spec fn inserts(
    affinity: Affinity,
    before: StoredRows,
    statement: StatementView,
    changed: u64,
    after: StoredRows,
) -> bool {
    ||| changed == 0 && after == before
    ||| changed == 1 && exists|table: BackupTable, number: int|
        statement.sql == import_text(table, false) && #[trigger] grows(
            before,
            table,
            number,
            row_of_values(affinity, table, statement.params),
            after,
        )
}

/// What is stored before and after each of a list of inserts that ignore conflicts.
pub open spec fn runs(
    affinity: Affinity,
    stored: Seq<StoredRows>,
    statements: Seq<StatementView>,
    changed: Seq<u64>,
) -> bool {
    &&& stored.len() == statements.len() + 1
    &&& changed.len() == statements.len()
    &&& forall|i: int|
        0 <= i < statements.len() ==> inserts(
            affinity,
            #[trigger] stored[i],
            statements[i],
            changed[i],
            stored[i + 1],
        )
}

/// Whether a row of a table is one of the backup, and not the administrator's record.
pub open spec fn comes_from(
    affinity: Affinity,
    data: BackupData,
    table: BackupTable,
    row: Seq<SqlView>,
    members: Vec<JsonMember>,
) -> bool {
    &&& rows_for(data, table).contains(JsonRow::Object(members))
    &&& row == row_of_values(affinity, table, import_statement(table, members@, false).params)
    &&& !(table == BackupTable::Users && is_admin_record(members@))
}

proof fn lemma_import_text_names_table(a: BackupTable, b: BackupTable)
    requires
        import_text(a, false) == import_text(b, false),
    ensures
        a == b,
{
    reveal_strlit("users");
    reveal_strlit("rooms");
    reveal_strlit("groups");
    reveal_strlit("devices");
    reveal_strlit("events");
    reveal_strlit("config_pushes");
    reveal_strlit("system_config");
    let n = ("INSERT OR IGNORE"@ + " INTO "@).len() as int;
    assert(import_text(a, false)[n] == a.title()[0]);
    assert(import_text(b, false)[n] == b.title()[0]);
}

proof fn lemma_runs_keep(
    affinity: Affinity,
    stored: Seq<StoredRows>,
    statements: Seq<StatementView>,
    changed: Seq<u64>,
    data: BackupData,
    n: int,
    table: BackupTable,
    number: int,
)
    requires
        runs(affinity, stored, statements, changed),
        0 <= n <= statements.len(),
        forall|i: int| 0 <= i < statements.len() ==> adds_some_row(#[trigger] statements[i], data),
        stored[n].dom().contains((table, number)) || stored[0].dom().contains((table, number)),
    ensures
        stored[n].dom().contains((table, number)),
        stored[0].dom().contains((table, number)) ==> stored[n][(table, number)] == stored[0][(
            table,
            number,
        )],
        !stored[0].dom().contains((table, number)) ==> exists|members: Vec<JsonMember>| #[trigger]
            comes_from(affinity, data, table, stored[n][(table, number)], members),
    decreases n,
{
    if n > 0 {
        let statement = statements[n - 1];
        assert(adds_some_row(statement, data));
        assert(inserts(affinity, stored[n - 1], statement, changed[n - 1], stored[n]));
        if stored[n - 1].dom().contains((table, number)) || stored[0].dom().contains(
            (table, number),
        ) {
            lemma_runs_keep(
                affinity,
                stored,
                statements,
                changed,
                data,
                n - 1,
                table,
                number,
            );
            assert(stored[n][(table, number)] == stored[n - 1][(table, number)]);
            if !stored[0].dom().contains((table, number)) {
                let members = choose|members: Vec<JsonMember>| #[trigger]
                    comes_from(affinity, data, table, stored[n - 1][(table, number)], members);
                assert(comes_from(affinity, data, table, stored[n][(table, number)], members));
            }
        } else {
            let (into, place) = choose|into: BackupTable, place: int|
                statement.sql == import_text(into, false) && #[trigger] grows(
                    stored[n - 1],
                    into,
                    place,
                    row_of_values(affinity, into, statement.params),
                    stored[n],
                );
            let (from, members) = choose|from: BackupTable, members: Vec<JsonMember>| #[trigger]
                adds_row(statement, from, members, data);
            lemma_import_text_names_table(into, from);
            assert(comes_from(affinity, data, table, stored[n][(table, number)], members));
        }
    }
}

/// A merge keeps what is stored and adds only what the backup holds. When the statements of a
/// merge have been run, every row that was stored is stored with all its values unchanged; every
/// other row is one of an object of the backup for its table, and none is the administrator's
/// record. A statement for a row whose key is stored changes nothing, and what changes nothing
/// counts as skipped.
pub proof fn law_merge_keeps_stored_rows(
    plan: ImportPlan,
    data: BackupData,
    source_mode: String,
    scope: String,
    affinity: Affinity,
    stored: Seq<StoredRows>,
    changed: Seq<u64>,
)
    requires
        plan.prepared(data, false, source_mode, scope),
        runs(affinity, stored, remaining(ImportBackup::Beginning { plan }), changed),
    ensures
        forall|table: BackupTable, number: int| #[trigger]
            stored[0].dom().contains((table, number)) ==> stored.last().dom().contains(
                (table, number),
            ) && stored.last()[(table, number)] == stored[0][(table, number)],
        forall|table: BackupTable, number: int| #[trigger]
            stored.last().dom().contains((table, number)) && !stored[0].dom().contains(
                (table, number),
            ) ==> exists|members: Vec<JsonMember>| #[trigger]
                comes_from(affinity, data, table, stored.last()[(table, number)], members),
        forall|i: int, table: BackupTable|
            0 <= i < changed.len() && remaining(ImportBackup::Beginning { plan })[i].sql
                == import_text(table, false) && #[trigger] holds_key(
                stored[i],
                table,
                row_of_values(
                    affinity,
                    table,
                    remaining(ImportBackup::Beginning { plan })[i].params,
                )[0],
            ) ==> changed[i] == 0,
        forall|import: TableImport|
            (#[trigger] import.counted(0)) == (TableImport {
                skipped: (import.skipped + 1) as u64,
                ..import
            }),
{
    let statements = remaining(ImportBackup::Beginning { plan });
    assert forall|i: int| 0 <= i < statements.len() implies adds_some_row(
        #[trigger] statements[i],
        data,
    ) by {
        law_merge_only_adds(plan, data, source_mode, scope, i);
    }
    let n = statements.len() as int;
    assert forall|table: BackupTable, number: int| #[trigger]
        stored[0].dom().contains((table, number)) implies stored.last().dom().contains(
        (table, number),
    ) && stored.last()[(table, number)] == stored[0][(table, number)] by {
        lemma_runs_keep(affinity, stored, statements, changed, data, n, table, number);
    }
    assert forall|table: BackupTable, number: int| #[trigger]
        stored.last().dom().contains((table, number)) && !stored[0].dom().contains(
            (table, number),
        ) implies exists|members: Vec<JsonMember>| #[trigger]
        comes_from(affinity, data, table, stored.last()[(table, number)], members) by {
        lemma_runs_keep(affinity, stored, statements, changed, data, n, table, number);
    }
    assert forall|i: int, table: BackupTable|
        0 <= i < changed.len() && statements[i].sql == import_text(table, false)
            && #[trigger] holds_key(
            stored[i],
            table,
            row_of_values(affinity, table, statements[i].params)[0],
        ) implies changed[i] == 0 by {
        assert(inserts(affinity, stored[i], statements[i], changed[i], stored[i + 1]));
        if changed[i] == 1 {
            let (into, place) = choose|into: BackupTable, place: int|
                statements[i].sql == import_text(into, false) && #[trigger] grows(
                    stored[i],
                    into,
                    place,
                    row_of_values(affinity, into, statements[i].params),
                    stored[i + 1],
                );
            lemma_import_text_names_table(into, table);
        }
    }
}

impl Database {
    /// Begins to take out all data.
    pub fn export_backup(&self) -> (step: Step<Export, Result<BackupData, DbError>>)
        ensures
            Export::advanced(Seq::empty(), full_export(), step),
    {
        let mut pending: Vec<Statement> = Vec::new();
        pending.push(select_all_statement(BackupTable::Users));
        pending.push(select_all_statement(BackupTable::Rooms));
        pending.push(select_all_statement(BackupTable::Groups));
        pending.push(select_all_statement(BackupTable::Devices));
        pending.push(select_all_statement(BackupTable::Events));
        pending.push(select_all_statement(BackupTable::ConfigPushes));
        pending.push(select_all_statement(BackupTable::SystemConfig));
        assert(views(pending@) =~= full_export());
        let done: Vec<Vec<JsonRow>> = Vec::new();
        assert(done@ =~= Seq::empty());
        Export::advance(done, pending)
    }

    /// Begins to take out the data of one user.
    pub fn export_user_backup(&self, user_id: &str) -> (step: Step<
        Export,
        Result<BackupData, DbError>,
    >)
        ensures
            Export::advanced(Seq::empty(), personal_export(user_id@), step),
    {
        let mut pending: Vec<Statement> = Vec::new();
        pending.push(Statement::new(PERSONAL_USERS).text(user_id));
        pending.push(Statement::new(PERSONAL_ROOMS).text(user_id));
        pending.push(Statement::new(PERSONAL_GROUPS).text(user_id));
        pending.push(Statement::new(PERSONAL_DEVICES).text(user_id));
        pending.push(Statement::new(PERSONAL_EVENTS).text(user_id));
        pending.push(Statement::new(PERSONAL_PUSHES).text(user_id));
        assert(views(pending@) =~= personal_export(user_id@));
        let done: Vec<Vec<JsonRow>> = Vec::new();
        assert(done@ =~= Seq::empty());
        Export::advance(done, pending)
    }

    /// Begins to put a backup in, in place of what is there or beside it.
    pub fn import_backup(
        &self,
        data: BackupData,
        overwrite: bool,
        source_mode: String,
        scope: String,
    ) -> (step: Step<ImportBackup, ImportOutcome>)
        ensures
            step matches Step::Ask(ImportBackup::Beginning { plan }, Call::Begin) && plan.prepared(
                data,
                overwrite,
                source_mode,
                scope,
            ),
            step matches Step::Ask(next, _) ==> next.wf(),
    {
        let mut tables: Vec<TableImport> = Vec::new();
        tables.push(import_rows(BackupTable::Users, data.users, overwrite));
        tables.push(import_rows(BackupTable::Rooms, data.rooms, overwrite));
        tables.push(import_rows(BackupTable::Groups, data.groups, overwrite));
        tables.push(import_rows(BackupTable::Devices, data.devices, overwrite));
        tables.push(import_rows(BackupTable::Events, data.events, overwrite));
        tables.push(import_rows(BackupTable::ConfigPushes, data.config_pushes, overwrite));
        tables.push(import_rows(BackupTable::SystemConfig, data.system_config, overwrite));
        let plan = ImportPlan { overwrite, source_mode, scope, tables, reports: Vec::new() };
        Step::Ask(ImportBackup::Beginning { plan }, Call::Begin)
    }
}

} // verus!
