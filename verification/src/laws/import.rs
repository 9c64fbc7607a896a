//! Putting backups in, and who may ask for backups and events.
use vstd::prelude::*;
use vstd::string::*;

use crate::api::backup::{event_limit, event_query, EventQuery, ExportBackup, ExportStep};
use crate::api::backup::{ImportBackup as ImportRequest, ImportStep};
use crate::auth::AuthUser;
use crate::db::backup::{
    clear_statements, full_export, import_statement, personal_export, placeholders, row_statement,
    row_statements, BackupTable, Export, ImportBackup, ImportOutcome, ImportPlan, TableImport,
};
use crate::db::events::{select_events, select_owned_events};
use crate::db::DbError;
use crate::flow::{Reply, Step};
use crate::json::{member_of, JsonCell, JsonMember, JsonRow};
use crate::laws::is_statement;
use crate::laws::payload::{distinct_names, lemma_member};
use crate::models::{BackupData, BackupEnvelope, BackupImportTableReport};
use crate::sql::{stored_u64, SqlView, Statement};
use crate::status::StatusCode;
use crate::text::{decimal, joined};

verus! {

/// No fewer than one event and no more than a thousand are listed, 200 where no number is asked
/// for; an administrator sees those of all, anyone else those of the own rooms.
pub proof fn law_events_are_limited(user: AuthUser, query: EventQuery, n: i64)
    ensures
        event_limit(None) == 200,
        n < 1 ==> event_limit(Some(n)) == 1,
        1 <= n <= 1000 ==> event_limit(Some(n)) == n,
        n > 1000 ==> event_limit(Some(n)) == 1000,
        user.role@ == "admin"@ ==> event_query(user, query) == select_events(
            query.device_id,
            query.event_type,
            event_limit(query.limit),
        ),
        user.role@ != "admin"@ ==> event_query(user, query) == select_owned_events(
            user.id@,
            query.device_id,
            query.event_type,
            event_limit(query.limit),
        ),
{
}

/// Whether the backup of everything is asked for.
pub open spec fn asks_for_all(user: AuthUser, asked: Option<String>) -> bool {
    match asked {
        Some(scope) => scope@ == "full"@,
        None => user.role@ == "admin"@,
    }
}

/// Whether the backup of the user alone is asked for.
pub open spec fn asks_for_own(user: AuthUser, asked: Option<String>) -> bool {
    match asked {
        Some(scope) => scope@ == "user"@,
        None => user.role@ != "admin"@,
    }
}

/// The backup of everything is an administrator's alone, and that of a user is of the one who asks;
/// without a word an administrator gets everything and anyone else the own data. Any other word is
/// a bad request.
pub proof fn law_backup_has_the_scope_asked_for(
    user: AuthUser,
    asked: Option<String>,
    now: i64,
    step: ExportStep,
)
    requires
        ExportBackup::started(user, asked, now, step),
    ensures
        asks_for_all(user, asked) && user.role@ != "admin"@ ==> step == ExportStep::Done(
            Err(StatusCode::Forbidden),
        ),
        asks_for_all(user, asked) && user.role@ == "admin"@ ==> {
            &&& step is Ask
            &&& step->Ask_0.scope@ == "full"@
            &&& Export::advanced(
                Seq::empty(),
                full_export(),
                Step::Ask(step->Ask_0.inner, step->Ask_1),
            )
        },
        asks_for_own(user, asked) ==> {
            &&& step is Ask
            &&& step->Ask_0.scope@ == "user"@
            &&& Export::advanced(
                Seq::empty(),
                personal_export(user.id@),
                Step::Ask(step->Ask_0.inner, step->Ask_1),
            )
        },
        !asks_for_all(user, asked) && !asks_for_own(user, asked) ==> step == ExportStep::Done(
            Err(StatusCode::BadRequest),
        ),
{
    reveal_strlit("full");
    reveal_strlit("user");
    assert("full"@[0] == 'f' && "user"@[0] == 'u');
    assert(full_export().len() == 7);
    assert(personal_export(user.id@).len() == 6);
    if asks_for_all(user, asked) && user.role@ == "admin"@ {
        let sub = choose|sub: Step<Export, Result<BackupData, DbError>>| #[trigger]
            Export::advanced(Seq::empty(), full_export(), sub) && ExportBackup::lifts(
                "full"@,
                sub,
                now,
                step,
            );
        assert(sub == Step::<Export, Result<BackupData, DbError>>::Ask(
            step->Ask_0.inner,
            step->Ask_1,
        ));
    }
    if asks_for_own(user, asked) {
        let sub = choose|sub: Step<Export, Result<BackupData, DbError>>| #[trigger]
            Export::advanced(Seq::empty(), personal_export(user.id@), sub) && ExportBackup::lifts(
                "user"@,
                sub,
                now,
                step,
            );
        assert(sub == Step::<Export, Result<BackupData, DbError>>::Ask(
            step->Ask_0.inner,
            step->Ask_1,
        ));
    }
}

/// A backup says in which format it is, when it was taken, from what kind of database and in which
/// scope.
pub proof fn law_backup_says_where_it_is_from(
    scope: Seq<char>,
    data: BackupData,
    now: i64,
    step: ExportStep,
)
    requires
        ExportBackup::lifts(
            scope,
            Step::<Export, Result<BackupData, DbError>>::Done(Ok(data)),
            now,
            step,
        ),
    ensures
        step is Done && step->Done_0 is Ok && step->Done_0->Ok_0 is Backup,
        step->Done_0->Ok_0->Backup_0.format_version == 1,
        step->Done_0->Ok_0->Backup_0.exported_at == now,
        step->Done_0->Ok_0->Backup_0.source_mode@ == "sqlite"@,
        step->Done_0->Ok_0->Backup_0.scope@ == scope,
        step->Done_0->Ok_0->Backup_0.data == data,
{
}

/// Whether a table of a backup is planned with its own rows.
pub open spec fn plans(
    import: TableImport,
    table: BackupTable,
    rows: Seq<JsonRow>,
    overwrite: bool,
) -> bool {
    &&& import.table == table
    &&& import.attempted == rows.len()
    &&& import.imported == 0
    &&& crate::db::transaction::views(import.pending@) == row_statements(table, rows, overwrite)
    &&& import.skipped == rows.len() - import.pending@.len()
}

/// A backup is put in by an administrator alone, and only in format 1; what is there is replaced
/// exactly where the word is `overwrite`. Each table is put in from the rows under its own name, in
/// the order in which one refers to the other.
pub proof fn law_each_table_is_put_in_from_itself(
    user: AuthUser,
    mode: Option<String>,
    envelope: BackupEnvelope,
    step: ImportStep,
)
    requires
        ImportRequest::started(user, mode, envelope, step),
    ensures
        user.role@ != "admin"@ ==> step == ImportStep::Done(Err(StatusCode::Forbidden)),
        user.role@ == "admin"@ && envelope.format_version != 1 ==> step == ImportStep::Done(
            Err(StatusCode::BadRequest),
        ),
        user.role@ == "admin"@ && envelope.format_version == 1 ==> {
            let plan = step->Ask_0.inner->Beginning_plan;
            let overwrite = mode is Some && mode->Some_0@ == "overwrite"@;
            let data = envelope.data;
            &&& step is Ask && step->Ask_1 is Begin && step->Ask_0.inner is Beginning
            &&& plan.overwrite == overwrite
            &&& plan.source_mode == envelope.source_mode
            &&& plan.scope == envelope.scope
            &&& plan.reports@.len() == 0
            &&& plan.tables@.len() == 7
            &&& plans(plan.tables@[0], BackupTable::Users, data.users@, overwrite)
            &&& plans(plan.tables@[1], BackupTable::Rooms, data.rooms@, overwrite)
            &&& plans(plan.tables@[2], BackupTable::Groups, data.groups@, overwrite)
            &&& plans(plan.tables@[3], BackupTable::Devices, data.devices@, overwrite)
            &&& plans(plan.tables@[4], BackupTable::Events, data.events@, overwrite)
            &&& plans(
                plan.tables@[5],
                BackupTable::ConfigPushes,
                data.config_pushes@,
                overwrite,
            )
            &&& plans(
                plan.tables@[6],
                BackupTable::SystemConfig,
                data.system_config@,
                overwrite,
            )
        },
{
}

/// The columns that are put into a table, in order.
pub open spec fn columns_of(table: BackupTable) -> Seq<Seq<char>> {
    match table {
        BackupTable::Users => seq!["id"@, "username"@, "password"@, "role"@, "created_at"@],
        BackupTable::Rooms => seq!["id"@, "name"@, "owner_id"@, "created_at"@],
        BackupTable::Groups => seq![
            "id"@,
            "room_id"@,
            "name"@,
            "encrypted_token"@,
            "encrypted_server"@,
            "encrypted_password"@,
            "extra_config"@,
            "config_version"@,
            "created_at"@,
            "updated_at"@,
        ],
        BackupTable::Devices => seq![
            "id"@,
            "room_id"@,
            "group_id"@,
            "display_name"@,
            "network_ip"@,
            "network_node_id"@,
            "device_token"@,
            "last_seen"@,
            "status"@,
            "config_version"@,
            "up_stream"@,
            "down_stream"@,
            "traffic_updated_at"@,
            "created_at"@,
            "client_version"@,
            "console_public_ip"@,
            "vnts_status"@,
            "vnts_error"@,
            "vnts_updated_at"@,
        ],
        BackupTable::Events => seq![
            "id"@,
            "device_id"@,
            "event_type"@,
            "payload"@,
            "created_at"@,
        ],
        BackupTable::ConfigPushes => seq![
            "id"@,
            "device_id"@,
            "group_id"@,
            "config_snapshot"@,
            "pushed_at"@,
            "acked"@,
        ],
        BackupTable::SystemConfig => seq!["key"@, "value"@, "updated_at"@],
    }
}

/// The name of a table.
pub open spec fn name_of(table: BackupTable) -> Seq<char> {
    match table {
        BackupTable::Users => "users"@,
        BackupTable::Rooms => "rooms"@,
        BackupTable::Groups => "groups"@,
        BackupTable::Devices => "devices"@,
        BackupTable::Events => "events"@,
        BackupTable::ConfigPushes => "config_pushes"@,
        BackupTable::SystemConfig => "system_config"@,
    }
}

/// Whether a database value says what a JSON value is.
pub open spec fn keeps(value: SqlView, cell: JsonCell) -> bool {
    match cell {
        JsonCell::Null => value is Null,
        JsonCell::Unsigned(n) => value == SqlView::Integer(stored_u64(n)),
        JsonCell::Negative(n) => value == SqlView::Integer(n),
        JsonCell::Text(t) => value == SqlView::Text(t@),
        JsonCell::Other(t) => value == SqlView::Text(t@),
    }
}

/// A row is put into its own table, over what is there or beside it, with every column of the table
/// named and bound to the value that the row has under that very name; what the row does not have
/// is null.
pub proof fn law_row_is_put_in_column_by_column(
    table: BackupTable,
    members: Seq<JsonMember>,
    overwrite: bool,
    i: int,
    k: int,
)
    requires
        distinct_names(members),
        0 <= i < columns_of(table).len(),
        0 <= k < members.len(),
    ensures
        ({
            let statement = import_statement(table, members, overwrite);
            let columns = columns_of(table);
            &&& statement.params.len() == columns.len()
            &&& members[k].name@ == columns[i] ==> keeps(statement.params[i], members[k].value)
            &&& (forall|m: int|
                0 <= m < members.len() ==> (#[trigger] members[m]).name@ != columns[i])
                ==> statement.params[i] is Null
            &&& statement.sql == (if overwrite {
                "INSERT OR REPLACE"@
            } else {
                "INSERT OR IGNORE"@
            }) + " INTO "@ + name_of(table) + "("@ + joined(columns, ", "@) + ") VALUES("@
                + joined(placeholders(columns.len()), ", "@) + ")"@
        }),
{
    assert(table.columns() =~= columns_of(table));
    lemma_member(members, columns_of(table)[i]);
    if members[k].name@ == columns_of(table)[i] {
        let found = choose|found: int|
            0 <= found < members.len() && (#[trigger] members[found]).name@ == columns_of(table)[i]
                && member_of(members, columns_of(table)[i]) == Some(members[found].value);
        assert(found == k);
    }
}

/// Texts are joined with what stands between them, and parameters are numbered from one on.
pub proof fn law_joined_texts_stand_apart(
    parts: Seq<Seq<char>>,
    part: Seq<char>,
    separator: Seq<char>,
    n: nat,
    i: int,
)
    requires
        0 <= i < n,
    ensures
        joined(seq![part], separator) == part,
        parts.len() > 0 ==> joined(parts.push(part), separator) == joined(parts, separator)
            + separator + part,
        placeholders(n).len() == n,
        placeholders(n)[i] == "?"@ + decimal((i + 1) as nat),
    decreases parts.len(),
{
    lemma_joined_one(part, separator);
    lemma_joined_push(parts, part, separator);
}

proof fn lemma_joined_one(part: Seq<char>, separator: Seq<char>)
    ensures
        joined(seq![part], separator) == part,
{
    reveal_with_fuel(joined, 2);
    assert(joined(seq![part], separator) =~= part);
}

proof fn lemma_joined_push(parts: Seq<Seq<char>>, part: Seq<char>, separator: Seq<char>)
    ensures
        parts.len() > 0 ==> joined(parts.push(part), separator) == joined(parts, separator)
            + separator + part,
    decreases parts.len(),
{
    reveal_with_fuel(joined, 2);
    assert(parts.push(part).drop_last() =~= parts);
    assert(parts.push(part).last() == part);
}

/// The user called `admin` is left as it is where a backup is put in beside what is there; what is
/// no object is left out, and every other row is put in.
pub proof fn law_administrator_is_not_merged(
    table: BackupTable,
    row: JsonRow,
    overwrite: bool,
    k: int,
)
    requires
        row is Object ==> distinct_names(row->Object_0@) && 0 <= k < row->Object_0@.len(),
    ensures
        row is Other ==> row_statement(table, row, overwrite) is None,
        row is Object && overwrite ==> row_statement(table, row, overwrite) == Some(
            import_statement(table, row->Object_0@, true),
        ),
        row is Object && !overwrite && table != BackupTable::Users ==> row_statement(
            table,
            row,
            overwrite,
        ) == Some(import_statement(table, row->Object_0@, false)),
        row is Object && !overwrite && table == BackupTable::Users && row->Object_0@[k].name@
            == "username"@ ==> ({
            let cell = row->Object_0@[k].value;
            if cell is Text && cell->Text_0@ == "admin"@ {
                row_statement(table, row, overwrite) is None
            } else {
                row_statement(table, row, overwrite) == Some(
                    import_statement(table, row->Object_0@, false),
                )
            }
        }),
{
    if row is Object && row->Object_0@[k].name@ == "username"@ {
        let members = row->Object_0@;
        lemma_member(members, "username"@);
        let found = choose|found: int|
            0 <= found < members.len() && (#[trigger] members[found]).name@ == "username"@
                && member_of(members, "username"@) == Some(members[found].value);
        assert(found == k);
    }
}

/// The rows of a table are put in from the first on: what is put in next stands last in the list of
/// what is left.
pub proof fn law_rows_are_put_in_from_the_first(
    table: BackupTable,
    rows: Seq<JsonRow>,
    overwrite: bool,
)
    requires
        rows.len() > 0,
    ensures
        ({
            let first = row_statement(table, rows[0], overwrite);
            let all = row_statements(table, rows, overwrite);
            let later = row_statements(table, rows.drop_first(), overwrite);
            &&& first is Some ==> all.len() == later.len() + 1 && all.last() == first->Some_0
                && all.drop_last() =~= later
            &&& first is None ==> all == later
        }),
{
}

/// Where a backup replaces what is there, all tables are emptied first, what refers to a record
/// before the record: pushes, events, devices, groups, rooms, sessions, users and settings.
pub proof fn law_tables_are_emptied_in_order()
    ensures
        clear_statements().len() == 8,
        is_statement(clear_statements()[0], "DELETE FROM config_pushes"@, seq![]),
        is_statement(clear_statements()[1], "DELETE FROM events"@, seq![]),
        is_statement(clear_statements()[2], "DELETE FROM devices"@, seq![]),
        is_statement(clear_statements()[3], "DELETE FROM groups"@, seq![]),
        is_statement(clear_statements()[4], "DELETE FROM rooms"@, seq![]),
        is_statement(clear_statements()[5], "DELETE FROM sessions"@, seq![]),
        is_statement(clear_statements()[6], "DELETE FROM users"@, seq![]),
        is_statement(clear_statements()[7], "DELETE FROM system_config"@, seq![]),
{
    reveal_strlit("DELETE FROM ");
    reveal_strlit("config_pushes");
    reveal_strlit("events");
    reveal_strlit("devices");
    reveal_strlit("groups");
    reveal_strlit("rooms");
    reveal_strlit("sessions");
    reveal_strlit("users");
    reveal_strlit("system_config");
    reveal_strlit("DELETE FROM config_pushes");
    reveal_strlit("DELETE FROM events");
    reveal_strlit("DELETE FROM devices");
    reveal_strlit("DELETE FROM groups");
    reveal_strlit("DELETE FROM rooms");
    reveal_strlit("DELETE FROM sessions");
    reveal_strlit("DELETE FROM users");
    reveal_strlit("DELETE FROM system_config");
    assert("DELETE FROM "@ + "config_pushes"@ =~= "DELETE FROM config_pushes"@);
    assert("DELETE FROM "@ + "events"@ =~= "DELETE FROM events"@);
    assert("DELETE FROM "@ + "devices"@ =~= "DELETE FROM devices"@);
    assert("DELETE FROM "@ + "groups"@ =~= "DELETE FROM groups"@);
    assert("DELETE FROM "@ + "rooms"@ =~= "DELETE FROM rooms"@);
    assert("DELETE FROM "@ + "sessions"@ =~= "DELETE FROM sessions"@);
    assert("DELETE FROM "@ + "users"@ =~= "DELETE FROM users"@);
    assert("DELETE FROM "@ + "system_config"@ =~= "DELETE FROM system_config"@);
}

/// What a backup came to is counted and told: a row that changed something counts as put in, one
/// that did not as skipped, and the report names the table, how it was put in and where the backup
/// is from.
pub proof fn law_last_row_is_counted_and_reported(
    plan: ImportPlan,
    n: u64,
    step: Step<ImportBackup, ImportOutcome>,
)
    requires
        plan.tables@.len() == 1,
        plan.tables@[0].pending@.len() == 0,
        plan.tables@[0].imported < u64::MAX && plan.tables@[0].skipped < u64::MAX,
        (ImportBackup::Inserting { plan }).resumed(Reply::Affected(n), step),
    ensures
        step is Ask && step->Ask_1 is Commit && step->Ask_0 is Committing,
        ({
            let report = step->Ask_0->Committing_report;
            let last = report.tables@[report.tables@.len() - 1];
            let table = plan.tables@[0];
            &&& report.ok
            &&& plan.overwrite ==> report.mode@ == "overwrite"@
            &&& !plan.overwrite ==> report.mode@ == "merge"@
            &&& report.source_mode == plan.source_mode
            &&& report.scope == plan.scope
            &&& report.tables@.len() == plan.reports@.len() + 1
            &&& forall|i: int|
                0 <= i < plan.reports@.len() ==> #[trigger] report.tables@[i] == plan.reports@[i]
            &&& last.table@ == name_of(table.table)
            &&& last.attempted == table.attempted
            &&& n > 0 ==> last.imported == table.imported + 1 && last.skipped == table.skipped
            &&& n == 0 ==> last.imported == table.imported && last.skipped == table.skipped + 1
        }),
{
    let tables = plan.tables@.update(0, plan.tables@[0].counted(n));
    let entry = choose|entry: BackupImportTableReport| #[trigger]
        tables[0].reported(entry) && ImportBackup::stores(
            plan,
            tables.drop_first(),
            plan.reports@.push(entry),
            step,
        );
    assert(tables.drop_first().len() == 0);
}

/// Where a backup replaces what is there, the first table to be emptied is that of the pushes, and
/// nothing is put in before all are emptied; where it is put in beside what is there, nothing is
/// emptied and the first row is put in at once. The rows of a table follow one after the other.
pub proof fn law_tables_are_emptied_only_to_be_replaced(
    plan: ImportPlan,
    begun: Step<ImportBackup, ImportOutcome>,
    rest: Vec<Statement>,
    n: u64,
    cleared: Step<ImportBackup, ImportOutcome>,
)
    requires
        plan.tables@.len() > 0,
        plan.tables@[0].pending@.len() > 0,
        (ImportBackup::Beginning { plan }).resumed(Reply::Finished, begun),
        (ImportBackup::Clearing { plan, rest }).resumed(Reply::Affected(n), cleared),
    ensures
        begun is Ask && begun->Ask_1 is Execute,
        plan.overwrite ==> {
            &&& is_statement(begun->Ask_1->Execute_0@, "DELETE FROM config_pushes"@, seq![])
            &&& begun->Ask_0 is Clearing
            &&& begun->Ask_0->Clearing_plan == plan
            &&& begun->Ask_0->rest@.len() == 7
        },
        !plan.overwrite ==> begun->Ask_1->Execute_0@ == plan.tables@[0].pending@.last()@,
        cleared is Ask && cleared->Ask_1 is Execute,
        rest@.len() > 0 ==> {
            &&& cleared->Ask_1->Execute_0@ == rest@[0]@
            &&& cleared->Ask_0 is Clearing
            &&& cleared->Ask_0->rest@.len() == rest@.len() - 1
        },
        rest@.len() == 0 ==> cleared->Ask_1->Execute_0@ == plan.tables@[0].pending@.last()@,
{
    law_tables_are_emptied_in_order();
    assert(clear_statements().len() == 8);
    assert(crate::db::transaction::views(rest@).len() == rest@.len());
    if rest@.len() > 0 {
        assert(crate::db::transaction::views(rest@)[0] == rest@[0]@);
        assert(crate::db::transaction::views(cleared->Ask_0->rest@).len() == rest@.len() - 1);
    }
    if plan.overwrite {
        assert(crate::db::transaction::views(begun->Ask_0->rest@).len() == 7);
    }
}

/// A row that was put in is counted for its table, and the next row of the same table follows; what
/// was counted before stays.
pub proof fn law_next_row_follows(
    plan: ImportPlan,
    n: u64,
    step: Step<ImportBackup, ImportOutcome>,
)
    requires
        plan.tables@.len() > 0,
        plan.tables@[0].pending@.len() > 0,
        plan.tables@[0].imported < u64::MAX && plan.tables@[0].skipped < u64::MAX,
        (ImportBackup::Inserting { plan }).resumed(Reply::Affected(n), step),
    ensures
        step is Ask && step->Ask_1 is Execute && step->Ask_0 is Inserting,
        step->Ask_1->Execute_0@ == plan.tables@[0].pending@.last()@,
        ({
            let before = plan.tables@[0];
            let after = step->Ask_0->Inserting_plan.tables@[0];
            &&& after.table == before.table
            &&& after.attempted == before.attempted
            &&& after.pending@ == before.pending@.drop_last()
            &&& n > 0 ==> after.imported == before.imported + 1 && after.skipped == before.skipped
            &&& n == 0 ==> after.imported == before.imported && after.skipped == before.skipped + 1
            &&& step->Ask_0->Inserting_plan.tables@.len() == plan.tables@.len()
            &&& step->Ask_0->Inserting_plan.reports@ == plan.reports@
            &&& step->Ask_0->Inserting_plan.overwrite == plan.overwrite
            &&& step->Ask_0->Inserting_plan.source_mode == plan.source_mode
            &&& step->Ask_0->Inserting_plan.scope == plan.scope
        }),
{
}

} // verus!
