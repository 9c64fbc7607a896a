//! Taking backups out.
use vstd::prelude::*;
use vstd::string::*;

use crate::db::backup::{full_export, is_exported, personal_export, Export};
use crate::db::DbError;
use crate::flow::{Reply, Step, Table};
use crate::json::{JsonCell, JsonRow};
use crate::models::BackupData;
use crate::sql::{SqlValue, SqlView, StatementView};

verus! {

/// A step of taking a backup out.
pub type ExportStep = Step<Export, Result<BackupData, DbError>>;

/// Whether a step asks for the table that a statement selects.
pub open spec fn asks(step: ExportStep, sql: Seq<char>, params: Seq<SqlView>) -> bool {
    &&& step is Ask
    &&& step->Ask_1 is FetchTable
    &&& step->Ask_1->FetchTable_0.sql@ == sql
    &&& step->Ask_1->FetchTable_0.params@.map_values(|p: SqlValue| p@) =~= params
}

/// Whether a JSON value says what a stored value is.
pub open spec fn says(cell: JsonCell, value: SqlValue) -> bool {
    match value {
        SqlValue::Text(t) => cell is Text && cell->Text_0@ == t@,
        SqlValue::Integer(n) => if n >= 0 {
            cell is Unsigned && cell->Unsigned_0 == n
        } else {
            cell is Negative && cell->Negative_0 == n
        },
        SqlValue::Null => cell is Null,
    }
}

/// Whether JSON rows are those of a table: as many, in order, each with every column by its name
/// and every value.
pub open spec fn mirrors(rows: Seq<JsonRow>, table: Table) -> bool {
    &&& rows.len() == table.rows@.len()
    &&& forall|r: int|
        0 <= r < rows.len() ==> {
            &&& (#[trigger] rows[r]) is Object
            &&& rows[r]->Object_0@.len() == table.columns@.len()
            &&& forall|c: int|
                0 <= c < table.columns@.len() ==> {
                    &&& (#[trigger] rows[r]->Object_0@[c]).name@ == table.columns@[c]@
                    &&& c < table.rows@[r]@.len() ==> says(
                        rows[r]->Object_0@[c].value,
                        table.rows@[r]@[c],
                    )
                    &&& c >= table.rows@[r]@.len() ==> rows[r]->Object_0@[c].value is Null
                }
        }
}

/// Whether each step follows from the one before with the table that was asked for.
pub open spec fn is_run(steps: Seq<ExportStep>, tables: Seq<Table>) -> bool {
    &&& steps.len() == tables.len() + 1
    &&& forall|k: int|
        #![trigger tables[k]]
        0 <= k < tables.len() && steps[k] is Ask ==> (steps[k]->Ask_0).resumed(
            Reply::Table(tables[k]),
            steps[k + 1],
        )
}

/// The backup of one user asks for one table after the other, each with a statement that selects
/// from that table the rows that belong to the user: the user, the rooms that the user owns, and
/// the groups, the devices, the events and the pushes of these rooms. The backup then holds under
/// the name of each table what was selected from it, and no settings.
pub proof fn law_personal_backup_takes_each_table_from_itself(
    user_id: Seq<char>,
    steps: Seq<ExportStep>,
    tables: Seq<Table>,
)
    requires
        tables.len() == 6,
        is_run(steps, tables),
        Export::advanced(Seq::empty(), personal_export(user_id), steps[0]),
    ensures
        asks(steps[0], "SELECT * FROM users WHERE id = ?1"@, seq![SqlView::Text(user_id)]),
        asks(steps[1], "SELECT * FROM rooms WHERE owner_id = ?1"@, seq![SqlView::Text(user_id)]),
        asks(
            steps[2],
            "SELECT g.* FROM groups g JOIN rooms r ON g.room_id = r.id WHERE r.owner_id = ?1"@,
            seq![SqlView::Text(user_id)],
        ),
        asks(
            steps[3],
            "SELECT d.* FROM devices d JOIN rooms r ON d.room_id = r.id WHERE r.owner_id = ?1"@,
            seq![SqlView::Text(user_id)],
        ),
        asks(
            steps[4],
            "SELECT e.* FROM events e JOIN devices d ON e.device_id = d.id JOIN rooms r ON d.room_id = r.id WHERE r.owner_id = ?1"@,
            seq![SqlView::Text(user_id)],
        ),
        asks(
            steps[5],
            "SELECT c.* FROM config_pushes c JOIN devices d ON c.device_id = d.id JOIN rooms r ON d.room_id = r.id WHERE r.owner_id = ?1"@,
            seq![SqlView::Text(user_id)],
        ),
        steps[6] is Done && steps[6]->Done_0 is Ok,
        ({
            let data = steps[6]->Done_0->Ok_0;
            &&& mirrors(data.users@, tables[0])
            &&& mirrors(data.rooms@, tables[1])
            &&& mirrors(data.groups@, tables[2])
            &&& mirrors(data.devices@, tables[3])
            &&& mirrors(data.events@, tables[4])
            &&& mirrors(data.config_pushes@, tables[5])
            &&& data.system_config@.len() == 0
        }),
{
    let all = personal_export(user_id);
    assert(all.len() == 6);
    let rows = lemma_six(all, steps, tables);
    assert(all.skip(6) =~= Seq::empty());
    assert(Export::advanced(rows, all.skip(6), steps[6]));
}

/// The backup of everything asks for all seven tables in the same order and for all their rows,
/// and holds under the name of each table what was selected from it, the settings too.
pub proof fn law_full_backup_takes_each_table_from_itself(
    steps: Seq<ExportStep>,
    tables: Seq<Table>,
)
    requires
        tables.len() == 7,
        is_run(steps, tables),
        Export::advanced(Seq::empty(), full_export(), steps[0]),
    ensures
        asks(steps[0], "SELECT * FROM users"@, seq![]),
        asks(steps[1], "SELECT * FROM rooms"@, seq![]),
        asks(steps[2], "SELECT * FROM groups"@, seq![]),
        asks(steps[3], "SELECT * FROM devices"@, seq![]),
        asks(steps[4], "SELECT * FROM events"@, seq![]),
        asks(steps[5], "SELECT * FROM config_pushes"@, seq![]),
        asks(steps[6], "SELECT * FROM system_config"@, seq![]),
        steps[7] is Done && steps[7]->Done_0 is Ok,
        ({
            let data = steps[7]->Done_0->Ok_0;
            &&& mirrors(data.users@, tables[0])
            &&& mirrors(data.rooms@, tables[1])
            &&& mirrors(data.groups@, tables[2])
            &&& mirrors(data.devices@, tables[3])
            &&& mirrors(data.events@, tables[4])
            &&& mirrors(data.config_pushes@, tables[5])
            &&& mirrors(data.system_config@, tables[6])
        }),
{
    let all = full_export();
    assert(all.len() == 7);
    let rows = lemma_six(all, steps, tables);
    let last = lemma_next(rows, all.skip(6), steps[6], tables[6], steps[7]);
    assert(all.skip(6).drop_first() =~= Seq::empty());
    reveal_strlit("SELECT * FROM ");
    reveal_strlit("users");
    reveal_strlit("rooms");
    reveal_strlit("groups");
    reveal_strlit("devices");
    reveal_strlit("events");
    reveal_strlit("config_pushes");
    reveal_strlit("system_config");
    reveal_strlit("SELECT * FROM users");
    reveal_strlit("SELECT * FROM rooms");
    reveal_strlit("SELECT * FROM groups");
    reveal_strlit("SELECT * FROM devices");
    reveal_strlit("SELECT * FROM events");
    reveal_strlit("SELECT * FROM config_pushes");
    reveal_strlit("SELECT * FROM system_config");
    assert("SELECT * FROM "@ + "users"@ =~= "SELECT * FROM users"@);
    assert("SELECT * FROM "@ + "rooms"@ =~= "SELECT * FROM rooms"@);
    assert("SELECT * FROM "@ + "groups"@ =~= "SELECT * FROM groups"@);
    assert("SELECT * FROM "@ + "devices"@ =~= "SELECT * FROM devices"@);
    assert("SELECT * FROM "@ + "events"@ =~= "SELECT * FROM events"@);
    assert("SELECT * FROM "@ + "config_pushes"@ =~= "SELECT * FROM config_pushes"@);
    assert("SELECT * FROM "@ + "system_config"@ =~= "SELECT * FROM system_config"@);
}

/// What the first six tables of a run come to.
proof fn lemma_six(all: Seq<StatementView>, steps: Seq<ExportStep>, tables: Seq<Table>) -> (rows:
    Seq<Vec<JsonRow>>)
    requires
        all.len() >= 6,
        tables.len() >= 6,
        is_run(steps, tables),
        Export::advanced(Seq::empty(), all, steps[0]),
    ensures
        forall|k: int|
            0 <= k < 6 ==> (#[trigger] steps[k]) is Ask && steps[k]->Ask_1.fetches_table(all[k]),
        rows.len() == 6,
        forall|k: int| 0 <= k < 6 ==> mirrors((#[trigger] rows[k])@, tables[k]),
        Export::advanced(rows, all.skip(6), steps[6]),
{
    let none = Seq::<Vec<JsonRow>>::empty();
    assert(all.skip(0) =~= all);
    let a = lemma_next(none, all.skip(0), steps[0], tables[0], steps[1]);
    let b = lemma_next(none.push(a), all.skip(1), steps[1], tables[1], steps[2]);
    let c = lemma_next(none.push(a).push(b), all.skip(2), steps[2], tables[2], steps[3]);
    let d = lemma_next(none.push(a).push(b).push(c), all.skip(3), steps[3], tables[3], steps[4]);
    let e = lemma_next(
        none.push(a).push(b).push(c).push(d),
        all.skip(4),
        steps[4],
        tables[4],
        steps[5],
    );
    let f = lemma_next(
        none.push(a).push(b).push(c).push(d).push(e),
        all.skip(5),
        steps[5],
        tables[5],
        steps[6],
    );
    none.push(a).push(b).push(c).push(d).push(e).push(f)
}

/// What one table of a run comes to.
proof fn lemma_next(
    done: Seq<Vec<JsonRow>>,
    pending: Seq<StatementView>,
    step: ExportStep,
    table: Table,
    next: ExportStep,
) -> (rows: Vec<JsonRow>)
    requires
        pending.len() > 0,
        Export::advanced(done, pending, step),
        step is Ask ==> (step->Ask_0).resumed(Reply::Table(table), next),
    ensures
        step is Ask && step->Ask_1.fetches_table(pending[0]),
        mirrors(rows@, table),
        Export::advanced(done.push(rows), pending.skip(1), next),
        forall|all: Seq<StatementView>, n: int|
            0 <= n < all.len() && pending == #[trigger] all.skip(n) ==> pending.skip(1)
                == all.skip(n + 1) && pending[0] == all[n],
{
    assert(pending.drop_first() =~= pending.skip(1));
    assert forall|all: Seq<StatementView>, n: int|
        0 <= n < all.len() && pending == #[trigger] all.skip(n) implies pending.skip(1)
        == all.skip(n + 1) && pending[0] == all[n] by {
        assert(pending.skip(1) =~= all.skip(n + 1));
    }
    choose|rows: Vec<JsonRow>| #[trigger]
        is_exported(table, rows@) && Export::advanced(done.push(rows), pending.skip(1), next)
}

/// Whether a text begins by selecting columns from a table.
pub open spec fn selects_from(sql: Seq<char>, columns: Seq<char>, table: Seq<char>) -> bool {
    let head = columns + " FROM "@ + table + " "@;
    head.len() < sql.len() && sql.take(head.len() as int) =~= head
}

/// The statement at the place of each table in the backup of one user selects the columns of that
/// very table from it, and is bound to the user alone.
pub proof fn law_statement_for_a_table_selects_from_it(user_id: Seq<char>, i: int)
    requires
        0 <= i < 6,
    ensures
        personal_export(user_id).len() == 6,
        personal_export(user_id)[i].params =~= seq![SqlView::Text(user_id)],
        selects_from(personal_export(user_id)[0].sql, "SELECT *"@, "users"@),
        selects_from(personal_export(user_id)[1].sql, "SELECT *"@, "rooms"@),
        selects_from(personal_export(user_id)[2].sql, "SELECT g.*"@, "groups"@),
        selects_from(personal_export(user_id)[3].sql, "SELECT d.*"@, "devices"@),
        selects_from(personal_export(user_id)[4].sql, "SELECT e.*"@, "events"@),
        selects_from(personal_export(user_id)[5].sql, "SELECT c.*"@, "config_pushes"@),
{
    lemma_selects_users();
    lemma_selects_rooms();
    lemma_selects_groups();
    lemma_selects_devices();
    lemma_selects_events();
    lemma_selects_config_pushes();
}

proof fn lemma_selects_users()
    ensures
        selects_from(
            "SELECT * FROM users WHERE id = ?1"@,
            "SELECT *"@,
            "users"@,
        ),
{
    reveal_strlit(
        "SELECT * FROM users WHERE id = ?1",
    );
    reveal_strlit("SELECT *");
    reveal_strlit(" FROM ");
    reveal_strlit("users");
    reveal_strlit(" ");
}

proof fn lemma_selects_rooms()
    ensures
        selects_from(
            "SELECT * FROM rooms WHERE owner_id = ?1"@,
            "SELECT *"@,
            "rooms"@,
        ),
{
    reveal_strlit(
        "SELECT * FROM rooms WHERE owner_id = ?1",
    );
    reveal_strlit("SELECT *");
    reveal_strlit(" FROM ");
    reveal_strlit("rooms");
    reveal_strlit(" ");
}

proof fn lemma_selects_groups()
    ensures
        selects_from(
            "SELECT g.* FROM groups g JOIN rooms r ON g.room_id = r.id WHERE r.owner_id = ?1"@,
            "SELECT g.*"@,
            "groups"@,
        ),
{
    reveal_strlit(
        "SELECT g.* FROM groups g JOIN rooms r ON g.room_id = r.id WHERE r.owner_id = ?1",
    );
    reveal_strlit("SELECT g.*");
    reveal_strlit(" FROM ");
    reveal_strlit("groups");
    reveal_strlit(" ");
}

proof fn lemma_selects_devices()
    ensures
        selects_from(
            "SELECT d.* FROM devices d JOIN rooms r ON d.room_id = r.id WHERE r.owner_id = ?1"@,
            "SELECT d.*"@,
            "devices"@,
        ),
{
    reveal_strlit(
        "SELECT d.* FROM devices d JOIN rooms r ON d.room_id = r.id WHERE r.owner_id = ?1",
    );
    reveal_strlit("SELECT d.*");
    reveal_strlit(" FROM ");
    reveal_strlit("devices");
    reveal_strlit(" ");
}

proof fn lemma_selects_events()
    ensures
        selects_from(
            "SELECT e.* FROM events e JOIN devices d ON e.device_id = d.id JOIN rooms r ON d.room_id = r.id WHERE r.owner_id = ?1"@,
            "SELECT e.*"@,
            "events"@,
        ),
{
    reveal_strlit(
        "SELECT e.* FROM events e JOIN devices d ON e.device_id = d.id JOIN rooms r ON d.room_id = r.id WHERE r.owner_id = ?1",
    );
    reveal_strlit("SELECT e.*");
    reveal_strlit(" FROM ");
    reveal_strlit("events");
    reveal_strlit(" ");
}

proof fn lemma_selects_config_pushes()
    ensures
        selects_from(
            "SELECT c.* FROM config_pushes c JOIN devices d ON c.device_id = d.id JOIN rooms r ON d.room_id = r.id WHERE r.owner_id = ?1"@,
            "SELECT c.*"@,
            "config_pushes"@,
        ),
{
    reveal_strlit(
        "SELECT c.* FROM config_pushes c JOIN devices d ON c.device_id = d.id JOIN rooms r ON d.room_id = r.id WHERE r.owner_id = ?1",
    );
    reveal_strlit("SELECT c.*");
    reveal_strlit(" FROM ");
    reveal_strlit("config_pushes");
    reveal_strlit(" ");
}

} // verus!
