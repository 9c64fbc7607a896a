//! What becomes of a whole backup that is put in: the stored rows it leaves, and its report.
use vstd::prelude::*;
use vstd::string::*;

use crate::db::backup::{
    backup_tables, cell_at, clear_statements, clear_table, cleared_tables, distinct_names,
    import_statement, import_text, is_exported, is_exported_row, lemma_every_row_has_its_statement,
    lemma_exported_row_is_put, lemma_script_holds, remaining, row_of_values, row_statements,
    rows_for, script, Affinity, BackupTable, ImportBackup, ImportOutcome, ImportPlan, StoredRows,
    TableImport,
};
use crate::db::transaction::views;
use crate::flow;
use crate::flow::{Reply, Step, Table};
use crate::models::{BackupData, BackupImportReport, BackupImportTableReport};
use crate::sql::{SqlView, StatementView};

verus! {

/// Whether two rows cannot stand in a table together.
pub type Conflict = spec_fn(BackupTable, Seq<SqlView>, Seq<SqlView>) -> bool;

/// What is stored without the rows of a table.
pub open spec fn emptied(stored: StoredRows, table: BackupTable) -> StoredRows {
    Map::new(
        |k: (BackupTable, int)| stored.dom().contains(k) && k.0 != table,
        |k: (BackupTable, int)| stored[k],
    )
}

/// What is stored without the rows of a table that conflict with a row.
pub open spec fn without_conflicts(
    conflict: Conflict,
    stored: StoredRows,
    table: BackupTable,
    row: Seq<SqlView>,
) -> StoredRows {
    Map::new(
        |k: (BackupTable, int)|
            stored.dom().contains(k) && !(k.0 == table && conflict(table, stored[k], row)),
        |k: (BackupTable, int)| stored[k],
    )
}

/// What a statement that clears a table does to what is stored. The sessions are no table of a
/// backup.
pub open spec fn clears(before: StoredRows, statement: StatementView, after: StoredRows) -> bool {
    ||| exists|table: BackupTable|
        statement == #[trigger] clear_table(table.title()) && after == emptied(before, table)
    ||| statement == clear_table("sessions"@) && after == before
}

/// Whether a row of a table takes the place of those that it conflicts with.
pub open spec fn takes_place(
    conflict: Conflict,
    before: StoredRows,
    table: BackupTable,
    number: int,
    row: Seq<SqlView>,
    after: StoredRows,
) -> bool {
    let kept = without_conflicts(conflict, before, table, row);
    &&& !kept.dom().contains((table, number))
    &&& after == kept.insert((table, number), row)
}

/// What an insert that replaces conflicting rows does to what is stored: it adds its row, which
/// counts as one change.
pub open spec fn replaces(
    affinity: Affinity,
    conflict: Conflict,
    before: StoredRows,
    statement: StatementView,
    changed: u64,
    after: StoredRows,
) -> bool {
    changed == 1 && exists|table: BackupTable, number: int|
        statement.sql == import_text(table, true) && #[trigger] takes_place(
            conflict,
            before,
            table,
            number,
            row_of_values(affinity, table, statement.params),
            after,
        )
}

/// What is stored before and after each of a list of statements that clear tables or insert and
/// replace.
pub open spec fn overwrites(
    affinity: Affinity,
    conflict: Conflict,
    stored: Seq<StoredRows>,
    statements: Seq<StatementView>,
    changed: Seq<u64>,
) -> bool {
    &&& stored.len() == statements.len() + 1
    &&& changed.len() == statements.len()
    &&& forall|i: int|
        0 <= i < statements.len() ==> {
            ||| clears(#[trigger] stored[i], statements[i], stored[i + 1])
            ||| replaces(
                affinity,
                conflict,
                stored[i],
                statements[i],
                changed[i],
                stored[i + 1],
            )
        }
}

/// Whether rows can stand in a table together, as they are.
pub open spec fn storable(
    affinity: Affinity,
    conflict: Conflict,
    table: BackupTable,
    rows: Seq<Seq<SqlView>>,
) -> bool {
    &&& forall|r: int|
        0 <= r < rows.len() ==> row_of_values(affinity, table, #[trigger] rows[r]) == rows[r]
    &&& forall|r: int, q: int|
        0 <= r < rows.len() && 0 <= q < rows.len() && r != q ==> !conflict(
            table,
            #[trigger] rows[r],
            #[trigger] rows[q],
        )
}

/// Whether a column of a result holds what a stored row has in a column of its table.
pub open spec fn is_column(
    source: Table,
    table: BackupTable,
    row: Seq<SqlView>,
    r: int,
    k: int,
    j: int,
) -> bool {
    &&& 0 <= j < source.columns@.len()
    &&& source.columns@[j]@ == table.columns()[k]
    &&& cell_at(source.rows@[r]@, j) == row[k]
}

/// Whether a result holds what a stored row has in a column of its table.
pub open spec fn has_column(
    source: Table,
    table: BackupTable,
    row: Seq<SqlView>,
    r: int,
    k: int,
) -> bool {
    exists|j: int| #[trigger] is_column(source, table, row, r, k, j)
}

/// Whether a result holds all the rows of a table, every column of the table among its columns,
/// in whatever order.
pub open spec fn selects(source: Table, table: BackupTable, rows: Seq<Seq<SqlView>>) -> bool {
    &&& distinct_names(source.columns@)
    &&& source.rows@.len() == rows.len()
    &&& forall|r: int| 0 <= r < rows.len() ==> (#[trigger] rows[r]).len() == table.columns().len()
    &&& forall|r: int, k: int|
        0 <= r < rows.len() && 0 <= k < table.columns().len() ==> #[trigger] has_column(
            source,
            table,
            rows[r],
            r,
            k,
        )
}

/// Whether the rows of a table, as they are stored, were taken out into a backup.
pub open spec fn taken_out(
    source: Table,
    table: BackupTable,
    rows: Seq<Seq<SqlView>>,
    data: BackupData,
) -> bool {
    selects(source, table, rows) && is_exported(source, rows_for(data, table))
}

/// Whether a statement inserts a row of a table and replaces what conflicts with it.
pub open spec fn puts_back(
    statement: StatementView,
    table: BackupTable,
    rows: Seq<Seq<SqlView>>,
    r: int,
) -> bool {
    &&& 0 <= r < rows.len()
    &&& statement.sql == import_text(table, true)
    &&& statement.params == rows[r]
}

proof fn lemma_row_is_put_back(
    source: Table,
    table: BackupTable,
    rows: Seq<Seq<SqlView>>,
    data: BackupData,
    r: int,
)
    requires
        taken_out(source, table, rows, data),
        0 <= r < rows.len(),
    ensures
        rows_for(data, table)[r] is Object,
        puts_back(
            import_statement(table, rows_for(data, table)[r]->Object_0@, true),
            table,
            rows,
            r,
        ),
{
    let out = rows_for(data, table)[r];
    assert(is_exported_row(source.columns@, source.rows@[r]@, out));
    lemma_exported_row_is_put(table, source.columns@, source.rows@[r]@, out);
    let params = import_statement(table, out->Object_0@, true).params;
    assert forall|k: int| 0 <= k < table.columns().len() implies params[k] == rows[r][k] by {
        assert(has_column(source, table, rows[r], r, k));
        let j = choose|j: int| #[trigger] is_column(source, table, rows[r], r, k, j);
        assert(table.columns()[k] == source.columns@[j]@);
    }
    assert(params =~= rows[r]);
}

/// Where a table stands among those of a backup.
spec fn place_of(table: BackupTable) -> int {
    match table {
        BackupTable::Users => 0,
        BackupTable::Rooms => 1,
        BackupTable::Groups => 2,
        BackupTable::Devices => 3,
        BackupTable::Events => 4,
        BackupTable::ConfigPushes => 5,
        BackupTable::SystemConfig => 6,
    }
}

/// Whether every table of a plan is prepared for its rows of a backup.
spec fn all_prepared(tables: Seq<TableImport>, data: BackupData, overwrite: bool) -> bool {
    forall|t: int|
        0 <= t < tables.len() ==> (#[trigger] tables[t]).prepared(
            tables[t].table,
            rows_for(data, tables[t].table),
            overwrite,
        )
}

/// Whether the rows of every table were taken out into a backup.
pub open spec fn all_taken_out(
    sources: spec_fn(BackupTable) -> Table,
    rows: spec_fn(BackupTable) -> Seq<Seq<SqlView>>,
    data: BackupData,
) -> bool {
    forall|table: BackupTable| #[trigger] taken_out(sources(table), table, rows(table), data)
}

/// Whether a statement puts back some row of some table.
spec fn puts_some_back(
    statement: StatementView,
    rows: spec_fn(BackupTable) -> Seq<Seq<SqlView>>,
) -> bool {
    exists|table: BackupTable, r: int| #[trigger] puts_back(statement, table, rows(table), r)
}

proof fn lemma_all_objects(
    source: Table,
    table: BackupTable,
    rows: Seq<Seq<SqlView>>,
    data: BackupData,
)
    requires
        taken_out(source, table, rows, data),
    ensures
        rows_for(data, table).len() == rows.len(),
        forall|i: int|
            0 <= i < rows_for(data, table).len() ==> (#[trigger] rows_for(
                data,
                table,
            )[i]) is Object,
{
    assert forall|i: int| 0 <= i < rows_for(data, table).len() implies (#[trigger] rows_for(
        data,
        table,
    )[i]) is Object by {
        assert(is_exported_row(source.columns@, source.rows@[i]@, rows_for(data, table)[i]));
    }
}

proof fn lemma_script_puts_back(
    tables: Seq<TableImport>,
    data: BackupData,
    sources: spec_fn(BackupTable) -> Table,
    rows: spec_fn(BackupTable) -> Seq<Seq<SqlView>>,
    i: int,
)
    requires
        all_prepared(tables, data, true),
        all_taken_out(sources, rows, data),
        0 <= i < script(tables).len(),
    ensures
        puts_some_back(script(tables)[i], rows),
    decreases tables.len(),
{
    if tables.len() > 0 {
        let table = tables[0].table;
        let pending = views(tables[0].pending@);
        assert(tables[0].prepared(table, rows_for(data, table), true));
        assert(taken_out(sources(table), table, rows(table), data));
        if i < pending.len() {
            lemma_all_objects(sources(table), table, rows(table), data);
            if rows_for(data, table).len() == 0 {
                assert(row_statements(table, rows_for(data, table), true).len() == 0);
            } else {
                lemma_every_row_has_its_statement(table, rows_for(data, table), 0);
                lemma_every_row_has_its_statement(table, rows_for(data, table), i);
                lemma_row_is_put_back(sources(table), table, rows(table), data, i);
                assert(script(tables)[i] == pending[pending.len() - 1 - i]);
                assert(puts_back(script(tables)[i], table, rows(table), i));
            }
        } else {
            assert forall|t: int| 0 <= t < tables.drop_first().len() implies (
            #[trigger] tables.drop_first()[t]).prepared(
                tables.drop_first()[t].table,
                rows_for(data, tables.drop_first()[t].table),
                true,
            ) by {
                assert(tables.drop_first()[t] == tables[t + 1]);
            }
            assert(script(tables)[i] == script(tables.drop_first())[i - pending.len()]);
            lemma_script_puts_back(tables.drop_first(), data, sources, rows, i - pending.len());
        }
    }
}

proof fn lemma_every_row_is_put_back(
    tables: Seq<TableImport>,
    data: BackupData,
    sources: spec_fn(BackupTable) -> Table,
    rows: spec_fn(BackupTable) -> Seq<Seq<SqlView>>,
    t: int,
    r: int,
) -> (i: int)
    requires
        all_prepared(tables, data, true),
        all_taken_out(sources, rows, data),
        0 <= t < tables.len(),
        0 <= r < rows(tables[t].table).len(),
    ensures
        0 <= i < script(tables).len(),
        puts_back(script(tables)[i], tables[t].table, rows(tables[t].table), r),
{
    let table = tables[t].table;
    assert(tables[t].prepared(table, rows_for(data, table), true));
    assert(taken_out(sources(table), table, rows(table), data));
    lemma_all_objects(sources(table), table, rows(table), data);
    lemma_every_row_has_its_statement(table, rows_for(data, table), r);
    lemma_row_is_put_back(sources(table), table, rows(table), data, r);
    assert(views(tables[t].pending@).len() == tables[t].pending@.len());
    lemma_script_holds(tables, t, rows_for(data, table).len() - 1 - r)
}

proof fn lemma_titles_differ(a: BackupTable, b: BackupTable)
    ensures
        a.title() == b.title() ==> a == b,
        a.title() != "sessions"@,
        a.title().len() > 0,
{
    reveal_strlit("users");
    reveal_strlit("rooms");
    reveal_strlit("groups");
    reveal_strlit("devices");
    reveal_strlit("events");
    reveal_strlit("config_pushes");
    reveal_strlit("system_config");
    reveal_strlit("sessions");
    assert(a.title()[0] == b.title()[0] ==> a == b);
    assert("sessions"@[1] == 'e');
    assert(a is SystemConfig ==> a.title()[1] == 'y');
    assert(!(a is SystemConfig) ==> a.title()[0] != 's');
}

proof fn lemma_clear_texts_differ(a: Seq<char>, b: Seq<char>)
    requires
        clear_table(a) == clear_table(b),
    ensures
        a == b,
{
    let n = "DELETE FROM "@.len() as int;
    assert(("DELETE FROM "@ + a).skip(n) =~= a);
    assert(("DELETE FROM "@ + b).skip(n) =~= b);
}

proof fn lemma_replace_texts_differ(a: BackupTable, b: BackupTable)
    requires
        import_text(a, true) == import_text(b, true),
    ensures
        a == b,
{
    lemma_titles_differ(a, b);
    reveal_strlit("users");
    reveal_strlit("rooms");
    reveal_strlit("groups");
    reveal_strlit("devices");
    reveal_strlit("events");
    reveal_strlit("config_pushes");
    reveal_strlit("system_config");
    let n = ("INSERT OR REPLACE"@ + " INTO "@).len() as int;
    assert(import_text(a, true)[n] == a.title()[0]);
    assert(import_text(b, true)[n] == b.title()[0]);
}

proof fn lemma_clearing_is_no_insert(name: Seq<char>, table: BackupTable)
    ensures
        clear_table(name).sql != import_text(table, true),
{
    reveal_strlit("DELETE FROM ");
    reveal_strlit("INSERT OR REPLACE");
    assert(clear_table(name).sql[0] == 'D');
    assert(import_text(table, true)[0] == 'I');
}

/// Whether no row of a table is stored.
spec fn is_bare(stored: StoredRows, table: BackupTable) -> bool {
    forall|number: int| !(#[trigger] stored.dom().contains((table, number)))
}

proof fn lemma_cleared(
    affinity: Affinity,
    conflict: Conflict,
    stored: Seq<StoredRows>,
    statements: Seq<StatementView>,
    changed: Seq<u64>,
    table: BackupTable,
    c: int,
    n: int,
)
    requires
        overwrites(affinity, conflict, stored, statements, changed),
        clear_statements().is_prefix_of(statements),
        0 <= c < n <= clear_statements().len(),
        clear_statements()[c] == clear_table(table.title()),
    ensures
        is_bare(stored[n], table),
    decreases n,
{
    let before = stored[n - 1];
    let name = cleared_tables()[n - 1];
    assert(statements[n - 1] == clear_statements()[n - 1]);
    assert(statements[n - 1] == clear_table(name));
    assert forall|t: BackupTable| statements[n - 1].sql != #[trigger] import_text(t, true) by {
        lemma_clearing_is_no_insert(name, t);
    }
    assert(clears(before, statements[n - 1], stored[n]));
    if c == n - 1 {
        lemma_titles_differ(table, table);
        if statements[n - 1] == clear_table("sessions"@) {
            lemma_clear_texts_differ(table.title(), "sessions"@);
        }
        let emptied_table = choose|t: BackupTable|
            statements[n - 1] == #[trigger] clear_table(t.title()) && stored[n] == emptied(
                before,
                t,
            );
        lemma_clear_texts_differ(table.title(), emptied_table.title());
        lemma_titles_differ(table, emptied_table);
    } else {
        lemma_cleared(affinity, conflict, stored, statements, changed, table, c, n - 1);
    }
}

/// Whether a table holds a row.
pub open spec fn holds_row(stored: StoredRows, table: BackupTable, row: Seq<SqlView>) -> bool {
    exists|number: int| #[trigger]
        stored.dom().contains((table, number)) && stored[(table, number)] == row
}

/// Whether every row of a table that is stored is one of the given rows.
pub open spec fn holds_only(
    stored: StoredRows,
    table: BackupTable,
    rows: Seq<Seq<SqlView>>,
) -> bool {
    forall|number: int| #[trigger]
        stored.dom().contains((table, number)) ==> rows.contains(stored[(table, number)])
}

proof fn lemma_insert_step(
    affinity: Affinity,
    conflict: Conflict,
    before: StoredRows,
    statement: StatementView,
    changed: u64,
    after: StoredRows,
    into: BackupTable,
    rows: spec_fn(BackupTable) -> Seq<Seq<SqlView>>,
    r: int,
)
    requires
        clears(before, statement, after) || replaces(
            affinity,
            conflict,
            before,
            statement,
            changed,
            after,
        ),
        puts_back(statement, into, rows(into), r),
        forall|table: BackupTable| #[trigger] storable(affinity, conflict, table, rows(table)),
        forall|table: BackupTable| #[trigger] holds_only(before, table, rows(table)),
    ensures
        changed == 1,
        forall|table: BackupTable| #[trigger] holds_only(after, table, rows(table)),
        holds_row(after, into, rows(into)[r]),
        forall|table: BackupTable, q: int|
            0 <= q < rows(table).len() && #[trigger] holds_row(before, table, rows(table)[q])
                ==> holds_row(after, table, rows(table)[q]),
{
    if clears(before, statement, after) {
        lemma_clearing_is_no_insert("sessions"@, into);
        assert forall|t: BackupTable| statement != #[trigger] clear_table(t.title()) by {
            lemma_clearing_is_no_insert(t.title(), into);
        }
    }
    let (table, number) = choose|table: BackupTable, number: int|
        statement.sql == import_text(table, true) && #[trigger] takes_place(
            conflict,
            before,
            table,
            number,
            row_of_values(affinity, table, statement.params),
            after,
        );
    lemma_replace_texts_differ(table, into);
    let row = rows(into)[r];
    assert(storable(affinity, conflict, into, rows(into)));
    assert(row_of_values(affinity, into, row) == row);
    let kept = without_conflicts(conflict, before, into, row);
    assert(after == kept.insert((into, number), row));
    assert(after.dom().contains((into, number)) && after[(into, number)] == row);
    assert(rows(into).contains(row));
    assert forall|t: BackupTable| #[trigger] holds_only(after, t, rows(t)) by {
        assert(holds_only(before, t, rows(t)));
        assert forall|n: int| #[trigger] after.dom().contains((t, n)) implies rows(t).contains(
            after[(t, n)],
        ) by {
            if (t, n) != (into, number) {
                assert(before.dom().contains((t, n)));
            }
        }
    }
    assert forall|t: BackupTable, q: int|
        0 <= q < rows(t).len() && #[trigger] holds_row(before, t, rows(t)[q]) implies holds_row(
        after,
        t,
        rows(t)[q],
    ) by {
        let n = choose|n: int| #[trigger]
            before.dom().contains((t, n)) && before[(t, n)] == rows(t)[q];
        if t == into && conflict(into, before[(t, n)], row) {
            assert(q == r);
        } else {
            assert(kept.dom().contains((t, n)));
            assert(after.dom().contains((t, n)) && after[(t, n)] == rows(t)[q]);
        }
    }
}

proof fn lemma_inserted(
    affinity: Affinity,
    conflict: Conflict,
    stored: Seq<StoredRows>,
    statements: Seq<StatementView>,
    changed: Seq<u64>,
    rows: spec_fn(BackupTable) -> Seq<Seq<SqlView>>,
    from: int,
    n: int,
)
    requires
        overwrites(affinity, conflict, stored, statements, changed),
        0 <= from <= n <= statements.len(),
        forall|i: int|
            from <= i < statements.len() ==> puts_some_back(#[trigger] statements[i], rows),
        forall|table: BackupTable| #[trigger] storable(affinity, conflict, table, rows(table)),
        forall|table: BackupTable| #[trigger] is_bare(stored[from], table),
    ensures
        forall|table: BackupTable| #[trigger] holds_only(stored[n], table, rows(table)),
        forall|i: int, table: BackupTable, r: int|
            from <= i < n && #[trigger] puts_back(statements[i], table, rows(table), r)
                ==> holds_row(stored[n], table, rows(table)[r]),
        forall|i: int| from <= i < n ==> #[trigger] changed[i] == 1,
    decreases n,
{
    if n == from {
        assert forall|table: BackupTable| #[trigger] holds_only(stored[n], table, rows(table)) by {
            assert(is_bare(stored[from], table));
        }
    } else {
        lemma_inserted(affinity, conflict, stored, statements, changed, rows, from, n - 1);
        let statement = statements[n - 1];
        assert(puts_some_back(statement, rows));
        let (into, r) = choose|table: BackupTable, r: int| #[trigger]
            puts_back(statement, table, rows(table), r);
        assert(stored[n - 1 + 1] == stored[n]);
        lemma_insert_step(
            affinity,
            conflict,
            stored[n - 1],
            statement,
            changed[n - 1],
            stored[n],
            into,
            rows,
            r,
        );
        assert forall|i: int, table: BackupTable, q: int|
            from <= i < n && #[trigger] puts_back(
                statements[i],
                table,
                rows(table),
                q,
            ) implies holds_row(stored[n], table, rows(table)[q]) by {
            if i == n - 1 {
                lemma_replace_texts_differ(table, into);
                assert(rows(table)[q] == rows(into)[r]);
            } else {
                assert(holds_row(stored[n - 1], table, rows(table)[q]));
            }
        }
    }
}

/// All data that were taken out are stored again where they are put in by overwriting. Whatever
/// was stored before, when the statements have been run each of the tables holds every row that
/// was taken out of it, with all its values, and no other; and every row that was put in counts as
/// changed.
pub proof fn law_overwrite_restores_every_table(
    plan: ImportPlan,
    data: BackupData,
    source_mode: String,
    scope: String,
    sources: spec_fn(BackupTable) -> Table,
    rows: spec_fn(BackupTable) -> Seq<Seq<SqlView>>,
    affinity: Affinity,
    conflict: Conflict,
    stored: Seq<StoredRows>,
    changed: Seq<u64>,
)
    requires
        plan.prepared(data, true, source_mode, scope),
        all_taken_out(sources, rows, data),
        forall|table: BackupTable| #[trigger] storable(affinity, conflict, table, rows(table)),
        overwrites(
            affinity,
            conflict,
            stored,
            remaining(ImportBackup::Beginning { plan }),
            changed,
        ),
    ensures
        forall|table: BackupTable| #[trigger] holds_only(stored.last(), table, rows(table)),
        forall|table: BackupTable, r: int|
            0 <= r < rows(table).len() ==> #[trigger] holds_row(
                stored.last(),
                table,
                rows(table)[r],
            ),
        forall|i: int| clear_statements().len() <= i < changed.len() ==> #[trigger] changed[i] == 1,
{
    let statements = remaining(ImportBackup::Beginning { plan });
    let tables = plan.tables@;
    let cleared = clear_statements().len() as int;
    assert(statements == clear_statements() + script(tables));
    assert(clear_statements().is_prefix_of(statements));
    assert(all_prepared(tables, data, true)) by {
        assert forall|t: int| 0 <= t < tables.len() implies (#[trigger] tables[t]).prepared(
            tables[t].table,
            rows_for(data, tables[t].table),
            true,
        ) by {
            assert(t == 0 || t == 1 || t == 2 || t == 3 || t == 4 || t == 5 || t == 6);
        }
    }
    assert forall|table: BackupTable| #[trigger] is_bare(stored[cleared], table) by {
        let c: int = match table {
            BackupTable::ConfigPushes => 0,
            BackupTable::Events => 1,
            BackupTable::Devices => 2,
            BackupTable::Groups => 3,
            BackupTable::Rooms => 4,
            BackupTable::Users => 6,
            BackupTable::SystemConfig => 7,
        };
        assert(clear_statements()[c] == clear_table(table.title()));
        lemma_cleared(affinity, conflict, stored, statements, changed, table, c, cleared);
    }
    assert forall|i: int| cleared <= i < statements.len() implies puts_some_back(
        #[trigger] statements[i],
        rows,
    ) by {
        assert(statements[i] == script(tables)[i - cleared]);
        lemma_script_puts_back(tables, data, sources, rows, i - cleared);
    }
    lemma_inserted(
        affinity,
        conflict,
        stored,
        statements,
        changed,
        rows,
        cleared,
        statements.len() as int,
    );
    assert forall|table: BackupTable, r: int|
        0 <= r < rows(table).len() implies #[trigger] holds_row(
        stored.last(),
        table,
        rows(table)[r],
    ) by {
        let t = place_of(table);
        assert(tables[t].table == table);
        let i = lemma_every_row_is_put_back(tables, data, sources, rows, t, r);
        assert(statements[cleared + i] == script(tables)[i]);
        assert(puts_back(statements[cleared + i], table, rows(table), r));
    }
}

/// What the report of an import will say of each table, as far as it is fixed from the start: its
/// name, and how many rows it has.
pub open spec fn outline(
    reports: Seq<BackupImportTableReport>,
    tables: Seq<TableImport>,
) -> Seq<(Seq<char>, u64)> {
    reports.map_values(|r: BackupImportTableReport| (r.table@, r.attempted)) + tables.map_values(
        |t: TableImport| (t.table.title(), t.attempted),
    )
}

/// The outline of a state of an import.
pub open spec fn outline_of(state: ImportBackup) -> Seq<(Seq<char>, u64)> {
    match state {
        ImportBackup::Beginning { plan } => outline(plan.reports@, plan.tables@),
        ImportBackup::Clearing { plan, .. } => outline(plan.reports@, plan.tables@),
        ImportBackup::Inserting { plan } => outline(plan.reports@, plan.tables@),
        ImportBackup::Committing { report } => outline(report.tables@, Seq::empty()),
    }
}

/// Whether no row was skipped so far.
pub open spec fn none_skipped(
    reports: Seq<BackupImportTableReport>,
    tables: Seq<TableImport>,
) -> bool {
    &&& forall|i: int| 0 <= i < reports.len() ==> (#[trigger] reports[i]).skipped == 0
    &&& forall|i: int| 0 <= i < tables.len() ==> (#[trigger] tables[i]).skipped == 0
}

/// Whether no row was skipped in a state of an import.
pub open spec fn none_skipped_in(state: ImportBackup) -> bool {
    match state {
        ImportBackup::Beginning { plan } => none_skipped(plan.reports@, plan.tables@),
        ImportBackup::Clearing { plan, .. } => none_skipped(plan.reports@, plan.tables@),
        ImportBackup::Inserting { plan } => none_skipped(plan.reports@, plan.tables@),
        ImportBackup::Committing { report } => none_skipped(report.tables@, Seq::empty()),
    }
}

proof fn lemma_stores_keep(
    plan: ImportPlan,
    tables: Seq<TableImport>,
    reports: Seq<BackupImportTableReport>,
    step: Step<ImportBackup, ImportOutcome>,
)
    requires
        ImportBackup::stores(plan, tables, reports, step),
    ensures
        step is Ask,
        outline_of(step->Ask_0) == outline(reports, tables),
        none_skipped(reports, tables) ==> none_skipped_in(step->Ask_0),
    decreases tables.len(),
{
    if tables.len() == 0 {
        assert(outline(reports, tables) =~= outline(reports, Seq::empty()));
    } else if tables[0].pending@.len() == 0 {
        let report = choose|report: BackupImportTableReport| #[trigger]
            tables[0].reported(report) && ImportBackup::stores(
                plan,
                tables.drop_first(),
                reports.push(report),
                step,
            );
        lemma_stores_keep(plan, tables.drop_first(), reports.push(report), step);
        assert(outline(reports.push(report), tables.drop_first()) =~= outline(reports, tables));
        if none_skipped(reports, tables) {
            assert(tables[0].skipped == 0);
            assert forall|i: int| 0 <= i < tables.drop_first().len() implies (
            #[trigger] tables.drop_first()[i]).skipped == 0 by {
                assert(tables[i + 1].skipped == 0);
            }
        }
    } else {
        let next = step->Ask_0->Inserting_plan;
        assert forall|i: int| 0 <= i < tables.len() implies (#[trigger] next.tables@[i]).table
            == tables[i].table && next.tables@[i].attempted == tables[i].attempted
            && next.tables@[i].skipped == tables[i].skipped by {
            if i > 0 {
                assert(next.tables@.drop_first()[i - 1] == tables.drop_first()[i - 1]);
            }
        }
        assert(outline(next.reports@, next.tables@) =~= outline(reports, tables));
    }
}

proof fn lemma_step_keeps(
    state: ImportBackup,
    reply: Reply,
    step: Step<ImportBackup, ImportOutcome>,
)
    requires
        state.wf(),
        state.resumed(reply, step),
    ensures
        step matches Step::Ask(next, _) ==> outline_of(next) == outline_of(state),
        step matches Step::Ask(next, _) ==> (none_skipped_in(state) && !(state is Inserting
            && flow::affected_of(reply) == Some(0u64)) ==> none_skipped_in(next)),
        step matches Step::Done(Ok(report)) ==> state == (ImportBackup::Committing { report }),
{
    match state {
        ImportBackup::Beginning { plan } => {
            if reply is Finished && !plan.overwrite {
                lemma_stores_keep(plan, plan.tables@, plan.reports@, step);
            }
        },
        ImportBackup::Clearing { plan, rest } => {
            if flow::affected_of(reply) is Some && views(rest@).len() == 0 {
                lemma_stores_keep(plan, plan.tables@, plan.reports@, step);
            }
        },
        ImportBackup::Inserting { plan } => {
            if let Some(n) = flow::affected_of(reply) {
                let counted = plan.tables@.update(0, plan.tables@[0].counted(n));
                lemma_stores_keep(plan, counted, plan.reports@, step);
                assert(outline(plan.reports@, counted) =~= outline(plan.reports@, plan.tables@));
                if none_skipped(plan.reports@, plan.tables@) && n > 0 {
                    assert forall|i: int| 0 <= i < counted.len() implies (
                    #[trigger] counted[i]).skipped == 0 by {
                        assert(plan.tables@[i].skipped == 0);
                    }
                }
            }
        },
        ImportBackup::Committing { .. } => {},
    }
}

/// Whether a state of an import follows another with a reply.
pub open spec fn passes(state: ImportBackup, reply: Reply, next: ImportBackup) -> bool {
    exists|step: Step<ImportBackup, ImportOutcome>| #[trigger]
        state.resumed(reply, step) && step is Ask && step->Ask_0 == next
}

/// Whether an import runs through states with replies and ends with an outcome.
pub open spec fn runs_through(
    states: Seq<ImportBackup>,
    replies: Seq<Reply>,
    outcome: ImportOutcome,
) -> bool {
    &&& states.len() > 0
    &&& replies.len() == states.len()
    &&& forall|i: int| 0 <= i < states.len() ==> (#[trigger] states[i]).wf()
    &&& forall|i: int|
        0 <= i < states.len() - 1 ==> passes(#[trigger] states[i], replies[i], states[i + 1])
    &&& states.last().resumed(replies.last(), Step::Done(outcome))
}

proof fn lemma_run_keeps(
    states: Seq<ImportBackup>,
    replies: Seq<Reply>,
    outcome: ImportOutcome,
    n: int,
)
    requires
        runs_through(states, replies, outcome),
        0 <= n < states.len(),
    ensures
        outline_of(states[n]) == outline_of(states[0]),
        none_skipped_in(states[0]) && (forall|i: int|
            0 <= i < n && (#[trigger] states[i]) is Inserting ==> flow::affected_of(replies[i])
                != Some(0u64)) ==> none_skipped_in(states[n]),
    decreases n,
{
    if n > 0 {
        lemma_run_keeps(states, replies, outcome, n - 1);
        assert(passes(states[n - 1], replies[n - 1], states[n - 1 + 1]));
        assert(states[n - 1].wf());
        let step = choose|step: Step<ImportBackup, ImportOutcome>| #[trigger]
            states[n - 1].resumed(replies[n - 1], step) && step is Ask && step->Ask_0 == states[n];
        lemma_step_keeps(states[n - 1], replies[n - 1], step);
    }
}

/// An import that ends well reports the tables of a backup, all of them and in their order: of
/// each its name and how many rows the backup has for it. Where every row of the backup is an
/// object, everything is replaced and every insert changes a row, no row of any table is skipped.
pub proof fn law_report_names_every_table_in_order(
    plan: ImportPlan,
    data: BackupData,
    overwrite: bool,
    source_mode: String,
    scope: String,
    states: Seq<ImportBackup>,
    replies: Seq<Reply>,
    report: BackupImportReport,
)
    requires
        plan.prepared(data, overwrite, source_mode, scope),
        runs_through(states, replies, Ok(report)),
        states[0] == (ImportBackup::Beginning { plan }),
    ensures
        report.tables@.len() == backup_tables().len(),
        forall|t: int|
            0 <= t < backup_tables().len() ==> (#[trigger] report.tables@[t]).table@
                == backup_tables()[t].title() && report.tables@[t].attempted == rows_for(
                data,
                backup_tables()[t],
            ).len(),
        overwrite && (forall|table: BackupTable, r: int|
            0 <= r < rows_for(data, table).len() ==> (#[trigger] rows_for(data, table)[r])
                is Object) && (forall|i: int|
            0 <= i < states.len() && (#[trigger] states[i]) is Inserting ==> flow::affected_of(
                replies[i],
            ) != Some(0u64)) ==> forall|t: int|
            0 <= t < report.tables@.len() ==> (#[trigger] report.tables@[t]).skipped == 0
                && report.tables@[t].imported == report.tables@[t].attempted,
{
    let n = states.len() - 1;
    lemma_run_keeps(states, replies, Ok(report), n);
    assert(states[n].wf());
    lemma_step_keeps(states[n], replies[n], Step::Done(Ok(report)));
    let begun = outline(plan.reports@, plan.tables@);
    let ended = outline(report.tables@, Seq::empty());
    assert(ended == begun);
    assert(ended.len() == report.tables@.len());
    assert forall|t: int| 0 <= t < backup_tables().len() implies (#[trigger] report.tables@[t]).table@
        == backup_tables()[t].title() && report.tables@[t].attempted == rows_for(
        data,
        backup_tables()[t],
    ).len() by {
        assert(ended[t] == (report.tables@[t].table@, report.tables@[t].attempted));
        assert(begun[t] == (plan.tables@[t].table.title(), plan.tables@[t].attempted));
    }
    if overwrite && (forall|table: BackupTable, r: int|
        0 <= r < rows_for(data, table).len() ==> (#[trigger] rows_for(data, table)[r]) is Object)
        && (forall|i: int|
        0 <= i < states.len() && (#[trigger] states[i]) is Inserting ==> flow::affected_of(
            replies[i],
        ) != Some(0u64)) {
        assert forall|t: int| 0 <= t < plan.tables@.len() implies (
        #[trigger] plan.tables@[t]).skipped == 0 by {
            let table = backup_tables()[t];
            let rows = rows_for(data, table);
            assert(plan.tables@[t].prepared(table, rows, true));
            assert(views(plan.tables@[t].pending@).len() == plan.tables@[t].pending@.len());
            if rows.len() > 0 {
                lemma_every_row_has_its_statement(table, rows, 0);
            }
        }
        assert(none_skipped_in(states[0]));
        assert(none_skipped_in(states[n]));
    }
}

} // verus!
