//! What holds of the operations as a whole.
//!
//! The laws speak of what goes into an operation and of what comes out: the cells of the rows that
//! were read, the texts and parameters of the statements that are run, the messages that are sent.
use vstd::prelude::*;

use crate::flow::{Call, Reply};
use crate::sql::{Column, QueryView, SqlValue, SqlView, StatementView};

pub mod account;
pub mod connection;
pub mod device_config;
pub mod devices;
pub mod export;
pub mod failures;
pub mod group_change;
pub mod groups;
pub mod import;
pub mod messages;
pub mod payload;
pub mod push;
pub mod records;
pub mod rooms;
pub mod storage;
pub mod text;
pub mod upkeep;

verus! {

/// Whether a call runs a statement, given by its text and its parameters.
pub open spec fn runs(call: Call, sql: Seq<char>, params: Seq<SqlView>) -> bool {
    &&& call is Execute
    &&& call->Execute_0.sql@ == sql
    &&& call->Execute_0.params@.map_values(|p: SqlValue| p@) =~= params
}

/// Whether a call runs a query, given by its text, its parameters and what its columns hold.
pub open spec fn reads(
    call: Call,
    sql: Seq<char>,
    params: Seq<SqlView>,
    columns: Seq<Column>,
) -> bool {
    &&& call is Fetch
    &&& call->Fetch_0.statement.sql@ == sql
    &&& call->Fetch_0.columns@ =~= columns
    &&& call->Fetch_0.statement.params@.map_values(|p: SqlValue| p@) =~= params
}

/// Whether a reply has a row, which comes first.
pub open spec fn gives(reply: Reply, row: Seq<SqlValue>) -> bool {
    reply is Rows && reply->Rows_0@.len() > 0 && reply->Rows_0@[0]@ == row
}

/// Whether a reply has no row.
pub open spec fn gives_none(reply: Reply) -> bool {
    reply is Rows && reply->Rows_0@.len() == 0
}

/// Whether a reply counts a number.
pub open spec fn counts(reply: Reply, n: int) -> bool {
    &&& reply is Rows
    &&& reply->Rows_0@.len() > 0
    &&& reply->Rows_0@[0]@.len() > 0
    &&& reply->Rows_0@[0]@[0] is Integer
    &&& reply->Rows_0@[0]@[0]->Integer_0 == n
}

/// A text that may be absent, as a database value.
pub open spec fn nullable(text: Option<String>) -> SqlView {
    match text {
        Some(t) => SqlView::Text(t@),
        None => SqlView::Null,
    }
}

/// Whether a statement has a text and parameters.
pub open spec fn is_statement(
    statement: StatementView,
    sql: Seq<char>,
    params: Seq<SqlView>,
) -> bool {
    statement.sql == sql && statement.params =~= params
}

/// Whether a query has a text, parameters and columns.
pub open spec fn is_query(
    query: QueryView,
    sql: Seq<char>,
    params: Seq<SqlView>,
    columns: Seq<Column>,
) -> bool {
    is_statement(query.statement, sql, params) && query.columns =~= columns
}

/// The text in a cell, or none where it is null.
pub open spec fn text_in(cell: SqlValue) -> Option<String> {
    match cell {
        SqlValue::Text(t) => Some(t),
        _ => None,
    }
}

/// The number in a cell, or none where it is null.
pub open spec fn number_in(cell: SqlValue) -> Option<i64> {
    match cell {
        SqlValue::Integer(n) => Some(n),
        _ => None,
    }
}

} // verus!
