//! Database statements, the values bound to them and the rows that come back.
use vstd::prelude::*;

verus! {

/// A value in the database.
#[derive(Debug)]
pub enum SqlValue {
    Null,
    Integer(i64),
    Text(String),
}

/// A database value in specifications.
pub enum SqlView {
    Null,
    Integer(i64),
    Text(Seq<char>),
}

impl View for SqlValue {
    type V = SqlView;

    open spec fn view(&self) -> SqlView {
        match self {
            SqlValue::Null => SqlView::Null,
            SqlValue::Integer(n) => SqlView::Integer(*n),
            SqlValue::Text(t) => SqlView::Text(t@),
        }
    }
}

/// An optional text as a database value.
pub open spec fn text_or_null(text: Option<String>) -> SqlView {
    match text {
        Some(t) => SqlView::Text(t@),
        None => SqlView::Null,
    }
}

/// A statement with the values bound to its parameters.
#[derive(Debug)]
pub struct Statement {
    pub sql: String,
    pub params: Vec<SqlValue>,
}

/// A statement in specifications.
pub struct StatementView {
    pub sql: Seq<char>,
    pub params: Seq<SqlView>,
}

/// A statement to which nothing is bound yet.
pub open spec fn statement(sql: Seq<char>) -> StatementView {
    StatementView { sql, params: Seq::empty() }
}

impl StatementView {
    /// The statement with the next parameter bound.
    pub open spec fn bind(self, value: SqlView) -> StatementView {
        StatementView { sql: self.sql, params: self.params.push(value) }
    }

    /// The statement with a text bound next.
    pub open spec fn text(self, value: Seq<char>) -> StatementView {
        self.bind(SqlView::Text(value))
    }

    /// The statement with an integer bound next.
    pub open spec fn integer(self, value: i64) -> StatementView {
        self.bind(SqlView::Integer(value))
    }

    /// The statement with a text bound next, or null where there is none.
    pub open spec fn text_option(self, value: Option<String>) -> StatementView {
        self.bind(text_or_null(value))
    }
}

impl View for Statement {
    type V = StatementView;

    open spec fn view(&self) -> StatementView {
        StatementView { sql: self.sql@, params: self.params@.map_values(|p: SqlValue| p@) }
    }
}

impl Statement {
    /// A statement to which nothing is bound yet.
    pub fn new(sql: &str) -> (made: Statement)
        ensures
            made@ == statement(sql@),
    {
        let made = Statement { sql: sql.to_string(), params: Vec::new() };
        assert(made@.params =~= Seq::empty());
        made
    }

    /// Binds the next parameter.
    pub fn bind(self, value: SqlValue) -> (bound: Statement)
        ensures
            bound@ == self@.bind(value@),
    {
        let mut params = self.params;
        params.push(value);
        let bound = Statement { sql: self.sql, params };
        assert(bound@.params =~= self@.params.push(value@));
        bound
    }

    /// Binds a text.
    pub fn text(self, value: &str) -> (bound: Statement)
        ensures
            bound@ == self@.text(value@),
    {
        self.bind(SqlValue::Text(value.to_string()))
    }

    /// Binds an integer.
    pub fn integer(self, value: i64) -> (bound: Statement)
        ensures
            bound@ == self@.integer(value),
    {
        self.bind(SqlValue::Integer(value))
    }

    /// Binds a text, or null where there is none.
    pub fn text_option(self, value: &Option<String>) -> (bound: Statement)
        ensures
            bound@ == self@.text_option(*value),
    {
        match value {
            Some(t) => self.bind(SqlValue::Text(t.clone())),
            None => self.bind(SqlValue::Null),
        }
    }
}

/// What a column of a result holds.
#[derive(Clone, Copy, Debug, PartialEq, Eq, Structural)]
pub enum Column {
    Text,
    OptionalText,
    Integer,
    OptionalInteger,
}

/// A statement that gives rows, with what their columns hold.
#[derive(Debug)]
pub struct Query {
    pub statement: Statement,
    pub columns: Vec<Column>,
}

/// A query in specifications.
pub struct QueryView {
    pub statement: StatementView,
    pub columns: Seq<Column>,
}

impl View for Query {
    type V = QueryView;

    open spec fn view(&self) -> QueryView {
        QueryView { statement: self.statement@, columns: self.columns@ }
    }
}

/// A query of which no column is known yet.
pub open spec fn query(statement: StatementView) -> QueryView {
    QueryView { statement, columns: Seq::empty() }
}

impl QueryView {
    /// The query with one more column.
    pub open spec fn column(self, column: Column) -> QueryView {
        QueryView { statement: self.statement, columns: self.columns.push(column) }
    }
}

impl Query {
    /// A query of which no column is known yet.
    pub fn new(statement: Statement) -> (made: Query)
        ensures
            made@ == query(statement@),
    {
        Query { statement, columns: Vec::new() }
    }

    /// Adds a column.
    pub fn column(self, column: Column) -> (more: Query)
        ensures
            more@ == self@.column(column),
    {
        let mut columns = self.columns;
        columns.push(column);
        Query { statement: self.statement, columns }
    }
}

/// A row of a result.
pub type Row = Vec<SqlValue>;

/// The text in a column.
pub open spec fn text_cell(row: Seq<SqlValue>, i: int) -> Option<String> {
    if i < row.len() {
        match row[i] {
            SqlValue::Text(t) => Some(t),
            _ => None,
        }
    } else {
        None
    }
}

/// The text in a column that may be null.
pub open spec fn optional_text_cell(row: Seq<SqlValue>, i: int) -> Option<Option<String>> {
    if i < row.len() {
        match row[i] {
            SqlValue::Text(t) => Some(Some(t)),
            SqlValue::Null => Some(None),
            _ => None,
        }
    } else {
        None
    }
}

/// The integer in a column.
pub open spec fn integer_cell(row: Seq<SqlValue>, i: int) -> Option<i64> {
    if i < row.len() {
        match row[i] {
            SqlValue::Integer(n) => Some(n),
            _ => None,
        }
    } else {
        None
    }
}

/// The integer in a column that may be null.
pub open spec fn optional_integer_cell(row: Seq<SqlValue>, i: int) -> Option<Option<i64>> {
    if i < row.len() {
        match row[i] {
            SqlValue::Integer(n) => Some(Some(n)),
            SqlValue::Null => Some(None),
            _ => None,
        }
    } else {
        None
    }
}

/// Reads the text in a column.
pub fn text_at(row: &Row, i: usize) -> (cell: Option<String>)
    ensures
        cell == text_cell(row@, i as int),
{
    if i < row.len() {
        match &row[i] {
            SqlValue::Text(t) => Some(t.clone()),
            _ => None,
        }
    } else {
        None
    }
}

/// Reads the text in a column that may be null.
pub fn optional_text_at(row: &Row, i: usize) -> (cell: Option<Option<String>>)
    ensures
        cell == optional_text_cell(row@, i as int),
{
    if i < row.len() {
        match &row[i] {
            SqlValue::Text(t) => Some(Some(t.clone())),
            SqlValue::Null => Some(None),
            _ => None,
        }
    } else {
        None
    }
}

/// Reads the integer in a column.
pub fn integer_at(row: &Row, i: usize) -> (cell: Option<i64>)
    ensures
        cell == integer_cell(row@, i as int),
{
    if i < row.len() {
        match &row[i] {
            SqlValue::Integer(n) => Some(*n),
            _ => None,
        }
    } else {
        None
    }
}

/// Reads the integer in a column that may be null.
pub fn optional_integer_at(row: &Row, i: usize) -> (cell: Option<Option<i64>>)
    ensures
        cell == optional_integer_cell(row@, i as int),
{
    if i < row.len() {
        match &row[i] {
            SqlValue::Integer(n) => Some(Some(*n)),
            SqlValue::Null => Some(None),
            _ => None,
        }
    } else {
        None
    }
}

/// An unsigned number as the database stores it: in two's complement.
pub open spec fn stored_u64(n: u64) -> i64 {
    if n <= i64::MAX {
        n as i64
    } else {
        (n - 0x1_0000_0000_0000_0000) as i64
    }
}

/// Turns an unsigned number into the one that the database stores.
pub fn wrap_u64(n: u64) -> (stored: i64)
    ensures
        stored == stored_u64(n),
{
    assert(n > 0x7fff_ffff_ffff_ffffu64 ==> (n as i64) == n - 0x1_0000_0000_0000_0000int)
        by (bit_vector);
    n as i64
}

/// The low 32 bits of a stored number.
pub open spec fn low_u32(n: i64) -> u32 {
    (n as int % 0x1_0000_0000) as u32
}

/// Takes the low 32 bits of a stored number.
pub fn truncate_u32(n: i64) -> (low: u32)
    ensures
        low == low_u32(n),
{
    let unsigned: u64 = n as u64;
    assert(n < 0 ==> (n as u64) == n + 0x1_0000_0000_0000_0000int) by (bit_vector);
    assert((unsigned as u32) as int == unsigned % 0x1_0000_0000u64) by (bit_vector);
    unsigned as u32
}

} // verus!
