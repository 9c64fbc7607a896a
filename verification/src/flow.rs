//! How an operation talks to the world around it.
//!
//! An operation never performs input or output itself. It asks for one call at a time and is
//! resumed with the reply: `Step::Ask` carries the call and the state to resume, `Step::Done` the
//! outcome. A reply that does not fit its call counts as a failed call.
use vstd::prelude::*;

use crate::auth::Claims;
use crate::crypto;
use crate::db;
use crate::json::JsonDocument;
use crate::models::{ServerMessage, VntClientConfig};
use crate::outside;
use crate::sql::{Query, QueryView, Row, SqlValue, Statement, StatementView};

verus! {

/// What a pushed configuration says.
#[derive(Debug)]
pub struct PushDocument {
    pub device_id: String,
    pub group_id: Option<String>,
    pub config_name: Option<String>,
    pub config_version: i64,
    pub config: VntClientConfig,
}

/// A reported event, for those who follow the stream of events.
#[derive(Debug)]
pub struct EventNotice {
    pub id: String,
    pub device_id: String,
    pub event_type: String,
    pub payload: JsonDocument,
    pub created_at: i64,
}

/// One call to the world.
#[derive(Debug)]
pub enum Call {
    /// Run a query; the reply is `Rows`.
    Fetch(Query),
    /// Run a statement and give all columns by name; the reply is `Table`.
    FetchTable(Statement),
    /// Run a statement; the reply is `Affected`.
    Execute(Statement),
    /// Begin a transaction, to which the following statements belong; the reply is `Finished`.
    /// A transaction that is not committed leaves no trace.
    Begin,
    /// Commit the transaction; the reply is `Finished`.
    Commit,
    /// Write a configuration as JSON; the reply is `Text`.
    EncodeConfig(VntClientConfig),
    /// Read a configuration from JSON; the reply is `Config`.
    DecodeConfig(String),
    /// Write a pushed configuration as JSON; the reply is `Text`.
    EncodePush(PushDocument),
    /// Write claims as JSON; the reply is `Text`.
    EncodeClaims(Claims),
    /// Send a message to a device, if it is connected; the reply is `Sent`.
    Send { device_id: String, message: ServerMessage },
    /// Forget the connection of a device; the reply is `Finished`.
    Unregister { device_id: String },
    /// Forget the connection of a device and send it a last message, if it was connected; the
    /// reply is `Finished`.
    Expel { device_id: String, message: ServerMessage },
    /// Tell those who follow the stream of events; the reply is `Finished`.
    Publish(EventNotice),
}

impl Call {
    /// Whether the call runs the query.
    pub open spec fn fetches(self, query: QueryView) -> bool {
        self matches Call::Fetch(q) && q@ == query
    }

    /// Whether the call gives the table that the statement selects.
    pub open spec fn fetches_table(self, statement: StatementView) -> bool {
        self matches Call::FetchTable(s) && s@ == statement
    }

    /// Whether the call runs the statement.
    pub open spec fn executes(self, statement: StatementView) -> bool {
        self matches Call::Execute(s) && s@ == statement
    }

    /// Whether the call can change what is stored or tell anyone anything.
    pub open spec fn acts(self) -> bool {
        match self {
            Call::Fetch(_) => false,
            Call::FetchTable(_) => false,
            Call::EncodeConfig(_) => false,
            Call::DecodeConfig(_) => false,
            Call::EncodePush(_) => false,
            Call::EncodeClaims(_) => false,
            _ => true,
        }
    }
}

/// The columns of a result by name, and its rows.
#[derive(Debug)]
pub struct Table {
    pub columns: Vec<String>,
    pub rows: Vec<Row>,
}

/// The reply to a call.
#[derive(Debug)]
pub enum Reply {
    Rows(Vec<Row>),
    Table(Table),
    /// The number of rows that a statement changed.
    Affected(u64),
    Finished,
    Text(String),
    Config(VntClientConfig),
    /// Whether the device was connected.
    Sent(bool),
    Failed,
}

/// What an operation does next.
#[derive(Debug)]
pub enum Step<S, T> {
    Ask(S, Call),
    Done(T),
}

/// The rows of a reply.
pub open spec fn rows_of(reply: Reply) -> Option<Seq<Row>> {
    match reply {
        Reply::Rows(rows) => Some(rows@),
        _ => None,
    }
}

/// The first row of a reply, if it has one.
pub open spec fn row_of(reply: Reply) -> Option<Option<Seq<SqlValue>>> {
    match reply {
        Reply::Rows(rows) => if rows@.len() > 0 {
            Some(Some(rows@[0]@))
        } else {
            Some(None)
        },
        _ => None,
    }
}

/// The one integer that a reply holds.
pub open spec fn count_of(reply: Reply) -> Option<i64> {
    match row_of(reply) {
        Some(Some(row)) => crate::sql::integer_cell(row, 0),
        _ => None,
    }
}

/// The number of changed rows in a reply.
pub open spec fn affected_of(reply: Reply) -> Option<u64> {
    match reply {
        Reply::Affected(n) => Some(n),
        _ => None,
    }
}

/// The text in a reply.
pub open spec fn text_of(reply: Reply) -> Option<String> {
    match reply {
        Reply::Text(t) => Some(t),
        _ => None,
    }
}

/// The configuration in a reply.
pub open spec fn config_of(reply: Reply) -> Option<VntClientConfig> {
    match reply {
        Reply::Config(c) => Some(c),
        _ => None,
    }
}

/// Takes the rows of a reply.
pub fn rows(reply: Reply) -> (rows: Option<Vec<Row>>)
    ensures
        match rows {
            Some(r) => reply == Reply::Rows(r),
            None => rows_of(reply) is None,
        },
{
    match reply {
        Reply::Rows(rows) => Some(rows),
        _ => None,
    }
}

/// Takes the first row of a reply.
pub fn first_row(reply: Reply) -> (row: Option<Option<Row>>)
    ensures
        match row {
            Some(Some(r)) => row_of(reply) == Some(Some(r@)),
            Some(None) => row_of(reply) == Some(None::<Seq<SqlValue>>),
            None => row_of(reply) is None,
        },
{
    match reply {
        Reply::Rows(rows) => {
            let mut rows = rows;
            if rows.len() > 0 {
                Some(Some(rows.swap_remove(0)))
            } else {
                Some(None)
            }
        },
        _ => None,
    }
}

/// Takes the one integer of a reply.
pub fn count(reply: Reply) -> (n: Option<i64>)
    ensures
        n == count_of(reply),
{
    match first_row(reply) {
        Some(Some(row)) => crate::sql::integer_at(&row, 0),
        _ => None,
    }
}

/// Takes the number of changed rows of a reply.
pub fn affected(reply: Reply) -> (n: Option<u64>)
    ensures
        n == affected_of(reply),
{
    match reply {
        Reply::Affected(n) => Some(n),
        _ => None,
    }
}

/// Takes the text of a reply.
pub fn text(reply: Reply) -> (t: Option<String>)
    ensures
        t == text_of(reply),
{
    match reply {
        Reply::Text(t) => Some(t),
        _ => None,
    }
}

/// Takes the configuration of a reply.
pub fn config(reply: Reply) -> (c: Option<VntClientConfig>)
    ensures
        c == config_of(reply),
{
    match reply {
        Reply::Config(c) => Some(c),
        _ => None,
    }
}

/// Tells whether a call without a result succeeded.
pub fn finished(reply: &Reply) -> (ok: bool)
    ensures
        ok == (reply is Finished),
{
    match reply {
        Reply::Finished => true,
        _ => false,
    }
}

/// What an operation takes from clock and chance when it is resumed.
#[derive(Debug)]
pub struct Fresh {
    /// Seconds since 1970.
    pub now: i64,
    /// A random UUID.
    pub id: String,
    /// A random secret for a device.
    pub secret: String,
    /// A random room identifier.
    pub room_id: String,
    pub nonce_token: [u8; 12],
    pub nonce_server: [u8; 12],
    pub nonce_password: [u8; 12],
    pub nonce_config: [u8; 12],
}

impl Fresh {
    /// Whether the values have the form of drawn ones.
    pub open spec fn wf(self) -> bool {
        &&& 0 <= self.now < outside::CLOCK_LIMIT
        &&& outside::is_uuid_v4(self.id@)
        &&& crypto::is_base64_of_length(self.secret@, 32)
        &&& crypto::is_room_id(self.room_id@)
    }

    /// Reads the clock and draws every value anew.
    pub fn draw() -> (fresh: Fresh)
        ensures
            fresh.wf(),
    {
        Fresh {
            now: db::now(),
            id: outside::uuid_v4(),
            secret: crypto::random_base64(32),
            room_id: crypto::room_id(),
            nonce_token: crypto::random_nonce(),
            nonce_server: crypto::random_nonce(),
            nonce_password: crypto::random_nonce(),
            nonce_config: crypto::random_nonce(),
        }
    }
}

} // verus!
