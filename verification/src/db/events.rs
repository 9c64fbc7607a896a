//! Events that devices reported.
use vstd::prelude::*;
use vstd::string::*;

use crate::db::Database;
use crate::models::EventItem;
use crate::sql;
use crate::sql::{Column, Query, QueryView, Row, SqlValue, Statement, StatementView};

verus! {

/// Text of the query for the events of a device of one type.
pub const EVENTS_OF_DEVICE_AND_TYPE: &'static str =
    "SELECT id, device_id, event_type, payload, created_at FROM events WHERE device_id = ?1 AND event_type = ?2 ORDER BY created_at DESC LIMIT ?3";

/// Text of the query for the events of a device.
pub const EVENTS_OF_DEVICE: &'static str =
    "SELECT id, device_id, event_type, payload, created_at FROM events WHERE device_id = ?1 ORDER BY created_at DESC LIMIT ?2";

/// Text of the query for the events of one type.
pub const EVENTS_OF_TYPE: &'static str =
    "SELECT id, device_id, event_type, payload, created_at FROM events WHERE event_type = ?1 ORDER BY created_at DESC LIMIT ?2";

/// Text of the query for all events.
pub const ALL_EVENTS: &'static str =
    "SELECT id, device_id, event_type, payload, created_at FROM events ORDER BY created_at DESC LIMIT ?1";

/// Text of the query for an owner's events of a device of one type.
pub const OWNED_EVENTS_OF_DEVICE_AND_TYPE: &'static str =
    "SELECT e.id, e.device_id, e.event_type, e.payload, e.created_at FROM events e JOIN devices d ON e.device_id = d.id JOIN rooms r ON d.room_id = r.id WHERE r.owner_id = ?1 AND e.device_id = ?2 AND e.event_type = ?3 ORDER BY e.created_at DESC LIMIT ?4";

/// Text of the query for an owner's events of a device.
pub const OWNED_EVENTS_OF_DEVICE: &'static str =
    "SELECT e.id, e.device_id, e.event_type, e.payload, e.created_at FROM events e JOIN devices d ON e.device_id = d.id JOIN rooms r ON d.room_id = r.id WHERE r.owner_id = ?1 AND e.device_id = ?2 ORDER BY e.created_at DESC LIMIT ?3";

/// Text of the query for an owner's events of one type.
pub const OWNED_EVENTS_OF_TYPE: &'static str =
    "SELECT e.id, e.device_id, e.event_type, e.payload, e.created_at FROM events e JOIN devices d ON e.device_id = d.id JOIN rooms r ON d.room_id = r.id WHERE r.owner_id = ?1 AND e.event_type = ?2 ORDER BY e.created_at DESC LIMIT ?3";

/// Text of the query for all events of an owner.
pub const OWNED_EVENTS: &'static str =
    "SELECT e.id, e.device_id, e.event_type, e.payload, e.created_at FROM events e JOIN devices d ON e.device_id = d.id JOIN rooms r ON d.room_id = r.id WHERE r.owner_id = ?1 ORDER BY e.created_at DESC LIMIT ?2";

/// The columns of an event.
pub open spec fn event_columns(statement: StatementView) -> QueryView {
    sql::query(statement).column(Column::Text).column(Column::Text).column(Column::Text).column(
        Column::OptionalText,
    ).column(Column::Integer)
}

/// Lists the last events, of one device or of all, of one type or of any.
pub open spec fn select_events(
    device_id: Option<String>,
    event_type: Option<String>,
    limit: i64,
) -> QueryView {
    event_columns(
        match (device_id, event_type) {
            (Some(d), Some(t)) => sql::statement(EVENTS_OF_DEVICE_AND_TYPE@).text(d@).text(
                t@,
            ).integer(limit),
            (Some(d), None) => sql::statement(EVENTS_OF_DEVICE@).text(d@).integer(limit),
            (None, Some(t)) => sql::statement(EVENTS_OF_TYPE@).text(t@).integer(limit),
            (None, None) => sql::statement(ALL_EVENTS@).integer(limit),
        },
    )
}

/// Lists the last events in the rooms of an owner.
pub open spec fn select_owned_events(
    owner_id: Seq<char>,
    device_id: Option<String>,
    event_type: Option<String>,
    limit: i64,
) -> QueryView {
    event_columns(
        match (device_id, event_type) {
            (Some(d), Some(t)) => sql::statement(OWNED_EVENTS_OF_DEVICE_AND_TYPE@).text(
                owner_id,
            ).text(d@).text(t@).integer(limit),
            (Some(d), None) => sql::statement(OWNED_EVENTS_OF_DEVICE@).text(owner_id).text(
                d@,
            ).integer(limit),
            (None, Some(t)) => sql::statement(OWNED_EVENTS_OF_TYPE@).text(owner_id).text(
                t@,
            ).integer(limit),
            (None, None) => sql::statement(OWNED_EVENTS@).text(owner_id).integer(limit),
        },
    )
}

fn with_event_columns(statement: Statement) -> (q: Query)
    ensures
        q@ == event_columns(statement@),
{
    Query::new(statement).column(Column::Text).column(Column::Text).column(Column::Text).column(
        Column::OptionalText,
    ).column(Column::Integer)
}

/// The event in a row.
pub open spec fn event_row(row: Seq<SqlValue>) -> Option<EventItem> {
    match (
        sql::text_cell(row, 0),
        sql::text_cell(row, 1),
        sql::text_cell(row, 2),
        sql::optional_text_cell(row, 3),
        sql::integer_cell(row, 4),
    ) {
        (Some(id), Some(device_id), Some(event_type), Some(payload), Some(created_at)) => Some(
            EventItem { id, device_id, event_type, payload, created_at },
        ),
        _ => None,
    }
}

fn read_event(row: &Row) -> (event: Option<EventItem>)
    ensures
        event == event_row(row@),
{
    match (
        sql::text_at(row, 0),
        sql::text_at(row, 1),
        sql::text_at(row, 2),
        sql::optional_text_at(row, 3),
        sql::integer_at(row, 4),
    ) {
        (Some(id), Some(device_id), Some(event_type), Some(payload), Some(created_at)) => Some(
            EventItem { id, device_id, event_type, payload, created_at },
        ),
        _ => None,
    }
}

/// Whether events are what the rows of a result hold, in order.
pub open spec fn are_events(rows: Seq<Row>, events: Seq<EventItem>) -> bool {
    &&& events.len() == rows.len()
    &&& forall|i: int| 0 <= i < rows.len() ==> event_row(#[trigger] rows[i]@) == Some(events[i])
}

/// Reads the events of a result; `None` where a row is no event.
pub fn read_events(rows: &Vec<Row>) -> (events: Option<Vec<EventItem>>)
    ensures
        match events {
            Some(e) => are_events(rows@, e@),
            None => exists|i: int| 0 <= i < rows@.len() && event_row(#[trigger] rows@[i]@) is None,
        },
{
    let mut events: Vec<EventItem> = Vec::new();
    let mut i: usize = 0;
    while i < rows.len()
        invariant
            i <= rows@.len(),
            events@.len() == i,
            forall|j: int| 0 <= j < i ==> event_row(#[trigger] rows@[j]@) == Some(events@[j]),
        decreases rows@.len() - i,
    {
        match read_event(&rows[i]) {
            Some(event) => {
                events.push(event);
            },
            None => {
                assert(event_row(rows@[i as int]@) is None);
                return None;
            },
        }
        i = i + 1;
    }
    Some(events)
}

/// Text of the statement that stores an event.
pub const INSERT_EVENT: &'static str =
    "INSERT INTO events(id, device_id, event_type, payload, created_at) VALUES(?1, ?2, ?3, ?4, ?5)";

/// Stores an event.
pub open spec fn insert_event(
    id: Seq<char>,
    device_id: Seq<char>,
    event_type: Seq<char>,
    payload: Seq<char>,
    now: i64,
) -> StatementView {
    sql::statement(INSERT_EVENT@).text(id).text(device_id).text(event_type).text(payload).integer(
        now,
    )
}

impl Database {
    /// The query for the last events, of one device or of all, of one type or of any.
    pub fn list_events(&self, device_id: &Option<String>, event_type: &Option<String>, limit: i64)
        -> (q: Query)
        ensures
            q@ == select_events(*device_id, *event_type, limit),
    {
        match (device_id, event_type) {
            (Some(d), Some(t)) => with_event_columns(
                Statement::new(EVENTS_OF_DEVICE_AND_TYPE).text(d.as_str()).text(
                    t.as_str(),
                ).integer(limit),
            ),
            (Some(d), None) => with_event_columns(
                Statement::new(EVENTS_OF_DEVICE).text(d.as_str()).integer(limit),
            ),
            (None, Some(t)) => with_event_columns(
                Statement::new(EVENTS_OF_TYPE).text(t.as_str()).integer(limit),
            ),
            (None, None) => with_event_columns(Statement::new(ALL_EVENTS).integer(limit)),
        }
    }

    /// The query for the last events in the rooms of an owner.
    pub fn list_events_for_owner(
        &self,
        owner_id: &str,
        device_id: &Option<String>,
        event_type: &Option<String>,
        limit: i64,
    ) -> (q: Query)
        ensures
            q@ == select_owned_events(owner_id@, *device_id, *event_type, limit),
    {
        match (device_id, event_type) {
            (Some(d), Some(t)) => with_event_columns(
                Statement::new(OWNED_EVENTS_OF_DEVICE_AND_TYPE).text(owner_id).text(
                    d.as_str(),
                ).text(t.as_str()).integer(limit),
            ),
            (Some(d), None) => with_event_columns(
                Statement::new(OWNED_EVENTS_OF_DEVICE).text(owner_id).text(d.as_str()).integer(
                    limit,
                ),
            ),
            (None, Some(t)) => with_event_columns(
                Statement::new(OWNED_EVENTS_OF_TYPE).text(owner_id).text(t.as_str()).integer(
                    limit,
                ),
            ),
            (None, None) => with_event_columns(
                Statement::new(OWNED_EVENTS).text(owner_id).integer(limit),
            ),
        }
    }

    /// The statement that stores an event.
    pub fn insert_event(
        &self,
        id: &str,
        device_id: &str,
        event_type: &str,
        payload: &str,
        now: i64,
    ) -> (s: Statement)
        ensures
            s@ == insert_event(id@, device_id@, event_type@, payload@, now),
    {
        Statement::new(INSERT_EVENT).text(id).text(device_id).text(event_type).text(
            payload,
        ).integer(now)
    }
}

} // verus!
