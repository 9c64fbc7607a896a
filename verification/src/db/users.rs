//! Users.
use vstd::prelude::*;
use vstd::string::*;
use vstd::utf8::*;

use crate::auth;
use crate::db::{Database, DbError};
use crate::flow;
use crate::flow::{Call, Fresh, Reply, Step};
use crate::sql;
use crate::sql::{Column, Query, QueryView, Row, SqlValue, Statement, StatementView};

verus! {

/// A user as stored.
#[derive(Debug)]
pub struct UserRecord {
    pub id: String,
    pub password_hash: String,
    pub role: String,
}

/// Text of the query for a user.
pub const SELECT_USER: &'static str =
    "SELECT id, password, role FROM users WHERE username = ?1";

/// Finds a user by name.
pub open spec fn select_user(username: Seq<char>) -> QueryView {
    sql::query(sql::statement(SELECT_USER@).text(username)).column(Column::Text).column(
        Column::Text,
    ).column(Column::Text)
}

/// The user in a row of `select_user`.
pub open spec fn user_row(row: Seq<SqlValue>) -> Option<UserRecord> {
    match (sql::text_cell(row, 0), sql::text_cell(row, 1), sql::text_cell(row, 2)) {
        (Some(id), Some(password_hash), Some(role)) => Some(
            UserRecord { id, password_hash, role },
        ),
        _ => None,
    }
}

fn read_user(row: &Row) -> (user: Option<UserRecord>)
    ensures
        user == user_row(row@),
{
    match (sql::text_at(row, 0), sql::text_at(row, 1), sql::text_at(row, 2)) {
        (Some(id), Some(password_hash), Some(role)) => Some(
            UserRecord { id, password_hash, role },
        ),
        _ => None,
    }
}

/// The user in the reply to `select_user`, as far as there is one.
pub open spec fn user_of(reply: Reply) -> Result<Option<UserRecord>, DbError> {
    match flow::row_of(reply) {
        None => Err(DbError::Failed),
        Some(None) => Ok(None),
        Some(Some(row)) => match user_row(row) {
            Some(user) => Ok(Some(user)),
            None => Err(DbError::Failed),
        },
    }
}

/// Takes the user out of the reply to `select_user`.
pub fn found_user(reply: Reply) -> (user: Result<Option<UserRecord>, DbError>)
    ensures
        user == user_of(reply),
{
    match flow::first_row(reply) {
        None => Err(DbError::Failed),
        Some(None) => Ok(None),
        Some(Some(row)) => match read_user(&row) {
            Some(user) => Ok(Some(user)),
            None => Err(DbError::Failed),
        },
    }
}

/// Text of the query that counts the administrator.
pub const COUNT_ADMIN: &'static str = "SELECT COUNT(*) FROM users WHERE username = 'admin'";

/// Counts the users with the administrator's name.
pub open spec fn count_admin() -> QueryView {
    sql::query(sql::statement(COUNT_ADMIN@)).column(Column::Integer)
}

/// Text of the statement that stores the administrator.
pub const INSERT_ADMIN: &'static str =
    "INSERT INTO users(id, username, password, role, created_at) VALUES(?1, 'admin', ?2, 'admin', ?3)";

/// Stores the administrator.
pub open spec fn insert_admin(id: Seq<char>, hash: Seq<char>, now: i64) -> StatementView {
    sql::statement(INSERT_ADMIN@).text(id).text(hash).integer(now)
}

/// The administrator's password until it is changed.
pub const INITIAL_PASSWORD: &'static str = "admin";

/// What became of the search for the administrator.
#[derive(Clone, Copy, Debug, PartialEq, Eq, Structural)]
pub enum AdminOutcome {
    /// There was one.
    Present,
    /// One was created, with the initial password.
    Created,
}

/// The administrator being ensured.
#[derive(Debug)]
pub enum EnsureAdmin {
    /// The administrator is being looked up.
    Looking,
    /// The administrator is being stored.
    Inserting,
}

impl EnsureAdmin {
    /// The first step: the administrator is looked for.
    pub open spec fn started(step: Step<EnsureAdmin, Result<AdminOutcome, DbError>>) -> bool {
        step matches Step::Ask(EnsureAdmin::Looking, call) && call.fetches(count_admin())
    }

    /// How it goes on with a reply: where nobody has the administrator's name, one is stored
    /// with a hash of the initial password.
    pub open spec fn resumed(
        self,
        reply: Reply,
        fresh: Fresh,
        step: Step<EnsureAdmin, Result<AdminOutcome, DbError>>,
    ) -> bool {
        match self {
            EnsureAdmin::Looking => match flow::count_of(reply) {
                None => step == Step::<EnsureAdmin, Result<AdminOutcome, DbError>>::Done(
                    Err(DbError::Failed),
                ),
                Some(0) => {
                    &&& step matches Step::Ask(EnsureAdmin::Inserting, call)
                    &&& exists|hash: Seq<char>|
                        auth::accepts(hash, INITIAL_PASSWORD@) && call.executes(
                            #[trigger] insert_admin(fresh.id@, hash, fresh.now),
                        )
                },
                Some(_) => step == Step::<EnsureAdmin, Result<AdminOutcome, DbError>>::Done(
                    Ok(AdminOutcome::Present),
                ),
            },
            EnsureAdmin::Inserting => step == Step::<
                EnsureAdmin,
                Result<AdminOutcome, DbError>,
            >::Done(
                match flow::affected_of(reply) {
                    Some(_) => Ok(AdminOutcome::Created),
                    None => Err(DbError::Failed),
                },
            ),
        }
    }

    /// Takes the reply and goes on.
    pub fn resume(self, reply: Reply, fresh: Fresh) -> (step: Step<
        EnsureAdmin,
        Result<AdminOutcome, DbError>,
    >)
        ensures
            self.resumed(reply, fresh, step),
    {
        match self {
            EnsureAdmin::Looking => match flow::count(reply) {
                None => Step::Done(Err(DbError::Failed)),
                Some(n) => if n == 0 {
                    proof {
                        reveal_strlit("admin");
                        assert(is_ascii_chars(INITIAL_PASSWORD@));
                        is_ascii_chars_encode_utf8(INITIAL_PASSWORD@);
                    }
                    match auth::hash_password(INITIAL_PASSWORD) {
                        Ok(hash) => {
                            let statement = Statement::new(INSERT_ADMIN).text(
                                fresh.id.as_str(),
                            ).text(hash.as_str()).integer(fresh.now);
                            assert(statement@ == insert_admin(fresh.id@, hash@, fresh.now));
                            Step::Ask(EnsureAdmin::Inserting, Call::Execute(statement))
                        },
                        Err(_) => Step::Done(Err(DbError::Failed)),
                    }
                } else {
                    Step::Done(Ok(AdminOutcome::Present))
                },
            },
            EnsureAdmin::Inserting => match flow::affected(reply) {
                Some(_) => Step::Done(Ok(AdminOutcome::Created)),
                None => Step::Done(Err(DbError::Failed)),
            },
        }
    }
}

/// Text of the statement that stores a user.
pub const INSERT_USER: &'static str =
    "INSERT INTO users(id, username, password, role, created_at) VALUES(?1, ?2, ?3, 'user', ?4)";

/// Stores a user without special rights.
pub open spec fn insert_user(
    id: Seq<char>,
    username: Seq<char>,
    hash: Seq<char>,
    now: i64,
) -> StatementView {
    sql::statement(INSERT_USER@).text(id).text(username).text(hash).integer(now)
}

/// Text of the statement that changes a user's password.
pub const SET_PASSWORD: &'static str = "UPDATE users SET password = ?1 WHERE id = ?2";

/// Changes a user's password.
pub open spec fn set_password(hash: Seq<char>, user_id: Seq<char>) -> StatementView {
    sql::statement(SET_PASSWORD@).text(hash).text(user_id)
}

/// Text of the statement that deletes a user.
pub const DELETE_USER: &'static str = "DELETE FROM users WHERE id = ?1";

/// Deletes a user.
pub open spec fn remove_user(user_id: Seq<char>) -> StatementView {
    sql::statement(DELETE_USER@).text(user_id)
}

impl Database {
    /// The query for a user.
    pub fn find_user(&self, username: &str) -> (q: Query)
        ensures
            q@ == select_user(username@),
    {
        Query::new(Statement::new(SELECT_USER).text(username)).column(Column::Text).column(
            Column::Text,
        ).column(Column::Text)
    }

    /// Begins to ensure that there is an administrator.
    pub fn ensure_admin(&self) -> (step: Step<EnsureAdmin, Result<AdminOutcome, DbError>>)
        ensures
            EnsureAdmin::started(step),
    {
        let query = Query::new(Statement::new(COUNT_ADMIN)).column(Column::Integer);
        Step::Ask(EnsureAdmin::Looking, Call::Fetch(query))
    }

    /// The statement that stores a user.
    pub fn insert_user(&self, id: &str, username: &str, hash: &str, now: i64) -> (s: Statement)
        ensures
            s@ == insert_user(id@, username@, hash@, now),
    {
        Statement::new(INSERT_USER).text(id).text(username).text(hash).integer(now)
    }

    /// The statement that changes a user's password.
    pub fn set_password(&self, hash: &str, user_id: &str) -> (s: Statement)
        ensures
            s@ == set_password(hash@, user_id@),
    {
        Statement::new(SET_PASSWORD).text(hash).text(user_id)
    }

    /// The statement that deletes a user.
    pub fn delete_user(&self, user_id: &str) -> (s: Statement)
        ensures
            s@ == remove_user(user_id@),
    {
        Statement::new(DELETE_USER).text(user_id)
    }
}

} // verus!
