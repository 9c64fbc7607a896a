//! Creating, listing, changing and deleting groups, and moving devices between them.
use vstd::prelude::*;
use vstd::string::*;

use crate::crypto::CryptoError;
use crate::db::groups::{
    field_of, fits_all, is_restored, is_stripped, law_sealed_config_restored, open_extra,
    option_value, recoverable, restore_secrets, same_config, seal_config, sealed_view,
    strip_secrets, SealedConfig, SealedView,
};
use crate::db::transaction::{views, Transaction};
use crate::db::{Database, DbError};
use crate::flow;
use crate::flow::{Call, Fresh, Reply, Step};
use crate::models::{Group, UpdateGroupRequest, VntClientConfig};
use crate::sql;
use crate::sql::{Column, Query, QueryView, Row, SqlValue, SqlView, Statement, StatementView};

verus! {

/// Text of the statement that stores a group.
pub const INSERT_GROUP: &'static str =
    "INSERT INTO groups(id, room_id, name, encrypted_token, encrypted_server, encrypted_password, extra_config, config_version, created_at, updated_at) VALUES(?1, ?2, ?3, ?4, ?5, ?6, ?7, ?8, ?9, ?9)";

/// Stores a group.
pub open spec fn insert_group(
    id: Seq<char>,
    room_id: Seq<char>,
    name: Seq<char>,
    sealed: SealedView,
    version: i64,
    now: i64,
) -> StatementView {
    sql::statement(INSERT_GROUP@).text(id).text(room_id).text(name).text(sealed.token).text(
        sealed.server,
    ).bind(option_value(sealed.password)).text(sealed.extra).integer(version).integer(now)
}

fn insert_group_statement(
    id: &str,
    room_id: &str,
    name: &str,
    sealed: &SealedConfig,
    version: i64,
    now: i64,
) -> (statement: Statement)
    requires
        sealed.token is Some && sealed.server is Some && sealed.extra is Some,
    ensures
        statement@ == insert_group(id@, room_id@, name@, view_of(*sealed), version, now),
{
    Statement::new(INSERT_GROUP).text(id).text(room_id).text(name).text_option(
        &sealed.token,
    ).text_option(&sealed.server).text_option(&sealed.password).text_option(&sealed.extra).integer(version).integer(now)
}

/// An encrypted configuration of which only the password may be absent.
pub open spec fn view_of(sealed: SealedConfig) -> SealedView {
    SealedView {
        token: sealed.token->Some_0@,
        server: sealed.server->Some_0@,
        password: match sealed.password {
            Some(p) => Some(p@),
            None => None,
        },
        extra: sealed.extra->Some_0@,
    }
}

/// A group on its way into the database.
#[derive(Debug)]
pub enum CreateGroup {
    /// The configuration is being written as JSON.
    Encoding { room_id: String, name: String, config: VntClientConfig, version: i64 },
    /// The group is being stored.
    Inserting { group: Group },
}

impl CreateGroup {
    /// The first step: the configuration without its secrets is written as JSON.
    pub open spec fn started(
        room_id: String,
        name: String,
        config: VntClientConfig,
        version: i64,
        step: Step<CreateGroup, Result<Group, DbError>>,
    ) -> bool {
        &&& step matches Step::Ask(state, Call::EncodeConfig(stripped))
        &&& state == CreateGroup::Encoding { room_id, name, config, version }
        &&& is_stripped(config, stripped)
    }

    /// The following steps: every part is encrypted under a fresh identifier, so that it can be
    /// decrypted again, and the group is stored.
    pub open spec fn resumed(
        self,
        db: Database,
        reply: Reply,
        fresh: Fresh,
        step: Step<CreateGroup, Result<Group, DbError>>,
    ) -> bool {
        match self {
            CreateGroup::Encoding { room_id, name, config, version } => match flow::text_of(
                reply,
            ) {
                None => step == Step::<CreateGroup, Result<Group, DbError>>::Done(
                    Err(DbError::Failed),
                ),
                Some(json) => if !fits_all(config, json@) {
                    step == Step::<CreateGroup, Result<Group, DbError>>::Done(
                        Err(DbError::Crypto(CryptoError::EncryptFailed)),
                    )
                } else {
                    let sealed = sealed_view(db.master_key@, fresh.id@, config, json@, fresh);
                    &&& recoverable(db.master_key@, fresh.id@, config, json@, sealed)
                    &&& step matches Step::Ask(CreateGroup::Inserting { group }, call)
                    &&& group == Group {
                        id: fresh.id,
                        room_id,
                        name,
                        config_version: version,
                        created_at: fresh.now,
                        updated_at: fresh.now,
                        config: Some(config),
                    }
                    &&& call.executes(
                        insert_group(fresh.id@, room_id@, name@, sealed, version, fresh.now),
                    )
                },
            },
            CreateGroup::Inserting { group } => step == Step::<
                CreateGroup,
                Result<Group, DbError>,
            >::Done(
                match flow::affected_of(reply) {
                    Some(_) => Ok(group),
                    None => Err(DbError::Failed),
                },
            ),
        }
    }

    /// Takes the reply and goes on.
    pub fn resume(self, db: &Database, reply: Reply, fresh: Fresh) -> (step: Step<
        CreateGroup,
        Result<Group, DbError>,
    >)
        ensures
            self.resumed(*db, reply, fresh, step),
    {
        match self {
            CreateGroup::Encoding { room_id, name, config, version } => {
                let json = match flow::text(reply) {
                    Some(t) => t,
                    None => return Step::Done(Err(DbError::Failed)),
                };
                let sealed = match seal_config(
                    db.master_key.as_str(),
                    fresh.id.as_str(),
                    &config,
                    json.as_str(),
                    &fresh,
                ) {
                    Ok(s) => s,
                    Err(e) => return Step::Done(Err(DbError::Crypto(e))),
                };
                let statement = insert_group_statement(
                    fresh.id.as_str(),
                    room_id.as_str(),
                    name.as_str(),
                    &sealed,
                    version,
                    fresh.now,
                );
                let group = Group {
                    id: fresh.id,
                    room_id,
                    name,
                    config_version: version,
                    created_at: fresh.now,
                    updated_at: fresh.now,
                    config: Some(config),
                };
                Step::Ask(CreateGroup::Inserting { group }, Call::Execute(statement))
            },
            CreateGroup::Inserting { group } => match flow::affected(reply) {
                Some(_) => Step::Done(Ok(group)),
                None => Step::Done(Err(DbError::Failed)),
            },
        }
    }
}

/// A stored group as it is read for a change.
#[derive(Debug)]
pub struct FoundGroup {
    pub name: String,
    pub version: i64,
    pub created_at: i64,
    pub sealed: SealedConfig,
}

/// The encrypted configuration in four columns of a row.
pub open spec fn sealed_cells(row: Seq<SqlValue>, i: int) -> Option<SealedConfig> {
    match (
        sql::optional_text_cell(row, i),
        sql::optional_text_cell(row, i + 1),
        sql::optional_text_cell(row, i + 2),
        sql::optional_text_cell(row, i + 3),
    ) {
        (Some(token), Some(server), Some(password), Some(extra)) => Some(
            SealedConfig { token, server, password, extra },
        ),
        _ => None,
    }
}

/// Reads the encrypted configuration in four columns of a row.
pub fn sealed_at(row: &Row, i: usize) -> (sealed: Option<SealedConfig>)
    requires
        i + 3 <= usize::MAX,
    ensures
        sealed == sealed_cells(row@, i as int),
{
    match (
        sql::optional_text_at(row, i),
        sql::optional_text_at(row, i + 1),
        sql::optional_text_at(row, i + 2),
        sql::optional_text_at(row, i + 3),
    ) {
        (Some(token), Some(server), Some(password), Some(extra)) => Some(
            SealedConfig { token, server, password, extra },
        ),
        _ => None,
    }
}

/// The group in a row of `select_group`.
pub open spec fn found_group(row: Seq<SqlValue>) -> Option<FoundGroup> {
    match (
        sql::text_cell(row, 0),
        sql::integer_cell(row, 1),
        sql::integer_cell(row, 2),
        sealed_cells(row, 3),
    ) {
        (Some(name), Some(version), Some(created_at), Some(sealed)) => Some(
            FoundGroup { name, version, created_at, sealed },
        ),
        _ => None,
    }
}

fn read_found_group(row: &Row) -> (found: Option<FoundGroup>)
    ensures
        found == found_group(row@),
{
    match (
        sql::text_at(row, 0),
        sql::integer_at(row, 1),
        sql::integer_at(row, 2),
        sealed_at(row, 3),
    ) {
        (Some(name), Some(version), Some(created_at), Some(sealed)) => Some(
            FoundGroup { name, version, created_at, sealed },
        ),
        _ => None,
    }
}

/// Text of the query for a group of a room.
pub const SELECT_GROUP: &'static str =
    "SELECT name, config_version, created_at, encrypted_token, encrypted_server, encrypted_password, extra_config FROM groups WHERE id = ?1 AND room_id = ?2";

/// Finds a group of a room.
pub open spec fn select_group(group_id: Seq<char>, room_id: Seq<char>) -> QueryView {
    sql::query(
        sql::statement(SELECT_GROUP@).text(group_id).text(room_id),
    ).column(Column::Text).column(Column::Integer).column(Column::Integer).column(
        Column::OptionalText,
    ).column(Column::OptionalText).column(Column::OptionalText).column(Column::OptionalText)
}

fn select_group_query(group_id: &str, room_id: &str) -> (q: Query)
    ensures
        q@ == select_group(group_id@, room_id@),
{
    Query::new(
        Statement::new(SELECT_GROUP).text(group_id).text(room_id),
    ).column(Column::Text).column(Column::Integer).column(Column::Integer).column(
        Column::OptionalText,
    ).column(Column::OptionalText).column(Column::OptionalText).column(Column::OptionalText)
}

/// Text of the statement that changes a group.
pub const CHANGE_GROUP: &'static str =
    "UPDATE groups SET name = ?1, encrypted_token = COALESCE(?2, encrypted_token), encrypted_server = COALESCE(?3, encrypted_server), encrypted_password = ?4, extra_config = COALESCE(?5, extra_config), config_version = ?6, updated_at = ?7 WHERE id = ?8 AND room_id = ?9";

/// Changes a group. What is null for token, server and JSON document stays as it is.
pub open spec fn change_group(
    name: Seq<char>,
    token: SqlView,
    server: SqlView,
    password: SqlView,
    extra: SqlView,
    version: i64,
    now: i64,
    group_id: Seq<char>,
    room_id: Seq<char>,
) -> StatementView {
    sql::statement(CHANGE_GROUP@).text(name).bind(token).bind(server).bind(password).bind(
        extra,
    ).integer(version).integer(now).text(group_id).text(room_id)
}

fn change_group_statement(
    name: &str,
    sealed: &SealedConfig,
    version: i64,
    now: i64,
    group_id: &str,
    room_id: &str,
) -> (statement: Statement)
    ensures
        statement@ == change_group(
            name@,
            sql::text_or_null(sealed.token),
            sql::text_or_null(sealed.server),
            sql::text_or_null(sealed.password),
            sql::text_or_null(sealed.extra),
            version,
            now,
            group_id@,
            room_id@,
        ),
{
    Statement::new(CHANGE_GROUP).text(name).text_option(&sealed.token).text_option(
        &sealed.server,
    ).text_option(&sealed.password).text_option(&sealed.extra).integer(version).integer(now).text(group_id).text(room_id)
}

/// A change to a group, under way.
#[derive(Debug)]
pub enum UpdateGroup {
    /// The group is being looked up.
    Looking { room_id: String, group_id: String, request: UpdateGroupRequest },
    /// The JSON document of the stored configuration is being read.
    Decoding {
        room_id: String,
        group_id: String,
        request: UpdateGroupRequest,
        found: FoundGroup,
        version: i64,
    },
    /// The new configuration is being written as JSON.
    Encoding {
        room_id: String,
        group_id: String,
        name: String,
        version: i64,
        created_at: i64,
        config: VntClientConfig,
    },
    /// The change is being stored.
    Writing { group: Group },
}

impl UpdateGroup {
    /// The first step: the group is looked up in the room.
    pub open spec fn started(
        room_id: String,
        group_id: String,
        request: UpdateGroupRequest,
        step: Step<UpdateGroup, Result<Group, DbError>>,
    ) -> bool {
        &&& step matches Step::Ask(state, call)
        &&& state == (UpdateGroup::Looking { room_id, group_id, request })
        &&& call.fetches(select_group(group_id@, room_id@))
    }

    /// The step from the stored configuration on: a new configuration is written as JSON first;
    /// without one, name and version are stored and the encrypted fields stay.
    pub open spec fn prepared(
        room_id: String,
        group_id: String,
        request: UpdateGroupRequest,
        found: FoundGroup,
        version: i64,
        current: Option<VntClientConfig>,
        now: i64,
        step: Step<UpdateGroup, Result<Group, DbError>>,
    ) -> bool {
        let new_name = match request.name {
            Some(n) => n,
            None => found.name,
        };
        match request.config {
            Some(new_config) => {
                &&& step matches Step::Ask(state, Call::EncodeConfig(stripped))
                &&& state == UpdateGroup::Encoding {
                    room_id,
                    group_id,
                    name: new_name,
                    version,
                    created_at: found.created_at,
                    config: new_config,
                }
                &&& is_stripped(new_config, stripped)
            },
            None => {
                &&& step matches Step::Ask(UpdateGroup::Writing { group }, call)
                &&& group == Group {
                    id: group_id,
                    room_id,
                    name: new_name,
                    config_version: version,
                    created_at: found.created_at,
                    updated_at: now,
                    config: current,
                }
                &&& call.executes(
                    change_group(
                        new_name@,
                        SqlView::Null,
                        SqlView::Null,
                        sql::text_or_null(found.sealed.password),
                        SqlView::Null,
                        version,
                        now,
                        group_id@,
                        room_id@,
                    ),
                )
            },
        }
    }

    /// How a change goes on with a reply. The version grows by one with every change.
    pub open spec fn resumed(
        self,
        db: Database,
        reply: Reply,
        fresh: Fresh,
        step: Step<UpdateGroup, Result<Group, DbError>>,
    ) -> bool {
        match self {
            UpdateGroup::Looking { room_id, group_id, request } => match flow::row_of(reply) {
                None => step == Step::<UpdateGroup, Result<Group, DbError>>::Done(
                    Err(DbError::Failed),
                ),
                Some(None) => step == Step::<UpdateGroup, Result<Group, DbError>>::Done(
                    Err(DbError::GroupNotFound),
                ),
                Some(Some(row)) => match found_group(row) {
                    None => step == Step::<UpdateGroup, Result<Group, DbError>>::Done(
                        Err(DbError::Failed),
                    ),
                    Some(found) => if found.version == i64::MAX {
                        step == Step::<UpdateGroup, Result<Group, DbError>>::Done(
                            Err(DbError::VersionExhausted),
                        )
                    } else {
                        let next = (found.version + 1) as i64;
                        match field_of(
                            db.master_key@,
                            group_id@,
                            "config"@,
                            found.sealed.extra,
                        ) {
                            None => UpdateGroup::prepared(
                                room_id,
                                group_id,
                                request,
                                found,
                                next,
                                None,
                                fresh.now,
                                step,
                            ),
                            Some(Err(e)) => step == Step::<
                                UpdateGroup,
                                Result<Group, DbError>,
                            >::Done(Err(DbError::Crypto(e))),
                            Some(Ok(json)) => {
                                &&& step matches Step::Ask(state, Call::DecodeConfig(document))
                                &&& state == UpdateGroup::Decoding {
                                    room_id,
                                    group_id,
                                    request,
                                    found,
                                    version: next,
                                }
                                &&& document@ == json
                            },
                        }
                    },
                },
            },
            UpdateGroup::Decoding { room_id, group_id, request, found, version } =>
            match flow::config_of(reply) {
                None => step == Step::<UpdateGroup, Result<Group, DbError>>::Done(
                    Err(DbError::Failed),
                ),
                Some(plain) => exists|outcome: Result<VntClientConfig, CryptoError>|
                    #![trigger is_restored(db.master_key@, group_id@, plain, found.sealed, outcome)]
                    {
                        &&& is_restored(db.master_key@, group_id@, plain, found.sealed, outcome)
                        &&& match outcome {
                            Ok(current) => UpdateGroup::prepared(
                                room_id,
                                group_id,
                                request,
                                found,
                                version,
                                Some(current),
                                fresh.now,
                                step,
                            ),
                            Err(e) => step == Step::<
                                UpdateGroup,
                                Result<Group, DbError>,
                            >::Done(Err(DbError::Crypto(e))),
                        }
                    },
            },
            UpdateGroup::Encoding { room_id, group_id, name, version, created_at, config } =>
            match flow::text_of(reply) {
                None => step == Step::<UpdateGroup, Result<Group, DbError>>::Done(
                    Err(DbError::Failed),
                ),
                Some(json) => if !fits_all(config, json@) {
                    step == Step::<UpdateGroup, Result<Group, DbError>>::Done(
                        Err(DbError::Crypto(CryptoError::EncryptFailed)),
                    )
                } else {
                    let sealed = sealed_view(db.master_key@, group_id@, config, json@, fresh);
                    &&& recoverable(db.master_key@, group_id@, config, json@, sealed)
                    &&& step matches Step::Ask(UpdateGroup::Writing { group }, call)
                    &&& group == Group {
                        id: group_id,
                        room_id,
                        name,
                        config_version: version,
                        created_at,
                        updated_at: fresh.now,
                        config: Some(config),
                    }
                    &&& call.executes(
                        change_group(
                            name@,
                            SqlView::Text(sealed.token),
                            SqlView::Text(sealed.server),
                            option_value(sealed.password),
                            SqlView::Text(sealed.extra),
                            version,
                            fresh.now,
                            group_id@,
                            room_id@,
                        ),
                    )
                },
            },
            UpdateGroup::Writing { group } => step == Step::<
                UpdateGroup,
                Result<Group, DbError>,
            >::Done(
                match flow::affected_of(reply) {
                    Some(_) => Ok(group),
                    None => Err(DbError::Failed),
                },
            ),
        }
    }

    fn prepare(
        room_id: String,
        group_id: String,
        request: UpdateGroupRequest,
        found: FoundGroup,
        version: i64,
        current: Option<VntClientConfig>,
        now: i64,
    ) -> (step: Step<UpdateGroup, Result<Group, DbError>>)
        ensures
            UpdateGroup::prepared(
                room_id,
                group_id,
                request,
                found,
                version,
                current,
                now,
                step,
            ),
    {
        let name = match request.name {
            Some(n) => n,
            None => found.name,
        };
        let created_at = found.created_at;
        match request.config {
            Some(config) => {
                let stripped = strip_secrets(&config);
                Step::Ask(
                    UpdateGroup::Encoding { room_id, group_id, name, version, created_at, config },
                    Call::EncodeConfig(stripped),
                )
            },
            None => {
                let kept = SealedConfig {
                    token: None,
                    server: None,
                    password: found.sealed.password,
                    extra: None,
                };
                let statement = change_group_statement(
                    name.as_str(),
                    &kept,
                    version,
                    now,
                    group_id.as_str(),
                    room_id.as_str(),
                );
                let group = Group {
                    id: group_id,
                    room_id,
                    name,
                    config_version: version,
                    created_at,
                    updated_at: now,
                    config: current,
                };
                Step::Ask(UpdateGroup::Writing { group }, Call::Execute(statement))
            },
        }
    }

    fn look(
        db: &Database,
        room_id: String,
        group_id: String,
        request: UpdateGroupRequest,
        reply: Reply,
        now: i64,
    ) -> (step: Step<UpdateGroup, Result<Group, DbError>>)
        ensures
            forall|fresh: Fresh|
                fresh.now == now ==> #[trigger] (UpdateGroup::Looking {
                    room_id,
                    group_id,
                    request,
                }).resumed(*db, reply, fresh, step),
    {
        let row = match flow::first_row(reply) {
            None => return Step::Done(Err(DbError::Failed)),
            Some(None) => return Step::Done(Err(DbError::GroupNotFound)),
            Some(Some(row)) => row,
        };
        let found = match read_found_group(&row) {
            Some(f) => f,
            None => return Step::Done(Err(DbError::Failed)),
        };
        if found.version == i64::MAX {
            return Step::Done(Err(DbError::VersionExhausted));
        }
        let version = found.version + 1;
        match open_extra(db.master_key.as_str(), group_id.as_str(), &found.sealed) {
            None => UpdateGroup::prepare(room_id, group_id, request, found, version, None, now),
            Some(Err(e)) => Step::Done(Err(DbError::Crypto(e))),
            Some(Ok(json)) => Step::Ask(
                UpdateGroup::Decoding { room_id, group_id, request, found, version },
                Call::DecodeConfig(json),
            ),
        }
    }

    /// Takes the reply and goes on.
    pub fn resume(self, db: &Database, reply: Reply, fresh: Fresh) -> (step: Step<
        UpdateGroup,
        Result<Group, DbError>,
    >)
        ensures
            self.resumed(*db, reply, fresh, step),
    {
        match self {
            UpdateGroup::Looking { room_id, group_id, request } => UpdateGroup::look(
                db,
                room_id,
                group_id,
                request,
                reply,
                fresh.now,
            ),
            UpdateGroup::Decoding { room_id, group_id, request, found, version } => {
                let plain = match flow::config(reply) {
                    Some(c) => c,
                    None => return Step::Done(Err(DbError::Failed)),
                };
                let outcome = restore_secrets(
                    db.master_key.as_str(),
                    group_id.as_str(),
                    plain,
                    &found.sealed,
                );
                assert(is_restored(db.master_key@, group_id@, plain, found.sealed, outcome));
                match outcome {
                    Ok(current) => UpdateGroup::prepare(
                        room_id,
                        group_id,
                        request,
                        found,
                        version,
                        Some(current),
                        fresh.now,
                    ),
                    Err(e) => Step::Done(Err(DbError::Crypto(e))),
                }
            },
            UpdateGroup::Encoding { room_id, group_id, name, version, created_at, config } => {
                let json = match flow::text(reply) {
                    Some(t) => t,
                    None => return Step::Done(Err(DbError::Failed)),
                };
                let sealed = match seal_config(
                    db.master_key.as_str(),
                    group_id.as_str(),
                    &config,
                    json.as_str(),
                    &fresh,
                ) {
                    Ok(s) => s,
                    Err(e) => return Step::Done(Err(DbError::Crypto(e))),
                };
                let statement = change_group_statement(
                    name.as_str(),
                    &sealed,
                    version,
                    fresh.now,
                    group_id.as_str(),
                    room_id.as_str(),
                );
                let group = Group {
                    id: group_id,
                    room_id,
                    name,
                    config_version: version,
                    created_at,
                    updated_at: fresh.now,
                    config: Some(config),
                };
                Step::Ask(UpdateGroup::Writing { group }, Call::Execute(statement))
            },
            UpdateGroup::Writing { group } => match flow::affected(reply) {
                Some(_) => Step::Done(Ok(group)),
                None => Step::Done(Err(DbError::Failed)),
            },
        }
    }
}

/// The version that a change gives the group, once it is known.
pub open spec fn target_version(state: UpdateGroup) -> Option<i64> {
    match state {
        UpdateGroup::Looking { .. } => None,
        UpdateGroup::Decoding { version, .. } => Some(version),
        UpdateGroup::Encoding { version, .. } => Some(version),
        UpdateGroup::Writing { group } => Some(group.config_version),
    }
}

/// Every change raises the version of a group by one: the version that a change ends with is one
/// more than the version that was found.
pub proof fn law_change_raises_version(
    state: UpdateGroup,
    db: Database,
    reply: Reply,
    fresh: Fresh,
    step: Step<UpdateGroup, Result<Group, DbError>>,
)
    requires
        state.resumed(db, reply, fresh, step),
    ensures
        step matches Step::Ask(next, _) ==> target_version(next) is Some && match target_version(
            state,
        ) {
            Some(version) => target_version(next) == Some(version),
            None => ({
                let found = found_group(flow::row_of(reply)->Some_0->Some_0);
                found is Some && target_version(next)->Some_0 == found->Some_0.version + 1
            }),
        },
        step matches Step::Done(Ok(group)) ==> target_version(state) == Some(group.config_version),
{
}

/// A stored group as it is listed.
#[derive(Debug)]
pub struct GroupRecord {
    pub id: String,
    pub room_id: String,
    pub name: String,
    pub config_version: i64,
    pub created_at: i64,
    pub updated_at: i64,
    pub sealed: SealedConfig,
}

impl GroupRecord {
    /// The group with the given configuration.
    pub open spec fn with_config(self, config: Option<VntClientConfig>) -> Group {
        Group {
            id: self.id,
            room_id: self.room_id,
            name: self.name,
            config_version: self.config_version,
            created_at: self.created_at,
            updated_at: self.updated_at,
            config,
        }
    }

    fn into_group(self, config: Option<VntClientConfig>) -> (group: Group)
        ensures
            group == self.with_config(config),
    {
        Group {
            id: self.id,
            room_id: self.room_id,
            name: self.name,
            config_version: self.config_version,
            created_at: self.created_at,
            updated_at: self.updated_at,
            config,
        }
    }
}

/// The group in a row of `select_groups`.
pub open spec fn group_record(row: Seq<SqlValue>) -> Option<GroupRecord> {
    match (
        sql::text_cell(row, 0),
        sql::text_cell(row, 1),
        sql::text_cell(row, 2),
        sql::integer_cell(row, 3),
        sql::integer_cell(row, 4),
        sql::integer_cell(row, 5),
        sealed_cells(row, 6),
    ) {
        (
            Some(id),
            Some(room_id),
            Some(name),
            Some(config_version),
            Some(created_at),
            Some(updated_at),
            Some(sealed),
        ) => Some(
            GroupRecord { id, room_id, name, config_version, created_at, updated_at, sealed },
        ),
        _ => None,
    }
}

fn read_group_record(row: &Row) -> (record: Option<GroupRecord>)
    ensures
        record == group_record(row@),
{
    match (
        sql::text_at(row, 0),
        sql::text_at(row, 1),
        sql::text_at(row, 2),
        sql::integer_at(row, 3),
        sql::integer_at(row, 4),
        sql::integer_at(row, 5),
        sealed_at(row, 6),
    ) {
        (
            Some(id),
            Some(room_id),
            Some(name),
            Some(config_version),
            Some(created_at),
            Some(updated_at),
            Some(sealed),
        ) => Some(
            GroupRecord { id, room_id, name, config_version, created_at, updated_at, sealed },
        ),
        _ => None,
    }
}

/// The groups in the rows of a result, where every row is one.
pub open spec fn group_records(rows: Seq<Row>) -> Option<Seq<GroupRecord>>
    decreases rows.len(),
{
    if rows.len() == 0 {
        Some(Seq::empty())
    } else {
        match (group_records(rows.drop_last()), group_record(rows.last()@)) {
            (Some(front), Some(record)) => Some(front.push(record)),
            _ => None,
        }
    }
}

proof fn lemma_group_records_fail(rows: Seq<Row>, n: int)
    requires
        0 <= n <= rows.len(),
        group_records(rows.take(n)) is None,
    ensures
        group_records(rows) is None,
    decreases rows.len() - n,
{
    if n == rows.len() {
        assert(rows.take(n) =~= rows);
    } else {
        assert(rows.take(n + 1).drop_last() =~= rows.take(n));
        lemma_group_records_fail(rows, n + 1);
    }
}

fn read_group_records(rows: &Vec<Row>) -> (records: Option<Vec<GroupRecord>>)
    ensures
        match records {
            Some(r) => group_records(rows@) == Some(r@),
            None => group_records(rows@) is None,
        },
{
    let mut records: Vec<GroupRecord> = Vec::new();
    let mut i: usize = 0;
    assert(rows@.take(0) =~= Seq::empty());
    while i < rows.len()
        invariant
            i <= rows@.len(),
            group_records(rows@.take(i as int)) == Some(records@),
        decreases rows@.len() - i,
    {
        assert(rows@.take(i + 1).drop_last() =~= rows@.take(i as int));
        match read_group_record(&rows[i]) {
            Some(record) => {
                records.push(record);
            },
            None => {
                proof {
                    lemma_group_records_fail(rows@, i + 1);
                }
                return None;
            },
        }
        i = i + 1;
    }
    assert(rows@.take(i as int) =~= rows@);
    Some(records)
}

/// Text of the query for the groups of a room.
pub const SELECT_GROUPS: &'static str =
    "SELECT id, room_id, name, config_version, created_at, updated_at, encrypted_token, encrypted_server, encrypted_password, extra_config FROM groups WHERE room_id = ?1 ORDER BY created_at DESC";

/// Lists the groups of a room, the youngest first.
pub open spec fn select_groups(room_id: Seq<char>) -> QueryView {
    sql::query(sql::statement(SELECT_GROUPS@).text(room_id)).column(Column::Text).column(
        Column::Text,
    ).column(Column::Text).column(Column::Integer).column(Column::Integer).column(
        Column::Integer,
    ).column(Column::OptionalText).column(Column::OptionalText).column(
        Column::OptionalText,
    ).column(Column::OptionalText)
}

/// Groups being listed.
#[derive(Debug)]
pub enum ListGroups {
    /// The rows are being fetched.
    Fetching,
    /// The JSON document of one group is being read.
    Decoding { done: Vec<Group>, record: GroupRecord, pending: Vec<GroupRecord> },
}

impl ListGroups {
    /// The first step: the groups of the room are fetched.
    pub open spec fn started(
        room_id: Seq<char>,
        step: Step<ListGroups, Result<Vec<Group>, DbError>>,
    ) -> bool {
        step matches Step::Ask(ListGroups::Fetching, call) && call.fetches(select_groups(room_id))
    }

    /// How the list goes on with the groups that are left: a group without a stored
    /// configuration is listed as it is, the document of the first that has one is read next.
    pub open spec fn advanced(
        master: Seq<char>,
        done: Seq<Group>,
        pending: Seq<GroupRecord>,
        step: Step<ListGroups, Result<Vec<Group>, DbError>>,
    ) -> bool
        decreases pending.len(),
    {
        if pending.len() == 0 {
            step matches Step::Done(Ok(groups)) && groups@ == done
        } else {
            let record = pending[0];
            match field_of(master, record.id@, "config"@, record.sealed.extra) {
                None => ListGroups::advanced(
                    master,
                    done.push(record.with_config(None)),
                    pending.drop_first(),
                    step,
                ),
                Some(Err(e)) => step == Step::<ListGroups, Result<Vec<Group>, DbError>>::Done(
                    Err(DbError::Crypto(e)),
                ),
                Some(Ok(json)) => {
                    &&& step matches Step::Ask(
                        ListGroups::Decoding { done: d, record: r, pending: p },
                        Call::DecodeConfig(document),
                    )
                    &&& d@ == done
                    &&& r == record
                    &&& p@ == pending.drop_first()
                    &&& document@ == json
                },
            }
        }
    }

    /// How the list goes on with a reply.
    pub open spec fn resumed(
        self,
        db: Database,
        reply: Reply,
        step: Step<ListGroups, Result<Vec<Group>, DbError>>,
    ) -> bool {
        match self {
            ListGroups::Fetching => match flow::rows_of(reply) {
                None => step == Step::<ListGroups, Result<Vec<Group>, DbError>>::Done(
                    Err(DbError::Failed),
                ),
                Some(rows) => match group_records(rows) {
                    None => step == Step::<ListGroups, Result<Vec<Group>, DbError>>::Done(
                        Err(DbError::Failed),
                    ),
                    Some(records) => ListGroups::advanced(
                        db.master_key@,
                        Seq::empty(),
                        records,
                        step,
                    ),
                },
            },
            ListGroups::Decoding { done, record, pending } => match flow::config_of(reply) {
                None => step == Step::<ListGroups, Result<Vec<Group>, DbError>>::Done(
                    Err(DbError::Failed),
                ),
                Some(plain) => exists|outcome: Result<VntClientConfig, CryptoError>|
                    #![trigger is_restored(db.master_key@, record.id@, plain, record.sealed, outcome)]
                    {
                        &&& is_restored(
                            db.master_key@,
                            record.id@,
                            plain,
                            record.sealed,
                            outcome,
                        )
                        &&& match outcome {
                            Ok(config) => ListGroups::advanced(
                                db.master_key@,
                                done@.push(record.with_config(Some(config))),
                                pending@,
                                step,
                            ),
                            Err(e) => step == Step::<
                                ListGroups,
                                Result<Vec<Group>, DbError>,
                            >::Done(Err(DbError::Crypto(e))),
                        }
                    },
            },
        }
    }

    fn advance(master: &str, done: Vec<Group>, pending: Vec<GroupRecord>) -> (step: Step<
        ListGroups,
        Result<Vec<Group>, DbError>,
    >)
        ensures
            ListGroups::advanced(master@, done@, pending@, step),
        decreases pending@.len(),
    {
        let mut done = done;
        let mut pending = pending;
        if pending.len() == 0 {
            return Step::Done(Ok(done));
        }
        let ghost all = pending@;
        let record = pending.remove(0);
        assert(pending@ =~= all.drop_first());
        match open_extra(master, record.id.as_str(), &record.sealed) {
            None => {
                done.push(record.into_group(None));
                ListGroups::advance(master, done, pending)
            },
            Some(Err(e)) => Step::Done(Err(DbError::Crypto(e))),
            Some(Ok(json)) => Step::Ask(
                ListGroups::Decoding { done, record, pending },
                Call::DecodeConfig(json),
            ),
        }
    }

    /// Takes the reply and goes on.
    pub fn resume(self, db: &Database, reply: Reply) -> (step: Step<
        ListGroups,
        Result<Vec<Group>, DbError>,
    >)
        ensures
            self.resumed(*db, reply, step),
    {
        match self {
            ListGroups::Fetching => {
                let rows = match flow::rows(reply) {
                    Some(r) => r,
                    None => return Step::Done(Err(DbError::Failed)),
                };
                match read_group_records(&rows) {
                    Some(records) => ListGroups::advance(
                        db.master_key.as_str(),
                        Vec::new(),
                        records,
                    ),
                    None => Step::Done(Err(DbError::Failed)),
                }
            },
            ListGroups::Decoding { done, record, pending } => {
                let plain = match flow::config(reply) {
                    Some(c) => c,
                    None => return Step::Done(Err(DbError::Failed)),
                };
                let outcome = restore_secrets(
                    db.master_key.as_str(),
                    record.id.as_str(),
                    plain,
                    &record.sealed,
                );
                assert(is_restored(db.master_key@, record.id@, plain, record.sealed, outcome));
                match outcome {
                    Ok(config) => {
                        let mut done = done;
                        done.push(record.into_group(Some(config)));
                        ListGroups::advance(db.master_key.as_str(), done, pending)
                    },
                    Err(e) => Step::Done(Err(DbError::Crypto(e))),
                }
            },
        }
    }
}

/// The identifiers of groups that are listed and of those that are left.
pub open spec fn listed_ids(done: Seq<Group>, pending: Seq<GroupRecord>) -> Seq<String> {
    done.map_values(|g: Group| g.id) + pending.map_values(|r: GroupRecord| r.id)
}

/// The identifiers of the groups that a list will hold, once they are known.
pub open spec fn planned_ids(state: ListGroups) -> Seq<String> {
    match state {
        ListGroups::Fetching => Seq::empty(),
        ListGroups::Decoding { done, record, pending } => listed_ids(
            done@,
            seq![record] + pending@,
        ),
    }
}

/// Whether a step keeps the identifiers of the groups that are to be listed.
pub open spec fn keeps_ids(
    ids: Seq<String>,
    step: Step<ListGroups, Result<Vec<Group>, DbError>>,
) -> bool {
    match step {
        Step::Ask(next, _) => planned_ids(next) == ids,
        Step::Done(Ok(groups)) => groups@.map_values(|g: Group| g.id) == ids,
        Step::Done(Err(_)) => true,
    }
}

proof fn lemma_advanced_keeps_ids(
    master: Seq<char>,
    done: Seq<Group>,
    pending: Seq<GroupRecord>,
    step: Step<ListGroups, Result<Vec<Group>, DbError>>,
)
    requires
        ListGroups::advanced(master, done, pending, step),
    ensures
        keeps_ids(listed_ids(done, pending), step),
    decreases pending.len(),
{
    if pending.len() == 0 {
        assert(listed_ids(done, pending) =~= done.map_values(|g: Group| g.id));
    } else {
        let record = pending[0];
        match field_of(master, record.id@, "config"@, record.sealed.extra) {
            None => {
                let more = done.push(record.with_config(None));
                lemma_advanced_keeps_ids(master, more, pending.drop_first(), step);
                assert(listed_ids(more, pending.drop_first()) =~= listed_ids(done, pending));
            },
            Some(Err(_)) => {},
            Some(Ok(_)) => {
                assert(seq![record] + pending.drop_first() =~= pending);
            },
        }
    }
}

/// Every group that was fetched is listed, in the order of the rows, and no other: the identifiers
/// of the groups that are listed and of those that are left stay the same from the rows to the
/// list.
pub proof fn law_every_group_is_listed(
    state: ListGroups,
    db: Database,
    reply: Reply,
    step: Step<ListGroups, Result<Vec<Group>, DbError>>,
)
    requires
        state.resumed(db, reply, step),
    ensures
        match state {
            ListGroups::Fetching => flow::rows_of(reply) is Some && group_records(
                flow::rows_of(reply)->Some_0,
            ) is Some ==> keeps_ids(
                group_records(flow::rows_of(reply)->Some_0)->Some_0.map_values(
                    |r: GroupRecord| r.id,
                ),
                step,
            ),
            ListGroups::Decoding { .. } => keeps_ids(planned_ids(state), step),
        },
{
    match state {
        ListGroups::Fetching => {
            if let Some(rows) = flow::rows_of(reply) {
                if let Some(records) = group_records(rows) {
                    lemma_advanced_keeps_ids(db.master_key@, Seq::empty(), records, step);
                    assert(listed_ids(Seq::empty(), records) =~= records.map_values(
                        |r: GroupRecord| r.id,
                    ));
                }
            }
        },
        ListGroups::Decoding { done, record, pending } => {
            if let Some(plain) = flow::config_of(reply) {
                let outcome = choose|outcome: Result<VntClientConfig, CryptoError>|
                    #![trigger is_restored(db.master_key@, record.id@, plain, record.sealed, outcome)]
                    {
                        &&& is_restored(
                            db.master_key@,
                            record.id@,
                            plain,
                            record.sealed,
                            outcome,
                        )
                        &&& match outcome {
                            Ok(config) => ListGroups::advanced(
                                db.master_key@,
                                done@.push(record.with_config(Some(config))),
                                pending@,
                                step,
                            ),
                            Err(e) => step == Step::<
                                ListGroups,
                                Result<Vec<Group>, DbError>,
                            >::Done(Err(DbError::Crypto(e))),
                        }
                    };
                if let Ok(config) = outcome {
                    let more = done@.push(record.with_config(Some(config)));
                    lemma_advanced_keeps_ids(db.master_key@, more, pending@, step);
                    assert(listed_ids(more, pending@) =~= planned_ids(state));
                }
            }
        },
    }
}

/// The columns of a stored group.
pub struct StoredGroup {
    pub id: SqlView,
    pub room_id: SqlView,
    pub name: SqlView,
    pub token: SqlView,
    pub server: SqlView,
    pub password: SqlView,
    pub extra: SqlView,
    pub version: SqlView,
    pub created_at: SqlView,
    pub updated_at: SqlView,
}

/// The first of two values that is not null.
pub open spec fn coalesced(first: SqlView, second: SqlView) -> SqlView {
    if first is Null {
        second
    } else {
        first
    }
}

impl StoredGroup {
    /// What `CHANGE_GROUP` makes of the group that its last two parameters name.
    pub open spec fn changed_by(self, params: Seq<SqlView>) -> StoredGroup {
        StoredGroup {
            name: params[0],
            token: coalesced(params[1], self.token),
            server: coalesced(params[2], self.server),
            password: params[3],
            extra: coalesced(params[4], self.extra),
            version: params[5],
            updated_at: params[6],
            ..self
        }
    }

    /// Whether a row of `select_group` is that of the group.
    pub open spec fn is_found_in(self, row: Seq<SqlValue>) -> bool {
        &&& row.len() == 7
        &&& row[0]@ == self.name
        &&& row[1]@ == self.version
        &&& row[2]@ == self.created_at
        &&& row[3]@ == self.token
        &&& row[4]@ == self.server
        &&& row[5]@ == self.password
        &&& row[6]@ == self.extra
    }

    /// Whether a row of `select_groups` is that of the group.
    pub open spec fn is_listed_in(self, row: Seq<SqlValue>) -> bool {
        &&& row.len() == 10
        &&& row[0]@ == self.id
        &&& row[1]@ == self.room_id
        &&& row[2]@ == self.name
        &&& row[3]@ == self.version
        &&& row[4]@ == self.created_at
        &&& row[5]@ == self.updated_at
        &&& row[6]@ == self.token
        &&& row[7]@ == self.server
        &&& row[8]@ == self.password
        &&& row[9]@ == self.extra
    }

    /// Whether the group is the one with the given identifier, of the given room.
    pub open spec fn is_group(self, group_id: String, room_id: String, created_at: i64) -> bool {
        &&& self.id == SqlView::Text(group_id@)
        &&& self.room_id == SqlView::Text(room_id@)
        &&& self.created_at == SqlView::Integer(created_at)
    }
}

/// Whether a listed group is the one that a change ended with, but for the configuration.
pub open spec fn lists_changed(record: GroupRecord, group: Group) -> bool {
    &&& record.id@ == group.id@
    &&& record.room_id@ == group.room_id@
    &&& record.name@ == group.name@
    &&& record.config_version == group.config_version
    &&& record.created_at == group.created_at
    &&& record.updated_at == group.updated_at
}

/// A list after a change shows the new configuration. The change that stores a configuration
/// ends with a group of that configuration; in the row that it leaves, the document that the list
/// reads is the one that the change wrote; and where that is read as what was written, the list
/// goes on with the group and its new configuration, the password gone where the new one has none.
pub proof fn law_list_shows_the_new_config(
    room_id: String,
    group_id: String,
    name: String,
    version: i64,
    created_at: i64,
    config: VntClientConfig,
    db: Database,
    reply: Reply,
    fresh: Fresh,
    change: Step<UpdateGroup, Result<Group, DbError>>,
    stored: StoredGroup,
    row: Row,
    plain: VntClientConfig,
    done: Vec<Group>,
    pending: Vec<GroupRecord>,
    list: Step<ListGroups, Result<Vec<Group>, DbError>>,
)
    requires
        (UpdateGroup::Encoding { room_id, group_id, name, version, created_at, config }).resumed(
            db,
            reply,
            fresh,
            change,
        ),
        change is Ask,
        stored.is_group(group_id, room_id, created_at),
        stored.changed_by(change->Ask_1->Execute_0@.params).is_listed_in(row@),
        group_record(row@) is Some,
        is_stripped(config, plain),
        (ListGroups::Decoding { done, record: group_record(row@)->Some_0, pending }).resumed(
            db,
            Reply::Config(plain),
            list,
        ),
    ensures
        change->Ask_1 is Execute,
        change->Ask_0 is Writing,
        lists_changed(group_record(row@)->Some_0, change->Ask_0->group),
        change->Ask_0->group.config == Some(config),
        field_of(
            db.master_key@,
            group_record(row@)->Some_0.id@,
            "config"@,
            group_record(row@)->Some_0.sealed.extra,
        ) == Some(Ok::<Seq<char>, CryptoError>(flow::text_of(reply)->Some_0@)),
        exists|shown: VntClientConfig| #[trigger]
            same_config(shown, config) && ListGroups::advanced(
                db.master_key@,
                done@.push(group_record(row@)->Some_0.with_config(Some(shown))),
                pending@,
                list,
            ),
{
    let record = group_record(row@)->Some_0;
    let json = flow::text_of(reply)->Some_0@;
    let outcome = choose|outcome: Result<VntClientConfig, CryptoError>|
        #![trigger is_restored(db.master_key@, record.id@, plain, record.sealed, outcome)]
        {
            &&& is_restored(db.master_key@, record.id@, plain, record.sealed, outcome)
            &&& match outcome {
                Ok(shown) => ListGroups::advanced(
                    db.master_key@,
                    done@.push(record.with_config(Some(shown))),
                    pending@,
                    list,
                ),
                Err(e) => list == Step::<ListGroups, Result<Vec<Group>, DbError>>::Done(
                    Err(DbError::Crypto(e)),
                ),
            }
        };
    law_sealed_config_restored(
        db.master_key@,
        group_id@,
        config,
        json,
        record.sealed,
        plain,
        outcome,
    );
    assert(same_config(outcome->Ok_0, config));
}

/// Whether two encrypted configurations hold the same texts.
spec fn same_sealed(a: SealedConfig, b: SealedConfig) -> bool {
    &&& sql::text_or_null(a.token) == sql::text_or_null(b.token)
    &&& sql::text_or_null(a.server) == sql::text_or_null(b.server)
    &&& sql::text_or_null(a.password) == sql::text_or_null(b.password)
    &&& sql::text_or_null(a.extra) == sql::text_or_null(b.extra)
}

proof fn lemma_same_sealed_same_config(
    master: Seq<char>,
    id: Seq<char>,
    plain: VntClientConfig,
    a: SealedConfig,
    b: SealedConfig,
    config: VntClientConfig,
    outcome: Result<VntClientConfig, CryptoError>,
)
    requires
        same_sealed(a, b),
        is_restored(master, id, plain, a, Ok(config)),
        is_restored(master, id, plain, b, outcome),
    ensures
        outcome is Ok,
        same_config(outcome->Ok_0, config),
        field_of(master, id, "config"@, a.extra) == field_of(master, id, "config"@, b.extra),
{
    assert(field_of(master, id, "token"@, a.token) == field_of(master, id, "token"@, b.token));
    assert(field_of(master, id, "server"@, a.server) == field_of(master, id, "server"@, b.server));
    assert(field_of(master, id, "password"@, a.password) == field_of(
        master,
        id,
        "password"@,
        b.password,
    ));
}

proof fn lemma_kept_fields(
    found_row: Row,
    row: Row,
    stored: StoredGroup,
    name: Seq<char>,
    version: i64,
    now: i64,
    group_id: String,
    room_id: String,
)
    requires
        stored.is_found_in(found_row@),
        found_group(found_row@) is Some,
        stored.is_group(group_id, room_id, found_group(found_row@)->Some_0.created_at),
        group_record(row@) is Some,
        stored.changed_by(
            change_group(
                name,
                SqlView::Null,
                SqlView::Null,
                sql::text_or_null(found_group(found_row@)->Some_0.sealed.password),
                SqlView::Null,
                version,
                now,
                group_id@,
                room_id@,
            ).params,
        ).is_listed_in(row@),
    ensures
        same_sealed(
            found_group(found_row@)->Some_0.sealed,
            group_record(row@)->Some_0.sealed,
        ),
        group_record(row@)->Some_0.id@ == group_id@,
        group_record(row@)->Some_0.room_id@ == room_id@,
        group_record(row@)->Some_0.name@ == name,
        group_record(row@)->Some_0.config_version == version,
        group_record(row@)->Some_0.created_at == found_group(found_row@)->Some_0.created_at,
        group_record(row@)->Some_0.updated_at == now,
{
    let found = found_group(found_row@)->Some_0;
    let record = group_record(row@)->Some_0;
    assert(sql::text_or_null(found.sealed.token) == found_row@[3]@);
    assert(sql::text_or_null(found.sealed.server) == found_row@[4]@);
    assert(sql::text_or_null(found.sealed.password) == found_row@[5]@);
    assert(sql::text_or_null(found.sealed.extra) == found_row@[6]@);
    assert(sql::text_or_null(record.sealed.token) == row@[6]@);
    assert(sql::text_or_null(record.sealed.server) == row@[7]@);
    assert(sql::text_or_null(record.sealed.password) == row@[8]@);
    assert(sql::text_or_null(record.sealed.extra) == row@[9]@);
}

/// A list after a change without a configuration shows the one that was there: the change ends
/// with a group of the stored configuration; the row that it leaves has the same encrypted fields;
/// and where the document is read as it was read for the change, the list goes on with the group
/// and its old configuration.
pub proof fn law_list_shows_the_kept_config(
    room_id: String,
    group_id: String,
    request: UpdateGroupRequest,
    found: FoundGroup,
    version: i64,
    db: Database,
    plain: VntClientConfig,
    fresh: Fresh,
    change: Step<UpdateGroup, Result<Group, DbError>>,
    stored: StoredGroup,
    found_row: Row,
    row: Row,
    done: Vec<Group>,
    pending: Vec<GroupRecord>,
    list: Step<ListGroups, Result<Vec<Group>, DbError>>,
)
    requires
        request.config is None,
        stored.is_found_in(found_row@),
        found_group(found_row@) == Some(found),
        (UpdateGroup::Decoding { room_id, group_id, request, found, version }).resumed(
            db,
            Reply::Config(plain),
            fresh,
            change,
        ),
        change is Ask,
        stored.is_group(group_id, room_id, found.created_at),
        stored.changed_by(change->Ask_1->Execute_0@.params).is_listed_in(row@),
        group_record(row@) is Some,
        (ListGroups::Decoding { done, record: group_record(row@)->Some_0, pending }).resumed(
            db,
            Reply::Config(plain),
            list,
        ),
    ensures
        change->Ask_1 is Execute,
        change->Ask_0 is Writing,
        lists_changed(group_record(row@)->Some_0, change->Ask_0->group),
        change->Ask_0->group.config is Some,
        field_of(
            db.master_key@,
            group_record(row@)->Some_0.id@,
            "config"@,
            group_record(row@)->Some_0.sealed.extra,
        ) == field_of(db.master_key@, group_id@, "config"@, found.sealed.extra),
        exists|shown: VntClientConfig| #[trigger]
            same_config(shown, change->Ask_0->group.config->Some_0) && ListGroups::advanced(
                db.master_key@,
                done@.push(group_record(row@)->Some_0.with_config(Some(shown))),
                pending@,
                list,
            ),
{
    let record = group_record(row@)->Some_0;
    let outcome = choose|outcome: Result<VntClientConfig, CryptoError>|
        #![trigger is_restored(db.master_key@, record.id@, plain, record.sealed, outcome)]
        {
            &&& is_restored(db.master_key@, record.id@, plain, record.sealed, outcome)
            &&& match outcome {
                Ok(shown) => ListGroups::advanced(
                    db.master_key@,
                    done@.push(record.with_config(Some(shown))),
                    pending@,
                    list,
                ),
                Err(e) => list == Step::<ListGroups, Result<Vec<Group>, DbError>>::Done(
                    Err(DbError::Crypto(e)),
                ),
            }
        };
    let current = choose|current: Result<VntClientConfig, CryptoError>|
        #![trigger is_restored(db.master_key@, group_id@, plain, found.sealed, current)]
        {
            &&& is_restored(db.master_key@, group_id@, plain, found.sealed, current)
            &&& match current {
                Ok(kept) => UpdateGroup::prepared(
                    room_id,
                    group_id,
                    request,
                    found,
                    version,
                    Some(kept),
                    fresh.now,
                    change,
                ),
                Err(e) => change == Step::<UpdateGroup, Result<Group, DbError>>::Done(
                    Err(DbError::Crypto(e)),
                ),
            }
        };
    let kept = current->Ok_0;
    let group = change->Ask_0->group;
    assert(group.config == Some(kept));
    lemma_kept_fields(
        found_row,
        row,
        stored,
        group.name@,
        version,
        fresh.now,
        group_id,
        room_id,
    );
    lemma_same_sealed_same_config(
        db.master_key@,
        group_id@,
        plain,
        found.sealed,
        record.sealed,
        kept,
        outcome,
    );
    assert(same_config(outcome->Ok_0, kept));
}

/// Text of the query that counts a group of a room.
pub const COUNT_GROUP: &'static str =
    "SELECT COUNT(*) FROM groups WHERE id = ?1 AND room_id = ?2";

/// Counts the groups of a room with an identifier.
pub open spec fn count_group(group_id: Seq<char>, room_id: Seq<char>) -> QueryView {
    sql::query(sql::statement(COUNT_GROUP@).text(group_id).text(room_id)).column(Column::Integer)
}

/// Builds the query that counts the groups of a room with an identifier.
pub fn count_group_query(group_id: &str, room_id: &str) -> (q: Query)
    ensures
        q@ == count_group(group_id@, room_id@),
{
    Query::new(Statement::new(COUNT_GROUP).text(group_id).text(room_id)).column(Column::Integer)
}

/// Text of the query that counts a group of other owners.
pub const COUNT_FOREIGN_GROUP: &'static str =
    "SELECT COUNT(*) FROM groups g JOIN rooms r ON g.room_id = r.id WHERE g.id = ?1 AND r.owner_id <> ?2";

/// Counts the groups with an identifier that stand in rooms of others than a user.
pub open spec fn count_foreign_group(group_id: Seq<char>, user_id: Seq<char>) -> QueryView {
    sql::query(sql::statement(COUNT_FOREIGN_GROUP@).text(group_id).text(user_id)).column(
        Column::Integer,
    )
}

/// Text of the statement that moves a device into a group.
pub const MOVE_DEVICE: &'static str =
    "UPDATE devices SET group_id = ?1 WHERE id = ?2 AND room_id = ?3";

/// Moves a device of a room into a group, or out of any.
pub open spec fn move_device(
    group_id: Option<String>,
    device_id: Seq<char>,
    room_id: Seq<char>,
) -> StatementView {
    sql::statement(MOVE_DEVICE@).text_option(group_id).text(device_id).text(room_id)
}

fn move_device_statement(group_id: &Option<String>, device_id: &str, room_id: &str) -> (s:
    Statement)
    ensures
        s@ == move_device(*group_id, device_id@, room_id@),
{
    Statement::new(MOVE_DEVICE).text_option(group_id).text(device_id).text(room_id)
}

/// A device being moved into a group.
#[derive(Debug)]
pub enum SetDeviceGroup {
    /// The group is being looked up.
    Checking { room_id: String, group_id: String, device_id: String },
    /// The device is being moved.
    Moving,
}

impl SetDeviceGroup {
    /// The first step: a group is looked up in the room; without one the device is moved at
    /// once.
    pub open spec fn started(
        room_id: String,
        group_id: Option<String>,
        device_id: String,
        step: Step<SetDeviceGroup, Result<(), DbError>>,
    ) -> bool {
        match group_id {
            Some(id) => step matches Step::Ask(state, call) && state == (SetDeviceGroup::Checking {
                room_id,
                group_id: id,
                device_id,
            }) && call.fetches(count_group(id@, room_id@)),
            None => step matches Step::Ask(SetDeviceGroup::Moving, call) && call.executes(
                move_device(None, device_id@, room_id@),
            ),
        }
    }

    /// The following steps: a group of another room is not found, nor is a device.
    pub open spec fn resumed(
        self,
        reply: Reply,
        step: Step<SetDeviceGroup, Result<(), DbError>>,
    ) -> bool {
        match self {
            SetDeviceGroup::Checking { room_id, group_id, device_id } => match flow::count_of(
                reply,
            ) {
                None => step == Step::<SetDeviceGroup, Result<(), DbError>>::Done(
                    Err(DbError::Failed),
                ),
                Some(0) => step == Step::<SetDeviceGroup, Result<(), DbError>>::Done(
                    Err(DbError::GroupNotFound),
                ),
                Some(_) => step matches Step::Ask(SetDeviceGroup::Moving, call) && call.executes(
                    move_device(Some(group_id), device_id@, room_id@),
                ),
            },
            SetDeviceGroup::Moving => step == Step::<SetDeviceGroup, Result<(), DbError>>::Done(
                match flow::affected_of(reply) {
                    None => Err(DbError::Failed),
                    Some(0) => Err(DbError::DeviceNotFound),
                    Some(_) => Ok(()),
                },
            ),
        }
    }

    /// Takes the reply and goes on.
    pub fn resume(self, reply: Reply) -> (step: Step<SetDeviceGroup, Result<(), DbError>>)
        ensures
            self.resumed(reply, step),
    {
        match self {
            SetDeviceGroup::Checking { room_id, group_id, device_id } => match flow::count(
                reply,
            ) {
                None => Step::Done(Err(DbError::Failed)),
                Some(n) => if n == 0 {
                    Step::Done(Err(DbError::GroupNotFound))
                } else {
                    Step::Ask(
                        SetDeviceGroup::Moving,
                        Call::Execute(
                            move_device_statement(
                                &Some(group_id),
                                device_id.as_str(),
                                room_id.as_str(),
                            ),
                        ),
                    )
                },
            },
            SetDeviceGroup::Moving => match flow::affected(reply) {
                None => Step::Done(Err(DbError::Failed)),
                Some(n) => if n == 0 {
                    Step::Done(Err(DbError::DeviceNotFound))
                } else {
                    Step::Done(Ok(()))
                },
            },
        }
    }
}

/// Text of the statement that takes all devices out of a group.
pub const EMPTY_GROUP: &'static str =
    "UPDATE devices SET group_id = NULL WHERE room_id = ?1 AND group_id = ?2";

/// Text of the statement that deletes a group of a room.
pub const DELETE_GROUP: &'static str = "DELETE FROM groups WHERE id = ?1 AND room_id = ?2";

/// Deletes a group; its devices leave it first.
pub open spec fn delete_group_statements(room_id: Seq<char>, group_id: Seq<char>) -> Seq<
    StatementView,
> {
    Seq::empty().push(sql::statement(EMPTY_GROUP@).text(room_id).text(group_id)).push(
        sql::statement(DELETE_GROUP@).text(group_id).text(room_id),
    )
}

impl Database {
    /// The query that tells whether a group is another user's: whether it counts any.
    pub fn group_of_others(&self, group_id: &str, user_id: &str) -> (q: Query)
        ensures
            q@ == count_foreign_group(group_id@, user_id@),
    {
        Query::new(Statement::new(COUNT_FOREIGN_GROUP).text(group_id).text(user_id)).column(
            Column::Integer,
        )
    }

    /// Begins to delete a group of a room; its devices stay, without a group.
    pub fn delete_group(&self, room_id: &str, group_id: &str) -> (step: Step<
        Transaction,
        Result<(), DbError>,
    >)
        ensures
            Transaction::started(delete_group_statements(room_id@, group_id@), step),
    {
        let mut statements: Vec<Statement> = Vec::new();
        statements.push(Statement::new(EMPTY_GROUP).text(room_id).text(group_id));
        statements.push(Statement::new(DELETE_GROUP).text(group_id).text(room_id));
        assert(views(statements@) =~= delete_group_statements(room_id@, group_id@));
        Transaction::start(statements)
    }

    /// Begins to create a group with a first version of its configuration.
    pub fn create_group(&self, room_id: String, name: String, config: VntClientConfig) -> (step:
        Step<CreateGroup, Result<Group, DbError>>)
        ensures
            CreateGroup::started(room_id, name, config, 1, step),
    {
        self.create_group_with_version(room_id, name, config, 1)
    }

    /// Begins to create a group whose configuration already has a version.
    pub fn create_group_with_version(
        &self,
        room_id: String,
        name: String,
        config: VntClientConfig,
        version: i64,
    ) -> (step: Step<CreateGroup, Result<Group, DbError>>)
        ensures
            CreateGroup::started(room_id, name, config, version, step),
    {
        let stripped = strip_secrets(&config);
        Step::Ask(
            CreateGroup::Encoding { room_id, name, config, version },
            Call::EncodeConfig(stripped),
        )
    }

    /// Begins to change a group of a room.
    pub fn update_group(&self, room_id: String, group_id: String, request: UpdateGroupRequest) -> (
    step: Step<UpdateGroup, Result<Group, DbError>>)
        ensures
            UpdateGroup::started(room_id, group_id, request, step),
    {
        let query = select_group_query(group_id.as_str(), room_id.as_str());
        Step::Ask(UpdateGroup::Looking { room_id, group_id, request }, Call::Fetch(query))
    }

    /// Begins to list the groups of a room.
    pub fn list_groups(&self, room_id: &str) -> (step: Step<
        ListGroups,
        Result<Vec<Group>, DbError>,
    >)
        ensures
            ListGroups::started(room_id@, step),
    {
        let query = Query::new(Statement::new(SELECT_GROUPS).text(room_id)).column(
            Column::Text,
        ).column(Column::Text).column(Column::Text).column(Column::Integer).column(
            Column::Integer,
        ).column(Column::Integer).column(Column::OptionalText).column(
            Column::OptionalText,
        ).column(Column::OptionalText).column(Column::OptionalText);
        Step::Ask(ListGroups::Fetching, Call::Fetch(query))
    }

    /// Begins to move a device into a group of its room, or out of any.
    pub fn set_device_group(
        &self,
        room_id: String,
        group_id: Option<String>,
        device_id: String,
    ) -> (step: Step<SetDeviceGroup, Result<(), DbError>>)
        ensures
            SetDeviceGroup::started(room_id, group_id, device_id, step),
    {
        match group_id {
            Some(id) => {
                let query = count_group_query(id.as_str(), room_id.as_str());
                Step::Ask(
                    SetDeviceGroup::Checking { room_id, group_id: id, device_id },
                    Call::Fetch(query),
                )
            },
            None => Step::Ask(
                SetDeviceGroup::Moving,
                Call::Execute(
                    move_device_statement(&None, device_id.as_str(), room_id.as_str()),
                ),
            ),
        }
    }
}

} // verus!
