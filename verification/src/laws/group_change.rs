//! Changing and listing groups.
use vstd::prelude::*;
use vstd::string::*;
use vstd::utf8::*;

use crate::crypto::{decrypted, CryptoError};
use crate::db::group_store::{
    group_record, group_records, select_groups, GroupRecord, ListGroups, UpdateGroup,
};
use crate::db::groups::{is_restored, SealedConfig};
use crate::db::{Database, DbError};
use crate::flow::{Fresh, Reply, Step};
use crate::laws::groups::{
    agree_without_secrets, has_no_secret, hides, law_document_leaves_out_secrets_only,
};
use crate::laws::{gives, gives_none, is_query, runs};
use crate::models::{Group, UpdateGroupRequest, VntClientConfig};
use crate::outside::SEAL_LIMIT;
use crate::sql::{Column, Row, SqlValue, SqlView};

verus! {

/// A step of changing a group.
pub type ChangeStep = Step<UpdateGroup, Result<Group, DbError>>;

/// A step of listing groups.
pub type ListStep = Step<ListGroups, Result<Vec<Group>, DbError>>;

/// What a stored field of a group decrypts to, under the context that names group and field.
pub open spec fn opens_to(
    master: Seq<char>,
    group_id: Seq<char>,
    field: Seq<char>,
    stored: Option<String>,
) -> Result<Seq<char>, CryptoError> {
    decrypted(master, "group:"@ + group_id + ":"@ + field, stored->Some_0@)
}

/// The stored secrets are put back into a configuration, each where it belongs; one that is not
/// stored stays as the configuration has it, and nothing else changes. It fails exactly where a
/// stored one cannot be decrypted, with what is wrong with the first such one.
pub proof fn law_secrets_are_put_back(
    master: Seq<char>,
    group_id: Seq<char>,
    plain: VntClientConfig,
    sealed: SealedConfig,
    outcome: Result<VntClientConfig, CryptoError>,
)
    requires
        is_restored(master, group_id, plain, sealed, outcome),
    ensures
        outcome is Ok ==> {
            let config = outcome->Ok_0;
            &&& agree_without_secrets(config, plain)
            &&& sealed.token is Some ==> opens_to(master, group_id, "token"@, sealed.token) == Ok::<
                Seq<char>,
                CryptoError,
            >(config.token@)
            &&& sealed.token is None ==> config.token == plain.token
            &&& sealed.server is Some ==> opens_to(master, group_id, "server"@, sealed.server)
                == Ok::<Seq<char>, CryptoError>(config.server_address@)
            &&& sealed.server is None ==> config.server_address == plain.server_address
            &&& sealed.password is Some ==> config.password is Some && opens_to(
                master,
                group_id,
                "password"@,
                sealed.password,
            ) == Ok::<Seq<char>, CryptoError>(config.password->Some_0@)
            &&& sealed.password is None ==> config.password == plain.password
        },
        outcome is Err ==> ({
            let error = outcome->Err_0;
            let token = opens_to(master, group_id, "token"@, sealed.token);
            let server = opens_to(master, group_id, "server"@, sealed.server);
            let password = opens_to(master, group_id, "password"@, sealed.password);
            if sealed.token is Some && token is Err {
                error == token->Err_0
            } else if sealed.server is Some && server is Err {
                error == server->Err_0
            } else {
                error == password->Err_0
            }
        }),
        outcome is Err <==> {
            ||| sealed.token is Some && opens_to(master, group_id, "token"@, sealed.token) is Err
            ||| sealed.server is Some && opens_to(master, group_id, "server"@, sealed.server) is Err
            ||| sealed.password is Some && opens_to(
                master,
                group_id,
                "password"@,
                sealed.password,
            ) is Err
        },
{
}

/// Whether a row of a group can be read for a change.
pub open spec fn is_group_row(row: Seq<SqlValue>) -> bool {
    &&& row.len() == 7
    &&& row[0] is Text
    &&& row[1] is Integer
    &&& row[2] is Integer
    &&& row[3] is Text || row[3] is Null
    &&& row[4] is Text || row[4] is Null
    &&& row[5] is Text || row[5] is Null
    &&& row[6] is Text || row[6] is Null
}

/// The name that a group has after a change: the one asked for, or else the one it had.
pub open spec fn name_after(request: UpdateGroupRequest, row: Seq<SqlValue>) -> String {
    if request.name is Some {
        request.name->Some_0
    } else {
        row[0]->Text_0
    }
}

/// Whether a step stores a change of a group without a new configuration: name, version and time
/// change, and the password and the other encrypted fields stay as they are.
pub open spec fn stores_name(
    step: ChangeStep,
    room_id: String,
    group_id: String,
    request: UpdateGroupRequest,
    row: Seq<SqlValue>,
    now: i64,
) -> bool {
    &&& step is Ask
    &&& runs(
        step->Ask_1,
        "UPDATE groups SET name = ?1, encrypted_token = COALESCE(?2, encrypted_token), encrypted_server = COALESCE(?3, encrypted_server), encrypted_password = ?4, extra_config = COALESCE(?5, extra_config), config_version = ?6, updated_at = ?7 WHERE id = ?8 AND room_id = ?9"@,
        seq![
            SqlView::Text(name_after(request, row)@),
            SqlView::Null,
            SqlView::Null,
            row[5]@,
            SqlView::Null,
            SqlView::Integer((row[1]->Integer_0 + 1) as i64),
            SqlView::Integer(now),
            SqlView::Text(group_id@),
            SqlView::Text(room_id@),
        ],
    )
    &&& step->Ask_0 is Writing
    &&& step->Ask_0->group.id == group_id
    &&& step->Ask_0->group.room_id == room_id
    &&& step->Ask_0->group.name == name_after(request, row)
    &&& step->Ask_0->group.config_version == row[1]->Integer_0 + 1
    &&& step->Ask_0->group.created_at == row[2]->Integer_0
    &&& step->Ask_0->group.updated_at == now
}

/// Whether a step has a new configuration of a group written as a document without its secrets.
pub open spec fn writes_document(
    step: ChangeStep,
    room_id: String,
    group_id: String,
    request: UpdateGroupRequest,
    row: Seq<SqlValue>,
) -> bool {
    &&& step is Ask
    &&& step->Ask_1 is EncodeConfig
    &&& has_no_secret(step->Ask_1->EncodeConfig_0, request.config->Some_0)
    &&& step->Ask_0 == (UpdateGroup::Encoding {
        room_id,
        group_id,
        name: name_after(request, row),
        version: (row[1]->Integer_0 + 1) as i64,
        created_at: row[2]->Integer_0,
        config: request.config->Some_0,
    })
}

/// A change of a group raises its version by one, whatever is changed. What is not asked for stays:
/// the name, and without a new configuration everything that is encrypted, and what is then told is
/// the configuration that is stored. A group that is not there is not found.
pub proof fn law_group_change_keeps_what_is_not_asked_for(
    db: Database,
    room_id: String,
    group_id: String,
    request: UpdateGroupRequest,
    reply: Reply,
    row: Seq<SqlValue>,
    fresh: Fresh,
    first: ChangeStep,
    plain: VntClientConfig,
    later: Fresh,
    second: ChangeStep,
)
    requires
        (UpdateGroup::Looking { room_id, group_id, request }).resumed(db, reply, fresh, first),
        gives_none(reply) || (gives(reply, row) && is_group_row(row) && row[1]->Integer_0
            < i64::MAX),
        first is Ask && first->Ask_1 is DecodeConfig ==> (first->Ask_0).resumed(
            db,
            Reply::Config(plain),
            later,
            second,
        ),
    ensures
        gives_none(reply) ==> first == ChangeStep::Done(Err(DbError::GroupNotFound)),
        gives(reply, row) && row[6] is Null ==> {
            &&& request.config is None ==> stores_name(
                first,
                room_id,
                group_id,
                request,
                row,
                fresh.now,
            ) && first->Ask_0->group.config is None
            &&& request.config is Some ==> writes_document(
                first,
                room_id,
                group_id,
                request,
                row,
            )
        },
        gives(reply, row) && row[6] is Text ==> {
            let stored = opens_to(
                db.master_key@,
                group_id@,
                "config"@,
                Some(row[6]->Text_0),
            );
            &&& stored is Err ==> first == ChangeStep::Done(Err(DbError::Crypto(stored->Err_0)))
            &&& stored is Ok ==> {
                &&& first is Ask && first->Ask_1 is DecodeConfig
                &&& first->Ask_1->DecodeConfig_0@ == stored->Ok_0
                &&& {
                    ||| second is Done && second->Done_0 is Err && second->Done_0->Err_0 is Crypto
                    ||| request.config is None && stores_name(
                        second,
                        room_id,
                        group_id,
                        request,
                        row,
                        later.now,
                    ) && second->Ask_0->group.config is Some && agree_without_secrets(
                        second->Ask_0->group.config->Some_0,
                        plain,
                    )
                    ||| request.config is Some && writes_document(
                        second,
                        room_id,
                        group_id,
                        request,
                        row,
                    )
                }
            }
        },
{
    if gives(reply, row) && row[6] is Null && request.config is Some {
        law_document_leaves_out_secrets_only(
            request.config->Some_0,
            first->Ask_1->EncodeConfig_0,
        );
    }
    if first is Ask && first->Ask_1 is DecodeConfig {
        let found = first->Ask_0->Decoding_found;
        let version = first->Ask_0->Decoding_version;
        let outcome = choose|outcome: Result<VntClientConfig, CryptoError>|
            #![trigger is_restored(db.master_key@, group_id@, plain, found.sealed, outcome)]
            {
                &&& is_restored(db.master_key@, group_id@, plain, found.sealed, outcome)
                &&& match outcome {
                    Ok(current) => UpdateGroup::prepared(
                        room_id,
                        group_id,
                        request,
                        found,
                        version,
                        Some(current),
                        later.now,
                        second,
                    ),
                    Err(e) => second == ChangeStep::Done(Err(DbError::Crypto(e))),
                }
            };
        law_secrets_are_put_back(db.master_key@, group_id@, plain, found.sealed, outcome);
        if request.config is Some && outcome is Ok {
            law_document_leaves_out_secrets_only(
                request.config->Some_0,
                second->Ask_1->EncodeConfig_0,
            );
        }
    }
}

/// A new configuration of a group is stored with every part encrypted anew under the context of the
/// group and the field, and is what is told of the group.
pub proof fn law_new_configuration_is_stored_as_told(
    db: Database,
    room_id: String,
    group_id: String,
    name: String,
    version: i64,
    created_at: i64,
    config: VntClientConfig,
    json: String,
    fresh: Fresh,
    first: ChangeStep,
    n: u64,
    second: ChangeStep,
)
    requires
        (UpdateGroup::Encoding { room_id, group_id, name, version, created_at, config }).resumed(
            db,
            Reply::Text(json),
            fresh,
            first,
        ),
        first is Ask ==> (first->Ask_0).resumed(db, Reply::Affected(n), fresh, second),
    ensures
        first is Ask <==> {
            &&& encode_utf8(config.token@).len() <= SEAL_LIMIT
            &&& encode_utf8(config.server_address@).len() <= SEAL_LIMIT
            &&& config.password is Some ==> encode_utf8(config.password->Some_0@).len()
                <= SEAL_LIMIT
            &&& encode_utf8(json@).len() <= SEAL_LIMIT
        },
        first is Done ==> first == ChangeStep::Done(
            Err(DbError::Crypto(CryptoError::EncryptFailed)),
        ),
        first is Ask ==> {
            let call = first->Ask_1;
            let params = call->Execute_0.params@;
            &&& call is Execute
            &&& call->Execute_0.sql@
                == "UPDATE groups SET name = ?1, encrypted_token = COALESCE(?2, encrypted_token), encrypted_server = COALESCE(?3, encrypted_server), encrypted_password = ?4, extra_config = COALESCE(?5, extra_config), config_version = ?6, updated_at = ?7 WHERE id = ?8 AND room_id = ?9"@
            &&& params.len() == 9
            &&& params[0]@ == SqlView::Text(name@)
            &&& hides(
                params[1],
                db,
                group_id@,
                "token"@,
                config.token@,
                fresh.nonce_token@,
            )
            &&& hides(
                params[2],
                db,
                group_id@,
                "server"@,
                config.server_address@,
                fresh.nonce_server@,
            )
            &&& config.password is None ==> params[3] is Null
            &&& config.password is Some ==> hides(
                params[3],
                db,
                group_id@,
                "password"@,
                config.password->Some_0@,
                fresh.nonce_password@,
            )
            &&& hides(
                params[4],
                db,
                group_id@,
                "config"@,
                json@,
                fresh.nonce_config@,
            )
            &&& params[5]@ == SqlView::Integer(version)
            &&& params[6]@ == SqlView::Integer(fresh.now)
            &&& params[7]@ == SqlView::Text(group_id@)
            &&& params[8]@ == SqlView::Text(room_id@)
            &&& second == ChangeStep::Done(
                Ok(
                    Group {
                        id: group_id,
                        room_id,
                        name,
                        config_version: version,
                        created_at,
                        updated_at: fresh.now,
                        config: Some(config),
                    },
                ),
            )
        },
{
    if first is Ask {
        let params = first->Ask_1->Execute_0.params@;
        let seen = params.map_values(|p: SqlValue| p@);
        assert(seen == first->Ask_1->Execute_0@.params);
        assert(seen.len() == 9);
        assert(params[0]@ == seen[0]);
        assert(params[1]@ == seen[1]);
        assert(params[2]@ == seen[2]);
        assert(params[3]@ == seen[3]);
        assert(params[4]@ == seen[4]);
        assert(params[5]@ == seen[5]);
        assert(params[6]@ == seen[6]);
        assert(params[7]@ == seen[7]);
        assert(params[8]@ == seen[8]);
    }
}

/// Whether a row of a group can be listed.
pub open spec fn is_listed_row(row: Seq<SqlValue>) -> bool {
    &&& row.len() == 10
    &&& row[0] is Text
    &&& row[1] is Text
    &&& row[2] is Text
    &&& row[3] is Integer
    &&& row[4] is Integer
    &&& row[5] is Integer
    &&& row[6] is Text || row[6] is Null
    &&& row[7] is Text || row[7] is Null
    &&& row[8] is Text || row[8] is Null
    &&& row[9] is Text || row[9] is Null
}

/// Whether a listed group is the one in a row.
pub open spec fn is_group_in(group: Group, row: Seq<SqlValue>) -> bool {
    &&& row[0] == SqlValue::Text(group.id)
    &&& row[1] == SqlValue::Text(group.room_id)
    &&& row[2] == SqlValue::Text(group.name)
    &&& row[3] == SqlValue::Integer(group.config_version)
    &&& row[4] == SqlValue::Integer(group.created_at)
    &&& row[5] == SqlValue::Integer(group.updated_at)
}

/// The groups of a room are listed from the youngest on, each field from its own column; groups
/// without a stored configuration are listed without one.
pub proof fn law_listed_groups_are_their_rows(
    room_id: Seq<char>,
    db: Database,
    rows: Vec<Row>,
    step: ListStep,
)
    requires
        ListGroups::Fetching.resumed(db, Reply::Rows(rows), step),
        forall|i: int|
            0 <= i < rows@.len() ==> is_listed_row((#[trigger] rows@[i])@) && rows@[i]@[9] is Null,
    ensures
        is_query(
            select_groups(room_id),
            "SELECT id, room_id, name, config_version, created_at, updated_at, encrypted_token, encrypted_server, encrypted_password, extra_config FROM groups WHERE room_id = ?1 ORDER BY created_at DESC"@,
            seq![SqlView::Text(room_id)],
            seq![
                Column::Text,
                Column::Text,
                Column::Text,
                Column::Integer,
                Column::Integer,
                Column::Integer,
                Column::OptionalText,
                Column::OptionalText,
                Column::OptionalText,
                Column::OptionalText,
            ],
        ),
        step is Done && step->Done_0 is Ok,
        step->Done_0->Ok_0@.len() == rows@.len(),
        forall|i: int|
            0 <= i < rows@.len() ==> is_group_in(#[trigger] step->Done_0->Ok_0@[i], rows@[i]@)
                && step->Done_0->Ok_0@[i].config is None,
{
    lemma_records(rows@);
    let records = group_records(rows@)->Some_0;
    assert forall|i: int| 0 <= i < records.len() implies (
    #[trigger] records[i]).sealed.extra is None by {
        assert(group_record(rows@[i]@) == Some(records[i]));
    }
    lemma_advance(db.master_key@, Seq::empty(), records, step);
    let listed = step->Done_0->Ok_0@;
    assert forall|i: int| 0 <= i < rows@.len() implies is_group_in(#[trigger] listed[i], rows@[i]@)
        && listed[i].config is None by {
        assert(group_record(rows@[i]@) == Some(records[i]));
        assert(listed[i] == records[i].with_config(None));
    }
}

proof fn lemma_records(rows: Seq<Row>)
    requires
        forall|i: int| 0 <= i < rows.len() ==> is_listed_row((#[trigger] rows[i])@),
    ensures
        group_records(rows) is Some,
        group_records(rows)->Some_0.len() == rows.len(),
        forall|i: int|
            0 <= i < rows.len() ==> group_record((#[trigger] rows[i])@) == Some(
                group_records(rows)->Some_0[i],
            ),
    decreases rows.len(),
{
    if rows.len() > 0 {
        let front = rows.drop_last();
        assert forall|i: int| 0 <= i < front.len() implies is_listed_row(
            (#[trigger] front[i])@,
        ) by {
            assert(front[i] == rows[i]);
        }
        lemma_records(front);
        assert(is_listed_row(rows[rows.len() - 1]@));
        assert forall|i: int| 0 <= i < rows.len() implies group_record((#[trigger] rows[i])@)
            == Some(group_records(rows)->Some_0[i]) by {
            if i < front.len() {
                assert(front[i] == rows[i]);
            }
        }
    }
}

proof fn lemma_advance(
    master: Seq<char>,
    done: Seq<Group>,
    pending: Seq<GroupRecord>,
    step: ListStep,
)
    requires
        ListGroups::advanced(master, done, pending, step),
        forall|i: int| 0 <= i < pending.len() ==> (#[trigger] pending[i]).sealed.extra is None,
    ensures
        step is Done && step->Done_0 is Ok,
        step->Done_0->Ok_0@.len() == done.len() + pending.len(),
        forall|i: int| 0 <= i < done.len() ==> #[trigger] step->Done_0->Ok_0@[i] == done[i],
        forall|i: int|
            0 <= i < pending.len() ==> step->Done_0->Ok_0@[done.len() + i] == (
            #[trigger] pending[i]).with_config(None),
    decreases pending.len(),
{
    if pending.len() > 0 {
        let next = done.push(pending[0].with_config(None));
        let rest = pending.drop_first();
        assert forall|i: int| 0 <= i < rest.len() implies (
        #[trigger] rest[i]).sealed.extra is None by {
            assert(rest[i] == pending[i + 1]);
        }
        lemma_advance(master, next, rest, step);
        let listed = step->Done_0->Ok_0@;
        assert forall|i: int| 0 <= i < done.len() implies #[trigger] listed[i] == done[i] by {
            assert(listed[i] == next[i]);
        }
        assert forall|i: int| 0 <= i < pending.len() implies listed[done.len() + i] == (
        #[trigger] pending[i]).with_config(None) by {
            if i == 0 {
                assert(listed[done.len() as int] == next[done.len() as int]);
            } else {
                assert(rest[i - 1] == pending[i]);
            }
        }
    }
}

/// A group with a stored configuration is listed with it, the stored secrets put back, behind the
/// groups before it; the document that is read is the one that is stored.
pub proof fn law_listed_group_has_its_configuration(
    db: Database,
    done: Vec<Group>,
    record: GroupRecord,
    row: Seq<SqlValue>,
    plain: VntClientConfig,
    pending: Vec<GroupRecord>,
    step: ListStep,
)
    requires
        group_record(row) == Some(record),
        pending@.len() == 0,
        (ListGroups::Decoding { done, record, pending }).resumed(db, Reply::Config(plain), step),
        step is Done && step->Done_0 is Ok,
    ensures
        ({
            let groups = step->Done_0->Ok_0@;
            let last = groups[done@.len() as int];
            &&& groups.len() == done@.len() + 1
            &&& forall|i: int| 0 <= i < done@.len() ==> #[trigger] groups[i] == done@[i]
            &&& is_group_in(last, row)
            &&& last.config is Some
            &&& agree_without_secrets(last.config->Some_0, plain)
            &&& row[6] is Text ==> opens_to(
                db.master_key@,
                record.id@,
                "token"@,
                Some(row[6]->Text_0),
            ) == Ok::<Seq<char>, CryptoError>(last.config->Some_0.token@)
            &&& row[7] is Text ==> opens_to(
                db.master_key@,
                record.id@,
                "server"@,
                Some(row[7]->Text_0),
            ) == Ok::<Seq<char>, CryptoError>(last.config->Some_0.server_address@)
            &&& row[8] is Text ==> last.config->Some_0.password is Some && opens_to(
                db.master_key@,
                record.id@,
                "password"@,
                Some(row[8]->Text_0),
            ) == Ok::<Seq<char>, CryptoError>(last.config->Some_0.password->Some_0@)
        }),
{
    let outcome = choose|outcome: Result<VntClientConfig, CryptoError>|
        #![trigger is_restored(db.master_key@, record.id@, plain, record.sealed, outcome)]
        {
            &&& is_restored(db.master_key@, record.id@, plain, record.sealed, outcome)
            &&& match outcome {
                Ok(config) => ListGroups::advanced(
                    db.master_key@,
                    done@.push(record.with_config(Some(config))),
                    pending@,
                    step,
                ),
                Err(e) => step == ListStep::Done(Err(DbError::Crypto(e))),
            }
        };
    law_secrets_are_put_back(db.master_key@, record.id@, plain, record.sealed, outcome);
    assert(step->Done_0->Ok_0@ == done@.push(record.with_config(Some(outcome->Ok_0))));
}

} // verus!
