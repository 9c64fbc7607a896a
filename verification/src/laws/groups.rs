//! Groups.
use vstd::prelude::*;
use vstd::string::*;
use vstd::utf8::*;

use crate::crypto::{decrypted, CryptoError};
use crate::db::group_store::{CreateGroup, SetDeviceGroup};
use crate::db::groups::is_stripped;
use crate::db::{Database, DbError};
use crate::flow::{Fresh, Reply, Step};
use crate::laws::{counts, reads, runs};
use crate::models::{Group, VntClientConfig};
use crate::outside::{base64_text, sealed, sha256_of, SEAL_LIMIT};
use crate::sql::{Column, SqlValue, SqlView};

verus! {

/// A step of creating a group.
pub type CreateStep = Step<CreateGroup, Result<Group, DbError>>;

/// A step of moving a device.
pub type MoveStep = Step<SetDeviceGroup, Result<(), DbError>>;

/// Whether two configurations agree in all that is no secret.
pub open spec fn agree_without_secrets(a: VntClientConfig, b: VntClientConfig) -> bool {
    &&& a.tap == b.tap && a.device_id == b.device_id && a.name == b.name
    &&& a.stun_server@ == b.stun_server@ && a.dns@ == b.dns@
    &&& a.in_ips@ == b.in_ips@ && a.out_ips@ == b.out_ips@
    &&& a.mtu == b.mtu && a.tcp == b.tcp && a.ip == b.ip && a.use_channel == b.use_channel
    &&& a.no_proxy == b.no_proxy && a.server_encrypt == b.server_encrypt
    &&& a.cipher_model == b.cipher_model && a.finger == b.finger
    &&& a.punch_model == b.punch_model
    &&& a.ports is Some <==> b.ports is Some
    &&& a.ports is Some ==> a.ports->Some_0@ == b.ports->Some_0@
    &&& a.cmd == b.cmd && a.first_latency == b.first_latency
    &&& a.device_name == b.device_name && a.packet_loss == b.packet_loss
    &&& a.packet_delay == b.packet_delay && a.mapping@ == b.mapping@
    &&& a.compressor == b.compressor && a.vnt_mapping@ == b.vnt_mapping@
    &&& a.disable_stats == b.disable_stats && a.allow_wire_guard == b.allow_wire_guard
    &&& a.local_dev == b.local_dev && a.disable_relay == b.disable_relay
    &&& a.hook == b.hook
}

/// Whether the document of a configuration has all of it but the secrets.
pub open spec fn has_no_secret(document: VntClientConfig, config: VntClientConfig) -> bool {
    &&& document.token@.len() == 0
    &&& document.server_address@.len() == 0
    &&& document.password is None
    &&& agree_without_secrets(document, config)
}

/// A copy of a configuration has every field of it.
pub proof fn law_copy_has_every_field(copy: VntClientConfig, config: VntClientConfig)
    requires
        copy.same_as(config),
    ensures
        agree_without_secrets(copy, config),
        copy.token == config.token,
        copy.server_address == config.server_address,
        copy.password == config.password,
{
}

/// What is written as the document of a configuration holds no secret and everything else.
pub proof fn law_document_leaves_out_secrets_only(
    config: VntClientConfig,
    document: VntClientConfig,
)
    requires
        is_stripped(config, document),
    ensures
        has_no_secret(document, config),
{
}

/// Whether a database value is a text encrypted under the context of a field of a group and a nonce
/// of its own, from which it can be decrypted again.
pub open spec fn hides(
    value: SqlValue,
    db: Database,
    group_id: Seq<char>,
    field: Seq<char>,
    plain: Seq<char>,
    nonce: Seq<u8>,
) -> bool {
    &&& value is Text
    &&& value->Text_0@ == base64_text(nonce) + ":"@ + base64_text(
        sealed(
            sha256_of(
                encode_utf8(db.master_key@) + seq![0x3au8] + encode_utf8(
                    "group:"@ + group_id + ":"@ + field,
                ),
            ),
            nonce,
            encode_utf8(plain),
        ),
    )
    &&& decrypted(db.master_key@, "group:"@ + group_id + ":"@ + field, value->Text_0@) == Ok::<
        Seq<char>,
        CryptoError,
    >(plain)
}

/// A group is stored in its room under a fresh identifier, with its name and version and the time,
/// and with token, server, password and document each encrypted under the context that names the
/// group and the field. What is told of it is what was stored.
pub proof fn law_group_is_stored_as_told(
    db: Database,
    room_id: String,
    name: String,
    config: VntClientConfig,
    version: i64,
    fresh: Fresh,
    json: String,
    first: CreateStep,
    second: CreateStep,
    n: u64,
    third: CreateStep,
)
    requires
        CreateGroup::started(room_id, name, config, version, first),
        first is Ask ==> (first->Ask_0).resumed(db, Reply::Text(json), fresh, second),
        second is Ask ==> (second->Ask_0).resumed(db, Reply::Affected(n), fresh, third),
    ensures
        first is Ask && first->Ask_1 is EncodeConfig,
        has_no_secret(first->Ask_1->EncodeConfig_0, config),
        second is Ask <==> {
            &&& encode_utf8(config.token@).len() <= SEAL_LIMIT
            &&& encode_utf8(config.server_address@).len() <= SEAL_LIMIT
            &&& config.password is Some ==> encode_utf8(config.password->Some_0@).len()
                <= SEAL_LIMIT
            &&& encode_utf8(json@).len() <= SEAL_LIMIT
        },
        second is Done ==> second->Done_0 == Err::<Group, DbError>(
            DbError::Crypto(CryptoError::EncryptFailed),
        ),
        second is Ask ==> {
            let call = second->Ask_1;
            let params = call->Execute_0.params@;
            &&& call is Execute
            &&& call->Execute_0.sql@
                == "INSERT INTO groups(id, room_id, name, encrypted_token, encrypted_server, encrypted_password, extra_config, config_version, created_at, updated_at) VALUES(?1, ?2, ?3, ?4, ?5, ?6, ?7, ?8, ?9, ?9)"@
            &&& params.len() == 9
            &&& params[0]@ == SqlView::Text(fresh.id@)
            &&& params[1]@ == SqlView::Text(room_id@)
            &&& params[2]@ == SqlView::Text(name@)
            &&& hides(
                params[3],
                db,
                fresh.id@,
                "token"@,
                config.token@,
                fresh.nonce_token@,
            )
            &&& hides(
                params[4],
                db,
                fresh.id@,
                "server"@,
                config.server_address@,
                fresh.nonce_server@,
            )
            &&& config.password is None ==> params[5] is Null
            &&& config.password is Some ==> hides(
                params[5],
                db,
                fresh.id@,
                "password"@,
                config.password->Some_0@,
                fresh.nonce_password@,
            )
            &&& hides(
                params[6],
                db,
                fresh.id@,
                "config"@,
                json@,
                fresh.nonce_config@,
            )
            &&& params[7]@ == SqlView::Integer(version)
            &&& params[8]@ == SqlView::Integer(fresh.now)
            &&& third is Done && third->Done_0 is Ok
            &&& third->Done_0->Ok_0.id == fresh.id
            &&& third->Done_0->Ok_0.room_id == room_id
            &&& third->Done_0->Ok_0.name == name
            &&& third->Done_0->Ok_0.config_version == version
            &&& third->Done_0->Ok_0.created_at == fresh.now
            &&& third->Done_0->Ok_0.updated_at == fresh.now
            &&& third->Done_0->Ok_0.config == Some(config)
        },
{
    if second is Ask {
        let params = second->Ask_1->Execute_0.params@;
        let views = params.map_values(|p: SqlValue| p@);
        assert(views == second->Ask_1->Execute_0@.params);
        assert(views.len() == 9);
        assert forall|i: int| 0 <= i < 9 implies (#[trigger] params[i])@ == views[i] by {}
        assert(params[3]@ == views[3]);
        assert(params[4]@ == views[4]);
        assert(params[5]@ == views[5]);
        assert(params[6]@ == views[6]);
    }
}

/// A device of a room moves into a group exactly where the group is counted in that room, and into
/// no group at once; only that device of that room is touched.
pub proof fn law_device_moves_within_its_room(
    room_id: String,
    group_id: Option<String>,
    device_id: String,
    first: MoveStep,
    reply: Reply,
    count: int,
    second: MoveStep,
)
    requires
        SetDeviceGroup::started(room_id, group_id, device_id, first),
        group_id is Some && first is Ask ==> (first->Ask_0).resumed(reply, second),
        group_id is None ==> second == first,
        counts(reply, count),
    ensures
        first is Ask,
        group_id is Some ==> reads(
            first->Ask_1,
            "SELECT COUNT(*) FROM groups WHERE id = ?1 AND room_id = ?2"@,
            seq![SqlView::Text(group_id->Some_0@), SqlView::Text(room_id@)],
            seq![Column::Integer],
        ),
        group_id is Some && count == 0 ==> second == MoveStep::Done(Err(DbError::GroupNotFound)),
        group_id is None || count != 0 ==> second is Ask && runs(
            second->Ask_1,
            "UPDATE devices SET group_id = ?1 WHERE id = ?2 AND room_id = ?3"@,
            seq![
                match group_id {
                    Some(id) => SqlView::Text(id@),
                    None => SqlView::Null,
                },
                SqlView::Text(device_id@),
                SqlView::Text(room_id@),
            ],
        ),
{
}

/// A move that touches no device did not find it, and any other one is done.
pub proof fn law_move_finds_its_device(reply: Reply, step: MoveStep)
    requires
        SetDeviceGroup::Moving.resumed(reply, step),
        reply is Affected,
    ensures
        reply->Affected_0 == 0 ==> step == MoveStep::Done(Err(DbError::DeviceNotFound)),
        reply->Affected_0 > 0 ==> step == MoveStep::Done(Ok(())),
{
}

} // verus!
