//! Pushing a configuration.
use vstd::prelude::*;
use vstd::string::*;
use vstd::utf8::*;

use crate::api::push::{PushConfig, PushStep};
use crate::db::device_config::{ConfigOutcome, DeviceConfig, EffectiveConfig};
use crate::db::Database;
use crate::flow::{Fresh, Reply, Step};
use crate::laws::upkeep::reads_device;
use crate::laws::{gives, gives_none, nullable, reads, runs};
use crate::outside::{base64_text, sealed, sha256_of, SEAL_LIMIT};
use crate::sql::{Column, SqlValue, SqlView};
use crate::status::StatusCode;
use crate::text::decimal;

verus! {

/// Whether a step looks up the token of a device.
pub open spec fn looks_up_token(step: PushStep, device_id: Seq<char>) -> bool {
    &&& step is Ask
    &&& reads(
        step->Ask_1,
        "SELECT device_token FROM devices WHERE id = ?1"@,
        seq![SqlView::Text(device_id)],
        seq![Column::Text],
    )
}

/// A push begins with the device; a device that is not there is not found, and what cannot be read
/// is a failure of the server.
pub proof fn law_push_begins_with_the_device(
    db: Database,
    device_id: String,
    group_id: Option<String>,
    first: PushStep,
    reply: Reply,
    fresh: Fresh,
    second: PushStep,
)
    requires
        PushConfig::started(device_id, group_id, first),
        first is Ask ==> (first->Ask_0).resumed(db, reply, fresh, second),
    ensures
        first is Ask && reads_device(first->Ask_1, device_id@),
        first->Ask_0 == (PushConfig::Composing {
            device_id,
            inner: DeviceConfig::Looking { device_id, override_group_id: group_id },
        }),
        gives_none(reply) ==> second == PushStep::Done(Err(StatusCode::NotFound)),
        !(reply is Rows) ==> second == PushStep::Done(Err(StatusCode::InternalServerError)),
{
    let sub = choose|sub: Step<DeviceConfig, ConfigOutcome>| #[trigger]
        (DeviceConfig::Looking { device_id, override_group_id: group_id }).resumed(db, reply, sub)
            && PushConfig::composed(device_id, sub, second);
}

/// What is pushed to a device in a group carries the name of that group, where the group has one;
/// the name is looked up first, and then the token of the device.
pub proof fn law_push_carries_the_name_of_the_group(
    db: Database,
    device_id: String,
    effective: EffectiveConfig,
    reply: Reply,
    row: Seq<SqlValue>,
    fresh: Fresh,
    step: PushStep,
    sub: Step<DeviceConfig, ConfigOutcome>,
    before: PushStep,
)
    requires
        sub == Step::<DeviceConfig, ConfigOutcome>::Done(Ok(Some(effective))),
        PushConfig::composed(device_id, sub, before),
        (PushConfig::Naming { device_id, effective }).resumed(db, reply, fresh, step),
        gives_none(reply) || (gives(reply, row) && row.len() == 1 && row[0] is Text),
    ensures
        effective.group_id is Some ==> {
            &&& before is Ask
            &&& before->Ask_0 == (PushConfig::Naming { device_id, effective })
            &&& reads(
                before->Ask_1,
                "SELECT name FROM groups WHERE id = ?1"@,
                seq![SqlView::Text(effective.group_id->Some_0@)],
                seq![Column::Text],
            )
        },
        effective.group_id is None ==> {
            &&& looks_up_token(before, device_id@)
            &&& before->Ask_0 == (PushConfig::Unlocking {
                device_id,
                effective,
                config_name: None,
            })
        },
        looks_up_token(step, device_id@),
        step->Ask_0 == (PushConfig::Unlocking {
            device_id,
            effective,
            config_name: if gives_none(reply) {
                None
            } else {
                Some(row[0]->Text_0)
            },
        }),
{
}

/// The document that is pushed names the device, the group, its name, the version and the
/// configuration; the version that goes with it is the low 32 bits of that version.
pub proof fn law_pushed_document_says_what_the_device_is_to_run(
    db: Database,
    device_id: String,
    effective: EffectiveConfig,
    config_name: Option<String>,
    reply: Reply,
    row: Seq<SqlValue>,
    fresh: Fresh,
    step: PushStep,
)
    requires
        (PushConfig::Unlocking { device_id, effective, config_name }).resumed(
            db,
            reply,
            fresh,
            step,
        ),
        gives_none(reply) || (gives(reply, row) && row.len() == 1 && row[0] is Text),
    ensures
        gives_none(reply) ==> step == PushStep::Done(Err(StatusCode::NotFound)),
        gives(reply, row) ==> {
            &&& step is Ask
            &&& step->Ask_1 is EncodePush
            &&& step->Ask_1->EncodePush_0.device_id == device_id
            &&& step->Ask_1->EncodePush_0.group_id == effective.group_id
            &&& step->Ask_1->EncodePush_0.config_name == config_name
            &&& step->Ask_1->EncodePush_0.config_version == effective.version
            &&& step->Ask_1->EncodePush_0.config == effective.config
            &&& step->Ask_0 is Encoding
            &&& step->Ask_0->Encoding_device_id == device_id
            &&& step->Ask_0->group_id == effective.group_id
            &&& step->Ask_0->version == effective.version as int % 0x1_0000_0000
            &&& step->Ask_0->device_token == row[0]->Text_0
        },
{
}

/// The document is encrypted under the identifier and the token of the device, for the context
/// that names the device and the version. The ciphertext is recorded as it is sent, as a push to
/// the device under a fresh identifier that is not yet received, and then sent to that device and
/// to no other. Whether it was reached is told.
pub proof fn law_push_is_recorded_as_it_is_sent(
    db: Database,
    device_id: String,
    group_id: Option<String>,
    version: u32,
    device_token: String,
    document: String,
    fresh: Fresh,
    first: PushStep,
    n: u64,
    second: PushStep,
    reached: bool,
    third: PushStep,
)
    requires
        (PushConfig::Encoding { device_id, group_id, version, device_token }).resumed(
            db,
            Reply::Text(document),
            fresh,
            first,
        ),
        first is Ask ==> (first->Ask_0).resumed(db, Reply::Affected(n), fresh, second),
        second is Ask ==> (second->Ask_0).resumed(db, Reply::Sent(reached), fresh, third),
    ensures
        first is Ask <==> encode_utf8(document@).len() <= SEAL_LIMIT,
        first is Done ==> first->Done_0 == Err::<bool, StatusCode>(
            StatusCode::InternalServerError,
        ),
        first is Ask ==> {
            let ciphertext = base64_text(
                sealed(
                    sha256_of(
                        encode_utf8(device_id@ + ":"@ + device_token@) + seq![0x3au8]
                            + encode_utf8("push:"@ + device_id@ + ":"@ + decimal(version as nat)),
                    ),
                    fresh.nonce_config@,
                    encode_utf8(document@),
                ),
            );
            &&& runs(
                first->Ask_1,
                "INSERT INTO config_pushes(id, device_id, group_id, config_snapshot, pushed_at, acked) VALUES(?1, ?2, ?3, ?4, ?5, 0)"@,
                seq![
                    SqlView::Text(fresh.id@),
                    SqlView::Text(device_id@),
                    nullable(group_id),
                    SqlView::Text(ciphertext),
                    SqlView::Integer(fresh.now),
                ],
            )
            &&& second is Ask
            &&& second->Ask_1 is Send
            &&& second->Ask_1->Send_device_id == device_id
            &&& second->Ask_1->Send_message is ConfigPush
            &&& second->Ask_1->Send_message->version == version
            &&& second->Ask_1->Send_message->encrypted_config@ == ciphertext
            &&& second->Ask_1->Send_message->nonce@ == base64_text(fresh.nonce_config@)
            &&& third == PushStep::Done(Ok(reached))
        },
{
}

} // verus!
