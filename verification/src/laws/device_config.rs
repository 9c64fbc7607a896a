//! The configuration that a device is told.
use vstd::prelude::*;
use vstd::string::*;

use crate::crypto::CryptoError;
use crate::db::device_config::{made_out, ConfigOutcome, DeviceConfig};
use crate::db::groups::is_restored;
use crate::db::{Database, DbError};
use crate::flow::{Reply, Step};
use crate::laws::upkeep::is_device_row;
use crate::laws::{gives, gives_none, reads};
use crate::models::VntClientConfig;
use crate::sql::{Column, SqlValue, SqlView};

verus! {

/// A step of putting together what a device is told.
pub type ConfigStep = Step<DeviceConfig, ConfigOutcome>;

/// Whether a configuration is made out to the device in a row: the node is the network node of
/// the device where it has one and the device itself otherwise, the name is the device's, and the
/// address is the device's where it has one and the other one given otherwise.
pub open spec fn is_made_out_to(
    config: VntClientConfig,
    device_id: String,
    row: Seq<SqlValue>,
    other_ip: Option<String>,
) -> bool {
    &&& row[4] is Text ==> config.device_id == row[4]->Text_0
    &&& row[4] is Null ==> config.device_id == device_id
    &&& config.name == row[2]->Text_0
    &&& row[3] is Text ==> config.ip == Some(row[3]->Text_0)
    &&& row[3] is Null ==> config.ip == other_ip
}

/// Whether a step tells a device its group, a version and a configuration.
pub open spec fn tells(step: ConfigStep, group_id: Option<String>, version: int) -> bool {
    &&& step is Done
    &&& step->Done_0 is Ok
    &&& step->Done_0->Ok_0 is Some
    &&& step->Done_0->Ok_0->Some_0.group_id == group_id
    &&& step->Done_0->Ok_0->Some_0.version == version
}

/// Whether a step fails because what is stored cannot be decrypted.
pub open spec fn is_undecipherable(step: ConfigStep) -> bool {
    &&& step is Done
    &&& step->Done_0 is Err
    &&& step->Done_0->Err_0 is Crypto
}

/// Whether the configuration in a step agrees with another one in all that is neither a secret
/// nor the device's own.
pub open spec fn keeps_the_rest(told: VntClientConfig, stored: VntClientConfig) -> bool {
    told == VntClientConfig {
        token: told.token,
        server_address: told.server_address,
        password: told.password,
        device_id: told.device_id,
        name: told.name,
        ip: told.ip,
        ..stored
    }
}

/// Whether a configuration is the one where nothing is set, but for node, name and address.
pub open spec fn is_otherwise_default(config: VntClientConfig) -> bool {
    exists|base: VntClientConfig| #[trigger]
        base.is_default() && config == (VntClientConfig {
            device_id: config.device_id,
            name: config.name,
            ip: config.ip,
            ..base
        })
}

/// What a device is told comes from the row of the device and from the configuration that is
/// stored for its group. Group and version are those in the row, the version being one more than
/// the device has where the row names none of a group. Node, name and address are the device's as
/// far as it has them; where it has no node the node is the device itself, and where it has no
/// address it is the group's. Without a stored configuration the address is the device's or none.
pub proof fn law_config_is_made_out_to_the_device(
    db: Database,
    device_id: String,
    found: Reply,
    row: Seq<SqlValue>,
    first: ConfigStep,
    plain: VntClientConfig,
    second: ConfigStep,
)
    requires
        (DeviceConfig::Looking { device_id, override_group_id: None }).resumed(db, found, first),
        gives(found, row),
        is_device_row(row),
        row[6] is Integer || row[5]->Integer_0 < i64::MAX,
        first is Ask ==> (first->Ask_0).resumed(db, Reply::Config(plain), second),
    ensures
        ({
            let group = if row[1] is Text {
                Some(row[1]->Text_0)
            } else {
                None
            };
            let version: int = if row[6] is Integer {
                row[6]->Integer_0 as int
            } else {
                row[5]->Integer_0 + 1
            };
            if row[1] is Null || row[10] is Null {
                &&& tells(first, group, version)
                &&& is_made_out_to(first->Done_0->Ok_0->Some_0.config, device_id, row, None)
                &&& is_otherwise_default(first->Done_0->Ok_0->Some_0.config)
            } else {
                ||| is_undecipherable(first)
                ||| first is Ask && first->Ask_1 is DecodeConfig && (is_undecipherable(second) || {
                    &&& tells(second, group, version)
                    &&& is_made_out_to(
                        second->Done_0->Ok_0->Some_0.config,
                        device_id,
                        row,
                        plain.ip,
                    )
                    &&& keeps_the_rest(second->Done_0->Ok_0->Some_0.config, plain)
                })
            }
        }),
{
    if first is Ask {
        lemma_decoded(db, first->Ask_0, plain, second);
    }
}

/// With another group in place of its own, a device is told that group with that group's version,
/// made out in the same way; a group that is not there is not found.
pub proof fn law_config_of_another_group_is_made_out_to_the_device(
    db: Database,
    device_id: String,
    other: String,
    found: Reply,
    row: Seq<SqlValue>,
    first: ConfigStep,
    group_found: Reply,
    group_row: Seq<SqlValue>,
    second: ConfigStep,
    plain: VntClientConfig,
    third: ConfigStep,
)
    requires
        (DeviceConfig::Looking { device_id, override_group_id: Some(other) }).resumed(
            db,
            found,
            first,
        ),
        gives(found, row),
        is_device_row(row),
        first is Ask ==> (first->Ask_0).resumed(db, group_found, second),
        gives_none(group_found) || {
            &&& gives(group_found, group_row)
            &&& group_row.len() == 5
            &&& group_row[0] is Integer
            &&& group_row[1] is Text || group_row[1] is Null
            &&& group_row[2] is Text || group_row[2] is Null
            &&& group_row[3] is Text || group_row[3] is Null
            &&& group_row[4] is Text || group_row[4] is Null
        },
        second is Ask ==> (second->Ask_0).resumed(db, Reply::Config(plain), third),
    ensures
        first is Ask,
        reads(
            first->Ask_1,
            "SELECT config_version, encrypted_token, encrypted_server, encrypted_password, extra_config FROM groups WHERE id = ?1"@,
            seq![SqlView::Text(other@)],
            seq![
                Column::Integer,
                Column::OptionalText,
                Column::OptionalText,
                Column::OptionalText,
                Column::OptionalText,
            ],
        ),
        gives_none(group_found) ==> second == ConfigStep::Done(Err(DbError::GroupNotFound)),
        gives(group_found, group_row) ==> if group_row[4] is Null {
            &&& tells(second, Some(other), group_row[0]->Integer_0 as int)
            &&& is_made_out_to(second->Done_0->Ok_0->Some_0.config, device_id, row, None)
            &&& is_otherwise_default(second->Done_0->Ok_0->Some_0.config)
        } else {
            ||| is_undecipherable(second)
            ||| second is Ask && second->Ask_1 is DecodeConfig && (is_undecipherable(third) || {
                &&& tells(third, Some(other), group_row[0]->Integer_0 as int)
                &&& is_made_out_to(
                    third->Done_0->Ok_0->Some_0.config,
                    device_id,
                    row,
                    plain.ip,
                )
                &&& keeps_the_rest(third->Done_0->Ok_0->Some_0.config, plain)
            })
        },
{
    if second is Ask {
        lemma_decoded(db, second->Ask_0, plain, third);
    }
}

/// What comes of a configuration that was read: it is made out to the device, or it cannot be
/// decrypted.
proof fn lemma_decoded(
    db: Database,
    state: DeviceConfig,
    plain: VntClientConfig,
    step: ConfigStep,
)
    requires
        state is Decoding,
        state.resumed(db, Reply::Config(plain), step),
    ensures
        is_undecipherable(step) || {
            &&& tells(
                step,
                Some(state->Decoding_group_id),
                state->Decoding_version as int,
            )
            &&& exists|base: VntClientConfig|
                base.ip == plain.ip && keeps_the_rest(base, plain) && #[trigger] made_out(
                    base,
                    state->Decoding_device,
                    step->Done_0->Ok_0->Some_0.config,
                )
        },
{
    let device = state->Decoding_device;
    let group_id = state->Decoding_group_id;
    let version = state->Decoding_version;
    let sealed = state->Decoding_sealed;
    let outcome = choose|outcome: Result<VntClientConfig, CryptoError>|
        #![trigger is_restored(db.master_key@, group_id@, plain, sealed, outcome)]
        {
            &&& is_restored(db.master_key@, group_id@, plain, sealed, outcome)
            &&& match outcome {
                Ok(base) => {
                    &&& step matches Step::Done(Ok(Some(effective)))
                    &&& effective.group_id == Some(group_id)
                    &&& effective.version == version
                    &&& made_out(base, device, effective.config)
                },
                Err(e) => step == ConfigStep::Done(Err(DbError::Crypto(e))),
            }
        };
    if let Ok(base) = outcome {
        assert(made_out(base, device, step->Done_0->Ok_0->Some_0.config));
    }
}

} // verus!
