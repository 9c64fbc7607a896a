//! The configuration that a device is to run with.
use vstd::prelude::*;
use vstd::string::*;

use crate::crypto::CryptoError;
use crate::db::group_store::{sealed_at, sealed_cells, view_of};
use crate::db::groups::{
    field_of, is_restored, is_stripped, law_sealed_config_restored, open_extra, recoverable,
    restore_secrets, SealedConfig,
};
use crate::db::{Database, DbError};
use crate::flow;
use crate::flow::{Call, Reply, Step};
use crate::models::VntClientConfig;
use crate::sql;
use crate::sql::{Column, Query, QueryView, Row, SqlValue, Statement};

verus! {

/// A device with the encrypted configuration of its group, as far as it has one.
#[derive(Debug)]
pub struct DeviceRecord {
    pub id: String,
    pub group_id: Option<String>,
    pub display_name: String,
    pub network_ip: Option<String>,
    pub network_node_id: Option<String>,
    pub config_version: i64,
    pub group_version: Option<i64>,
    pub sealed: SealedConfig,
}

/// The device in a row of `select_device`.
pub open spec fn device_record(row: Seq<SqlValue>) -> Option<DeviceRecord> {
    match (
        sql::text_cell(row, 0),
        sql::optional_text_cell(row, 1),
        sql::text_cell(row, 2),
        sql::optional_text_cell(row, 3),
        sql::optional_text_cell(row, 4),
        sql::integer_cell(row, 5),
        sql::optional_integer_cell(row, 6),
        sealed_cells(row, 7),
    ) {
        (
            Some(id),
            Some(group_id),
            Some(display_name),
            Some(network_ip),
            Some(network_node_id),
            Some(config_version),
            Some(group_version),
            Some(sealed),
        ) => Some(
            DeviceRecord {
                id,
                group_id,
                display_name,
                network_ip,
                network_node_id,
                config_version,
                group_version,
                sealed,
            },
        ),
        _ => None,
    }
}

fn read_device_record(row: &Row) -> (record: Option<DeviceRecord>)
    ensures
        record == device_record(row@),
{
    match (
        sql::text_at(row, 0),
        sql::optional_text_at(row, 1),
        sql::text_at(row, 2),
        sql::optional_text_at(row, 3),
        sql::optional_text_at(row, 4),
        sql::integer_at(row, 5),
        sql::optional_integer_at(row, 6),
        sealed_at(row, 7),
    ) {
        (
            Some(id),
            Some(group_id),
            Some(display_name),
            Some(network_ip),
            Some(network_node_id),
            Some(config_version),
            Some(group_version),
            Some(sealed),
        ) => Some(
            DeviceRecord {
                id,
                group_id,
                display_name,
                network_ip,
                network_node_id,
                config_version,
                group_version,
                sealed,
            },
        ),
        _ => None,
    }
}

/// The version and the encrypted configuration in a row of `select_override`.
pub open spec fn override_record(row: Seq<SqlValue>) -> Option<(i64, SealedConfig)> {
    match (sql::integer_cell(row, 0), sealed_cells(row, 1)) {
        (Some(version), Some(sealed)) => Some((version, sealed)),
        _ => None,
    }
}

fn read_override_record(row: &Row) -> (record: Option<(i64, SealedConfig)>)
    ensures
        record == override_record(row@),
{
    match (sql::integer_at(row, 0), sealed_at(row, 1)) {
        (Some(version), Some(sealed)) => Some((version, sealed)),
        _ => None,
    }
}

/// Text of the query for a device and its group.
pub const SELECT_DEVICE: &'static str =
    "SELECT d.id, d.group_id, d.display_name, d.network_ip, d.network_node_id, d.config_version, g.config_version, g.encrypted_token, g.encrypted_server, g.encrypted_password, g.extra_config FROM devices d LEFT JOIN groups g ON d.group_id = g.id WHERE d.id = ?1";

/// Finds a device and its group.
pub open spec fn select_device(device_id: Seq<char>) -> QueryView {
    sql::query(sql::statement(SELECT_DEVICE@).text(device_id)).column(Column::Text).column(
        Column::OptionalText,
    ).column(Column::Text).column(Column::OptionalText).column(Column::OptionalText).column(
        Column::Integer,
    ).column(Column::OptionalInteger).column(Column::OptionalText).column(
        Column::OptionalText,
    ).column(Column::OptionalText).column(Column::OptionalText)
}

/// Text of the query for the configuration of a group.
pub const SELECT_OVERRIDE: &'static str =
    "SELECT config_version, encrypted_token, encrypted_server, encrypted_password, extra_config FROM groups WHERE id = ?1";

/// Finds the configuration of a group.
pub open spec fn select_override(group_id: Seq<char>) -> QueryView {
    sql::query(sql::statement(SELECT_OVERRIDE@).text(group_id)).column(Column::Integer).column(
        Column::OptionalText,
    ).column(Column::OptionalText).column(Column::OptionalText).column(Column::OptionalText)
}

/// What a device is to run with: its group, the version and the configuration.
#[derive(Debug)]
pub struct EffectiveConfig {
    pub group_id: Option<String>,
    pub version: i64,
    pub config: VntClientConfig,
}

/// What of a device goes into its configuration.
#[derive(Debug)]
pub struct DeviceTraits {
    pub device_id: String,
    pub display_name: String,
    pub network_ip: Option<String>,
    pub network_node_id: Option<String>,
}

/// The configuration of a group made out to one device: the node is the network node of the
/// device or else the device itself, the name is the device's, and so is the address where the
/// device has one.
pub open spec fn made_out(
    base: VntClientConfig,
    device: DeviceTraits,
    config: VntClientConfig,
) -> bool {
    config == VntClientConfig {
        device_id: match device.network_node_id {
            Some(node) => node,
            None => device.device_id,
        },
        name: device.display_name,
        ip: match device.network_ip {
            Some(ip) => Some(ip),
            None => base.ip,
        },
        ..base
    }
}

fn make_out(base: VntClientConfig, device: DeviceTraits) -> (config: VntClientConfig)
    ensures
        made_out(base, device, config),
{
    let mut config = base;
    config.device_id = match device.network_node_id {
        Some(node) => node,
        None => device.device_id,
    };
    config.name = device.display_name;
    if let Some(ip) = device.network_ip {
        config.ip = Some(ip);
    }
    config
}

/// The outcome of a search for the configuration of a device.
pub type ConfigOutcome = Result<Option<EffectiveConfig>, DbError>;

/// The configuration of a device being put together.
#[derive(Debug)]
pub enum DeviceConfig {
    /// The device is being looked up.
    Looking { device_id: String, override_group_id: Option<String> },
    /// The group that replaces the device's own is being looked up.
    Overriding { device: DeviceTraits, group_id: String },
    /// The JSON document of the configuration is being read.
    Decoding { device: DeviceTraits, group_id: String, version: i64, sealed: SealedConfig },
}

impl DeviceConfig {
    /// The step once version and encrypted configuration are known. A device without a group,
    /// or whose group has no stored configuration, gets the default.
    pub open spec fn composed(
        master: Seq<char>,
        device: DeviceTraits,
        group_id: Option<String>,
        version: i64,
        sealed: SealedConfig,
        step: Step<DeviceConfig, ConfigOutcome>,
    ) -> bool {
        let json = match group_id {
            Some(id) => field_of(master, id@, "config"@, sealed.extra),
            None => None,
        };
        match json {
            None => {
                &&& step matches Step::Done(Ok(Some(effective)))
                &&& effective.group_id == group_id
                &&& effective.version == version
                &&& exists|base: VntClientConfig|
                    base.is_default() && #[trigger] made_out(base, device, effective.config)
            },
            Some(Err(e)) => step == Step::<DeviceConfig, ConfigOutcome>::Done(
                Err(DbError::Crypto(e)),
            ),
            Some(Ok(text)) => {
                &&& step matches Step::Ask(state, Call::DecodeConfig(document))
                &&& state == (DeviceConfig::Decoding {
                    device,
                    group_id: group_id->Some_0,
                    version,
                    sealed,
                })
                &&& document@ == text
            },
        }
    }

    /// How the search goes on with a reply. The version is the group's, or else one more than
    /// the device has.
    pub open spec fn resumed(
        self,
        db: Database,
        reply: Reply,
        step: Step<DeviceConfig, ConfigOutcome>,
    ) -> bool {
        match self {
            DeviceConfig::Looking { device_id, override_group_id } => match flow::row_of(reply) {
                None => step == Step::<DeviceConfig, ConfigOutcome>::Done(Err(DbError::Failed)),
                Some(None) => step == Step::<DeviceConfig, ConfigOutcome>::Done(Ok(None)),
                Some(Some(row)) => match device_record(row) {
                    None => step == Step::<DeviceConfig, ConfigOutcome>::Done(
                        Err(DbError::Failed),
                    ),
                    Some(record) => {
                        let device = DeviceTraits {
                            device_id,
                            display_name: record.display_name,
                            network_ip: record.network_ip,
                            network_node_id: record.network_node_id,
                        };
                        match override_group_id {
                            Some(group_id) => {
                                &&& step matches Step::Ask(state, call)
                                &&& state == (DeviceConfig::Overriding { device, group_id })
                                &&& call.fetches(select_override(group_id@))
                            },
                            None => match record.group_version {
                                Some(version) => DeviceConfig::composed(
                                    db.master_key@,
                                    device,
                                    record.group_id,
                                    version,
                                    record.sealed,
                                    step,
                                ),
                                None => if record.config_version == i64::MAX {
                                    step == Step::<DeviceConfig, ConfigOutcome>::Done(
                                        Err(DbError::VersionExhausted),
                                    )
                                } else {
                                    DeviceConfig::composed(
                                        db.master_key@,
                                        device,
                                        record.group_id,
                                        (record.config_version + 1) as i64,
                                        record.sealed,
                                        step,
                                    )
                                },
                            },
                        }
                    },
                },
            },
            DeviceConfig::Overriding { device, group_id } => match flow::row_of(reply) {
                None => step == Step::<DeviceConfig, ConfigOutcome>::Done(Err(DbError::Failed)),
                Some(None) => step == Step::<DeviceConfig, ConfigOutcome>::Done(
                    Err(DbError::GroupNotFound),
                ),
                Some(Some(row)) => match override_record(row) {
                    None => step == Step::<DeviceConfig, ConfigOutcome>::Done(
                        Err(DbError::Failed),
                    ),
                    Some((version, sealed)) => DeviceConfig::composed(
                        db.master_key@,
                        device,
                        Some(group_id),
                        version,
                        sealed,
                        step,
                    ),
                },
            },
            DeviceConfig::Decoding { device, group_id, version, sealed } =>
            match flow::config_of(reply) {
                None => step == Step::<DeviceConfig, ConfigOutcome>::Done(Err(DbError::Failed)),
                Some(plain) => exists|outcome: Result<VntClientConfig, CryptoError>|
                    #![trigger is_restored(db.master_key@, group_id@, plain, sealed, outcome)]
                    {
                        &&& is_restored(db.master_key@, group_id@, plain, sealed, outcome)
                        &&& match outcome {
                            Ok(base) => {
                                &&& step matches Step::Done(Ok(Some(effective)))
                                &&& effective.group_id == Some(group_id)
                                &&& effective.version == version
                                &&& made_out(base, device, effective.config)
                            },
                            Err(e) => step == Step::<DeviceConfig, ConfigOutcome>::Done(
                                Err(DbError::Crypto(e)),
                            ),
                        }
                    },
            },
        }
    }

    fn compose(
        master: &str,
        device: DeviceTraits,
        group_id: Option<String>,
        version: i64,
        sealed: SealedConfig,
    ) -> (step: Step<DeviceConfig, ConfigOutcome>)
        ensures
            DeviceConfig::composed(master@, device, group_id, version, sealed, step),
    {
        let json = match &group_id {
            Some(id) => open_extra(master, id.as_str(), &sealed),
            None => None,
        };
        match (json, group_id) {
            (Some(Err(e)), _) => Step::Done(Err(DbError::Crypto(e))),
            (Some(Ok(document)), Some(id)) => Step::Ask(
                DeviceConfig::Decoding { device, group_id: id, version, sealed },
                Call::DecodeConfig(document),
            ),
            (_, group_id) => {
                let base = VntClientConfig::default();
                let config = make_out(base, device);
                assert(base.is_default() && made_out(base, device, config));
                Step::Done(Ok(Some(EffectiveConfig { group_id, version, config })))
            },
        }
    }

    /// Takes the reply and goes on.
    pub fn resume(self, db: &Database, reply: Reply) -> (step: Step<DeviceConfig, ConfigOutcome>)
        ensures
            self.resumed(*db, reply, step),
    {
        match self {
            DeviceConfig::Looking { device_id, override_group_id } => {
                let row = match flow::first_row(reply) {
                    None => return Step::Done(Err(DbError::Failed)),
                    Some(None) => return Step::Done(Ok(None)),
                    Some(Some(row)) => row,
                };
                let record = match read_device_record(&row) {
                    Some(r) => r,
                    None => return Step::Done(Err(DbError::Failed)),
                };
                let device = DeviceTraits {
                    device_id,
                    display_name: record.display_name,
                    network_ip: record.network_ip,
                    network_node_id: record.network_node_id,
                };
                if let Some(group_id) = override_group_id {
                    let query = Query::new(
                        Statement::new(SELECT_OVERRIDE).text(group_id.as_str()),
                    ).column(Column::Integer).column(Column::OptionalText).column(
                        Column::OptionalText,
                    ).column(Column::OptionalText).column(Column::OptionalText);
                    return Step::Ask(
                        DeviceConfig::Overriding { device, group_id },
                        Call::Fetch(query),
                    );
                }
                let version = match record.group_version {
                    Some(v) => v,
                    None => {
                        if record.config_version == i64::MAX {
                            return Step::Done(Err(DbError::VersionExhausted));
                        }
                        record.config_version + 1
                    },
                };
                DeviceConfig::compose(
                    db.master_key.as_str(),
                    device,
                    record.group_id,
                    version,
                    record.sealed,
                )
            },
            DeviceConfig::Overriding { device, group_id } => {
                let row = match flow::first_row(reply) {
                    None => return Step::Done(Err(DbError::Failed)),
                    Some(None) => return Step::Done(Err(DbError::GroupNotFound)),
                    Some(Some(row)) => row,
                };
                match read_override_record(&row) {
                    None => Step::Done(Err(DbError::Failed)),
                    Some((version, sealed)) => DeviceConfig::compose(
                        db.master_key.as_str(),
                        device,
                        Some(group_id),
                        version,
                        sealed,
                    ),
                }
            },
            DeviceConfig::Decoding { device, group_id, version, sealed } => {
                let plain = match flow::config(reply) {
                    Some(c) => c,
                    None => return Step::Done(Err(DbError::Failed)),
                };
                let outcome = restore_secrets(
                    db.master_key.as_str(),
                    group_id.as_str(),
                    plain,
                    &sealed,
                );
                assert(is_restored(db.master_key@, group_id@, plain, sealed, outcome));
                match outcome {
                    Ok(base) => {
                        let config = make_out(base, device);
                        Step::Done(
                            Ok(Some(EffectiveConfig { group_id: Some(group_id), version, config })),
                        )
                    },
                    Err(e) => Step::Done(Err(DbError::Crypto(e))),
                }
            },
        }
    }
}

/// A device gets the configuration that was stored for its group: where the stored fields can be
/// decrypted to a configuration, the JSON document that is read is the one that was stored, and
/// once it is read as the stripped configuration, the device is told the token, the server and
/// the password of that configuration and everything else in it, made out to the device.
pub proof fn law_device_gets_the_stored_config(
    db: Database,
    config: VntClientConfig,
    json: Seq<char>,
    sealed: SealedConfig,
    device: DeviceTraits,
    group_id: String,
    version: i64,
    asked: Step<DeviceConfig, ConfigOutcome>,
    plain: VntClientConfig,
    step: Step<DeviceConfig, ConfigOutcome>,
)
    requires
        sealed.token is Some && sealed.server is Some && sealed.extra is Some,
        recoverable(db.master_key@, group_id@, config, json, view_of(sealed)),
        DeviceConfig::composed(db.master_key@, device, Some(group_id), version, sealed, asked),
        is_stripped(config, plain),
        (DeviceConfig::Decoding { device, group_id, version, sealed }).resumed(
            db,
            Reply::Config(plain),
            step,
        ),
    ensures
        asked is Ask,
        asked->Ask_0 == (DeviceConfig::Decoding { device, group_id, version, sealed }),
        asked->Ask_1 is DecodeConfig && asked->Ask_1->DecodeConfig_0@ == json,
        step is Done && step->Done_0 is Ok && step->Done_0->Ok_0 is Some,
        ({
            let told = step->Done_0->Ok_0->Some_0;
            &&& told.group_id == Some(group_id)
            &&& told.version == version
            &&& told.config.token@ == config.token@
            &&& told.config.server_address@ == config.server_address@
            &&& match (told.config.password, config.password) {
                (Some(a), Some(b)) => a@ == b@,
                (None, None) => true,
                _ => false,
            }
            &&& told.config.name == device.display_name
            &&& match device.network_node_id {
                Some(node) => told.config.device_id == node,
                None => told.config.device_id == device.device_id,
            }
            &&& match (device.network_ip, told.config.ip, config.ip) {
                (Some(ip), Some(t), _) => t == ip,
                (Some(_), None, _) => false,
                (None, Some(t), Some(c)) => t@ == c@,
                (None, None, None) => true,
                (None, _, _) => false,
            }
            &&& told.config.same_as(
                VntClientConfig {
                    token: told.config.token,
                    server_address: told.config.server_address,
                    password: told.config.password,
                    device_id: told.config.device_id,
                    name: told.config.name,
                    ip: told.config.ip,
                    ..config
                },
            )
        }),
{
    let outcome = choose|outcome: Result<VntClientConfig, CryptoError>|
        #![trigger is_restored(db.master_key@, group_id@, plain, sealed, outcome)]
        {
            &&& is_restored(db.master_key@, group_id@, plain, sealed, outcome)
            &&& match outcome {
                Ok(base) => {
                    &&& step matches Step::Done(Ok(Some(effective)))
                    &&& effective.group_id == Some(group_id)
                    &&& effective.version == version
                    &&& made_out(base, device, effective.config)
                },
                Err(e) => step == Step::<DeviceConfig, ConfigOutcome>::Done(
                    Err(DbError::Crypto(e)),
                ),
            }
        };
    law_sealed_config_restored(
        db.master_key@,
        group_id@,
        config,
        json,
        sealed,
        plain,
        outcome,
    );
}

impl Database {
    /// Begins to put together what a device is to run with: its own group's configuration, or
    /// that of another group.
    pub fn device_config(&self, device_id: String, override_group_id: Option<String>) -> (step:
        Step<DeviceConfig, ConfigOutcome>)
        ensures
            step matches Step::Ask(state, call) && state == (DeviceConfig::Looking {
                device_id,
                override_group_id,
            }) && call.fetches(select_device(device_id@)),
    {
        let query = Query::new(Statement::new(SELECT_DEVICE).text(device_id.as_str())).column(
            Column::Text,
        ).column(Column::OptionalText).column(Column::Text).column(Column::OptionalText).column(
            Column::OptionalText,
        ).column(Column::Integer).column(Column::OptionalInteger).column(
            Column::OptionalText,
        ).column(Column::OptionalText).column(Column::OptionalText).column(Column::OptionalText);
        Step::Ask(DeviceConfig::Looking { device_id, override_group_id }, Call::Fetch(query))
    }
}

} // verus!
