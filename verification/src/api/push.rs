//! Sending a device the configuration it is to run with.
use vstd::prelude::*;
use vstd::string::*;

use crate::crypto;
use crate::crypto::CryptoError;
use crate::db::device_config;
use crate::db::device_config::{ConfigOutcome, DeviceConfig, EffectiveConfig};
use crate::db::Database;
use crate::flow;
use crate::flow::{Call, Fresh, PushDocument, Reply, Step};
use crate::models::{copy_option, ServerMessage};
use crate::outside;
use crate::sql;
use crate::sql::{Column, Query, QueryView, Statement, StatementView};
use crate::status::StatusCode;

verus! {

/// Text of the query for the name of a group.
pub const SELECT_GROUP_NAME: &'static str = "SELECT name FROM groups WHERE id = ?1";

/// Finds the name of a group.
pub open spec fn select_group_name(group_id: Seq<char>) -> QueryView {
    sql::query(sql::statement(SELECT_GROUP_NAME@).text(group_id)).column(Column::Text)
}

/// Text of the query for the token of a device.
pub const SELECT_DEVICE_TOKEN: &'static str = "SELECT device_token FROM devices WHERE id = ?1";

/// Finds the token of a device.
pub open spec fn select_device_token(device_id: Seq<char>) -> QueryView {
    sql::query(sql::statement(SELECT_DEVICE_TOKEN@).text(device_id)).column(Column::Text)
}

/// Text of the statement that records a push.
pub const INSERT_PUSH: &'static str =
    "INSERT INTO config_pushes(id, device_id, group_id, config_snapshot, pushed_at, acked) VALUES(?1, ?2, ?3, ?4, ?5, 0)";

/// Records a push that is not yet received.
pub open spec fn insert_push(
    id: Seq<char>,
    device_id: Seq<char>,
    group_id: Option<String>,
    snapshot: Seq<char>,
    now: i64,
) -> StatementView {
    sql::statement(INSERT_PUSH@).text(id).text(device_id).text_option(group_id).text(
        snapshot,
    ).integer(now)
}

/// A configuration on its way to a device.
#[derive(Debug)]
pub enum PushConfig {
    /// The configuration is being put together.
    Composing { device_id: String, inner: DeviceConfig },
    /// The name of the group is being looked up.
    Naming { device_id: String, effective: EffectiveConfig },
    /// The token of the device is being looked up.
    Unlocking { device_id: String, effective: EffectiveConfig, config_name: Option<String> },
    /// The configuration is being written as JSON.
    Encoding { device_id: String, group_id: Option<String>, version: u32, device_token: String },
    /// The push is being recorded.
    Recording { device_id: String, message: ServerMessage },
    /// The push is being sent.
    Sending,
}

/// Whether the configuration reached the device, or the status that the push fails with.
pub type PushOutcome = Result<bool, StatusCode>;

/// A step of a push.
pub type PushStep = Step<PushConfig, PushOutcome>;

/// Whether a message carries a document to a device: encrypted under the secret that the device
/// shares, so that the device can decrypt it.
pub open spec fn carries(
    message: ServerMessage,
    device_id: Seq<char>,
    device_token: Seq<char>,
    version: u32,
    document: Seq<char>,
    nonce_bytes: Seq<u8>,
) -> bool {
    &&& message matches ServerMessage::ConfigPush { version: v, encrypted_config, nonce }
    &&& v == version
    &&& encrypted_config@ == crypto::ciphertext_of(
        crypto::push_key_material(device_id, device_token),
        crypto::push_context(device_id, version),
        document,
        nonce_bytes,
    )
    &&& nonce@ == outside::base64_text(nonce_bytes)
    &&& crypto::decrypted_parts(
        crypto::push_key_material(device_id, device_token),
        crypto::push_context(device_id, version),
        encrypted_config@,
        nonce@,
    ) == Ok::<Seq<char>, CryptoError>(document)
}

impl PushConfig {
    /// The step that looks up the token of the device.
    pub open spec fn unlocks(
        device_id: String,
        effective: EffectiveConfig,
        config_name: Option<String>,
        step: PushStep,
    ) -> bool {
        &&& step matches Step::Ask(state, call)
        &&& state == (PushConfig::Unlocking { device_id, effective, config_name })
        &&& call.fetches(select_device_token(device_id@))
    }

    /// The step when the search for the configuration of the device has taken one.
    pub open spec fn composed(
        device_id: String,
        sub: Step<DeviceConfig, ConfigOutcome>,
        step: PushStep,
    ) -> bool {
        match sub {
            Step::Ask(inner, call) => step == PushStep::Ask(
                PushConfig::Composing { device_id, inner },
                call,
            ),
            Step::Done(Err(_)) => step == PushStep::Done(Err(StatusCode::InternalServerError)),
            Step::Done(Ok(None)) => step == PushStep::Done(Err(StatusCode::NotFound)),
            Step::Done(Ok(Some(effective))) => match effective.group_id {
                Some(group_id) => {
                    &&& step matches Step::Ask(state, call)
                    &&& state == (PushConfig::Naming { device_id, effective })
                    &&& call.fetches(select_group_name(group_id@))
                },
                None => PushConfig::unlocks(device_id, effective, None, step),
            },
        }
    }

    /// The step that encrypts the document of a push and records it.
    pub open spec fn seals(
        device_id: String,
        group_id: Option<String>,
        version: u32,
        device_token: String,
        document: String,
        fresh: Fresh,
        step: PushStep,
    ) -> bool {
        if !crypto::fits_cipher(document@) {
            step == PushStep::Done(Err(StatusCode::InternalServerError))
        } else {
            &&& step matches Step::Ask(PushConfig::Recording { device_id: id, message }, call)
            &&& id == device_id
            &&& carries(
                message,
                device_id@,
                device_token@,
                version,
                document@,
                fresh.nonce_config@,
            )
            &&& call.executes(
                insert_push(
                    fresh.id@,
                    device_id@,
                    group_id,
                    message->encrypted_config@,
                    fresh.now,
                ),
            )
        }
    }

    /// The first step of a push: the configuration of the device is put together, with another
    /// group in place of its own where one is given.
    pub open spec fn started(device_id: String, group_id: Option<String>, step: PushStep) -> bool {
        &&& step matches Step::Ask(state, call)
        &&& state == (PushConfig::Composing {
            device_id,
            inner: DeviceConfig::Looking { device_id, override_group_id: group_id },
        })
        &&& call.fetches(device_config::select_device(device_id@))
    }

    /// How a push goes on with a reply: what the device is to run with is encrypted under the
    /// secret that it shares, recorded and sent.
    pub open spec fn resumed(
        self,
        db: Database,
        reply: Reply,
        fresh: Fresh,
        step: PushStep,
    ) -> bool {
        match self {
            PushConfig::Composing { device_id, inner } => exists|
                sub: Step<DeviceConfig, ConfigOutcome>,
            | #[trigger]
                inner.resumed(db, reply, sub) && PushConfig::composed(device_id, sub, step),
            PushConfig::Naming { device_id, effective } => match flow::row_of(reply) {
                None => step == PushStep::Done(Err(StatusCode::InternalServerError)),
                Some(None) => PushConfig::unlocks(device_id, effective, None, step),
                Some(Some(row)) => match sql::text_cell(row, 0) {
                    None => step == PushStep::Done(Err(StatusCode::InternalServerError)),
                    Some(name) => PushConfig::unlocks(device_id, effective, Some(name), step),
                },
            },
            PushConfig::Unlocking { device_id, effective, config_name } => match flow::row_of(
                reply,
            ) {
                None => step == PushStep::Done(Err(StatusCode::InternalServerError)),
                Some(None) => step == PushStep::Done(Err(StatusCode::NotFound)),
                Some(Some(row)) => match sql::text_cell(row, 0) {
                    None => step == PushStep::Done(Err(StatusCode::InternalServerError)),
                    Some(device_token) => step == PushStep::Ask(
                        PushConfig::Encoding {
                            device_id,
                            group_id: effective.group_id,
                            version: sql::low_u32(effective.version),
                            device_token,
                        },
                        Call::EncodePush(
                            PushDocument {
                                device_id,
                                group_id: effective.group_id,
                                config_name,
                                config_version: effective.version,
                                config: effective.config,
                            },
                        ),
                    ),
                },
            },
            PushConfig::Encoding { device_id, group_id, version, device_token } =>
            match flow::text_of(reply) {
                None => step == PushStep::Done(Err(StatusCode::InternalServerError)),
                Some(document) => PushConfig::seals(
                    device_id,
                    group_id,
                    version,
                    device_token,
                    document,
                    fresh,
                    step,
                ),
            },
            PushConfig::Recording { device_id, message } => match flow::affected_of(reply) {
                None => step == PushStep::Done(Err(StatusCode::InternalServerError)),
                Some(_) => step == PushStep::Ask(
                    PushConfig::Sending,
                    Call::Send { device_id, message },
                ),
            },
            PushConfig::Sending => step == PushStep::Done(
                match reply {
                    Reply::Sent(reached) => Ok(reached),
                    _ => Err(StatusCode::InternalServerError),
                },
            ),
        }
    }

    fn unlock(device_id: String, effective: EffectiveConfig, config_name: Option<String>) -> (step:
        PushStep)
        ensures
            PushConfig::unlocks(device_id, effective, config_name, step),
    {
        let query = Query::new(Statement::new(SELECT_DEVICE_TOKEN).text(device_id.as_str())).column(
            Column::Text,
        );
        Step::Ask(
            PushConfig::Unlocking { device_id, effective, config_name },
            Call::Fetch(query),
        )
    }

    fn compose(device_id: String, sub: Step<DeviceConfig, ConfigOutcome>) -> (step: PushStep)
        ensures
            PushConfig::composed(device_id, sub, step),
    {
        match sub {
            Step::Ask(inner, call) => Step::Ask(PushConfig::Composing { device_id, inner }, call),
            Step::Done(Err(_)) => Step::Done(Err(StatusCode::InternalServerError)),
            Step::Done(Ok(None)) => Step::Done(Err(StatusCode::NotFound)),
            Step::Done(Ok(Some(effective))) => {
                let query = match &effective.group_id {
                    Some(group_id) => Query::new(
                        Statement::new(SELECT_GROUP_NAME).text(group_id.as_str()),
                    ).column(Column::Text),
                    None => return PushConfig::unlock(device_id, effective, None),
                };
                Step::Ask(PushConfig::Naming { device_id, effective }, Call::Fetch(query))
            },
        }
    }

    fn seal(
        device_id: String,
        group_id: Option<String>,
        version: u32,
        device_token: String,
        document: String,
        fresh: Fresh,
    ) -> (step: PushStep)
        ensures
            PushConfig::seals(device_id, group_id, version, device_token, document, fresh, step),
    {
        let secret = crypto::device_push_key_material(device_id.as_str(), device_token.as_str());
        let context = crypto::device_push_context(device_id.as_str(), version);
        match crypto::encrypt_parts_with(
            secret.as_str(),
            context.as_str(),
            document.as_str(),
            &fresh.nonce_config,
        ) {
            Err(_) => Step::Done(Err(StatusCode::InternalServerError)),
            Ok((encrypted_config, nonce)) => {
                let statement = Statement::new(INSERT_PUSH).text(fresh.id.as_str()).text(
                    device_id.as_str(),
                ).text_option(&group_id).text(encrypted_config.as_str()).integer(fresh.now);
                let message = ServerMessage::ConfigPush { version, encrypted_config, nonce };
                Step::Ask(PushConfig::Recording { device_id, message }, Call::Execute(statement))
            },
        }
    }

    /// Takes the reply and goes on.
    pub fn resume(self, db: &Database, reply: Reply, fresh: Fresh) -> (step: PushStep)
        ensures
            self.resumed(*db, reply, fresh, step),
    {
        match self {
            PushConfig::Composing { device_id, inner } => {
                let sub = inner.resume(db, reply);
                assert(inner.resumed(*db, reply, sub));
                PushConfig::compose(device_id, sub)
            },
            PushConfig::Naming { device_id, effective } => match flow::first_row(reply) {
                None => Step::Done(Err(StatusCode::InternalServerError)),
                Some(None) => PushConfig::unlock(device_id, effective, None),
                Some(Some(row)) => match sql::text_at(&row, 0) {
                    None => Step::Done(Err(StatusCode::InternalServerError)),
                    Some(name) => PushConfig::unlock(device_id, effective, Some(name)),
                },
            },
            PushConfig::Unlocking { device_id, effective, config_name } => match flow::first_row(
                reply,
            ) {
                None => Step::Done(Err(StatusCode::InternalServerError)),
                Some(None) => Step::Done(Err(StatusCode::NotFound)),
                Some(Some(row)) => match sql::text_at(&row, 0) {
                    None => Step::Done(Err(StatusCode::InternalServerError)),
                    Some(device_token) => {
                        let version = sql::truncate_u32(effective.version);
                        let group_id = copy_option(&effective.group_id);
                        let document = PushDocument {
                            device_id: device_id.clone(),
                            group_id: effective.group_id,
                            config_name,
                            config_version: effective.version,
                            config: effective.config,
                        };
                        Step::Ask(
                            PushConfig::Encoding { device_id, group_id, version, device_token },
                            Call::EncodePush(document),
                        )
                    },
                },
            },
            PushConfig::Encoding { device_id, group_id, version, device_token } =>
            match flow::text(reply) {
                None => Step::Done(Err(StatusCode::InternalServerError)),
                Some(document) => PushConfig::seal(
                    device_id,
                    group_id,
                    version,
                    device_token,
                    document,
                    fresh,
                ),
            },
            PushConfig::Recording { device_id, message } => match flow::affected(reply) {
                None => Step::Done(Err(StatusCode::InternalServerError)),
                Some(_) => Step::Ask(PushConfig::Sending, Call::Send { device_id, message }),
            },
            PushConfig::Sending => match reply {
                Reply::Sent(reached) => Step::Done(Ok(reached)),
                _ => Step::Done(Err(StatusCode::InternalServerError)),
            },
        }
    }
}

/// Begins to send a device the configuration it is to run with.
pub fn push_config_to_device(db: &Database, device_id: String, group_id: Option<String>) -> (step:
    PushStep)
    ensures
        PushConfig::started(device_id, group_id, step),
{
    let sub = db.device_config(device_id.clone(), group_id);
    PushConfig::compose(device_id, sub)
}

/// What a device is sent is what it was to be told: with its own identifier and token, and the
/// version in the message, the device decrypts the message to the document of the push.
pub proof fn law_device_reads_its_push(
    device_id: String,
    group_id: Option<String>,
    version: u32,
    device_token: String,
    db: Database,
    reply: Reply,
    fresh: Fresh,
    step: PushStep,
)
    requires
        (PushConfig::Encoding { device_id, group_id, version, device_token }).resumed(
            db,
            reply,
            fresh,
            step,
        ),
        step is Ask,
    ensures
        step->Ask_0 is Recording,
        step->Ask_0->Recording_device_id == device_id,
        flow::text_of(reply) is Some,
        ({
            let message = step->Ask_0->message;
            &&& message is ConfigPush
            &&& crypto::decrypted_parts(
                crypto::push_key_material(device_id@, device_token@),
                crypto::push_context(device_id@, message->ConfigPush_version),
                message->encrypted_config@,
                message->nonce@,
            ) == Ok::<Seq<char>, CryptoError>(flow::text_of(reply)->Some_0@)
        }),
{
}

} // verus!
