//! Groups and the configuration that their devices share.
//!
//! The network token, the server address and the password of a configuration are encrypted each
//! on its own; the rest is encrypted as one JSON document.
use vstd::prelude::*;
use vstd::string::*;

use crate::crypto;
use crate::crypto::CryptoError;
use crate::flow::Fresh;
use crate::models::VntClientConfig;
use crate::sql::SqlView;

verus! {

/// The context under which a field of a group is encrypted.
pub open spec fn group_context(group_id: Seq<char>, field: Seq<char>) -> Seq<char> {
    "group:"@ + group_id + ":"@ + field
}

fn context_of(group_id: &str, field: &str) -> (context: String)
    ensures
        context@ == group_context(group_id@, field@),
{
    let mut context = "group:".to_string();
    context.append(group_id);
    context.append(":");
    context.append(field);
    context
}

/// The encrypted configuration of a group.
#[derive(Debug)]
pub struct SealedConfig {
    pub token: Option<String>,
    pub server: Option<String>,
    pub password: Option<String>,
    pub extra: Option<String>,
}

/// An encrypted configuration in specifications, complete but for the password.
pub struct SealedView {
    pub token: Seq<char>,
    pub server: Seq<char>,
    pub password: Option<Seq<char>>,
    pub extra: Seq<char>,
}

/// An optional text as a database value.
pub open spec fn option_value(text: Option<Seq<char>>) -> SqlView {
    match text {
        Some(t) => SqlView::Text(t),
        None => SqlView::Null,
    }
}

/// The configuration without what is encrypted apart from it.
pub open spec fn is_stripped(config: VntClientConfig, stripped: VntClientConfig) -> bool {
    &&& stripped.token@.len() == 0
    &&& stripped.server_address@.len() == 0
    &&& stripped.same_as(
        VntClientConfig {
            token: stripped.token,
            server_address: stripped.server_address,
            password: None,
            ..config
        },
    )
}

/// Copies a configuration without token, server address and password.
pub fn strip_secrets(config: &VntClientConfig) -> (stripped: VntClientConfig)
    ensures
        is_stripped(*config, stripped),
{
    let mut stripped = config.duplicate();
    stripped.token = String::new();
    stripped.server_address = String::new();
    stripped.password = None;
    stripped
}

/// Whether the cipher takes every part of a configuration.
pub open spec fn fits_all(config: VntClientConfig, json: Seq<char>) -> bool {
    &&& crypto::fits_cipher(config.token@)
    &&& crypto::fits_cipher(config.server_address@)
    &&& config.password matches Some(p) ==> crypto::fits_cipher(p@)
    &&& crypto::fits_cipher(json)
}

/// The encrypted form of a configuration whose stripped part has the given JSON text.
pub open spec fn sealed_view(
    master: Seq<char>,
    group_id: Seq<char>,
    config: VntClientConfig,
    json: Seq<char>,
    fresh: Fresh,
) -> SealedView {
    SealedView {
        token: crypto::stored_form(
            master,
            group_context(group_id, "token"@),
            config.token@,
            fresh.nonce_token@,
        ),
        server: crypto::stored_form(
            master,
            group_context(group_id, "server"@),
            config.server_address@,
            fresh.nonce_server@,
        ),
        password: match config.password {
            Some(p) => Some(
                crypto::stored_form(
                    master,
                    group_context(group_id, "password"@),
                    p@,
                    fresh.nonce_password@,
                ),
            ),
            None => None,
        },
        extra: crypto::stored_form(
            master,
            group_context(group_id, "config"@),
            json,
            fresh.nonce_config@,
        ),
    }
}

/// Whether every part of a configuration can be decrypted again.
pub open spec fn recoverable(
    master: Seq<char>,
    group_id: Seq<char>,
    config: VntClientConfig,
    json: Seq<char>,
    sealed: SealedView,
) -> bool {
    &&& crypto::decrypted(master, group_context(group_id, "token"@), sealed.token) == Ok::<
        Seq<char>,
        CryptoError,
    >(config.token@)
    &&& crypto::decrypted(master, group_context(group_id, "server"@), sealed.server) == Ok::<
        Seq<char>,
        CryptoError,
    >(config.server_address@)
    &&& match (config.password, sealed.password) {
        (Some(p), Some(s)) => crypto::decrypted(master, group_context(group_id, "password"@), s)
            == Ok::<Seq<char>, CryptoError>(p@),
        (None, None) => true,
        _ => false,
    }
    &&& crypto::decrypted(master, group_context(group_id, "config"@), sealed.extra) == Ok::<
        Seq<char>,
        CryptoError,
    >(json)
}

/// Encrypts an optional field under a given nonce.
pub fn encrypt_optional_field(
    master: &str,
    context: &str,
    value: &Option<String>,
    nonce: &[u8; 12],
) -> (sealed: Result<Option<String>, CryptoError>)
    ensures
        match (*value, sealed) {
            (None, Ok(None)) => true,
            (Some(v), Ok(Some(s))) => crypto::fits_cipher(v@) && s@ == crypto::stored_form(
                master@,
                context@,
                v@,
                nonce@,
            ) && crypto::decrypted(master@, context@, s@) == Ok::<Seq<char>, CryptoError>(v@),
            (Some(v), Err(e)) => !crypto::fits_cipher(v@) && e == CryptoError::EncryptFailed,
            _ => false,
        },
{
    match value {
        None => Ok(None),
        Some(v) => match crypto::encrypt_to_base64_with(master, context, v.as_str(), nonce) {
            Ok(s) => Ok(Some(s)),
            Err(e) => Err(e),
        },
    }
}

/// Encrypts every part of a configuration.
pub fn seal_config(
    master: &str,
    group_id: &str,
    config: &VntClientConfig,
    json: &str,
    fresh: &Fresh,
) -> (sealed: Result<SealedConfig, CryptoError>)
    ensures
        sealed is Ok <==> fits_all(*config, json@),
        sealed is Err ==> sealed == Err::<SealedConfig, CryptoError>(CryptoError::EncryptFailed),
        sealed matches Ok(s) ==> {
            let view = sealed_view(master@, group_id@, *config, json@, *fresh);
            &&& recoverable(master@, group_id@, *config, json@, view)
            &&& s.token is Some && s.token->Some_0@ == view.token
            &&& s.server is Some && s.server->Some_0@ == view.server
            &&& match (s.password, view.password) {
                (Some(a), Some(b)) => a@ == b,
                (None, None) => true,
                _ => false,
            }
            &&& s.extra is Some && s.extra->Some_0@ == view.extra
        },
{
    let token = match crypto::encrypt_to_base64_with(
        master,
        context_of(group_id, "token").as_str(),
        config.token.as_str(),
        &fresh.nonce_token,
    ) {
        Ok(s) => s,
        Err(e) => return Err(e),
    };
    let server = match crypto::encrypt_to_base64_with(
        master,
        context_of(group_id, "server").as_str(),
        config.server_address.as_str(),
        &fresh.nonce_server,
    ) {
        Ok(s) => s,
        Err(e) => return Err(e),
    };
    let password = match encrypt_optional_field(
        master,
        context_of(group_id, "password").as_str(),
        &config.password,
        &fresh.nonce_password,
    ) {
        Ok(s) => s,
        Err(e) => return Err(e),
    };
    let extra = match crypto::encrypt_to_base64_with(
        master,
        context_of(group_id, "config").as_str(),
        json,
        &fresh.nonce_config,
    ) {
        Ok(s) => s,
        Err(e) => return Err(e),
    };
    Ok(SealedConfig { token: Some(token), server: Some(server), password, extra: Some(extra) })
}

/// What a field decrypts to, where it is stored.
pub open spec fn field_of(
    master: Seq<char>,
    group_id: Seq<char>,
    field: Seq<char>,
    value: Option<String>,
) -> Option<Result<Seq<char>, CryptoError>> {
    match value {
        Some(v) => Some(crypto::decrypted(master, group_context(group_id, field), v@)),
        None => None,
    }
}

/// Whether an outcome is the configuration with the stored secrets put back, or the error of the
/// first secret that cannot be decrypted.
pub open spec fn is_restored(
    master: Seq<char>,
    group_id: Seq<char>,
    config: VntClientConfig,
    sealed: SealedConfig,
    outcome: Result<VntClientConfig, CryptoError>,
) -> bool {
    let token = field_of(master, group_id, "token"@, sealed.token);
    let server = field_of(master, group_id, "server"@, sealed.server);
    let password = field_of(master, group_id, "password"@, sealed.password);
    match (token, server, password) {
        (Some(Err(e)), _, _) => outcome == Err::<VntClientConfig, CryptoError>(e),
        (_, Some(Err(e)), _) => outcome == Err::<VntClientConfig, CryptoError>(e),
        (_, _, Some(Err(e))) => outcome == Err::<VntClientConfig, CryptoError>(e),
        _ => outcome matches Ok(c) && {
            &&& c == VntClientConfig {
                token: c.token,
                server_address: c.server_address,
                password: c.password,
                ..config
            }
            &&& match token {
                Some(Ok(t)) => c.token@ == t,
                _ => c.token == config.token,
            }
            &&& match server {
                Some(Ok(s)) => c.server_address@ == s,
                _ => c.server_address == config.server_address,
            }
            &&& match password {
                Some(Ok(p)) => c.password is Some && c.password->Some_0@ == p,
                _ => c.password == config.password,
            }
        },
    }
}

/// Decrypts a field, where it is stored.
fn open_field(master: &str, group_id: &str, field: &str, value: &Option<String>) -> (plain: Result<
    Option<String>,
    CryptoError,
>)
    ensures
        match (field_of(master@, group_id@, field@, *value), plain) {
            (None, Ok(None)) => true,
            (Some(Ok(t)), Ok(Some(p))) => p@ == t,
            (Some(Err(e)), Err(f)) => e == f,
            _ => false,
        },
{
    match value {
        None => Ok(None),
        Some(v) => match crypto::decrypt_from_base64(
            master,
            context_of(group_id, field).as_str(),
            v.as_str(),
        ) {
            Ok(t) => Ok(Some(t)),
            Err(e) => Err(e),
        },
    }
}

/// Puts the stored secrets back into a configuration.
pub fn restore_secrets(
    master: &str,
    group_id: &str,
    config: VntClientConfig,
    sealed: &SealedConfig,
) -> (outcome: Result<VntClientConfig, CryptoError>)
    ensures
        is_restored(master@, group_id@, config, *sealed, outcome),
{
    let token = match open_field(master, group_id, "token", &sealed.token) {
        Ok(t) => t,
        Err(e) => return Err(e),
    };
    let server = match open_field(master, group_id, "server", &sealed.server) {
        Ok(t) => t,
        Err(e) => return Err(e),
    };
    let password = match open_field(master, group_id, "password", &sealed.password) {
        Ok(t) => t,
        Err(e) => return Err(e),
    };
    let mut restored = config;
    if let Some(t) = token {
        restored.token = t;
    }
    if let Some(t) = server {
        restored.server_address = t;
    }
    if let Some(t) = password {
        restored.password = Some(t);
    }
    Ok(restored)
}

/// Decrypts the JSON document of a configuration, where one is stored.
pub fn open_extra(master: &str, group_id: &str, sealed: &SealedConfig) -> (json: Option<
    Result<String, CryptoError>,
>)
    ensures
        match (field_of(master@, group_id@, "config"@, sealed.extra), json) {
            (Some(expected), Some(outcome)) => crypto::outcome_is(outcome, expected),
            (None, None) => true,
            _ => false,
        },
{
    match &sealed.extra {
        None => None,
        Some(v) => Some(
            crypto::decrypt_from_base64(
                master,
                context_of(group_id, "config").as_str(),
                v.as_str(),
            ),
        ),
    }
}

/// Whether two configurations hold the same, secrets and all.
pub open spec fn same_config(a: VntClientConfig, b: VntClientConfig) -> bool {
    &&& a.token@ == b.token@
    &&& a.server_address@ == b.server_address@
    &&& match (a.password, b.password) {
        (Some(p), Some(q)) => p@ == q@,
        (None, None) => true,
        _ => false,
    }
    &&& a.same_as(
        VntClientConfig {
            token: a.token,
            server_address: a.server_address,
            password: a.password,
            ..b
        },
    )
}

/// Token, server address, password and document of a group are each encrypted on their own: no
/// two of the contexts that their keys are derived from are the same.
pub proof fn law_secrets_are_encrypted_apart(group_id: Seq<char>)
    ensures
        group_context(group_id, "token"@) != group_context(group_id, "server"@),
        group_context(group_id, "token"@) != group_context(group_id, "password"@),
        group_context(group_id, "token"@) != group_context(group_id, "config"@),
        group_context(group_id, "server"@) != group_context(group_id, "password"@),
        group_context(group_id, "server"@) != group_context(group_id, "config"@),
        group_context(group_id, "password"@) != group_context(group_id, "config"@),
{
    reveal_strlit("token");
    reveal_strlit("server");
    reveal_strlit("password");
    reveal_strlit("config");
    let n = ("group:"@ + group_id + ":"@).len() as int;
    assert(group_context(group_id, "token"@)[n] == 't');
    assert(group_context(group_id, "server"@)[n] == 's');
    assert(group_context(group_id, "password"@)[n] == 'p');
    assert(group_context(group_id, "config"@)[n] == 'c');
}

/// What was encrypted for a group comes back: where the stored fields can be decrypted to a
/// configuration's secrets, putting them back into the stripped configuration gives that
/// configuration.
pub proof fn law_sealed_config_restored(
    master: Seq<char>,
    group_id: Seq<char>,
    config: VntClientConfig,
    json: Seq<char>,
    sealed: SealedConfig,
    stripped: VntClientConfig,
    outcome: Result<VntClientConfig, CryptoError>,
)
    requires
        sealed.token is Some && sealed.server is Some && sealed.extra is Some,
        recoverable(
            master,
            group_id,
            config,
            json,
            SealedView {
                token: sealed.token->Some_0@,
                server: sealed.server->Some_0@,
                password: match sealed.password {
                    Some(p) => Some(p@),
                    None => None,
                },
                extra: sealed.extra->Some_0@,
            },
        ),
        is_stripped(config, stripped),
        is_restored(master, group_id, stripped, sealed, outcome),
    ensures
        outcome is Ok,
        same_config(outcome->Ok_0, config),
{
}

} // verus!
