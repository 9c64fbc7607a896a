//! Settings of the installation, among them its certificate.
use vstd::prelude::*;
use vstd::string::*;
use vstd::utf8::*;

use crate::db::{Database, DbError};
use crate::flow;
use crate::flow::{Call, Fresh, Reply, Step};
use crate::outside;
use crate::sql;
use crate::sql::{Column, Query, QueryView, Statement, StatementView};

verus! {

/// Text of the query for a setting.
pub const SELECT_SETTING: &'static str = "SELECT value FROM system_config WHERE key = ?1";

/// Finds a setting.
pub open spec fn select_setting(key: Seq<char>) -> QueryView {
    sql::query(sql::statement(SELECT_SETTING@).text(key)).column(Column::Text)
}

/// Text of the statement that stores a setting.
pub const STORE_SETTING: &'static str =
    "INSERT INTO system_config(key, value, updated_at) VALUES(?1, ?2, ?3) ON CONFLICT(key) DO UPDATE SET value = excluded.value, updated_at = excluded.updated_at";

/// Stores a setting, in place of the one that was there.
pub open spec fn store_setting(key: Seq<char>, value: Seq<char>, now: i64) -> StatementView {
    sql::statement(STORE_SETTING@).text(key).text(value).integer(now)
}

/// The setting in the reply to `select_setting`, as far as there is one.
pub open spec fn setting_of(reply: Reply) -> Result<Option<String>, DbError> {
    match flow::row_of(reply) {
        None => Err(DbError::Failed),
        Some(None) => Ok(None),
        Some(Some(row)) => match sql::text_cell(row, 0) {
            Some(value) => Ok(Some(value)),
            None => Err(DbError::Failed),
        },
    }
}

/// Takes the setting out of the reply to `select_setting`.
pub fn found_setting(reply: Reply) -> (value: Result<Option<String>, DbError>)
    ensures
        value == setting_of(reply),
{
    match flow::first_row(reply) {
        None => Err(DbError::Failed),
        Some(None) => Ok(None),
        Some(Some(row)) => match sql::text_at(&row, 0) {
            Some(value) => Ok(Some(value)),
            None => Err(DbError::Failed),
        },
    }
}

/// Key of the setting that holds the certificate.
pub const CERTIFICATE: &'static str = "tls_cert";

/// Key of the setting that holds the private key.
pub const PRIVATE_KEY: &'static str = "tls_key";

/// The names that the certificate is made out to.
pub fn certificate_names() -> (names: Vec<String>)
    ensures
        names@.len() == 4,
        names@[0]@ == "localhost"@,
        names@[1]@ == "127.0.0.1"@,
        names@[2]@ == "0.0.0.0"@,
        names@[3]@ == "::1"@,
{
    let mut names: Vec<String> = Vec::new();
    names.push("localhost".to_string());
    names.push("127.0.0.1".to_string());
    names.push("0.0.0.0".to_string());
    names.push("::1".to_string());
    names
}

/// Whether a stored value holds a PEM text: in base64, from which it can be decoded again.
pub open spec fn holds_pem(value: Seq<char>, pem: Seq<char>) -> bool {
    &&& value == outside::base64_text(encode_utf8(pem))
    &&& outside::base64_bytes(value) == Some(encode_utf8(pem))
}

/// The certificate being ensured.
#[derive(Debug)]
pub enum EnsureTlsCert {
    /// The certificate is being looked up.
    LookingForCertificate,
    /// The private key is being looked up.
    LookingForKey,
    /// The certificate is being stored; the private key, in base64, follows.
    StoringCertificate { key_value: String },
    /// The private key is being stored.
    StoringKey,
}

impl EnsureTlsCert {
    /// The first step: the certificate is looked up.
    pub open spec fn started(step: Step<EnsureTlsCert, Result<(), DbError>>) -> bool {
        step matches Step::Ask(EnsureTlsCert::LookingForCertificate, call) && call.fetches(
            select_setting(CERTIFICATE@),
        )
    }

    /// The step that begins to store a certificate and its private key, given as PEM texts.
    pub open spec fn stores(
        cert_pem: Seq<char>,
        key_pem: Seq<char>,
        now: i64,
        step: Step<EnsureTlsCert, Result<(), DbError>>,
    ) -> bool {
        &&& step matches Step::Ask(EnsureTlsCert::StoringCertificate { key_value }, call)
        &&& holds_pem(key_value@, key_pem)
        &&& holds_pem(outside::base64_text(encode_utf8(cert_pem)), cert_pem)
        &&& call.executes(
            store_setting(CERTIFICATE@, outside::base64_text(encode_utf8(cert_pem)), now),
        )
    }

    /// The step that begins to store a certificate and a private key made anew.
    pub open spec fn renews(now: i64, step: Step<EnsureTlsCert, Result<(), DbError>>) -> bool {
        ||| step == Step::<EnsureTlsCert, Result<(), DbError>>::Done(
            Err(DbError::CertificateFailed),
        )
        ||| exists|cert_pem: Seq<char>, key_pem: Seq<char>| #[trigger]
            EnsureTlsCert::stores(cert_pem, key_pem, now, step) && outside::begins_certificate(
                cert_pem,
            ) && outside::begins_private_key(key_pem)
    }

    /// How it goes on with a reply: where certificate or key is missing, both are made anew.
    pub open spec fn resumed(
        self,
        reply: Reply,
        fresh: Fresh,
        step: Step<EnsureTlsCert, Result<(), DbError>>,
    ) -> bool {
        match self {
            EnsureTlsCert::LookingForCertificate => match setting_of(reply) {
                Err(e) => step == Step::<EnsureTlsCert, Result<(), DbError>>::Done(Err(e)),
                Ok(Some(_)) => step matches Step::Ask(EnsureTlsCert::LookingForKey, call)
                    && call.fetches(select_setting(PRIVATE_KEY@)),
                Ok(None) => EnsureTlsCert::renews(fresh.now, step),
            },
            EnsureTlsCert::LookingForKey => match setting_of(reply) {
                Err(e) => step == Step::<EnsureTlsCert, Result<(), DbError>>::Done(Err(e)),
                Ok(Some(_)) => step == Step::<EnsureTlsCert, Result<(), DbError>>::Done(Ok(())),
                Ok(None) => EnsureTlsCert::renews(fresh.now, step),
            },
            EnsureTlsCert::StoringCertificate { key_value } => match flow::affected_of(reply) {
                None => step == Step::<EnsureTlsCert, Result<(), DbError>>::Done(
                    Err(DbError::Failed),
                ),
                Some(_) => step matches Step::Ask(EnsureTlsCert::StoringKey, call)
                    && call.executes(store_setting(PRIVATE_KEY@, key_value@, fresh.now)),
            },
            EnsureTlsCert::StoringKey => step == Step::<EnsureTlsCert, Result<(), DbError>>::Done(
                match flow::affected_of(reply) {
                    Some(_) => Ok(()),
                    None => Err(DbError::Failed),
                },
            ),
        }
    }

    /// Begins to store a certificate and its private key, given as PEM texts.
    pub fn store(cert_pem: &str, key_pem: &str, now: i64) -> (step: Step<
        EnsureTlsCert,
        Result<(), DbError>,
    >)
        ensures
            EnsureTlsCert::stores(cert_pem@, key_pem@, now, step),
    {
        let cert_value = outside::base64_encode(cert_pem.as_bytes());
        let key_value = outside::base64_encode(key_pem.as_bytes());
        let statement = Statement::new(STORE_SETTING).text(CERTIFICATE).text(
            cert_value.as_str(),
        ).integer(now);
        Step::Ask(EnsureTlsCert::StoringCertificate { key_value }, Call::Execute(statement))
    }

    fn renew(now: i64) -> (step: Step<EnsureTlsCert, Result<(), DbError>>)
        ensures
            EnsureTlsCert::renews(now, step),
    {
        match outside::self_signed(certificate_names()) {
            Ok((cert_pem, key_pem)) => EnsureTlsCert::store(
                cert_pem.as_str(),
                key_pem.as_str(),
                now,
            ),
            Err(_) => Step::Done(Err(DbError::CertificateFailed)),
        }
    }

    /// Takes the reply and goes on.
    pub fn resume(self, reply: Reply, fresh: Fresh) -> (step: Step<
        EnsureTlsCert,
        Result<(), DbError>,
    >)
        ensures
            self.resumed(reply, fresh, step),
    {
        match self {
            EnsureTlsCert::LookingForCertificate => match found_setting(reply) {
                Err(e) => Step::Done(Err(e)),
                Ok(Some(_)) => Step::Ask(
                    EnsureTlsCert::LookingForKey,
                    Call::Fetch(select_setting_query(PRIVATE_KEY)),
                ),
                Ok(None) => EnsureTlsCert::renew(fresh.now),
            },
            EnsureTlsCert::LookingForKey => match found_setting(reply) {
                Err(e) => Step::Done(Err(e)),
                Ok(Some(_)) => Step::Done(Ok(())),
                Ok(None) => EnsureTlsCert::renew(fresh.now),
            },
            EnsureTlsCert::StoringCertificate { key_value } => match flow::affected(reply) {
                None => Step::Done(Err(DbError::Failed)),
                Some(_) => Step::Ask(
                    EnsureTlsCert::StoringKey,
                    Call::Execute(
                        Statement::new(STORE_SETTING).text(PRIVATE_KEY).text(
                            key_value.as_str(),
                        ).integer(fresh.now),
                    ),
                ),
            },
            EnsureTlsCert::StoringKey => match flow::affected(reply) {
                Some(_) => Step::Done(Ok(())),
                None => Step::Done(Err(DbError::Failed)),
            },
        }
    }
}

fn select_setting_query(key: &str) -> (q: Query)
    ensures
        q@ == select_setting(key@),
{
    Query::new(Statement::new(SELECT_SETTING).text(key)).column(Column::Text)
}

/// Certificate and private key, as the bytes of PEM texts.
pub type PemPair = (Vec<u8>, Vec<u8>);

/// Certificate and private key being loaded.
#[derive(Debug)]
pub enum TlsPem {
    /// The certificate is being looked up.
    LookingForCertificate,
    /// The private key is being looked up.
    LookingForKey { cert_value: String },
}

impl TlsPem {
    /// The first step: the certificate is looked up.
    pub open spec fn started(step: Step<TlsPem, Result<PemPair, DbError>>) -> bool {
        step matches Step::Ask(TlsPem::LookingForCertificate, call) && call.fetches(
            select_setting(CERTIFICATE@),
        )
    }

    /// How it goes on with a reply.
    pub open spec fn resumed(
        self,
        reply: Reply,
        step: Step<TlsPem, Result<PemPair, DbError>>,
    ) -> bool {
        match self {
            TlsPem::LookingForCertificate => match setting_of(reply) {
                Err(e) => step == Step::<TlsPem, Result<PemPair, DbError>>::Done(Err(e)),
                Ok(None) => step == Step::<TlsPem, Result<PemPair, DbError>>::Done(
                    Err(DbError::CertificateMissing),
                ),
                Ok(Some(cert_value)) => {
                    &&& step matches Step::Ask(state, call)
                    &&& state == (TlsPem::LookingForKey { cert_value })
                    &&& call.fetches(select_setting(PRIVATE_KEY@))
                },
            },
            TlsPem::LookingForKey { cert_value } => match setting_of(reply) {
                Err(e) => step == Step::<TlsPem, Result<PemPair, DbError>>::Done(Err(e)),
                Ok(None) => step == Step::<TlsPem, Result<PemPair, DbError>>::Done(
                    Err(DbError::PrivateKeyMissing),
                ),
                Ok(Some(key_value)) => match (
                    outside::base64_bytes(cert_value@),
                    outside::base64_bytes(key_value@),
                ) {
                    (Some(cert), Some(key)) => step matches Step::Done(Ok((c, k))) && c@ == cert
                        && k@ == key,
                    _ => step == Step::<TlsPem, Result<PemPair, DbError>>::Done(
                        Err(DbError::InvalidPem),
                    ),
                },
            },
        }
    }

    /// Takes the reply and goes on.
    pub fn resume(self, reply: Reply) -> (step: Step<TlsPem, Result<PemPair, DbError>>)
        ensures
            self.resumed(reply, step),
    {
        match self {
            TlsPem::LookingForCertificate => match found_setting(reply) {
                Err(e) => Step::Done(Err(e)),
                Ok(None) => Step::Done(Err(DbError::CertificateMissing)),
                Ok(Some(cert_value)) => Step::Ask(
                    TlsPem::LookingForKey { cert_value },
                    Call::Fetch(select_setting_query(PRIVATE_KEY)),
                ),
            },
            TlsPem::LookingForKey { cert_value } => match found_setting(reply) {
                Err(e) => Step::Done(Err(e)),
                Ok(None) => Step::Done(Err(DbError::PrivateKeyMissing)),
                Ok(Some(key_value)) => {
                    let cert = match outside::base64_decode(cert_value.as_str()) {
                        Ok(bytes) => bytes,
                        Err(_) => return Step::Done(Err(DbError::InvalidPem)),
                    };
                    match outside::base64_decode(key_value.as_str()) {
                        Ok(key) => Step::Done(Ok((cert, key))),
                        Err(_) => Step::Done(Err(DbError::InvalidPem)),
                    }
                },
            },
        }
    }
}

/// What was stored as certificate and private key is loaded again: where the stored values hold
/// two PEM texts, loading gives the bytes of these texts.
pub proof fn law_certificate_round_trip(
    cert_value: String,
    cert_pem: Seq<char>,
    key_pem: Seq<char>,
    reply: Reply,
    step: Step<TlsPem, Result<PemPair, DbError>>,
)
    requires
        holds_pem(cert_value@, cert_pem),
        setting_of(reply) is Ok,
        setting_of(reply)->Ok_0 is Some,
        holds_pem(setting_of(reply)->Ok_0->Some_0@, key_pem),
        (TlsPem::LookingForKey { cert_value }).resumed(reply, step),
    ensures
        step matches Step::Done(Ok((c, k))) && c@ == encode_utf8(cert_pem) && k@ == encode_utf8(
            key_pem,
        ),
{
}

impl Database {
    /// The query for a setting.
    pub fn system_get(&self, key: &str) -> (q: Query)
        ensures
            q@ == select_setting(key@),
    {
        select_setting_query(key)
    }

    /// The statement that stores a setting.
    pub fn system_set(&self, key: &str, value: &str, now: i64) -> (s: Statement)
        ensures
            s@ == store_setting(key@, value@, now),
    {
        Statement::new(STORE_SETTING).text(key).text(value).integer(now)
    }

    /// Begins to ensure that there are a certificate and a private key.
    pub fn ensure_tls_cert(&self) -> (step: Step<EnsureTlsCert, Result<(), DbError>>)
        ensures
            EnsureTlsCert::started(step),
    {
        Step::Ask(
            EnsureTlsCert::LookingForCertificate,
            Call::Fetch(select_setting_query(CERTIFICATE)),
        )
    }

    /// Begins to load certificate and private key.
    pub fn tls_pem(&self) -> (step: Step<TlsPem, Result<PemPair, DbError>>)
        ensures
            TlsPem::started(step),
    {
        Step::Ask(TlsPem::LookingForCertificate, Call::Fetch(select_setting_query(CERTIFICATE)))
    }
}

} // verus!
