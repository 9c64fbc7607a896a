//! Greetings and what the server keeps for them.
use vstd::prelude::*;
use vstd::string::*;
use vstd::utf8::*;

use crate::client_api::hello::{ClientHello, HelloStep, Welcome};
use crate::client_api::session::{welcome_actions, Session, SessionAction};
use crate::client_api::sync::{CurrentStep, PushCurrent};
use crate::client_api::route_of;
use crate::db::devices::{Introduction, Reception, UpsertDeviceHello};
use crate::db::system::{select_setting, EnsureTlsCert, PemPair, TlsPem};
use crate::db::DbError;
use crate::flow::{Fresh, Reply, Step};
use crate::http_server::{is_private_key, protocol_of, PrivateKey, TlsError};
use crate::laws::{counts, gives, gives_none, is_query, reads, runs};
use crate::models::ClientMessage;
use crate::outside::{
    base64_bytes, base64_text, begins_certificate, begins_private_key, pkcs8_key_in, rsa_key_in,
};
use crate::sql::{Column, SqlValue, SqlView};

verus! {

/// A greeting in version 1 of the protocol has the room that it names looked up; one in any other
/// version is refused with the word that it is not supported, and what is no greeting is met with
/// silence.
pub proof fn law_greeting_names_its_room(hello: ClientMessage, peer_ip: String, step: HelloStep)
    requires
        ClientHello::started(hello, peer_ip, step),
    ensures
        !(hello is Hello) ==> step is Done && step->Done_0.message is None
            && step->Done_0.device_id is None,
        hello is Hello && hello->protocol_version != 1 ==> {
            &&& step is Done
            &&& step->Done_0.message is Some
            &&& step->Done_0.message->Some_0 is Kick
            &&& step->Done_0.message->Some_0->Kick_reason@ == "unsupported protocol version"@
            &&& step->Done_0.device_id is None
        },
        hello is Hello && hello->protocol_version == 1 ==> {
            &&& step is Ask
            &&& reads(
                step->Ask_1,
                "SELECT COUNT(*) FROM rooms WHERE id = ?1"@,
                seq![SqlView::Text(hello->room_id@)],
                seq![Column::Integer],
            )
            &&& step->Ask_0 is FindingRoom
            &&& step->Ask_0->device.room_id == hello->room_id
            &&& step->Ask_0->device.device_id == hello->Hello_device_id
            &&& step->Ask_0->device.device_token == hello->Hello_device_token
            &&& step->Ask_0->device.device_name == hello->device_name
            &&& step->Ask_0->device.client_version == hello->client_version
            &&& step->Ask_0->device.console_public_ip == Some(peer_ip)
        },
{
}

/// A greeting for a room that is not there is met with silence; for a room that is there the device
/// is received: by its token where it names one and its identifier, as a new device otherwise.
pub proof fn law_greeting_is_for_a_room_that_is_there(
    device: Introduction,
    reply: Reply,
    n: int,
    fresh: Fresh,
    step: HelloStep,
)
    requires
        (ClientHello::FindingRoom { device }).resumed(reply, fresh, step),
        counts(reply, n) && n >= 0,
    ensures
        n == 0 ==> step is Done && step->Done_0.message is None && step->Done_0.device_id is None,
        n > 0 ==> {
            &&& step is Ask
            &&& step->Ask_0 is Receiving
            &&& device.device_id is Some && device.device_token is Some ==> {
                &&& step->Ask_0->inner == (UpsertDeviceHello::Authenticating {
                    device,
                    device_id: device.device_id->Some_0,
                    device_token: device.device_token->Some_0,
                })
            }
            &&& device.device_id is None || device.device_token is None ==> {
                &&& step->Ask_0->inner is Storing
                &&& step->Ask_0->inner->reception.device_id == fresh.id
                &&& step->Ask_0->inner->reception.new_token == Some(fresh.secret)
            }
        },
{
}

/// A device that was received is told its identifier, its token where it is new, its status and the
/// version of the console; its messages are listened to unless it was kicked. A device that was
/// refused is met with silence.
pub proof fn law_received_device_is_told_who_it_is(
    reception: Reception,
    reply: Reply,
    fresh: Fresh,
    step: HelloStep,
)
    requires
        (ClientHello::Receiving { inner: UpsertDeviceHello::Storing { reception } }).resumed(
            reply,
            fresh,
            step,
        ),
    ensures
        step is Done,
        !(reply is Affected) ==> step->Done_0.message is None && step->Done_0.device_id is None,
        reply is Affected ==> {
            let welcome = step->Done_0;
            &&& welcome.message is Some
            &&& welcome.message->Some_0 is HelloAck
            &&& welcome.message->Some_0->device_id == reception.device_id
            &&& welcome.message->Some_0->device_token == reception.new_token
            &&& welcome.message->Some_0->status == reception.status
            &&& welcome.message->Some_0->console_version@ == "1.0.0"@
            &&& reception.status@ == "kicked"@ ==> welcome.device_id is None && welcome_actions(
                welcome,
            ) =~= seq![SessionAction::Tell { message: welcome.message->Some_0 }]
            &&& reception.status@ != "kicked"@ ==> welcome.device_id == Some(reception.device_id)
                && welcome_actions(welcome) =~= seq![
                SessionAction::Tell { message: welcome.message->Some_0 },
                SessionAction::Register { device_id: reception.device_id },
                SessionAction::Refresh { device_id: reception.device_id },
            ]
        },
{
}

/// A connection speaks TLS where it begins with the byte 0x16 of a handshake; where it begins with
/// an opening brace it holds messages, as far as these are served, and anything else is HTTP. One
/// that ends before its first byte is closed.
pub proof fn law_protocols_go_by_their_first_byte(first: Seq<u8>, raw: bool)
    ensures
        first.len() == 0 ==> protocol_of(first, raw) is Closed,
        first.len() > 0 && first[0] == 22 ==> protocol_of(first, raw) is Tls,
        first.len() > 0 && first[0] == '{' as u32 ==> {
            &&& raw ==> protocol_of(first, raw) is Raw
            &&& !raw ==> protocol_of(first, raw) is Http
        },
        first.len() > 0 && first[0] != 22 && first[0] != '{' as u32 ==> protocol_of(
            first,
            raw,
        ) is Http,
{
}

/// A message without a connection is a greeting, or that of the device that its sender was
/// introduced as; the sender is forgotten exactly with the leave, and a stranger's message is
/// dropped.
pub proof fn law_datagram_is_its_senders(known: Option<String>, message: ClientMessage)
    ensures
        message is Hello ==> route_of(known, message) is Hello,
        !(message is Hello) && known is None ==> route_of(known, message) is Drop,
        !(message is Hello) && known is Some ==> {
            &&& route_of(known, message) is Handle
            &&& route_of(known, message)->device_id == known->Some_0
            &&& route_of(known, message)->forget <==> message is Disconnect
        },
{
}

/// A connection stands for the device that was welcomed on it: its messages are dealt with as that
/// device's, and with its end that device leaves. A connection on which none was welcomed leads to
/// nothing.
pub proof fn law_connection_stands_for_its_device(welcome: Welcome, message: ClientMessage)
    ensures
        welcome.device_id is Some ==> {
            let device_id = welcome.device_id->Some_0;
            &&& Session::begun_by(welcome).on_message(message) == Some(
                SessionAction::Deal { device_id, message },
            )
            &&& Session::begun_by(welcome).on_end() == Some(SessionAction::Leave { device_id })
        },
        welcome.device_id is None ==> {
            &&& Session::begun_by(welcome).on_message(message) is None
            &&& Session::begun_by(welcome).on_end() is None
        },
{
}

/// Bringing a device up to date begins with the group and the version that are stored for it.
pub proof fn law_bringing_up_to_date_begins_with_the_device(device_id: String, step: CurrentStep)
    requires
        PushCurrent::started(device_id, step),
    ensures
        step is Ask,
        step->Ask_0 == (PushCurrent::Looking { device_id }),
        reads(
            step->Ask_1,
            "SELECT group_id, config_version FROM devices WHERE id = ?1"@,
            seq![SqlView::Text(device_id@)],
            seq![Column::OptionalText, Column::Integer],
        ),
{
}

/// Both the server's certificate and what is made of it begin with the stored certificate.
pub proof fn law_certificate_is_looked_up_first(
    ensure: CertificateStep,
    load: Step<TlsPem, Result<PemPair, DbError>>,
)
    requires
        EnsureTlsCert::started(ensure),
        TlsPem::started(load),
    ensures
        ensure is Ask && ensure->Ask_0 is LookingForCertificate,
        reads(
            ensure->Ask_1,
            "SELECT value FROM system_config WHERE key = ?1"@,
            seq![SqlView::Text("tls_cert"@)],
            seq![Column::Text],
        ),
        load is Ask && load->Ask_0 is LookingForCertificate,
        reads(
            load->Ask_1,
            "SELECT value FROM system_config WHERE key = ?1"@,
            seq![SqlView::Text("tls_cert"@)],
            seq![Column::Text],
        ),
{
}

/// A private key is taken in the form of PKCS 8 where there is one, in that of PKCS 1 otherwise; a
/// broken one is told apart from a missing one.
pub proof fn law_private_key_is_taken_as_it_is(
    pem: Seq<u8>,
    outcome: Result<PrivateKey, TlsError>,
)
    requires
        is_private_key(pem, outcome),
    ensures
        pkcs8_key_in(pem) is Some && pkcs8_key_in(pem)->Some_0 is Some ==> outcome is Ok
            && outcome->Ok_0 is Pkcs8 && outcome->Ok_0->Pkcs8_0@
            == pkcs8_key_in(pem)->Some_0->Some_0,
        pkcs8_key_in(pem) is None && rsa_key_in(pem) is Some && rsa_key_in(pem)->Some_0 is Some
            ==> outcome is Ok && outcome->Ok_0 is Pkcs1 && outcome->Ok_0->Pkcs1_0@
            == rsa_key_in(pem)->Some_0->Some_0,
        pkcs8_key_in(pem) is None && rsa_key_in(pem) is None ==> outcome == Err::<
            PrivateKey,
            TlsError,
        >(TlsError::MissingKey),
        pkcs8_key_in(pem) == Some(None::<Seq<u8>>) || (pkcs8_key_in(pem) is None && rsa_key_in(pem)
            == Some(None::<Seq<u8>>)) ==> outcome == Err::<PrivateKey, TlsError>(
            TlsError::InvalidKey,
        ),
{
}

/// A step of seeing to the server's certificate.
pub type CertificateStep = Step<EnsureTlsCert, Result<(), DbError>>;

/// Whether a setting is stored.
pub open spec fn stores_setting(
    step: CertificateStep,
    key: Seq<char>,
    value: Seq<char>,
    now: i64,
) -> bool {
    &&& step is Ask
    &&& runs(
        step->Ask_1,
        "INSERT INTO system_config(key, value, updated_at) VALUES(?1, ?2, ?3) ON CONFLICT(key) DO UPDATE SET value = excluded.value, updated_at = excluded.updated_at"@,
        seq![SqlView::Text(key), SqlView::Text(value), SqlView::Integer(now)],
    )
}

/// A certificate and a key that are there stay; where either is missing, both are made anew and
/// stored, the certificate under `tls_cert` and the key under `tls_key`, each as the base64 of its
/// text.
pub proof fn law_certificate_and_key_are_stored_together(
    state: EnsureTlsCert,
    reply: Reply,
    row: Seq<SqlValue>,
    fresh: Fresh,
    first: CertificateStep,
    n: u64,
    second: CertificateStep,
)
    requires
        state is LookingForCertificate || state is LookingForKey,
        state.resumed(reply, fresh, first),
        gives_none(reply) || (gives(reply, row) && row.len() == 1 && row[0] is Text),
        gives_none(reply) && first is Ask ==> (first->Ask_0).resumed(
            Reply::Affected(n),
            fresh,
            second,
        ),
    ensures
        gives(reply, row) && state is LookingForCertificate ==> first is Ask
            && first->Ask_0 is LookingForKey && reads(
            first->Ask_1,
            "SELECT value FROM system_config WHERE key = ?1"@,
            seq![SqlView::Text("tls_key"@)],
            seq![Column::Text],
        ),
        gives(reply, row) && state is LookingForKey ==> first == CertificateStep::Done(Ok(())),
        gives_none(reply) ==> first == CertificateStep::Done(Err(DbError::CertificateFailed))
            || exists|cert: Seq<char>, key: Seq<char>|
            {
                &&& #[trigger] begins_certificate(cert)
                &&& #[trigger] begins_private_key(key)
                &&& stores_setting(
                    first,
                    "tls_cert"@,
                    base64_text(encode_utf8(cert)),
                    fresh.now,
                )
                &&& stores_setting(
                    second,
                    "tls_key"@,
                    base64_text(encode_utf8(key)),
                    fresh.now,
                )
            },
{
    if gives_none(reply) && first is Ask {
        let (cert, key) = choose|cert: Seq<char>, key: Seq<char>| #[trigger]
            EnsureTlsCert::stores(cert, key, fresh.now, first) && begins_certificate(cert)
                && begins_private_key(key);
        assert(begins_certificate(cert) && begins_private_key(key));
        assert(stores_setting(first, "tls_cert"@, base64_text(encode_utf8(cert)), fresh.now));
        assert(stores_setting(second, "tls_key"@, base64_text(encode_utf8(key)), fresh.now));
    }
}

/// The server's certificate and key are those that are stored: read in this order, each under its
/// own name, and decoded. Either that is missing is told, and what cannot be decoded is invalid.
pub proof fn law_stored_certificate_and_key_are_used(
    first_reply: Reply,
    cert_row: Seq<SqlValue>,
    first: Step<TlsPem, Result<PemPair, DbError>>,
    second_reply: Reply,
    key_row: Seq<SqlValue>,
    second: Step<TlsPem, Result<PemPair, DbError>>,
)
    requires
        TlsPem::LookingForCertificate.resumed(first_reply, first),
        gives_none(first_reply) || (gives(first_reply, cert_row) && cert_row.len() == 1
            && cert_row[0] is Text),
        first is Ask ==> (first->Ask_0).resumed(second_reply, second),
        gives_none(second_reply) || (gives(second_reply, key_row) && key_row.len() == 1
            && key_row[0] is Text),
    ensures
        is_query(
            select_setting("tls_cert"@),
            "SELECT value FROM system_config WHERE key = ?1"@,
            seq![SqlView::Text("tls_cert"@)],
            seq![Column::Text],
        ),
        gives_none(first_reply) ==> first == Step::<TlsPem, Result<PemPair, DbError>>::Done(
            Err(DbError::CertificateMissing),
        ),
        gives(first_reply, cert_row) ==> {
            &&& first is Ask
            &&& reads(
                first->Ask_1,
                "SELECT value FROM system_config WHERE key = ?1"@,
                seq![SqlView::Text("tls_key"@)],
                seq![Column::Text],
            )
            &&& gives_none(second_reply) ==> second == Step::<
                TlsPem,
                Result<PemPair, DbError>,
            >::Done(Err(DbError::PrivateKeyMissing))
            &&& gives(second_reply, key_row) ==> {
                let cert = base64_bytes(cert_row[0]->Text_0@);
                let key = base64_bytes(key_row[0]->Text_0@);
                if cert is Some && key is Some {
                    &&& second is Done && second->Done_0 is Ok
                    &&& second->Done_0->Ok_0.0@ == cert->Some_0
                    &&& second->Done_0->Ok_0.1@ == key->Some_0
                } else {
                    second == Step::<TlsPem, Result<PemPair, DbError>>::Done(
                        Err(DbError::InvalidPem),
                    )
                }
            }
        },
{
}

} // verus!
