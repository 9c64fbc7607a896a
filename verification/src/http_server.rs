//! Telling protocols apart on one port, and what encrypted connections need.
use vstd::prelude::*;

use crate::outside;

verus! {

/// What a connection speaks.
#[derive(Clone, Copy, Debug, PartialEq, Eq, Structural)]
pub enum Protocol {
    /// Nothing: it was closed before the first byte.
    Closed,
    /// TLS, with HTTP inside.
    Tls,
    /// Lines of JSON.
    Raw,
    /// Plain HTTP.
    Http,
}

/// First byte of a TLS handshake.
pub const TLS_HANDSHAKE: u8 = 0x16;

/// First byte of a line of JSON.
pub const JSON_OBJECT: u8 = 0x7b;

/// The protocol that the first bytes of a connection speak.
pub open spec fn protocol_of(first: Seq<u8>, raw: bool) -> Protocol {
    if first.len() == 0 {
        Protocol::Closed
    } else if first[0] == TLS_HANDSHAKE {
        Protocol::Tls
    } else if first[0] == JSON_OBJECT && raw {
        Protocol::Raw
    } else {
        Protocol::Http
    }
}

/// Tells what a connection speaks by its first byte; `raw` says whether lines of JSON are served.
pub fn detect_protocol(first: &[u8], raw: bool) -> (protocol: Protocol)
    ensures
        protocol == protocol_of(first@, raw),
{
    if first.len() == 0 {
        Protocol::Closed
    } else if first[0] == TLS_HANDSHAKE {
        Protocol::Tls
    } else if first[0] == JSON_OBJECT && raw {
        Protocol::Raw
    } else {
        Protocol::Http
    }
}

/// Bytes that were read ahead of a stream and are given out before the rest of it.
#[derive(Debug)]
pub struct Prefix {
    bytes: Vec<u8>,
    position: usize,
}

impl View for Prefix {
    type V = Seq<u8>;

    /// The bytes that are left to give out.
    closed spec fn view(&self) -> Seq<u8> {
        self.bytes@.skip(self.position as int)
    }
}

impl Prefix {
    /// Whether the position is within the bytes.
    pub closed spec fn wf(self) -> bool {
        self.position <= self.bytes@.len()
    }

    /// Bytes of which none is given out yet.
    pub fn new(bytes: Vec<u8>) -> (prefix: Prefix)
        ensures
            prefix.wf(),
            prefix@ == bytes@,
    {
        let prefix = Prefix { bytes, position: 0 };
        assert(prefix@ =~= bytes@);
        prefix
    }

    /// Gives out the next bytes, as many as there is room for; `None` once all are given out, and
    /// the stream itself is to be read.
    pub fn take(&mut self, room: usize) -> (part: Option<Vec<u8>>)
        requires
            old(self).wf(),
        ensures
            final(self).wf(),
            part is None <==> old(self)@.len() == 0,
            part is None ==> final(self)@ == old(self)@,
            part matches Some(p) ==> {
                &&& p@.len() == (if old(self)@.len() < room {
                    old(self)@.len()
                } else {
                    room as nat
                })
                &&& p@ + final(self)@ == old(self)@
            },
    {
        let total: usize = self.bytes.len();
        if self.position >= total {
            return None;
        }
        let left: usize = total - self.position;
        let length: usize = if left < room {
            left
        } else {
            room
        };
        let mut part: Vec<u8> = Vec::new();
        let ghost start = self.position as int;
        while part.len() < length
            invariant
                part@.len() <= length,
                start == self.position,
                start + length <= self.bytes@.len() == total,
                part@ == self.bytes@.subrange(start, start + part@.len()),
            decreases length - part@.len(),
        {
            part.push(self.bytes[self.position + part.len()]);
            assert(part@ =~= self.bytes@.subrange(start, start + part@.len()));
        }
        self.position = self.position + length;
        assert(part@ + self@ =~= old(self)@);
        Some(part)
    }
}

/// A private key, as DER bytes.
#[derive(Debug)]
pub enum PrivateKey {
    Pkcs8(Vec<u8>),
    Pkcs1(Vec<u8>),
}

/// Why certificate and private key cannot be used.
#[derive(Clone, Copy, Debug, PartialEq, Eq, Structural)]
pub enum TlsError {
    /// A section of the certificate cannot be read.
    InvalidCertificate,
    /// A section of the private key cannot be read.
    InvalidKey,
    /// There is no private key.
    MissingKey,
}

/// Whether an outcome is the private key in PEM text: the first in PKCS #8 form, or else the
/// first in PKCS #1 form.
pub open spec fn is_private_key(pem: Seq<u8>, outcome: Result<PrivateKey, TlsError>) -> bool {
    match outside::pkcs8_key_in(pem) {
        Some(Some(key)) => outcome matches Ok(PrivateKey::Pkcs8(k)) && k@ == key,
        Some(None) => outcome == Err::<PrivateKey, TlsError>(TlsError::InvalidKey),
        None => match outside::rsa_key_in(pem) {
            Some(Some(key)) => outcome matches Ok(PrivateKey::Pkcs1(k)) && k@ == key,
            Some(None) => outcome == Err::<PrivateKey, TlsError>(TlsError::InvalidKey),
            None => outcome == Err::<PrivateKey, TlsError>(TlsError::MissingKey),
        },
    }
}

/// Picks the private key, given what was found in each form.
pub fn pick_private_key<E>(
    pkcs8: Option<Result<Vec<u8>, E>>,
    rsa: Option<Result<Vec<u8>, E>>,
) -> (key: Result<PrivateKey, TlsError>)
    ensures
        match (pkcs8, rsa) {
            (Some(Ok(k)), _) => key == Ok::<PrivateKey, TlsError>(PrivateKey::Pkcs8(k)),
            (Some(Err(_)), _) => key == Err::<PrivateKey, TlsError>(TlsError::InvalidKey),
            (None, Some(Ok(k))) => key == Ok::<PrivateKey, TlsError>(PrivateKey::Pkcs1(k)),
            (None, Some(Err(_))) => key == Err::<PrivateKey, TlsError>(TlsError::InvalidKey),
            (None, None) => key == Err::<PrivateKey, TlsError>(TlsError::MissingKey),
        },
{
    match pkcs8 {
        Some(Ok(k)) => Ok(PrivateKey::Pkcs8(k)),
        Some(Err(_)) => Err(TlsError::InvalidKey),
        None => match rsa {
            Some(Ok(k)) => Ok(PrivateKey::Pkcs1(k)),
            Some(Err(_)) => Err(TlsError::InvalidKey),
            None => Err(TlsError::MissingKey),
        },
    }
}

/// Finds the private key in PEM text.
pub fn load_private_key(pem: &[u8]) -> (key: Result<PrivateKey, TlsError>)
    ensures
        is_private_key(pem@, key),
{
    match outside::pem_pkcs8_key(pem) {
        Some(found) => pick_private_key(Some(found), None),
        None => pick_private_key(None, outside::pem_rsa_key(pem)),
    }
}

/// What encrypted connections need: certificates, as DER bytes, and the private key.
#[derive(Debug)]
pub struct TlsMaterial {
    pub certificates: Vec<Vec<u8>>,
    pub key: PrivateKey,
}

/// Reads certificate and private key out of PEM text.
pub fn tls_material(cert_pem: &[u8], key_pem: &[u8]) -> (material: Result<TlsMaterial, TlsError>)
    ensures
        match outside::certificates_in(cert_pem@) {
            None => material == Err::<TlsMaterial, TlsError>(TlsError::InvalidCertificate),
            Some(certificates) => match material {
                Ok(m) => m.certificates@.map_values(|c: Vec<u8>| c@) == certificates
                    && is_private_key(key_pem@, Ok(m.key)),
                Err(e) => is_private_key(key_pem@, Err(e)),
            },
        },
{
    let certificates = match outside::pem_certificates(cert_pem) {
        Ok(list) => list,
        Err(_) => return Err(TlsError::InvalidCertificate),
    };
    match load_private_key(key_pem) {
        Ok(key) => Ok(TlsMaterial { certificates, key }),
        Err(e) => Err(e),
    }
}

} // verus!
