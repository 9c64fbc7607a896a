//! What is stored, and the statements and decisions with which it is read and changed.
use vstd::prelude::*;

use crate::crypto::CryptoError;
use crate::outside;

pub mod backup;
pub mod device_config;
pub mod devices;
pub mod events;
pub mod group_store;
pub mod groups;
pub mod restore;
pub mod rooms;
pub mod schema;
pub mod system;
pub mod transaction;
pub mod users;

verus! {

/// The stored data. Secrets in it are encrypted under the master key.
#[derive(Debug)]
pub struct Database {
    pub master_key: String,
}

/// Why an operation on the stored data failed.
#[derive(Clone, Copy, Debug, PartialEq, Eq, Structural)]
pub enum DbError {
    /// A call failed, or its reply did not fit.
    Failed,
    /// A device presented an unknown identifier or a wrong token.
    DeviceAuthFailed,
    DeviceNotFound,
    GroupNotFound,
    /// No unused room identifier was found.
    RoomIdConflict,
    /// A version number cannot be increased any more.
    VersionExhausted,
    /// The certificate is not stored.
    CertificateMissing,
    /// The private key is not stored.
    PrivateKeyMissing,
    /// The stored certificate or key is no base64.
    InvalidPem,
    /// No certificate could be made.
    CertificateFailed,
    Crypto(CryptoError),
}

/// Seconds since 1970 by the system clock. Which second it is depends on when the call is made.
pub fn now() -> (seconds: i64)
    ensures
        0 <= seconds < outside::CLOCK_LIMIT,
{
    outside::clock()
}

} // verus!
