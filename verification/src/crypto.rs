//! Keys, encryption of stored and pushed configuration, and random identifiers.
use vstd::prelude::*;
use vstd::string::*;
use vstd::utf8::*;

use crate::outside;
use crate::text;

verus! {

/// What can go wrong when a value is encrypted or decrypted.
#[derive(Clone, Copy, Debug, PartialEq, Eq, Structural)]
pub enum CryptoError {
    /// The plaintext is longer than the cipher takes.
    EncryptFailed,
    /// A stored value has no separator between nonce and ciphertext.
    InvalidFormat,
    /// The ciphertext is no base64.
    InvalidCiphertext,
    /// The nonce is no base64.
    InvalidNonce,
    /// The nonce is not twelve bytes long.
    InvalidNonceLength,
    /// The ciphertext is not genuine.
    DecryptFailed,
    /// The plaintext is no text.
    InvalidText,
}

impl CryptoError {
    /// The message that belongs to an error.
    pub open spec fn message_text(self) -> Seq<char> {
        match self {
            CryptoError::EncryptFailed => "encrypt failed"@,
            CryptoError::InvalidFormat => "invalid encrypted value format"@,
            CryptoError::InvalidCiphertext => "invalid ciphertext base64"@,
            CryptoError::InvalidNonce => "invalid nonce base64"@,
            CryptoError::InvalidNonceLength => "invalid nonce length"@,
            CryptoError::DecryptFailed => "decrypt failed"@,
            CryptoError::InvalidText => "invalid utf-8 plaintext"@,
        }
    }

    /// Describes the error.
    pub fn message(&self) -> (message: String)
        ensures
            message@ == self.message_text(),
    {
        match self {
            CryptoError::EncryptFailed => "encrypt failed".to_string(),
            CryptoError::InvalidFormat => "invalid encrypted value format".to_string(),
            CryptoError::InvalidCiphertext => "invalid ciphertext base64".to_string(),
            CryptoError::InvalidNonce => "invalid nonce base64".to_string(),
            CryptoError::InvalidNonceLength => "invalid nonce length".to_string(),
            CryptoError::DecryptFailed => "decrypt failed".to_string(),
            CryptoError::InvalidText => "invalid utf-8 plaintext".to_string(),
        }
    }
}

/// Draws random bytes.
pub fn random_bytes(bytes: usize) -> (drawn: Vec<u8>)
    ensures
        drawn@.len() == bytes,
{
    let mut drawn: Vec<u8> = vec![0u8; bytes];
    outside::fill_random(&mut drawn);
    drawn
}

/// Whether a text is the lower-case hexadecimal form of a number of bytes.
pub open spec fn is_hex_of_length(text: Seq<char>, bytes: nat) -> bool {
    &&& text.len() == 2 * bytes
    &&& forall|i: int| 0 <= i < text.len() ==> outside::is_hex_digit(#[trigger] text[i])
}

/// Writes bytes as lower-case hexadecimal digits.
pub fn hex(bytes: &Vec<u8>) -> (digits: String)
    ensures
        digits@ == outside::hex_text(bytes@),
        is_hex_of_length(digits@, bytes@.len()),
{
    let digits = outside::hex_encode(bytes.as_slice());
    assert forall|i: int| 0 <= i < digits@.len() implies outside::is_hex_digit(
        #[trigger] digits@[i],
    ) by {
        let byte = bytes@[i / 2];
        assert(byte / 16 < 16);
        assert(byte % 16 < 16);
    }
    digits
}

/// Draws random bytes and writes them in hexadecimal.
pub fn random_hex(bytes: usize) -> (digits: String)
    ensures
        is_hex_of_length(digits@, bytes as nat),
{
    let drawn = random_bytes(bytes);
    hex(&drawn)
}

/// Whether a text is the unpadded base64 form of a number of bytes.
pub open spec fn is_base64_of_length(text: Seq<char>, bytes: nat) -> bool {
    &&& text.len() == (bytes * 4 + 2) / 3
    &&& forall|i: int|
        0 <= i < text.len() ==> outside::is_base64_symbol(#[trigger] text[i]) && text[i] != '='
}

/// Writes bytes as unpadded base64 text.
pub fn bare_base64(bytes: &Vec<u8>) -> (digits: String)
    ensures
        digits@ == outside::base64_bare_text(bytes@),
        is_base64_of_length(digits@, bytes@.len()),
{
    outside::base64_bare_encode(bytes.as_slice())
}

/// Draws random bytes and writes them in unpadded base64.
pub fn random_base64(bytes: usize) -> (digits: String)
    ensures
        is_base64_of_length(digits@, bytes as nat),
{
    let drawn = random_bytes(bytes);
    bare_base64(&drawn)
}

/// Whether a text has the form of a room identifier: sixteen lower-case hexadecimal digits.
pub open spec fn is_room_id(id: Seq<char>) -> bool {
    is_hex_of_length(id, 8)
}

/// Draws a room identifier.
pub fn room_id() -> (id: String)
    ensures
        is_room_id(id@),
        id@.len() == 16,
{
    random_hex(8)
}

/// Draws a nonce. Its type fixes its length; nothing is said of its bytes, which are random.
pub fn random_nonce() -> (nonce: [u8; 12]) {
    let drawn = random_bytes(12);
    nonce_from(&drawn)
}

/// Copies twelve bytes into a nonce.
pub fn nonce_from(bytes: &Vec<u8>) -> (nonce: [u8; 12])
    requires
        bytes@.len() == 12,
    ensures
        nonce@ == bytes@,
{
    let mut nonce: [u8; 12] = [0u8; 12];
    let mut i: usize = 0;
    while i < 12
        invariant
            i <= 12,
            bytes@.len() == 12,
            nonce@.len() == 12,
            forall|j: int| 0 <= j < i ==> nonce@[j] == bytes@[j],
        decreases 12 - i,
    {
        nonce[i] = bytes[i];
        i = i + 1;
    }
    assert(nonce@ =~= bytes@);
    nonce
}

/// What a key is the digest of: master secret and context with a colon between them.
pub open spec fn key_message(master: Seq<char>, context: Seq<char>) -> Seq<u8> {
    encode_utf8(master) + seq![0x3au8] + encode_utf8(context)
}

/// The key of a context under a master secret.
pub open spec fn key_of(master: Seq<char>, context: Seq<char>) -> Seq<u8> {
    outside::sha256_of(key_message(master, context))
}

/// Derives the key of a context from a master secret.
pub fn derive_key(master: &str, context: &str) -> (key: [u8; 32])
    ensures
        key@ == key_of(master@, context@),
{
    let mut message: Vec<u8> = Vec::new();
    message.extend_from_slice(master.as_bytes());
    message.push(0x3au8);
    message.extend_from_slice(context.as_bytes());
    assert(message@ =~= key_message(master@, context@));
    outside::sha256(message.as_slice())
}

/// Whether the cipher takes a plaintext.
pub open spec fn fits_cipher(plaintext: Seq<char>) -> bool {
    encode_utf8(plaintext).len() <= outside::SEAL_LIMIT
}

/// The ciphertext of a text under a nonce, in base64.
pub open spec fn ciphertext_of(
    master: Seq<char>,
    context: Seq<char>,
    plaintext: Seq<char>,
    nonce: Seq<u8>,
) -> Seq<char> {
    outside::base64_text(outside::sealed(key_of(master, context), nonce, encode_utf8(plaintext)))
}

/// The stored form of an encrypted text: nonce and ciphertext in base64, a colon between them.
pub open spec fn stored_form(
    master: Seq<char>,
    context: Seq<char>,
    plaintext: Seq<char>,
    nonce: Seq<u8>,
) -> Seq<char> {
    outside::base64_text(nonce) + ":"@ + ciphertext_of(master, context, plaintext, nonce)
}

/// Whether a text is the padded base64 form of a number of bytes.
pub open spec fn is_padded_base64(text: Seq<char>, bytes: nat) -> bool {
    &&& text.len() == (bytes + 2) / 3 * 4
    &&& forall|i: int| 0 <= i < text.len() ==> outside::is_base64_symbol(#[trigger] text[i])
    &&& outside::base64_bytes(text) is Some
    &&& outside::base64_bytes(text)->Some_0.len() == bytes
}

/// Whether nonce and ciphertext have the form they have for a plaintext: padded base64 of twelve
/// bytes, and of the plaintext's bytes and a tag.
pub open spec fn are_parts_of(nonce: Seq<char>, ciphertext: Seq<char>, plaintext: Seq<char>) -> bool {
    &&& is_padded_base64(nonce, 12)
    &&& is_padded_base64(
        ciphertext,
        encode_utf8(plaintext).len() + outside::TAG_LENGTH as nat,
    )
}

/// Whether a value has the form in which a plaintext is stored: exactly one colon, before it a
/// nonce of sixteen symbols, behind it a ciphertext that is never empty.
pub open spec fn has_stored_form(value: Seq<char>, plaintext: Seq<char>) -> bool {
    &&& value.len() > 16
    &&& value[16] == ':'
    &&& forall|i: int| 0 <= i < value.len() && #[trigger] value[i] == ':' ==> i == 16
    &&& are_parts_of(value.take(16), value.skip(17), plaintext)
}

/// What decryption of a ciphertext and a nonce gives.
pub open spec fn decrypted_parts(
    master: Seq<char>,
    context: Seq<char>,
    ciphertext: Seq<char>,
    nonce: Seq<char>,
) -> Result<Seq<char>, CryptoError> {
    match (outside::base64_bytes(ciphertext), outside::base64_bytes(nonce)) {
        (None, _) => Err(CryptoError::InvalidCiphertext),
        (Some(_), None) => Err(CryptoError::InvalidNonce),
        (Some(c), Some(n)) => if n.len() != 12 {
            Err(CryptoError::InvalidNonceLength)
        } else if c.len() > outside::SEAL_LIMIT + outside::TAG_LENGTH {
            Err(CryptoError::DecryptFailed)
        } else {
            match outside::opened(key_of(master, context), n, c) {
                None => Err(CryptoError::DecryptFailed),
                Some(m) => if valid_utf8(m) {
                    Ok(decode_utf8(m))
                } else {
                    Err(CryptoError::InvalidText)
                },
            }
        },
    }
}

/// What decryption of a stored value gives.
pub open spec fn decrypted(master: Seq<char>, context: Seq<char>, value: Seq<char>) -> Result<
    Seq<char>,
    CryptoError,
> {
    match text::split_at_first(value, ':') {
        Some((nonce, ciphertext)) => decrypted_parts(master, context, ciphertext, nonce),
        None => Err(CryptoError::InvalidFormat),
    }
}

/// Whether an outcome is the expected text or the expected error.
pub open spec fn outcome_is(
    outcome: Result<String, CryptoError>,
    expected: Result<Seq<char>, CryptoError>,
) -> bool {
    match outcome {
        Ok(t) => expected == Ok::<Seq<char>, CryptoError>(t@),
        Err(e) => expected == Err::<Seq<char>, CryptoError>(e),
    }
}

/// Encrypts a text under a given nonce; gives ciphertext and nonce in base64. What comes out
/// decrypts to the text under the same master secret and context.
pub fn encrypt_parts_with(
    master: &str,
    context: &str,
    plaintext: &str,
    nonce: &[u8; 12],
) -> (parts: Result<(String, String), CryptoError>)
    ensures
        parts is Ok <==> fits_cipher(plaintext@),
        parts is Err ==> parts == Err::<(String, String), CryptoError>(CryptoError::EncryptFailed),
        parts matches Ok((c, n)) ==> {
            &&& c@ == ciphertext_of(master@, context@, plaintext@, nonce@)
            &&& n@ == outside::base64_text(nonce@)
            &&& are_parts_of(n@, c@, plaintext@)
            &&& !n@.contains(':')
            &&& decrypted_parts(master@, context@, c@, n@) == Ok::<Seq<char>, CryptoError>(
                plaintext@,
            )
        },
{
    broadcast use {encode_utf8_valid_utf8, encode_utf8_decode_utf8};

    let message = plaintext.as_bytes();
    if message.len() as u64 > outside::SEAL_LIMIT {
        return Err(CryptoError::EncryptFailed);
    }
    let key = derive_key(master, context);
    match outside::seal(&key, nonce, message) {
        Ok(ciphertext) => {
            let c = outside::base64_encode(ciphertext.as_slice());
            let n = outside::base64_encode(nonce.as_slice());
            assert(!n@.contains(':')) by {
                if n@.contains(':') {
                    let i = choose|i: int| 0 <= i < n@.len() && n@[i] == ':';
                    assert(outside::is_base64_symbol(n@[i]));
                }
            }
            Ok((c, n))
        },
        Err(_) => Err(CryptoError::EncryptFailed),
    }
}

/// Encrypts a text under a fresh nonce; gives ciphertext and nonce in base64. Whatever the nonce,
/// what comes out decrypts to the text under the same master secret and context.
pub fn encrypt_parts(master: &str, context: &str, plaintext: &str) -> (parts: Result<
    (String, String),
    CryptoError,
>)
    ensures
        parts is Ok <==> fits_cipher(plaintext@),
        parts is Err ==> parts == Err::<(String, String), CryptoError>(CryptoError::EncryptFailed),
        parts matches Ok((c, n)) ==> {
            &&& exists|nonce: Seq<u8>|
                nonce.len() == 12 && c@ == #[trigger] ciphertext_of(
                    master@,
                    context@,
                    plaintext@,
                    nonce,
                ) && n@ == outside::base64_text(nonce)
            &&& are_parts_of(n@, c@, plaintext@)
            &&& decrypted_parts(master@, context@, c@, n@) == Ok::<Seq<char>, CryptoError>(
                plaintext@,
            )
        },
{
    let nonce = random_nonce();
    encrypt_parts_with(master, context, plaintext, &nonce)
}

/// Encrypts a text under a given nonce into its stored form, which decrypts to the text under
/// the same master secret and context.
pub fn encrypt_to_base64_with(
    master: &str,
    context: &str,
    plaintext: &str,
    nonce: &[u8; 12],
) -> (value: Result<String, CryptoError>)
    ensures
        value is Ok <==> fits_cipher(plaintext@),
        value is Err ==> value == Err::<String, CryptoError>(CryptoError::EncryptFailed),
        value matches Ok(v) ==> {
            &&& v@ == stored_form(master@, context@, plaintext@, nonce@)
            &&& has_stored_form(v@, plaintext@)
            &&& decrypted(master@, context@, v@) == Ok::<Seq<char>, CryptoError>(plaintext@)
        },
{
    match encrypt_parts_with(master, context, plaintext, nonce) {
        Ok((c, n)) => {
            let value = text::pair(n.as_str(), ":", c.as_str());
            proof {
                reveal_strlit(":");
                assert(":"@ =~= seq![':']);
                text::lemma_split_first(n@, c@, ':');
                assert(value@.take(16) =~= n@);
                assert(value@.skip(17) =~= c@);
                assert forall|i: int| 0 <= i < value@.len() && #[trigger] value@[i]
                    == ':' implies i == 16 by {
                    if i < 16 {
                        assert(outside::is_base64_symbol(n@[i]));
                    } else if i > 16 {
                        assert(outside::is_base64_symbol(c@[i - 17]));
                    }
                }
            }
            Ok(value)
        },
        Err(e) => Err(e),
    }
}

/// Encrypts a text under a fresh nonce into its stored form. Whatever the nonce, it decrypts to
/// the text under the same master secret and context.
pub fn encrypt_to_base64(master: &str, context: &str, plaintext: &str) -> (value: Result<
    String,
    CryptoError,
>)
    ensures
        value is Ok <==> fits_cipher(plaintext@),
        value is Err ==> value == Err::<String, CryptoError>(CryptoError::EncryptFailed),
        value matches Ok(v) ==> {
            &&& exists|nonce: Seq<u8>|
                nonce.len() == 12 && v@ == #[trigger] stored_form(
                    master@,
                    context@,
                    plaintext@,
                    nonce,
                )
            &&& has_stored_form(v@, plaintext@)
            &&& decrypted(master@, context@, v@) == Ok::<Seq<char>, CryptoError>(plaintext@)
        },
{
    let nonce = random_nonce();
    encrypt_to_base64_with(master, context, plaintext, &nonce)
}

/// Decrypts a stored value.
pub fn decrypt_from_base64(master: &str, context: &str, value: &str) -> (plaintext: Result<
    String,
    CryptoError,
>)
    ensures
        outcome_is(plaintext, decrypted(master@, context@, value@)),
{
    match text::split_once(value, ':') {
        Some((nonce, ciphertext)) => decrypt_parts(
            master,
            context,
            ciphertext.as_str(),
            nonce.as_str(),
        ),
        None => Err(CryptoError::InvalidFormat),
    }
}

/// Decrypts a ciphertext under a nonce, both in base64.
pub fn decrypt_parts(master: &str, context: &str, ciphertext: &str, nonce: &str) -> (plaintext:
    Result<String, CryptoError>)
    ensures
        outcome_is(plaintext, decrypted_parts(master@, context@, ciphertext@, nonce@)),
{
    let sealed = match outside::base64_decode(ciphertext) {
        Ok(bytes) => bytes,
        Err(_) => return Err(CryptoError::InvalidCiphertext),
    };
    let drawn = match outside::base64_decode(nonce) {
        Ok(bytes) => bytes,
        Err(_) => return Err(CryptoError::InvalidNonce),
    };
    if drawn.len() != 12 {
        return Err(CryptoError::InvalidNonceLength);
    }
    if sealed.len() as u64 > outside::SEAL_LIMIT + outside::TAG_LENGTH {
        return Err(CryptoError::DecryptFailed);
    }
    let key = derive_key(master, context);
    let twelve = nonce_from(&drawn);
    match outside::open(&key, &twelve, sealed.as_slice()) {
        Ok(message) => match String::from_utf8(message) {
            Ok(plaintext) => Ok(plaintext),
            Err(_) => Err(CryptoError::InvalidText),
        },
        Err(_) => Err(CryptoError::DecryptFailed),
    }
}

/// Master secret of installations that configure none.
pub const DEFAULT_MASTER_KEY: &'static str = "vnt-hub-default-dev-master-key";

/// The master secret in force: the configured one, or the default.
pub fn master_key(configured: Option<String>) -> (key: String)
    ensures
        match configured {
            Some(k) => key == k,
            None => key@ == DEFAULT_MASTER_KEY@,
        },
{
    match configured {
        Some(key) => key,
        None => DEFAULT_MASTER_KEY.to_string(),
    }
}

/// The secret shared with a device: its identifier and its token, a colon between them.
pub open spec fn push_key_material(device_id: Seq<char>, device_token: Seq<char>) -> Seq<char> {
    device_id + ":"@ + device_token
}

/// Builds the secret shared with a device.
pub fn device_push_key_material(device_id: &str, device_token: &str) -> (material: String)
    ensures
        material@ == push_key_material(device_id@, device_token@),
{
    text::pair(device_id, ":", device_token)
}

/// The context of a configuration version pushed to a device.
pub open spec fn push_context(device_id: Seq<char>, version: u32) -> Seq<char> {
    "push:"@ + device_id + ":"@ + text::decimal(version as nat)
}

/// Builds the context of a configuration version pushed to a device.
pub fn device_push_context(device_id: &str, version: u32) -> (context: String)
    ensures
        context@ == push_context(device_id@, version),
{
    let mut context = "push:".to_string();
    context.append(device_id);
    context.append(":");
    let digits = text::decimal_text(version as u64);
    context.append(digits.as_str());
    context
}

} // verus!
