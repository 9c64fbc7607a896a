//! Passwords, signed tokens and the users they stand for.
use vstd::prelude::*;
use vstd::string::*;
use vstd::utf8::*;

use crate::outside;
use crate::status::StatusCode;
use crate::text;

verus! {

/// What a token says of its bearer.
#[derive(Debug)]
pub struct Claims {
    /// Identifier of the user.
    pub sub: String,
    /// Name of the user.
    pub username: String,
    /// Role of the user.
    pub role: String,
    /// Second, since 1970, up to which the token is valid.
    pub exp: usize,
}

/// A user that proved who they are.
#[derive(Debug)]
pub struct AuthUser {
    pub id: String,
    pub username: String,
    pub role: String,
}

impl AuthUser {
    /// Whether the user has the administrator's role.
    pub open spec fn admin(self) -> bool {
        self.role@ == "admin"@
    }

    /// Tells whether the user has the administrator's role.
    pub fn is_admin(&self) -> (admin: bool)
        ensures
            admin == self.admin(),
    {
        text::same_text(self.role.as_str(), "admin")
    }
}

/// Why a token is refused.
#[derive(Clone, Copy, Debug, PartialEq, Eq, Structural)]
pub enum TokenError {
    PayloadMissing,
    SignatureMissing,
    ExtraParts,
    InvalidHeader,
    UnsupportedAlgorithm,
    InvalidSignature,
    InvalidPayload,
    Expired,
}

/// The password is longer than can be hashed.
#[derive(Clone, Copy, Debug, PartialEq, Eq, Structural)]
pub struct PasswordTooLong;

/// Whether a stored hash accepts a password. One that names more lanes than eight digits can
/// count accepts none.
pub open spec fn accepts(hash: Seq<char>, password: Seq<char>) -> bool {
    outside::lanes_fit(hash) && outside::password_accepted(hash, password)
}

/// Hashes a password with a fresh salt. Whatever the salt, the hash accepts the password.
pub fn hash_password(password: &str) -> (hash: Result<String, PasswordTooLong>)
    ensures
        hash is Ok <==> encode_utf8(password@).len() <= outside::PASSWORD_LIMIT,
        hash matches Ok(h) ==> accepts(h@, password@),
{
    match outside::argon2_hash(password) {
        Ok(hash) => Ok(hash),
        Err(_) => Err(PasswordTooLong),
    }
}

fn digits_follow(chars: &Vec<char>, from: usize) -> (nine: bool)
    ensures
        nine == outside::nine_digits(chars@, from as int),
{
    if from > chars.len() || chars.len() - from < 9 {
        return false;
    }
    let end: usize = from + 9;
    let mut j: usize = from;
    while j < end
        invariant
            from <= j <= end <= chars@.len(),
            end == from + 9,
            forall|k: int| from <= k < j ==> '0' <= #[trigger] chars@[k] <= '9',
        decreases end - j,
    {
        if chars[j] < '0' || chars[j] > '9' {
            assert(!('0' <= chars@[j as int] <= '9'));
            return false;
        }
        j = j + 1;
    }
    true
}

/// Tells whether a hash names no number of lanes in more than eight digits.
fn lanes_are_few(hash: &str) -> (few: bool)
    ensures
        few == outside::lanes_fit(hash@),
{
    let chars = text::chars_of(hash);
    let mut i: usize = 0;
    while i < chars.len()
        invariant
            i <= chars@.len(),
            chars@ == hash@,
            forall|k: int| 0 <= k < i ==> !#[trigger] outside::names_many_lanes(hash@, k),
        decreases chars@.len() - i,
    {
        if chars.len() - i >= 2 && chars[i] == 'p' && chars[i + 1] == '=' && digits_follow(
            &chars,
            i + 2,
        ) {
            assert(outside::names_many_lanes(hash@, i as int));
            return false;
        }
        i = i + 1;
    }
    true
}

/// Tells whether a stored hash accepts a password.
pub fn verify_password(hash: &str, password: &str) -> (accepted: bool)
    ensures
        accepted == accepts(hash@, password@),
{
    lanes_are_few(hash) && outside::argon2_verify(hash, password)
}

/// Signing secret of installations that configure none.
pub const DEFAULT_JWT_SECRET: &'static str = "vnt-hub-dev-jwt-secret";

/// The signing secret in force: the configured one, or the default.
pub fn jwt_secret(configured: Option<String>) -> (secret: String)
    ensures
        match configured {
            Some(s) => secret == s,
            None => secret@ == DEFAULT_JWT_SECRET@,
        },
{
    match configured {
        Some(secret) => secret,
        None => DEFAULT_JWT_SECRET.to_string(),
    }
}

/// Bytes in a block of the hash function.
pub const BLOCK_SIZE: usize = 64;

/// A key filled up with zeros to a block; one longer than a block is hashed first.
pub open spec fn block_key(key: Seq<u8>) -> Seq<u8> {
    let short = if key.len() > BLOCK_SIZE {
        outside::sha256_of(key)
    } else {
        key
    };
    Seq::new(BLOCK_SIZE as nat, |i: int| if i < short.len() { short[i] } else { 0u8 })
}

/// A block with every byte combined with the same pad.
pub open spec fn padded(block: Seq<u8>, pad: u8) -> Seq<u8> {
    block.map_values(|b: u8| pad ^ b)
}

/// The keyed hash of a message: HMAC with SHA-256.
pub open spec fn hmac_of(key: Seq<u8>, message: Seq<u8>) -> Seq<u8> {
    outside::sha256_of(
        padded(block_key(key), 0x5cu8) + outside::sha256_of(
            padded(block_key(key), 0x36u8) + message,
        ),
    )
}

fn normalized_key(key: &[u8]) -> (block: Vec<u8>)
    ensures
        block@ == block_key(key@),
{
    let mut block: Vec<u8> = Vec::new();
    if key.len() > BLOCK_SIZE {
        let digest = outside::sha256(key);
        block.extend_from_slice(digest.as_slice());
    } else {
        block.extend_from_slice(key);
    }
    let ghost short = block@;
    while block.len() < BLOCK_SIZE
        invariant
            short.len() <= block@.len() <= BLOCK_SIZE,
            forall|i: int|
                0 <= i < block@.len() ==> block@[i] == (if i < short.len() {
                    short[i]
                } else {
                    0u8
                }),
        decreases BLOCK_SIZE - block@.len(),
    {
        block.push(0u8);
    }
    assert(block@ =~= block_key(key@));
    block
}

fn pad_block(block: &Vec<u8>, pad: u8) -> (out: Vec<u8>)
    ensures
        out@ == padded(block@, pad),
{
    let mut out: Vec<u8> = Vec::new();
    let mut i: usize = 0;
    while i < block.len()
        invariant
            i <= block@.len(),
            out@.len() == i,
            forall|j: int| 0 <= j < i ==> out@[j] == pad ^ block@[j],
        decreases block@.len() - i,
    {
        out.push(pad ^ block[i]);
        i = i + 1;
    }
    assert(out@ =~= padded(block@, pad));
    out
}

/// Computes the keyed hash of a message.
pub fn hmac_sha256(key: &[u8], data: &[u8]) -> (mac: [u8; 32])
    ensures
        mac@ == hmac_of(key@, data@),
{
    let block = normalized_key(key);
    let mut inner = pad_block(&block, 0x36u8);
    inner.extend_from_slice(data);
    let inner_hash = outside::sha256(inner.as_slice());
    let mut outer = pad_block(&block, 0x5cu8);
    outer.extend_from_slice(inner_hash.as_slice());
    assert(inner@ =~= padded(block_key(key@), 0x36u8) + data@);
    assert(outer@ =~= padded(block_key(key@), 0x5cu8) + inner_hash@);
    outside::sha256(outer.as_slice())
}

/// Compares byte sequences; where the lengths agree, every pair of bytes is looked at.
pub fn constant_time_eq(a: &[u8], b: &[u8]) -> (same: bool)
    ensures
        same == (a@ == b@),
{
    if a.len() != b.len() {
        return false;
    }
    let mut diff: u8 = 0u8;
    let mut i: usize = 0;
    assert(a@.take(0) =~= b@.take(0));
    while i < a.len()
        invariant
            i <= a@.len(),
            a@.len() == b@.len(),
            diff == 0u8 <==> a@.take(i as int) == b@.take(i as int),
        decreases a@.len() - i,
    {
        let left = a[i];
        let right = b[i];
        let before = diff;
        diff = diff | (left ^ right);
        assert((before | (left ^ right)) == 0u8 <==> before == 0u8 && left == right)
            by (bit_vector);
        assert(a@.take(i + 1) =~= a@.take(i as int).push(left));
        assert(b@.take(i + 1) =~= b@.take(i as int).push(right));
        proof {
            if a@.take(i + 1) == b@.take(i + 1) {
                assert(a@.take(i + 1)[i as int] == left);
                assert(b@.take(i + 1)[i as int] == right);
                assert(a@.take(i as int) =~= a@.take(i + 1).take(i as int));
                assert(b@.take(i as int) =~= b@.take(i + 1).take(i as int));
            }
        }
        i = i + 1;
    }
    assert(a@.take(i as int) =~= a@);
    assert(b@.take(i as int) =~= b@);
    diff == 0u8
}

/// Seconds for which a token is valid.
pub const TOKEN_LIFETIME: i64 = 86400;

/// Whether claims are those of a user for a token issued at a second, valid for a day.
pub open spec fn are_claims(
    claims: Claims,
    user_id: String,
    username: String,
    role: String,
    issued_at: i64,
) -> bool {
    &&& claims.sub == user_id
    &&& claims.username == username
    &&& claims.role == role
    &&& claims.exp == (issued_at + TOKEN_LIFETIME) as usize
}

/// The claims of a token issued now, valid for a day.
pub fn new_claims(user_id: String, username: String, role: String, now: i64) -> (claims: Claims)
    requires
        now <= outside::CLOCK_LIMIT,
    ensures
        are_claims(claims, user_id, username, role, now),
{
    Claims { sub: user_id, username, role, exp: (now + TOKEN_LIFETIME) as usize }
}

/// What the signature of a token covers: header and payload with a dot between them.
pub open spec fn signing_input(header: Seq<char>, payload: Seq<char>) -> Seq<char> {
    header + "."@ + payload
}

/// The signature of header and payload under a secret.
pub open spec fn signature_of(header: Seq<char>, payload: Seq<char>, secret: Seq<char>) -> Seq<u8> {
    hmac_of(encode_utf8(secret), encode_utf8(signing_input(header, payload)))
}

/// Whether a token is one as issued for a payload under a secret: three parts, which decode to
/// the header, the payload and the signature of both.
pub open spec fn is_issued(token: Seq<char>, payload: Seq<u8>, secret: Seq<char>) -> bool {
    let parts = text::split_parts(token, '.');
    &&& parts.len() == 3
    &&& outside::base64_url_bytes(parts[0]) == Some(encode_utf8(outside::TOKEN_HEADER@))
    &&& outside::base64_url_bytes(parts[1]) == Some(payload)
    &&& outside::base64_url_bytes(parts[2]) == Some(signature_of(parts[0], parts[1], secret))
}

/// The text of a token for a payload under a secret.
pub open spec fn token_text(payload: Seq<u8>, secret: Seq<char>) -> Seq<char> {
    let header = outside::base64_url_text(encode_utf8(outside::TOKEN_HEADER@));
    let body = outside::base64_url_text(payload);
    signing_input(header, body) + "."@ + outside::base64_url_text(
        signature_of(header, body, secret),
    )
}

proof fn lemma_no_dot(part: Seq<char>)
    requires
        forall|i: int| 0 <= i < part.len() ==> outside::is_base64_url_symbol(#[trigger] part[i]),
    ensures
        !part.contains('.'),
{
    if part.contains('.') {
        let i = choose|i: int| 0 <= i < part.len() && part[i] == '.';
        assert(outside::is_base64_url_symbol(part[i]));
    }
}

/// Signs a payload, the JSON form of the claims. The token is one that `verify_token` accepts
/// under the same secret.
pub fn sign(payload: &[u8], secret: &str) -> (token: String)
    ensures
        token@ == token_text(payload@, secret@),
        is_issued(token@, payload@, secret@),
{
    let header = outside::base64_url_encode(outside::TOKEN_HEADER.as_bytes());
    let body = outside::base64_url_encode(payload);
    let input = text::pair(header.as_str(), ".", body.as_str());
    let mac = hmac_sha256(secret.as_bytes(), input.as_str().as_bytes());
    let signature = outside::base64_url_encode(mac.as_slice());
    let token = text::pair(input.as_str(), ".", signature.as_str());
    proof {
        reveal_strlit(".");
        assert("."@ =~= seq!['.']);
        lemma_no_dot(header@);
        lemma_no_dot(body@);
        lemma_no_dot(signature@);
        assert(token@ =~= header@ + seq!['.'] + (body@ + seq!['.'] + signature@));
        text::lemma_split_first(header@, body@ + seq!['.'] + signature@, '.');
        text::lemma_split_first(body@, signature@, '.');
        text::lemma_split_none(signature@, '.');
        assert(text::split_parts(token@, '.') =~= seq![header@, body@, signature@]);
    }
    token
}

/// The payload of a token under a secret, or why the token is refused.
pub open spec fn verified(token: Seq<char>, secret: Seq<char>) -> Result<Seq<u8>, TokenError> {
    let parts = text::split_parts(token, '.');
    if parts.len() < 2 {
        Err(TokenError::PayloadMissing)
    } else if parts.len() < 3 {
        Err(TokenError::SignatureMissing)
    } else if parts.len() > 3 {
        Err(TokenError::ExtraParts)
    } else {
        match outside::base64_url_bytes(parts[0]) {
            None => Err(TokenError::InvalidHeader),
            Some(header) => match outside::json_text_member(header, "alg"@) {
                None => Err(TokenError::InvalidHeader),
                Some(algorithm) => if algorithm != Some("HS256"@) {
                    Err(TokenError::UnsupportedAlgorithm)
                } else if outside::base64_url_bytes(parts[2]) != Some(
                    signature_of(parts[0], parts[1], secret),
                ) {
                    Err(TokenError::InvalidSignature)
                } else {
                    match outside::base64_url_bytes(parts[1]) {
                        None => Err(TokenError::InvalidPayload),
                        Some(payload) => Ok(payload),
                    }
                },
            },
        }
    }
}

/// Whether an outcome is what the check of a token gives. A token as issued for a payload under
/// the same secret gives that payload.
pub open spec fn is_checked(
    token: Seq<char>,
    secret: Seq<char>,
    outcome: Result<Vec<u8>, TokenError>,
) -> bool {
    &&& match outcome {
        Ok(p) => verified(token, secret) == Ok::<Seq<u8>, TokenError>(p@),
        Err(e) => verified(token, secret) == Err::<Seq<u8>, TokenError>(e),
    }
    &&& forall|issued: Seq<u8>|
        #[trigger] is_issued(token, issued, secret) ==> outcome is Ok && outcome->Ok_0@ == issued
}

/// Checks a token's form, algorithm and signature and gives its payload.
pub fn verify_token(token: &str, secret: &str) -> (payload: Result<Vec<u8>, TokenError>)
    ensures
        is_checked(token@, secret@, payload),
{
    let parts = text::split(token, '.');
    let ghost views = parts@.map_values(|p: String| p@);
    assert(views.len() == parts@.len());
    if parts.len() < 2 {
        return Err(TokenError::PayloadMissing);
    }
    if parts.len() < 3 {
        return Err(TokenError::SignatureMissing);
    }
    if parts.len() > 3 {
        return Err(TokenError::ExtraParts);
    }
    assert(views[0] == parts@[0]@ && views[1] == parts@[1]@ && views[2] == parts@[2]@);
    let header = match outside::base64_url_decode(parts[0].as_str()) {
        Ok(bytes) => bytes,
        Err(_) => return Err(TokenError::InvalidHeader),
    };
    let algorithm = match outside::json_text(header.as_slice(), "alg") {
        Ok(member) => member,
        Err(_) => return Err(TokenError::InvalidHeader),
    };
    let supported = match &algorithm {
        Some(name) => text::same_text(name.as_str(), "HS256"),
        None => false,
    };
    if !supported {
        return Err(TokenError::UnsupportedAlgorithm);
    }
    let input = text::pair(parts[0].as_str(), ".", parts[1].as_str());
    let expected = hmac_sha256(secret.as_bytes(), input.as_str().as_bytes());
    let actual = match outside::base64_url_decode(parts[2].as_str()) {
        Ok(bytes) => bytes,
        Err(_) => return Err(TokenError::InvalidSignature),
    };
    if !constant_time_eq(expected.as_slice(), actual.as_slice()) {
        return Err(TokenError::InvalidSignature);
    }
    match outside::base64_url_decode(parts[1].as_str()) {
        Ok(bytes) => Ok(bytes),
        Err(_) => Err(TokenError::InvalidPayload),
    }
}

/// The user that claims stand for, unless they have expired.
pub open spec fn unexpired(claims: Claims, now: i64) -> Result<AuthUser, TokenError> {
    if claims.exp < now as usize {
        Err(TokenError::Expired)
    } else {
        Ok(AuthUser { id: claims.sub, username: claims.username, role: claims.role })
    }
}

/// Checks that claims have not expired and gives the user they stand for.
pub fn check_expiry(claims: Claims, now: i64) -> (user: Result<AuthUser, TokenError>)
    ensures
        user == unexpired(claims, now),
{
    if claims.exp < now as usize {
        Err(TokenError::Expired)
    } else {
        Ok(AuthUser { id: claims.sub, username: claims.username, role: claims.role })
    }
}

/// A signed token is read back: a token for the claims of a user, checked under the same secret,
/// gives the text of the claims, and up to a day after it was issued the claims stand for that
/// user; after that they have expired. The last second has to fit the machine's word.
pub proof fn law_signed_token_is_read_back(
    user_id: String,
    username: String,
    role: String,
    issued_at: i64,
    claims: Claims,
    payload: Seq<u8>,
    token: Seq<char>,
    secret: Seq<char>,
    outcome: Result<Vec<u8>, TokenError>,
    now: i64,
)
    requires
        0 <= issued_at,
        0 <= now <= usize::MAX,
        issued_at + TOKEN_LIFETIME <= usize::MAX,
        are_claims(claims, user_id, username, role, issued_at),
        is_issued(token, payload, secret),
        is_checked(token, secret, outcome),
    ensures
        outcome is Ok,
        outcome->Ok_0@ == payload,
        claims.exp == issued_at + TOKEN_LIFETIME,
        unexpired(claims, now) == (if now <= issued_at + TOKEN_LIFETIME {
            Ok::<AuthUser, TokenError>(AuthUser { id: user_id, username, role })
        } else {
            Err::<AuthUser, TokenError>(TokenError::Expired)
        }),
{
}

/// The token in an authorization header: what follows the word Bearer and a space.
pub open spec fn bearer_token(header: Option<Seq<char>>) -> Option<Seq<char>> {
    match header {
        Some(value) => text::without_prefix(value, "Bearer "@),
        None => None,
    }
}

/// The payload of the token in an authorization header, where it is accepted.
pub open spec fn authenticated(header: Option<Seq<char>>, secret: Seq<char>) -> Result<
    Seq<u8>,
    StatusCode,
> {
    match bearer_token(header) {
        None => Err(StatusCode::Unauthorized),
        Some(token) => match verified(token, secret) {
            Ok(payload) => Ok(payload),
            Err(_) => Err(StatusCode::Unauthorized),
        },
    }
}

/// Finds the token in an authorization header and checks it; gives the payload. Every failure is
/// answered alike.
pub fn authenticate(header: Option<String>, secret: &str) -> (payload: Result<Vec<u8>, StatusCode>)
    ensures
        match authenticated(
            match header {
                Some(h) => Some(h@),
                None => None,
            },
            secret@,
        ) {
            Ok(p) => payload is Ok && payload->Ok_0@ == p,
            Err(status) => payload == Err::<Vec<u8>, StatusCode>(status),
        },
        forall|issued: Seq<u8>|
            header is Some && bearer_token(Some(header->Some_0@)) is Some && #[trigger] is_issued(
                bearer_token(Some(header->Some_0@))->Some_0,
                issued,
                secret@,
            ) ==> payload is Ok && payload->Ok_0@ == issued,
{
    match header {
        None => Err(StatusCode::Unauthorized),
        Some(value) => match text::strip_prefix(value.as_str(), "Bearer ") {
            None => Err(StatusCode::Unauthorized),
            Some(token) => match verify_token(token.as_str(), secret) {
                Ok(payload) => Ok(payload),
                Err(_) => Err(StatusCode::Unauthorized),
            },
        },
    }
}

/// The user that claims stand for, as far as they could be read and have not expired.
pub open spec fn user_behind(claims: Option<Claims>, now: i64) -> Result<AuthUser, StatusCode> {
    match claims {
        Some(c) if c.exp >= now as usize => Ok(
            AuthUser { id: c.sub, username: c.username, role: c.role },
        ),
        _ => Err(StatusCode::Unauthorized),
    }
}

/// The user that a request comes from: the claims that its token carries, as far as they could
/// be read, must not have expired.
pub fn authenticated_user(claims: Option<Claims>, now: i64) -> (user: Result<AuthUser, StatusCode>)
    ensures
        user == user_behind(claims, now),
{
    match claims {
        Some(c) => match check_expiry(c, now) {
            Ok(user) => Ok(user),
            Err(_) => Err(StatusCode::Unauthorized),
        },
        None => Err(StatusCode::Unauthorized),
    }
}

} // verus!
