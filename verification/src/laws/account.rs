//! Accounts.
use vstd::prelude::*;
use vstd::string::*;
use vstd::utf8::*;

use crate::api::account::{
    ChangePassword, ChangePasswordStep, DeleteAccount, DeleteAccountStep, Login, LoginStep,
    Register, RegisterStep,
};
use crate::api::backup::may_follow;
use crate::api::rooms::{ListRooms, ListRoomsStep};
use crate::api::{
    failure_key, is_name_char, valid_password, valid_username, Body, CONSOLE_VERSION,
};
use crate::auth::{
    accepts, are_claims, authenticated, bearer_token, hmac_of, token_text, unexpired, user_behind,
    verified, AuthUser, Claims, TokenError, DEFAULT_JWT_SECRET,
};
use crate::crypto::DEFAULT_MASTER_KEY;
use crate::db::users::{insert_user, set_password};
use crate::flow::{Fresh, Reply};
use crate::laws::text::{law_trimming_leaves_what_is_between, only_space};
use crate::laws::{gives, gives_none, reads, runs};
use crate::models::{ChangePasswordRequest, LoginRequest};
use crate::outside::{base64_url_bytes, base64_url_text, json_text_member, sha256_of};
use crate::sql::{Column, SqlValue, SqlView};
use crate::state::{locked, recorded, LoginFailure};
use crate::status::StatusCode;
use crate::text::{first_index, is_space, split_parts};

verus! {

/// A user name has 3 to 32 characters, each a letter or a digit of ASCII, an underscore, a hyphen
/// or a dot.
pub proof fn law_user_names_are_short_and_plain(name: Seq<char>)
    ensures
        valid_username(name) <==> {
            &&& 3 <= name.len() <= 32
            &&& forall|i: int|
                0 <= i < name.len() ==> {
                    let n = (#[trigger] name[i]) as int;
                    48 <= n <= 57 || 65 <= n <= 90 || 97 <= n <= 122 || n == 95 || n == 45 || n
                        == 46
                }
        },
{
    if valid_username(name) {
        assert forall|i: int| 0 <= i < name.len() implies {
            let n = (#[trigger] name[i]) as int;
            48 <= n <= 57 || 65 <= n <= 90 || 97 <= n <= 122 || n == 95 || n == 45 || n == 46
        } by {
            assert(is_name_char(name[i]));
        }
    }
}

/// A password has 6 to 128 bytes.
pub proof fn law_passwords_have_bounds(password: Seq<char>)
    ensures
        valid_password(password) <==> 6 <= encode_utf8(password).len() <= 128,
{
}

/// Attempts are counted under the first address that a request was forwarded for, whatever comes
/// after its comma and whatever white space is around it; without one they are counted under the
/// word for the machine itself.
pub proof fn law_attempts_are_counted_by_the_first_address(
    before: Seq<char>,
    address: Seq<char>,
    after: Seq<char>,
    rest: Seq<char>,
)
    requires
        only_space(before) && only_space(after),
        forall|i: int| 0 <= i < address.len() ==> (#[trigger] address[i]) != ',',
        address.len() > 0 ==> !is_space(address[0]) && !is_space(address.last()),
    ensures
        address.len() > 0 ==> failure_key(Some(before + address + after)) == address,
        address.len() > 0 ==> failure_key(Some(before + address + after + seq![','] + rest))
            == address,
        address.len() == 0 ==> failure_key(Some(before + address + after)) == "local"@,
        failure_key(None) == "local"@,
{
    let first = before + address + after;
    let whole = first + seq![','] + rest;
    assert forall|i: int| 0 <= i < first.len() implies first[i] != ',' by {
        if i < before.len() {
            assert(is_space(before[i]));
        } else if i < before.len() + address.len() {
            assert(first[i] == address[i - before.len()]);
        } else {
            assert(is_space(after[i - before.len() - address.len()]));
        }
    }
    law_trimming_leaves_what_is_between(before, address, after);
    lemma_head_without(first);
    lemma_head_with(first, rest);
}

proof fn lemma_head_without(first: Seq<char>)
    requires
        forall|i: int| 0 <= i < first.len() ==> first[i] != ',',
    ensures
        crate::text::before_first(first, ',') == first,
{
    lemma_index(first, Seq::empty());
    assert(first + Seq::<char>::empty() =~= first);
    assert(first.take(first.len() as int) =~= first);
}

proof fn lemma_head_with(first: Seq<char>, rest: Seq<char>)
    requires
        forall|i: int| 0 <= i < first.len() ==> first[i] != ',',
    ensures
        crate::text::before_first(first + seq![','] + rest, ',') == first,
{
    let whole = first + seq![','] + rest;
    assert(whole =~= first + (seq![','] + rest));
    lemma_index(first, seq![','] + rest);
    assert(whole.take(first.len() as int) =~= first);
}

proof fn lemma_index(first: Seq<char>, tail: Seq<char>)
    requires
        forall|i: int| 0 <= i < first.len() ==> first[i] != ',',
        tail.len() == 0 || tail[0] == ',',
    ensures
        first_index(first + tail, ',') == first.len(),
    decreases first.len(),
{
    let whole = first + tail;
    if first.len() > 0 {
        assert(whole[0] == first[0]);
        assert(whole.drop_first() =~= first.drop_first() + tail);
        assert forall|i: int| 0 <= i < first.drop_first().len() implies first.drop_first()[i]
            != ',' by {
            assert(first.drop_first()[i] == first[i + 1]);
        }
        lemma_index(first.drop_first(), tail);
    } else if tail.len() > 0 {
        assert(whole[0] == tail[0]);
    }
}

/// The third failure in a row from a place locks it, for ten minutes and no longer; the first two
/// do not, and no other place is touched.
pub proof fn law_third_failure_locks_for_ten_minutes(
    failures: Map<Seq<char>, LoginFailure>,
    key: Seq<char>,
    other: Seq<char>,
    first: i64,
    second: i64,
    third: i64,
    at: i64,
)
    requires
        !failures.contains_key(key),
        other != key,
        0 <= first <= second <= third,
        third + 600 <= i64::MAX,
        0 <= at,
    ensures
        !locked(recorded(failures, key, first), key, at),
        !locked(recorded(recorded(failures, key, first), key, second), key, at),
        locked(
            recorded(recorded(recorded(failures, key, first), key, second), key, third),
            key,
            at,
        ) <==> at < third + 600,
        locked(
            recorded(recorded(recorded(failures, key, first), key, second), key, third),
            other,
            at,
        ) == locked(failures, other, at),
{
}

/// An attempt to log in from a locked place is answered that there were too many, before the user
/// is looked up; any other looks up the user that it names.
pub proof fn law_login_looks_up_the_user(
    failures: Map<Seq<char>, LoginFailure>,
    forwarded_for: Option<String>,
    place: Seq<char>,
    request: LoginRequest,
    now: i64,
    step: LoginStep,
)
    requires
        Login::started(failures, forwarded_for, request, now, step),
        forwarded_for is Some ==> place == failure_key(Some(forwarded_for->Some_0@)),
        forwarded_for is None ==> place == "local"@,
    ensures
        locked(failures, place, now) ==> step == LoginStep::Done(
            Err(StatusCode::TooManyRequests),
        ),
        !locked(failures, place, now) ==> {
            &&& step is Ask
            &&& reads(
                step->Ask_1,
                "SELECT id, password, role FROM users WHERE username = ?1"@,
                seq![SqlView::Text(request.username@)],
                seq![Column::Text, Column::Text, Column::Text],
            )
            &&& step->Ask_0 is Looking
            &&& step->Ask_0->key@ == place
            &&& step->Ask_0->username == request.username
            &&& step->Ask_0->password == request.password
        },
{
}

/// An unknown user and a wrong password are refused and counted. With the right password the
/// failures of the place are forgotten, and a token is issued for that user, with the role that is
/// stored, for 86400 seconds from now.
pub proof fn law_login_goes_by_the_password(
    key: String,
    username: String,
    password: String,
    secret: Seq<char>,
    failures: Map<Seq<char>, LoginFailure>,
    reply: Reply,
    row: Seq<SqlValue>,
    now: i64,
    after: Map<Seq<char>, LoginFailure>,
    step: LoginStep,
)
    requires
        (Login::Looking { key, username, password }).resumed(
            secret,
            failures,
            reply,
            now,
            after,
            step,
        ),
        gives_none(reply) || (gives(reply, row) && row.len() == 3 && row[0] is Text
            && row[1] is Text && row[2] is Text),
        0 <= now && now + 86400 <= usize::MAX,
    ensures
        ({
            let right = gives(reply, row) && accepts(row[1]->Text_0@, password@);
            &&& !right ==> step == LoginStep::Done(Err(StatusCode::Unauthorized)) && after
                == recorded(failures, key@, now)
            &&& right ==> {
                &&& !after.contains_key(key@)
                &&& forall|k: Seq<char>|
                    k != key@ ==> #[trigger] after.contains_key(k) == failures.contains_key(k)
                &&& step is Ask
                &&& step->Ask_1 is EncodeClaims
                &&& step->Ask_1->EncodeClaims_0.sub == row[0]->Text_0
                &&& step->Ask_1->EncodeClaims_0.username == username
                &&& step->Ask_1->EncodeClaims_0.role == row[2]->Text_0
                &&& step->Ask_1->EncodeClaims_0.exp == now + 86400
            }
        }),
{
}

/// A token is the header, the payload and the signature of both, each in base64 for addresses, with
/// dots between them; the signature is keyed by the secret.
pub proof fn law_token_is_header_payload_and_signature(payload: Seq<u8>, secret: Seq<char>)
    ensures
        ({
            let header = base64_url_text(encode_utf8("{\"alg\":\"HS256\",\"typ\":\"JWT\"}"@));
            let body = base64_url_text(payload);
            token_text(payload, secret) == header + "."@ + body + "."@ + base64_url_text(
                hmac_of(encode_utf8(secret), encode_utf8(header + "."@ + body)),
            )
        }),
{
}

/// The keyed hash of a message: the key, filled up to 64 bytes with zeros or hashed first where it
/// is longer, is combined with 0x36 before the message and with 0x5c before the hash of both.
pub proof fn law_keyed_hash_is_nested(
    key: Seq<u8>,
    inner: Seq<u8>,
    outer: Seq<u8>,
    message: Seq<u8>,
)
    requires
        key.len() <= 64 && inner.len() == 64 && outer.len() == 64,
        forall|i: int|
            0 <= i < 64 ==> (#[trigger] inner[i]) == 0x36u8 ^ (if i < key.len() {
                key[i]
            } else {
                0u8
            }),
        forall|i: int|
            0 <= i < 64 ==> (#[trigger] outer[i]) == 0x5cu8 ^ (if i < key.len() {
                key[i]
            } else {
                0u8
            }),
    ensures
        hmac_of(key, message) == sha256_of(outer + sha256_of(inner + message)),
{
    assert(crate::auth::padded(crate::auth::block_key(key), 0x36u8) =~= inner);
    assert(crate::auth::padded(crate::auth::block_key(key), 0x5cu8) =~= outer);
}

/// A token is accepted exactly where it has three parts, a header that names the algorithm `HS256`,
/// a signature of header and payload under the secret, and a payload that decodes, which is then
/// given.
pub proof fn law_token_is_accepted_where_its_signature_fits(token: Seq<char>, secret: Seq<char>)
    ensures
        ({
            let parts = split_parts(token, '.');
            let fits = {
                &&& parts.len() == 3
                &&& base64_url_bytes(parts[0]) is Some
                &&& json_text_member(base64_url_bytes(parts[0])->Some_0, "alg"@) == Some(
                    Some("HS256"@),
                )
                &&& base64_url_bytes(parts[2]) == Some(
                    hmac_of(encode_utf8(secret), encode_utf8(parts[0] + "."@ + parts[1])),
                )
                &&& base64_url_bytes(parts[1]) is Some
            };
            &&& verified(token, secret) is Ok <==> fits
            &&& fits ==> verified(token, secret)->Ok_0 == base64_url_bytes(parts[1])->Some_0
            &&& parts.len() == 1 ==> verified(token, secret) == Err::<Seq<u8>, TokenError>(
                TokenError::PayloadMissing,
            )
            &&& parts.len() == 2 ==> verified(token, secret) == Err::<Seq<u8>, TokenError>(
                TokenError::SignatureMissing,
            )
            &&& parts.len() > 3 ==> verified(token, secret) == Err::<Seq<u8>, TokenError>(
                TokenError::ExtraParts,
            )
        }),
{
}

/// Claims stand for their user up to the second in which they expire, and no longer.
pub proof fn law_claims_expire(claims: Claims, now: i64)
    requires
        0 <= now <= usize::MAX,
    ensures
        now <= claims.exp ==> unexpired(claims, now) == Ok::<AuthUser, TokenError>(
            AuthUser { id: claims.sub, username: claims.username, role: claims.role },
        ),
        now > claims.exp ==> unexpired(claims, now) == Err::<AuthUser, TokenError>(
            TokenError::Expired,
        ),
{
}

/// The token of a request is what follows the word `Bearer` and a space, and nothing else is one.
pub proof fn law_token_follows_its_word(token: Seq<char>, other: Seq<char>)
    requires
        forall|rest: Seq<char>| other != #[trigger] ("Bearer "@ + rest),
    ensures
        bearer_token(Some("Bearer "@ + token)) == Some(token),
        bearer_token(Some(other)) is None,
        bearer_token(None) is None,
{
    reveal_strlit("Bearer ");
    let value = "Bearer "@ + token;
    assert(value.take(7) =~= "Bearer "@);
    assert(value.skip(7) =~= token);
    assert(value.subrange(0, 7) =~= "Bearer "@);
    assert(value.subrange(7, value.len() as int) =~= token);
    if bearer_token(Some(other)) is Some {
        assert(other =~= "Bearer "@ + other.skip(7));
    }
}

/// A registration is refused where it is closed, and where name or password are not valid; any
/// other stores the name with a hash that accepts the password, under a fresh identifier, which is
/// told. A user that cannot be stored is in the way of another.
pub proof fn law_registration_stores_the_user(
    disabled: bool,
    request: LoginRequest,
    fresh: Fresh,
    first: RegisterStep,
    reply: Reply,
    second: RegisterStep,
)
    requires
        Register::started(disabled, request, fresh, first),
        first is Ask ==> (first->Ask_0).resumed(reply, second),
    ensures
        disabled ==> first == RegisterStep::Done(Err(StatusCode::Forbidden)),
        !disabled && !(valid_username(request.username@) && valid_password(request.password@))
            ==> first == RegisterStep::Done(Err(StatusCode::BadRequest)),
        !disabled && valid_username(request.username@) && valid_password(request.password@) ==> {
            let call = first->Ask_1;
            &&& first is Ask
            &&& call is Execute
            &&& call->Execute_0.sql@
                == "INSERT INTO users(id, username, password, role, created_at) VALUES(?1, ?2, ?3, 'user', ?4)"@
            &&& call->Execute_0.params@.len() == 4
            &&& call->Execute_0.params@[0]@ == SqlView::Text(fresh.id@)
            &&& call->Execute_0.params@[1]@ == SqlView::Text(request.username@)
            &&& call->Execute_0.params@[2] is Text
            &&& accepts(call->Execute_0.params@[2]->Text_0@, request.password@)
            &&& call->Execute_0.params@[3]@ == SqlView::Integer(fresh.now)
            &&& reply is Affected ==> second == RegisterStep::Done(Ok(Body::Id(fresh.id)))
            &&& !(reply is Affected) ==> second == RegisterStep::Done(Err(StatusCode::Conflict))
        },
{
    if first is Ask {
        let hash = choose|hash: Seq<char>|
            accepts(hash, request.password@) && first->Ask_1.executes(
                #[trigger] insert_user(fresh.id@, request.username@, hash, fresh.now),
            );
        let params = first->Ask_1->Execute_0.params@;
        let seen = params.map_values(|p: SqlValue| p@);
        assert(seen == insert_user(fresh.id@, request.username@, hash, fresh.now).params);
        assert(seen.len() == 4);
        assert(params[0]@ == seen[0]);
        assert(params[1]@ == seen[1]);
        assert(params[2]@ == seen[2]);
        assert(params[3]@ == seen[3]);
    }
}

/// A password changes only where the old one is right, and only to a valid one: an unknown user and
/// a wrong old password are refused, a new one that is not valid is a bad request, and otherwise a
/// hash that accepts the new one is stored for that user.
pub proof fn law_password_changes_with_the_old_one(
    user_id: String,
    request: ChangePasswordRequest,
    reply: Reply,
    row: Seq<SqlValue>,
    step: ChangePasswordStep,
)
    requires
        (ChangePassword::Looking { user_id, request }).resumed(reply, step),
        gives_none(reply) || (gives(reply, row) && row.len() == 3 && row[0] is Text
            && row[1] is Text && row[2] is Text),
    ensures
        ({
            let right = gives(reply, row) && accepts(row[1]->Text_0@, request.old_password@);
            let call = step->Ask_1;
            &&& !right ==> step == ChangePasswordStep::Done(Err(StatusCode::Unauthorized))
            &&& right && !valid_password(request.new_password@) ==> step
                == ChangePasswordStep::Done(Err(StatusCode::BadRequest))
            &&& right && valid_password(request.new_password@) ==> {
                &&& step is Ask
                &&& call is Execute
                &&& call->Execute_0.sql@ == "UPDATE users SET password = ?1 WHERE id = ?2"@
                &&& call->Execute_0.params@.len() == 2
                &&& call->Execute_0.params@[0] is Text
                &&& accepts(call->Execute_0.params@[0]->Text_0@, request.new_password@)
                &&& call->Execute_0.params@[1]@ == SqlView::Text(user_id@)
            }
        }),
{
    if step is Ask {
        let hash = choose|hash: Seq<char>|
            accepts(hash, request.new_password@) && step->Ask_1.executes(
                #[trigger] set_password(hash, user_id@),
            );
        let params = step->Ask_1->Execute_0.params@;
        let seen = params.map_values(|p: SqlValue| p@);
        assert(seen == set_password(hash, user_id@).params);
        assert(seen.len() == 2);
        assert(params[0]@ == seen[0]);
        assert(params[1]@ == seen[1]);
    }
}

/// Neither the user called `admin` nor anyone with that role can be deleted; anyone else is deleted
/// by identifier.
pub proof fn law_administrator_stays(user: AuthUser, step: DeleteAccountStep)
    requires
        DeleteAccount::started(user, step),
    ensures
        user.username@ == "admin"@ || user.role@ == "admin"@ ==> step == DeleteAccountStep::Done(
            Err(StatusCode::Forbidden),
        ),
        user.username@ != "admin"@ && user.role@ != "admin"@ ==> step is Ask && runs(
            step->Ask_1,
            "DELETE FROM users WHERE id = ?1"@,
            seq![SqlView::Text(user.id@)],
        ),
{
}

/// Claims that could not be read stand for nobody; others stand for the user they name up to the
/// second in which they expire.
pub proof fn law_request_comes_from_the_user_in_its_claims(claims: Option<Claims>, now: i64)
    requires
        0 <= now <= usize::MAX,
    ensures
        claims is Some && now <= claims->Some_0.exp ==> {
            &&& user_behind(claims, now) is Ok
            &&& user_behind(claims, now)->Ok_0.id == claims->Some_0.sub
            &&& user_behind(claims, now)->Ok_0.username == claims->Some_0.username
            &&& user_behind(claims, now)->Ok_0.role == claims->Some_0.role
        },
        claims is None || now > claims->Some_0.exp ==> user_behind(claims, now) == Err::<
            AuthUser,
            StatusCode,
        >(StatusCode::Unauthorized),
{
}

/// A token is for the user that logs in and for one day.
pub proof fn law_claims_are_for_one_day(
    claims: Claims,
    user_id: String,
    username: String,
    role: String,
    issued_at: i64,
)
    requires
        are_claims(claims, user_id, username, role, issued_at),
        0 <= issued_at && issued_at + 86400 <= usize::MAX,
    ensures
        claims.sub == user_id,
        claims.username == username,
        claims.role == role,
        claims.exp == issued_at + 86400,
{
}

/// A password is changed for the user who asks, who is looked up by name.
pub proof fn law_password_change_begins_with_the_user(
    user: AuthUser,
    request: ChangePasswordRequest,
    step: ChangePasswordStep,
)
    requires
        ChangePassword::started(user, request, step),
    ensures
        step is Ask,
        step->Ask_0 == (ChangePassword::Looking { user_id: user.id, request }),
        reads(
            step->Ask_1,
            "SELECT id, password, role FROM users WHERE username = ?1"@,
            seq![SqlView::Text(user.username@)],
            seq![Column::Text, Column::Text, Column::Text],
        ),
{
}

/// The rooms that are listed are those of the user who asks, and only an administrator may follow
/// the stream of events.
pub proof fn law_user_sees_the_own_rooms(user: AuthUser, step: ListRoomsStep)
    requires
        ListRooms::started(user, step),
    ensures
        step is Ask,
        reads(
            step->Ask_1,
            "SELECT id, name, owner_id, created_at FROM rooms WHERE owner_id = ?1 ORDER BY created_at DESC"@,
            seq![SqlView::Text(user.id@)],
            seq![Column::Text, Column::Text, Column::Text, Column::Integer],
        ),
        user.role@ == "admin"@ ==> may_follow(user) is Ok,
        user.role@ != "admin"@ ==> may_follow(user) == Err::<(), StatusCode>(
            StatusCode::Forbidden,
        ),
{
}

/// What stands in for secrets that are not configured, and the version that the console tells.
pub proof fn law_what_is_not_configured_has_its_stand_in()
    ensures
        DEFAULT_JWT_SECRET@ == "vnt-hub-dev-jwt-secret"@,
        DEFAULT_MASTER_KEY@ == "vnt-hub-default-dev-master-key"@,
        CONSOLE_VERSION@ == "1.0.0"@,
{
}

/// Refusals and failures are told by the numbers of HTTP.
pub proof fn law_statuses_have_the_numbers_of_http()
    ensures
        StatusCode::BadRequest.number() == 400,
        StatusCode::Unauthorized.number() == 401,
        StatusCode::Forbidden.number() == 403,
        StatusCode::NotFound.number() == 404,
        StatusCode::Conflict.number() == 409,
        StatusCode::TooManyRequests.number() == 429,
        StatusCode::InternalServerError.number() == 500,
{
}

/// A key that is longer than a block counts as its hash.
pub proof fn law_long_key_counts_as_its_hash(key: Seq<u8>, message: Seq<u8>)
    requires
        key.len() > 64 && sha256_of(key).len() <= 64,
    ensures
        hmac_of(key, message) == hmac_of(sha256_of(key), message),
{
    assert(crate::auth::block_key(key) =~= crate::auth::block_key(sha256_of(key)));
}

/// A login ends with the token for the claims as they were written.
pub proof fn law_login_ends_with_the_token(
    secret: Seq<char>,
    failures: Map<Seq<char>, LoginFailure>,
    payload: String,
    now: i64,
    after: Map<Seq<char>, LoginFailure>,
    step: LoginStep,
)
    requires
        Login::Encoding.resumed(secret, failures, Reply::Text(payload), now, after, step),
    ensures
        after == failures,
        step is Done && step->Done_0 is Ok && step->Done_0->Ok_0 is Login,
        ({
            let header = base64_url_text(encode_utf8("{\"alg\":\"HS256\",\"typ\":\"JWT\"}"@));
            let body = base64_url_text(encode_utf8(payload@));
            step->Done_0->Ok_0->Login_0.access_token@ == header + "."@ + body + "."@
                + base64_url_text(
                hmac_of(encode_utf8(secret), encode_utf8(header + "."@ + body)),
            )
        }),
{
}

/// A change of password and the deletion of an account are done once they are stored.
pub proof fn law_account_change_is_done_once_stored(
    n: u64,
    changed: ChangePasswordStep,
    deleted: DeleteAccountStep,
)
    requires
        ChangePassword::Writing.resumed(Reply::Affected(n), changed),
        DeleteAccount.resumed(Reply::Affected(n), deleted),
    ensures
        changed == ChangePasswordStep::Done(Ok(Body::Done)),
        deleted == DeleteAccountStep::Done(Ok(Body::Done)),
{
}

/// A request is authenticated exactly by a token that follows the word `Bearer` and is accepted;
/// whatever else it carries, it is refused alike.
pub proof fn law_request_is_authenticated_by_its_token(
    token: Seq<char>,
    other: Seq<char>,
    secret: Seq<char>,
)
    requires
        forall|rest: Seq<char>| other != #[trigger] ("Bearer "@ + rest),
    ensures
        verified(token, secret) is Ok ==> authenticated(Some("Bearer "@ + token), secret) == Ok::<
            Seq<u8>,
            StatusCode,
        >(verified(token, secret)->Ok_0),
        verified(token, secret) is Err ==> authenticated(Some("Bearer "@ + token), secret) == Err::<
            Seq<u8>,
            StatusCode,
        >(StatusCode::Unauthorized),
        authenticated(Some(other), secret) == Err::<Seq<u8>, StatusCode>(
            StatusCode::Unauthorized,
        ),
        authenticated(None, secret) == Err::<Seq<u8>, StatusCode>(StatusCode::Unauthorized),
{
    law_token_follows_its_word(token, other);
}

/// A failure that comes while a place is locked changes nothing; the first one after the lock ended
/// counts as the first of a new row.
pub proof fn law_failures_during_a_lock_do_not_count(
    failures: Map<Seq<char>, LoginFailure>,
    key: Seq<char>,
    during: i64,
    first: i64,
    second: i64,
    third: i64,
    at: i64,
)
    requires
        failures.contains_key(key),
        failures[key].count == 0,
        0 <= during < failures[key].locked_until,
        failures[key].locked_until <= first <= second <= third,
        third + 600 <= i64::MAX,
        third <= at,
    ensures
        recorded(failures, key, during) =~= failures,
        !locked(recorded(recorded(failures, key, first), key, second), key, second),
        locked(
            recorded(recorded(recorded(failures, key, first), key, second), key, third),
            key,
            at,
        ) <==> at < third + 600,
{
}

/// The failures after three in a row from a place.
pub open spec fn after_three(
    failures: Map<Seq<char>, LoginFailure>,
    key: Seq<char>,
    at: i64,
) -> Map<Seq<char>, LoginFailure> {
    recorded(recorded(recorded(failures, key, at), key, at), key, at)
}

/// Once a lock has ended, it takes three failures again to lock the place, and no fewer; a place
/// that was opened by a right password in between begins at none.
pub proof fn law_after_a_lock_it_takes_three_again(
    failures: Map<Seq<char>, LoginFailure>,
    key: Seq<char>,
    locking: i64,
    again: i64,
    at: i64,
)
    requires
        !failures.contains_key(key),
        0 <= locking,
        locking + 600 <= again,
        again + 600 <= i64::MAX,
        again <= at,
    ensures
        ({
            let once = after_three(failures, key, locking);
            &&& !locked(recorded(once, key, again), key, again)
            &&& !locked(recorded(recorded(once, key, again), key, again), key, again)
            &&& locked(after_three(once, key, again), key, at) <==> at < again + 600
            &&& !locked(recorded(recorded(once.remove(key), key, again), key, again), key, again)
            &&& !locked(
                recorded(recorded(failures, key, locking).remove(key), key, again),
                key,
                again,
            )
        }),
{
}

} // verus!
