//! Logging in, registering, changing a password, leaving.
use vstd::prelude::*;
use vstd::string::*;
use vstd::utf8::*;

use crate::api::{
    failure_key, login_failure_key, valid_password, valid_username, validate_password,
    validate_username_password, Answer, Body,
};
use crate::auth;
use crate::auth::{AuthUser, Claims};
use crate::db::users;
use crate::flow;
use crate::flow::{Call, Fresh, Reply, Step};
use crate::models::{ChangePasswordRequest, LoginRequest, LoginResponse};
use crate::outside;
use crate::state;
use crate::state::{AppState, LoginFailure, LoginFailures};
use crate::status::StatusCode;
use crate::text;

verus! {

/// An attempt to log in, under way.
#[derive(Debug)]
pub enum Login {
    /// The user is being looked up.
    Looking { key: String, username: String, password: String },
    /// The claims are being written as JSON.
    Encoding,
}

/// A step of an attempt to log in.
pub type LoginStep = Step<Login, Answer>;

impl Login {
    /// The first step: an attempt from a locked place is turned away, any other looks up the
    /// user.
    pub open spec fn started(
        failures: Map<Seq<char>, LoginFailure>,
        forwarded_for: Option<String>,
        request: LoginRequest,
        now: i64,
        step: LoginStep,
    ) -> bool {
        let place = failure_key(
            match forwarded_for {
                Some(list) => Some(list@),
                None => None,
            },
        );
        if state::locked(failures, place, now) {
            step == LoginStep::Done(Err(StatusCode::TooManyRequests))
        } else {
            &&& step matches Step::Ask(Login::Looking { key, username, password }, call)
            &&& key@ == place
            &&& username == request.username
            &&& password == request.password
            &&& call.fetches(users::select_user(request.username@))
        }
    }

    /// How an attempt goes on with a reply, and what becomes of the failures: an unknown user
    /// and a wrong password are answered alike and noted, a right password forgets the failures
    /// of the place, and the token says who the user is for a day.
    pub open spec fn resumed(
        self,
        secret: Seq<char>,
        failures: Map<Seq<char>, LoginFailure>,
        reply: Reply,
        now: i64,
        after: Map<Seq<char>, LoginFailure>,
        step: LoginStep,
    ) -> bool {
        match self {
            Login::Looking { key, username, password } => match users::user_of(reply) {
                Err(_) => after == failures && step == LoginStep::Done(
                    Err(StatusCode::InternalServerError),
                ),
                Ok(None) => after == state::recorded(failures, key@, now) && step
                    == LoginStep::Done(Err(StatusCode::Unauthorized)),
                Ok(Some(user)) => if !auth::accepts(
                    user.password_hash@,
                    password@,
                ) {
                    after == state::recorded(failures, key@, now) && step == LoginStep::Done(
                        Err(StatusCode::Unauthorized),
                    )
                } else {
                    &&& after == failures.remove(key@)
                    &&& step == LoginStep::Ask(
                        Login::Encoding,
                        Call::EncodeClaims(
                            Claims {
                                sub: user.id,
                                username,
                                role: user.role,
                                exp: (now + auth::TOKEN_LIFETIME) as usize,
                            },
                        ),
                    )
                },
            },
            Login::Encoding => {
                &&& after == failures
                &&& match flow::text_of(reply) {
                    None => step == LoginStep::Done(Err(StatusCode::InternalServerError)),
                    Some(payload) => {
                        &&& step matches Step::Done(Ok(Body::Login(response)))
                        &&& response.access_token@ == auth::token_text(
                            encode_utf8(payload@),
                            secret,
                        )
                        &&& auth::is_issued(
                            response.access_token@,
                            encode_utf8(payload@),
                            secret,
                        )
                    },
                }
            },
        }
    }

    /// Takes the reply and goes on.
    pub fn resume(
        self,
        state: &AppState,
        failures: &mut LoginFailures,
        reply: Reply,
        now: i64,
    ) -> (step: LoginStep)
        requires
            old(failures).wf(),
            now <= outside::CLOCK_LIMIT,
        ensures
            final(failures).wf(),
            self.resumed(
                state.jwt_secret@,
                old(failures)@,
                reply,
                now,
                final(failures)@,
                step,
            ),
    {
        match self {
            Login::Looking { key, username, password } => match users::found_user(reply) {
                Err(_) => Step::Done(Err(StatusCode::InternalServerError)),
                Ok(None) => {
                    failures.record(key, now);
                    Step::Done(Err(StatusCode::Unauthorized))
                },
                Ok(Some(user)) => {
                    if !auth::verify_password(user.password_hash.as_str(), password.as_str()) {
                        failures.record(key, now);
                        return Step::Done(Err(StatusCode::Unauthorized));
                    }
                    failures.clear(key.as_str());
                    let claims = auth::new_claims(user.id, username, user.role, now);
                    Step::Ask(Login::Encoding, Call::EncodeClaims(claims))
                },
            },
            Login::Encoding => match flow::text(reply) {
                None => Step::Done(Err(StatusCode::InternalServerError)),
                Some(payload) => {
                    let access_token = auth::sign(
                        payload.as_str().as_bytes(),
                        state.jwt_secret.as_str(),
                    );
                    Step::Done(Ok(Body::Login(LoginResponse { access_token })))
                },
            },
        }
    }
}

/// Begins an attempt to log in.
pub fn login(
    state: &AppState,
    failures: &LoginFailures,
    forwarded_for: Option<String>,
    request: LoginRequest,
    now: i64,
) -> (step: LoginStep)
    ensures
        Login::started(failures@, forwarded_for, request, now, step),
{
    let key = login_failure_key(&forwarded_for);
    if failures.is_locked(key.as_str(), now) {
        return Step::Done(Err(StatusCode::TooManyRequests));
    }
    let query = state.db.find_user(request.username.as_str());
    Step::Ask(
        Login::Looking { key, username: request.username, password: request.password },
        Call::Fetch(query),
    )
}

/// From a locked place no password helps: an attempt is turned away before anything is looked up.
pub proof fn law_locked_place_is_turned_away(
    failures: Map<Seq<char>, LoginFailure>,
    forwarded_for: Option<String>,
    request: LoginRequest,
    now: i64,
    step: LoginStep,
)
    requires
        Login::started(failures, forwarded_for, request, now, step),
        state::locked(
            failures,
            failure_key(
                match forwarded_for {
                    Some(list) => Some(list@),
                    None => None,
                },
            ),
            now,
        ),
    ensures
        step == LoginStep::Done(Err(StatusCode::TooManyRequests)),
{
}

/// A token is only given for a right password: an attempt goes on to its claims only where the
/// stored hash accepts the password.
pub proof fn law_token_needs_the_password(
    state: Login,
    secret: Seq<char>,
    failures: Map<Seq<char>, LoginFailure>,
    reply: Reply,
    now: i64,
    after: Map<Seq<char>, LoginFailure>,
    step: LoginStep,
)
    requires
        state.resumed(secret, failures, reply, now, after, step),
        state is Looking,
    ensures
        !(step matches Step::Done(Ok(_))),
        step is Ask ==> users::user_of(reply) is Ok && users::user_of(reply)->Ok_0 is Some
            && auth::accepts(
            users::user_of(reply)->Ok_0->Some_0.password_hash@,
            state->Looking_password@,
        ),
{
}

/// The token that logging in ends with is one that its bearer is recognised by: under the same
/// secret it gives back the claims' JSON text.
pub proof fn law_token_is_recognised(
    secret: Seq<char>,
    failures: Map<Seq<char>, LoginFailure>,
    reply: Reply,
    now: i64,
    after: Map<Seq<char>, LoginFailure>,
    step: LoginStep,
)
    requires
        Login::Encoding.resumed(secret, failures, reply, now, after, step),
        flow::text_of(reply) is Some,
    ensures
        step is Done,
        step->Done_0 is Ok,
        step->Done_0->Ok_0 is Login,
        auth::is_issued(
            step->Done_0->Ok_0->Login_0.access_token@,
            encode_utf8(flow::text_of(reply)->Some_0@),
            secret,
        ),
{
}

/// A new user being stored.
#[derive(Debug)]
pub struct Register {
    pub id: String,
}

/// A step of a registration.
pub type RegisterStep = Step<Register, Answer>;

impl Register {
    /// The first step: where registration is open and name and password are valid, the user is
    /// stored with a hash of the password.
    pub open spec fn started(
        disabled: bool,
        request: LoginRequest,
        fresh: Fresh,
        step: RegisterStep,
    ) -> bool {
        if disabled {
            step == RegisterStep::Done(Err(StatusCode::Forbidden))
        } else if !valid_username(request.username@) || !valid_password(request.password@) {
            step == RegisterStep::Done(Err(StatusCode::BadRequest))
        } else {
            &&& step matches Step::Ask(Register { id }, call)
            &&& id == fresh.id
            &&& exists|hash: Seq<char>|
                auth::accepts(hash, request.password@) && call.executes(
                    #[trigger] users::insert_user(
                        fresh.id@,
                        request.username@,
                        hash,
                        fresh.now,
                    ),
                )
        }
    }

    /// How a registration ends: a user that cannot be stored is in the way of another.
    pub open spec fn resumed(self, reply: Reply, step: RegisterStep) -> bool {
        step == RegisterStep::Done(
            match flow::affected_of(reply) {
                Some(_) => Ok(Body::Id(self.id)),
                None => Err(StatusCode::Conflict),
            },
        )
    }

    /// Takes the reply and ends.
    pub fn resume(self, reply: Reply) -> (step: RegisterStep)
        ensures
            self.resumed(reply, step),
    {
        match flow::affected(reply) {
            Some(_) => Step::Done(Ok(Body::Id(self.id))),
            None => Step::Done(Err(StatusCode::Conflict)),
        }
    }
}

/// Begins to register a user.
pub fn register(state: &AppState, request: LoginRequest, fresh: Fresh) -> (step: RegisterStep)
    ensures
        Register::started(state.args.disable_register, request, fresh, step),
{
    if state.args.disable_register {
        return Step::Done(Err(StatusCode::Forbidden));
    }
    match validate_username_password(request.username.as_str(), request.password.as_str()) {
        Ok(()) => {},
        Err(status) => return Step::Done(Err(status)),
    }
    match auth::hash_password(request.password.as_str()) {
        Ok(hash) => {
            let statement = state.db.insert_user(
                fresh.id.as_str(),
                request.username.as_str(),
                hash.as_str(),
                fresh.now,
            );
            assert(statement@ == users::insert_user(
                fresh.id@,
                request.username@,
                hash@,
                fresh.now,
            ));
            Step::Ask(Register { id: fresh.id }, Call::Execute(statement))
        },
        Err(_) => Step::Done(Err(StatusCode::InternalServerError)),
    }
}

/// A password being changed.
#[derive(Debug)]
pub enum ChangePassword {
    /// The user is being looked up.
    Looking { user_id: String, request: ChangePasswordRequest },
    /// The new password is being stored.
    Writing,
}

/// A step of a change of password.
pub type ChangePasswordStep = Step<ChangePassword, Answer>;

impl ChangePassword {
    /// The first step: the user is looked up by name.
    pub open spec fn started(
        user: AuthUser,
        request: ChangePasswordRequest,
        step: ChangePasswordStep,
    ) -> bool {
        step matches Step::Ask(first, call) && first == (ChangePassword::Looking {
            user_id: user.id,
            request,
        }) && call.fetches(users::select_user(user.username@))
    }

    /// How the change goes on with a reply: the old password has to be right and the new one
    /// valid.
    pub open spec fn resumed(self, reply: Reply, step: ChangePasswordStep) -> bool {
        match self {
            ChangePassword::Looking { user_id, request } => match users::user_of(reply) {
                Err(_) => step == ChangePasswordStep::Done(Err(StatusCode::InternalServerError)),
                Ok(None) => step == ChangePasswordStep::Done(Err(StatusCode::Unauthorized)),
                Ok(Some(user)) => if !auth::accepts(
                    user.password_hash@,
                    request.old_password@,
                ) {
                    step == ChangePasswordStep::Done(Err(StatusCode::Unauthorized))
                } else if !valid_password(request.new_password@) {
                    step == ChangePasswordStep::Done(Err(StatusCode::BadRequest))
                } else {
                    &&& step matches Step::Ask(ChangePassword::Writing, call)
                    &&& exists|hash: Seq<char>|
                        auth::accepts(hash, request.new_password@) && call.executes(
                            #[trigger] users::set_password(hash, user_id@),
                        )
                },
            },
            ChangePassword::Writing => step == ChangePasswordStep::Done(
                match flow::affected_of(reply) {
                    Some(_) => Ok(Body::Done),
                    None => Err(StatusCode::InternalServerError),
                },
            ),
        }
    }

    /// Takes the reply and goes on.
    pub fn resume(self, state: &AppState, reply: Reply) -> (step: ChangePasswordStep)
        ensures
            self.resumed(reply, step),
    {
        match self {
            ChangePassword::Looking { user_id, request } => {
                let user = match users::found_user(reply) {
                    Err(_) => return Step::Done(Err(StatusCode::InternalServerError)),
                    Ok(None) => return Step::Done(Err(StatusCode::Unauthorized)),
                    Ok(Some(user)) => user,
                };
                if !auth::verify_password(
                    user.password_hash.as_str(),
                    request.old_password.as_str(),
                ) {
                    return Step::Done(Err(StatusCode::Unauthorized));
                }
                match validate_password(request.new_password.as_str()) {
                    Ok(()) => {},
                    Err(status) => return Step::Done(Err(status)),
                }
                match auth::hash_password(request.new_password.as_str()) {
                    Ok(hash) => {
                        let statement = state.db.set_password(hash.as_str(), user_id.as_str());
                        assert(statement@ == users::set_password(hash@, user_id@));
                        Step::Ask(ChangePassword::Writing, Call::Execute(statement))
                    },
                    Err(_) => Step::Done(Err(StatusCode::InternalServerError)),
                }
            },
            ChangePassword::Writing => match flow::affected(reply) {
                Some(_) => Step::Done(Ok(Body::Done)),
                None => Step::Done(Err(StatusCode::InternalServerError)),
            },
        }
    }
}

/// Begins to change a user's password.
pub fn change_password(state: &AppState, user: AuthUser, request: ChangePasswordRequest) -> (step:
    ChangePasswordStep)
    ensures
        ChangePassword::started(user, request, step),
{
    let query = state.db.find_user(user.username.as_str());
    Step::Ask(ChangePassword::Looking { user_id: user.id, request }, Call::Fetch(query))
}

/// An account being deleted.
#[derive(Debug)]
pub struct DeleteAccount;

/// A step of the deletion of an account.
pub type DeleteAccountStep = Step<DeleteAccount, Answer>;

impl DeleteAccount {
    /// The first step: the administrator stays, anyone else is deleted.
    pub open spec fn started(user: AuthUser, step: DeleteAccountStep) -> bool {
        if user.username@ == "admin"@ || user.admin() {
            step == DeleteAccountStep::Done(Err(StatusCode::Forbidden))
        } else {
            step matches Step::Ask(_, call) && call.executes(users::remove_user(user.id@))
        }
    }

    /// How the deletion ends.
    pub open spec fn resumed(self, reply: Reply, step: DeleteAccountStep) -> bool {
        step == DeleteAccountStep::Done(
            match flow::affected_of(reply) {
                Some(_) => Ok(Body::Done),
                None => Err(StatusCode::InternalServerError),
            },
        )
    }

    /// Takes the reply and ends.
    pub fn resume(self, reply: Reply) -> (step: DeleteAccountStep)
        ensures
            self.resumed(reply, step),
    {
        match flow::affected(reply) {
            Some(_) => Step::Done(Ok(Body::Done)),
            None => Step::Done(Err(StatusCode::InternalServerError)),
        }
    }
}

/// Begins to delete a user's own account.
pub fn delete_account(state: &AppState, user: &AuthUser) -> (step: DeleteAccountStep)
    ensures
        DeleteAccount::started(*user, step),
{
    if text::same_text(user.username.as_str(), "admin") || user.is_admin() {
        return Step::Done(Err(StatusCode::Forbidden));
    }
    Step::Ask(DeleteAccount, Call::Execute(state.db.delete_user(user.id.as_str())))
}

} // verus!
