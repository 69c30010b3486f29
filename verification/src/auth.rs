//! Credentials and the authentication service.
//!
//! Passwords are never stored: a memory-hard hash derived by the
//! `argon2` crate is. Hashing and verification stand behind trusted
//! wrappers whose results carry names (`hash_of`, `verified_of`), and
//! login and registration are verified against those names.
use vstd::prelude::*;
use vstd::utf8::encode_utf8;

use crate::decimal::format_i32;
use crate::decimal::i32_dec;
use crate::error::ApiError;
use crate::store::find_auth_spec;
use crate::store::find_user_by_email_spec;
use crate::store::has_email;
use crate::store::Store;
use crate::token::claims_of;
use crate::token::issue_token;
use crate::token::token_of;
use crate::token::unix_now;
use crate::token::Keys;
use crate::user::create_post;
use crate::user::Register;
use crate::user::User;

verus! {

/// A stored credential row: the owning user, the encoded password hash,
/// and the count of failed attempts.
///
/// The failure counter is lockout data only: it is written as zero at
/// registration and read by `is_blocked`, but no operation increments it
/// or consults it on login. Lockout is recorded, not enforced.
#[derive(Debug)]
pub struct Auth {
    pub user_id: i32,
    pub hash: String,
    pub error: i32,
}

impl Clone for Auth {
    fn clone(&self) -> (r: Self)
        ensures
            r == *self,
    {
        Auth { user_id: self.user_id, hash: self.hash.clone(), error: self.error }
    }
}

/// A credential row about to be inserted.
pub struct NewAuth {
    pub user_id: i32,
    pub hash: String,
}

/// The login response body.
#[derive(Debug)]
pub struct AuthBody {
    pub access_token: String,
}

/// The login request body.
#[derive(Debug)]
pub struct AuthPayload {
    pub email: String,
    pub password: String,
}

/// What hashing a password under a salt returns.
pub uninterp spec fn hash_of(password: Seq<char>, salt: Seq<char>) -> Seq<char>;

/// What verifying a password against an encoded hash answers: whether it
/// matches, or nothing where the verifier itself fails (a hash that does
/// not parse).
pub uninterp spec fn verified_of(hash: Seq<char>, password: Seq<char>) -> Option<bool>;

/// The lengths on which the hashing primitive accepts its inputs.
pub open spec fn hash_inputs_ok(password: Seq<char>, salt: Seq<char>) -> bool {
    &&& 8 <= encode_utf8(salt).len() <= 0xFFFF_FFFF
    &&& encode_utf8(password).len() <= 0xFFFF_FFFF
}

/// Relies on `argon2::hash_encoded` with the default configuration: the
/// encoded hash is a function of password and salt alone, it fails
/// exactly on out-of-range salt or password lengths, and verifying a
/// password against its own hash reports a match.
#[verifier::external_body]
fn hash_password(password: &str, salt: &str) -> (r: Option<String>)
    ensures
        r is Some <==> hash_inputs_ok(password@, salt@),
        r is Some ==> r.unwrap()@ == hash_of(password@, salt@),
        r is Some ==> verified_of(hash_of(password@, salt@), password@) == Some(true),
{
    argon2::hash_encoded(password.as_bytes(), salt.as_bytes(), &argon2::Config::default()).ok()
}

/// Relies on `argon2::verify_encoded`: whether a password matches an
/// encoded hash is a function of the two alone; an internal failure is
/// reported as absence, never as a match and never as a crash.
#[verifier::external_body]
fn verify_password(hash: &str, password: &str) -> (r: Option<bool>)
    ensures
        r == verified_of(hash@, password@),
{
    argon2::verify_encoded(hash, password.as_bytes()).ok()
}

impl Auth {
    /// Too many failed attempts block further authentication.
    pub fn is_blocked(&self) -> (r: bool)
        ensures
            r == (self.error > 5),
    {
        self.error > 5
    }

    /// Check the password against the stored hash. `None` reports an
    /// internal verifier failure, distinct from a wrong password.
    pub fn is_valid(&self, password: String) -> (r: Option<bool>)
        ensures
            r == verified_of(self.hash@, password@),
    {
        verify_password(self.hash.as_str(), password.as_str())
    }

    /// Find the credential row of a user.
    pub fn find_by_user_id(store: &Store, user_id_param: i32) -> (r: Result<Auth, ApiError>)
        ensures
            match find_auth_spec(store.auths@, user_id_param) {
                Some(a) => r == Ok::<Auth, ApiError>(a),
                None => r == Err::<Auth, ApiError>(ApiError::NotFound),
            },
    {
        let n = store.auths.len();
        let mut i: usize = 0;
        proof {
            assert(store.auths@.skip(0) =~= store.auths@);
        }
        while i < n
            invariant
                i <= n,
                n == store.auths@.len(),
                find_auth_spec(store.auths@, user_id_param) == find_auth_spec(
                    store.auths@.skip(i as int),
                    user_id_param,
                ),
            decreases n - i,
        {
            proof {
                assert(store.auths@.skip(i as int)[0] == store.auths@[i as int]);
                assert(store.auths@.skip(i as int).drop_first() =~= store.auths@.skip(i + 1));
            }
            if store.auths[i].user_id == user_id_param {
                return Ok(store.auths[i].clone());
            }
            i = i + 1;
        }
        proof {
            assert(store.auths@.skip(n as int) =~= Seq::<Auth>::empty());
        }
        Err(ApiError::NotFound)
    }
}

impl NewAuth {
    /// Derive the credential row of a new user from the plaintext
    /// password and the configured salt. The plaintext itself is never
    /// kept; a salt the hashing primitive rejects is a configuration
    /// fault.
    pub fn new(user_id: i32, password: String, salt: &str) -> (r: Result<NewAuth, ApiError>)
        ensures
            r is Ok <==> hash_inputs_ok(password@, salt@),
            r is Ok ==> r.unwrap().user_id == user_id && r.unwrap().hash@ == hash_of(
                password@,
                salt@,
            ),
            r is Err ==> r == Err::<NewAuth, ApiError>(ApiError::ConfigurationError),
    {
        match hash_password(password.as_str(), salt) {
            Option::Some(hash) => Ok(NewAuth { user_id, hash }),
            Option::None => Err(ApiError::ConfigurationError),
        }
    }
}

/// What logging in answers, for every store, request and time: missing
/// credentials are rejected without looking at the store; an unknown
/// email or a user without a credential row is not found; a password the
/// hash rejects is invalid; a matching password earns a token over the
/// user's id and role, issued by "fer" and expiring an hour after `now`.
pub open spec fn login_spec(
    users: Seq<User>,
    auths: Seq<Auth>,
    secret: Seq<u8>,
    email: Seq<char>,
    password: Seq<char>,
    now: i64,
) -> Result<Seq<char>, ApiError> {
    if email.len() == 0 || password.len() == 0 {
        Err(ApiError::NotValid)
    } else {
        match find_user_by_email_spec(users, email) {
            None => Err(ApiError::NotFound),
            Some(user) => match find_auth_spec(auths, user.id) {
                None => Err(ApiError::NotFound),
                Some(auth) => match verified_of(auth.hash@, password) {
                    None => Err(ApiError::InternalServerError),
                    Some(false) => Err(ApiError::NotValid),
                    Some(true) => if now > i64::MAX - 3600 {
                        Err(ApiError::InternalServerError)
                    } else {
                        match token_of(
                            i32_dec(user.id as int),
                            user.role@,
                            "fer"@,
                            now + 3600,
                            secret,
                        ) {
                            None => Err(ApiError::TokenCreation),
                            Some(t) => Ok(t),
                        }
                    },
                },
            },
        }
    }
}

/// What login answers for a registered user: the correct password (the
/// one whose hash the store holds) earns exactly the token over that
/// user's id and role, and a password the hash rejects is turned away as
/// invalid credentials — the same error as malformed input, so that
/// accounts cannot be probed.
pub proof fn lemma_login_registered(
    users: Seq<User>,
    auths: Seq<Auth>,
    secret: Seq<u8>,
    email: Seq<char>,
    password: Seq<char>,
    now: i64,
    u: User,
    a: Auth,
)
    requires
        email.len() > 0 && password.len() > 0,
        find_user_by_email_spec(users, email) == Some(u),
        find_auth_spec(auths, u.id) == Some(a),
        now <= i64::MAX - 3600,
    ensures
        verified_of(a.hash@, password) == Some(true) ==> login_spec(
            users,
            auths,
            secret,
            email,
            password,
            now,
        ) == (match token_of(i32_dec(u.id as int), u.role@, "fer"@, now + 3600, secret) {
            Some(t) => Ok::<Seq<char>, ApiError>(t),
            None => Err::<Seq<char>, ApiError>(ApiError::TokenCreation),
        }),
        verified_of(a.hash@, password) == Some(false) ==> login_spec(
            users,
            auths,
            secret,
            email,
            password,
            now,
        ) == Err::<Seq<char>, ApiError>(ApiError::NotValid),
{
}

/// Registration is idempotent-safe: once a registration for an email has
/// succeeded, the store holds that email, and a second registration for
/// the same email — whatever its name, password or salt — is refused as a
/// conflict and leaves the store exactly as it was. Together with the
/// store invariant (emails are unique) no two user rows can ever share an
/// email.
pub proof fn lemma_register_conflict(
    s0: Store,
    s1: Store,
    s2: Store,
    name1: Seq<char>,
    email: Seq<char>,
    password1: Seq<char>,
    salt1: Seq<char>,
    u: User,
    name2: Seq<char>,
    password2: Seq<char>,
    salt2: Seq<char>,
    r2: Result<User, ApiError>,
)
    requires
        create_post(s0, s1, name1, email, password1, salt1, Ok(u)),
        create_post(s1, s2, name2, email, password2, salt2, r2),
    ensures
        has_email(s1.users@, email),
        r2 == Err::<User, ApiError>(ApiError::Conflict),
        s2 == s1,
{
    assert(s1.users@.last() == u);
    assert(s1.users@[s1.users@.len() - 1].email@ == email);
    assert(has_email(s1.users@, email));
    match r2 {
        Ok(_) => {
            assert(false);
        },
        Err(e) => {},
    }
}

/// Log a user in with email and password at time `now` and answer a
/// bearer token. The token alone is the trust anchor afterwards: there
/// is no refresh and no revocation, and the stored failure counter is
/// not consulted here (see `Auth`).
pub fn login(store: &Store, keys: &Keys, payload: AuthPayload, now: i64) -> (r: Result<
    AuthBody,
    ApiError,
>)
    ensures
        match login_spec(
            store.users@,
            store.auths@,
            keys.secret@,
            payload.email@,
            payload.password@,
            now,
        ) {
            Ok(t) => r is Ok && r.unwrap().access_token@ == t,
            Err(e) => r == Err::<AuthBody, ApiError>(e),
        },
        r is Ok ==> claims_of(r.unwrap().access_token@, keys.secret@) == Some(
            (
                i32_dec(find_user_by_email_spec(store.users@, payload.email@).unwrap().id as int),
                find_user_by_email_spec(store.users@, payload.email@).unwrap().role@,
                "fer"@,
                (now + 3600) as int,
            ),
        ),
{
    let AuthPayload { email, password } = payload;
    if email.as_str().is_empty() || password.as_str().is_empty() {
        return Err(ApiError::NotValid);
    }
    let user = match User::find_by_email(store, email) {
        Ok(u) => u,
        Err(_) => {
            return Err(ApiError::NotFound);
        },
    };
    let auth = match Auth::find_by_user_id(store, user.id) {
        Ok(a) => a,
        Err(_) => {
            return Err(ApiError::NotFound);
        },
    };
    match auth.is_valid(password) {
        Option::None => Err(ApiError::InternalServerError),
        Option::Some(false) => Err(ApiError::NotValid),
        Option::Some(true) => {
            if now > i64::MAX - 3600 {
                return Err(ApiError::InternalServerError);
            }
            let expiration = now + 3600;
            let sub = format_i32(user.id);
            match issue_token(keys, sub, user.role, String::from_str("fer"), expiration) {
                Ok(t) => Ok(AuthBody { access_token: t }),
                Err(e) => Err(e),
            }
        },
    }
}

/// Log in at the machine's current time.
pub fn login_now(store: &Store, keys: &Keys, payload: AuthPayload) -> (r: Result<
    AuthBody,
    ApiError,
>)
    ensures
        exists|now: i64|
            match #[trigger] login_spec(
                store.users@,
                store.auths@,
                keys.secret@,
                payload.email@,
                payload.password@,
                now,
            ) {
                Ok(t) => r is Ok && r.unwrap().access_token@ == t,
                Err(e) => r == Err::<AuthBody, ApiError>(e),
            },
{
    let now = unix_now();
    let r = login(store, keys, payload, now);
    proof {
        assert(match login_spec(
            store.users@,
            store.auths@,
            keys.secret@,
            payload.email@,
            payload.password@,
            now,
        ) {
            Ok(t) => r is Ok && r.unwrap().access_token@ == t,
            Err(e) => r == Err::<AuthBody, ApiError>(e),
        });
    }
    r
}

/// Register a new user and answer its id, rendered in decimal.
pub fn register(store: &mut Store, payload: Register, salt: &str) -> (r: Result<String, ApiError>)
    requires
        old(store).wf(),
    ensures
        final(store).wf(),
        r is Err ==> *final(store) == *old(store),
        (payload.email@.len() == 0 || payload.password@.len() == 0) ==> r == Err::<
            String,
            ApiError,
        >(ApiError::MissingCredentials),
        (payload.email@.len() > 0 && payload.password@.len() > 0 && has_email(
            old(store).users@,
            payload.email@,
        )) ==> r == Err::<String, ApiError>(ApiError::Conflict),
        (payload.email@.len() > 0 && payload.password@.len() > 0) ==> match r {
            Ok(id_str) => exists|u: User|
                #[trigger] create_post(
                    *old(store),
                    *final(store),
                    payload.name@,
                    payload.email@,
                    payload.password@,
                    salt@,
                    Ok(u),
                ) && id_str@ == i32_dec(u.id as int),
            Err(e) => create_post(
                *old(store),
                *final(store),
                payload.name@,
                payload.email@,
                payload.password@,
                salt@,
                Err(e),
            ),
        },
{
    if payload.email.as_str().is_empty() || payload.password.as_str().is_empty() {
        return Err(ApiError::MissingCredentials);
    }
    match User::create(store, payload, salt) {
        Ok(user) => Ok(format_i32(user.id)),
        Err(e) => Err(e),
    }
}

} // verus!
