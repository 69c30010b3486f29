//! The verified principal of a request.
//!
//! A bearer token that passes validation yields a `Claims` value: the
//! subject (a user id rendered in decimal), the role, the issuer and the
//! absolute expiry. Every protected operation decides on it alone.
use vstd::prelude::*;
use vstd::string::StrSliceExecFns;

use crate::decimal::i32_dec;
use crate::decimal::lemma_parse_i32_of_dec;
use crate::decimal::parse_i32;
use crate::decimal::spec_parse_i32;
use crate::error::ApiError;
use crate::str_eq;
use crate::token::claims_result_matches;
use crate::token::validate_spec;
use crate::token::validate_token;
use crate::token::Keys;

verus! {

#[derive(Debug)]
pub struct Claims {
    pub sub: String,
    pub role: String,
    pub company: String,
    pub exp: i64,
}

impl Claims {
    pub fn new(sub: String, role: String, company: String, exp: i64) -> (r: Self)
        ensures
            r == (Claims { sub, role, company, exp }),
    {
        Self { sub, role, company, exp }
    }

    pub open spec fn is_admin_spec(self) -> bool {
        self.role@ == "admin"@
    }

    /// The principal holds the administrator role.
    pub fn is_admin(&self) -> (r: bool)
        ensures
            r == self.is_admin_spec(),
    {
        str_eq(self.role.as_str(), "admin")
    }

    pub open spec fn is_user_spec(self, id: i32) -> bool {
        spec_parse_i32(self.sub@) == Some(id)
    }

    /// The subject denotes exactly the given user id. A subject that is
    /// not a decimal number makes this check fail rather than crash.
    pub fn is_user(&self, id: i32) -> (r: bool)
        ensures
            r == self.is_user_spec(id),
    {
        match parse_i32(self.sub.as_str()) {
            Option::Some(n) => n == id,
            Option::None => false,
        }
    }

    /// The authorization rule every resource-scoped operation applies:
    /// administrators may act on anyone, others only on themselves.
    pub open spec fn allows(self, id: i32) -> bool {
        self.is_admin_spec() || self.is_user_spec(id)
    }

    pub fn is_allowed(&self, id: i32) -> (r: bool)
        ensures
            r == self.allows(id),
    {
        self.is_admin() || self.is_user(id)
    }
}

/// The ownership rule, applied to a principal whose subject was written
/// by the service itself: a non-administrator whose subject renders user
/// `n` is allowed on target `id` exactly when `n` is `id`; an
/// administrator is allowed on every target.
pub proof fn lemma_owner_check(c: Claims, n: i32, id: i32)
    requires
        c.sub@ == i32_dec(n as int),
    ensures
        !c.is_admin_spec() ==> (c.allows(id) <==> n == id),
        c.is_admin_spec() ==> c.allows(id),
{
    lemma_parse_i32_of_dec(n);
}

/// The token carried by an `Authorization: Bearer <token>` header value,
/// if the value is shaped that way.
pub open spec fn bearer_token_of(header: Seq<char>) -> Option<Seq<char>> {
    if header.len() >= 7 && header.subrange(0, 7) == "Bearer "@ {
        Some(header.skip(7))
    } else {
        None
    }
}

/// Strip the bearer scheme off an authorization header value.
pub fn bearer_token(header: &str) -> (r: Option<&str>)
    ensures
        match bearer_token_of(header@) {
            Some(t) => r is Some && r.unwrap()@ == t,
            None => r is None,
        },
{
    let len = header.unicode_len();
    if len < 7 {
        return None;
    }
    let prefix = header.substring_char(0, 7);
    if !str_eq(prefix, "Bearer ") {
        return None;
    }
    Some(header.substring_char(7, len))
}

impl Claims {
    /// Extract and validate the principal for a request that presented
    /// the given authorization header, at time `now`. A missing or
    /// malformed header, a bad signature and an expired token all answer
    /// `InvalidToken`.
    pub fn from_header(keys: &Keys, header: Option<&str>, now: i64) -> (r: Result<Self, ApiError>)
        ensures
            header is None ==> r == Err::<Claims, ApiError>(ApiError::InvalidToken),
            header is Some && bearer_token_of(header.unwrap()@) is None ==> r == Err::<
                Claims,
                ApiError,
            >(ApiError::InvalidToken),
            header is Some && bearer_token_of(header.unwrap()@) is Some ==> claims_result_matches(
                r,
                validate_spec(bearer_token_of(header.unwrap()@).unwrap(), keys.secret@, now),
            ),
    {
        match header {
            Option::None => Err(ApiError::InvalidToken),
            Option::Some(h) => match bearer_token(h) {
                Option::None => Err(ApiError::InvalidToken),
                Option::Some(tok) => validate_token(keys, tok, now),
            },
        }
    }
}

} // verus!
