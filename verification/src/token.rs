//! Token issuance and validation.
//!
//! Signing and signature checking are delegated to the `jsonwebtoken`
//! crate. Both are pure functions of the payload fields and the secret,
//! so their results carry names (`token_of`, `claims_of`) that the
//! verified contracts speak of; the expiry check itself is verified code,
//! with the current time passed in by the caller.
use vstd::prelude::*;
use vstd::slice::slice_to_vec;

use crate::claims::Claims;
use crate::error::ApiError;

verus! {

/// The signing and verification secret, fixed at startup.
pub struct Keys {
    pub secret: Vec<u8>,
}

impl Keys {
    pub fn new(secret: &[u8]) -> (r: Self)
        ensures
            r.secret@ == secret@,
    {
        Keys { secret: slice_to_vec(secret) }
    }
}

/// What encoding a payload `{sub, role, company, exp}` under a secret
/// returns: the signed token, or nothing where the library reports an
/// error.
pub uninterp spec fn token_of(
    sub: Seq<char>,
    role: Seq<char>,
    company: Seq<char>,
    exp: int,
    secret: Seq<u8>,
) -> Option<Seq<char>>;

/// What decoding a token under a secret returns: the payload fields
/// `(sub, role, company, exp)` where the signature and shape check out,
/// and nothing otherwise.
pub uninterp spec fn claims_of(token: Seq<char>, secret: Seq<u8>) -> Option<
    (Seq<char>, Seq<char>, Seq<char>, int),
>;

/// Relies on `jsonwebtoken::encode` with the default (HS256) header: the
/// token is a function of the payload fields and the secret alone, and
/// decoding what was encoded gives the payload back.
#[verifier::external_body]
fn jwt_encode(claims: &Claims, secret: &Vec<u8>) -> (r: Option<String>)
    ensures
        r is Some <==> token_of(
            claims.sub@,
            claims.role@,
            claims.company@,
            claims.exp as int,
            secret@,
        ) is Some,
        r is Some ==> r.unwrap()@ == token_of(
            claims.sub@,
            claims.role@,
            claims.company@,
            claims.exp as int,
            secret@,
        ).unwrap(),
        r is Some ==> claims_of(r.unwrap()@, secret@) == Some(
            (claims.sub@, claims.role@, claims.company@, claims.exp as int),
        ),
{
    let mut m = serde_json::Map::new();
    m.insert("sub".to_string(), serde_json::Value::String(claims.sub.clone()));
    m.insert("role".to_string(), serde_json::Value::String(claims.role.clone()));
    m.insert("company".to_string(), serde_json::Value::String(claims.company.clone()));
    m.insert("exp".to_string(), serde_json::Value::Number(serde_json::Number::from(claims.exp)));
    let key = jsonwebtoken::EncodingKey::from_secret(secret.as_slice());
    jsonwebtoken::encode(&jsonwebtoken::Header::default(), &serde_json::Value::Object(m), &key).ok()
}

/// Relies on `jsonwebtoken::decode` for the signature check and payload
/// deserialization. Expiry is left to the caller (`validate_exp` off, no
/// required claims), so the result is a function of the token and the
/// secret alone.
#[verifier::external_body]
fn jwt_decode(token: &str, secret: &Vec<u8>) -> (r: Option<Claims>)
    ensures
        r is Some <==> claims_of(token@, secret@) is Some,
        r is Some ==> claims_of(token@, secret@) == Some(
            (r.unwrap().sub@, r.unwrap().role@, r.unwrap().company@, r.unwrap().exp as int),
        ),
{
    let mut validation = jsonwebtoken::Validation::default();
    validation.validate_exp = false;
    validation.required_spec_claims = std::collections::HashSet::new();
    let key = jsonwebtoken::DecodingKey::from_secret(secret.as_slice());
    let data = jsonwebtoken::decode::<serde_json::Value>(token, &key, &validation).ok()?;
    let sub = data.claims.get("sub")?.as_str()?.to_string();
    let role = data.claims.get("role")?.as_str()?.to_string();
    let company = data.claims.get("company")?.as_str()?.to_string();
    let exp = data.claims.get("exp")?.as_i64()?;
    Some(Claims { sub, role, company, exp })
}

/// What validating a token at time `now` answers: the payload fields
/// where the signature checks out and the expiry lies ahead, and
/// `InvalidToken` for every other token.
pub open spec fn validate_spec(token: Seq<char>, secret: Seq<u8>, now: i64) -> Result<
    (Seq<char>, Seq<char>, Seq<char>, int),
    ApiError,
> {
    match claims_of(token, secret) {
        Option::None => Err(ApiError::InvalidToken),
        Option::Some(c) => if now >= c.3 {
            Err(ApiError::InvalidToken)
        } else {
            Ok(c)
        },
    }
}

/// The exec claims carry exactly the given payload fields.
pub open spec fn claims_match(c: Claims, t: (Seq<char>, Seq<char>, Seq<char>, int)) -> bool {
    c.sub@ == t.0 && c.role@ == t.1 && c.company@ == t.2 && c.exp as int == t.3
}

pub open spec fn claims_result_matches(
    r: Result<Claims, ApiError>,
    s: Result<(Seq<char>, Seq<char>, Seq<char>, int), ApiError>,
) -> bool {
    match (r, s) {
        (Ok(c), Ok(t)) => claims_match(c, t),
        (Err(e1), Err(e2)) => e1 == e2,
        _ => false,
    }
}

/// Sign a payload `{sub, role, company, exp}` into a bearer token.
pub fn issue_token(keys: &Keys, sub: String, role: String, company: String, exp: i64) -> (r: Result<
    String,
    ApiError,
>)
    ensures
        r is Ok <==> token_of(sub@, role@, company@, exp as int, keys.secret@) is Some,
        r is Ok ==> r.unwrap()@ == token_of(sub@, role@, company@, exp as int, keys.secret@).unwrap(),
        r is Ok ==> claims_of(r.unwrap()@, keys.secret@) == Some(
            (sub@, role@, company@, exp as int),
        ),
        r is Err ==> r == Err::<String, ApiError>(ApiError::TokenCreation),
{
    let claims = Claims::new(sub, role, company, exp);
    match jwt_encode(&claims, &keys.secret) {
        Option::Some(t) => Ok(t),
        Option::None => Err(ApiError::TokenCreation),
    }
}

/// Check a token's signature and expiry at time `now` and give back its
/// claims. Every failure collapses to `InvalidToken`.
pub fn validate_token(keys: &Keys, token: &str, now: i64) -> (r: Result<Claims, ApiError>)
    ensures
        claims_result_matches(r, validate_spec(token@, keys.secret@, now)),
{
    match jwt_decode(token, &keys.secret) {
        Option::None => Err(ApiError::InvalidToken),
        Option::Some(c) => if now >= c.exp {
            Err(ApiError::InvalidToken)
        } else {
            Ok(c)
        },
    }
}

/// Round trip: a token whose payload decodes to the given fields (as every
/// token returned by `issue_token` does) validates to exactly those fields
/// while `now` lies before the expiry, and is rejected once `now` has
/// reached it.
pub proof fn lemma_token_round_trip(
    token: Seq<char>,
    secret: Seq<u8>,
    sub: Seq<char>,
    role: Seq<char>,
    company: Seq<char>,
    exp: int,
    now: i64,
)
    requires
        claims_of(token, secret) == Some((sub, role, company, exp)),
    ensures
        now < exp ==> validate_spec(token, secret, now) == Ok::<
            (Seq<char>, Seq<char>, Seq<char>, int),
            ApiError,
        >((sub, role, company, exp)),
        now >= exp ==> validate_spec(token, secret, now) == Err::<
            (Seq<char>, Seq<char>, Seq<char>, int),
            ApiError,
        >(ApiError::InvalidToken),
{
}

/// Relies on `chrono::Utc::now` for the current unix timestamp; nothing
/// is promised of the clock's value.
#[verifier::external_body]
pub(crate) fn unix_now() -> i64 {
    chrono::Utc::now().timestamp()
}

} // verus!
