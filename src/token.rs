use vstd::prelude::*;
use vstd::utf8::encode_utf8;
use jsonwebtoken::errors::ErrorKind;
use jsonwebtoken::{Algorithm, DecodingKey, EncodingKey, Header, Validation};
use crate::decimal::{format_user_id, parse_user_id, parsed_user_id, user_id_text};
use crate::value_object::UserId;

verus! {

/// How long a session token stays valid after it is issued, in seconds.
pub const TOKEN_TTL_SECS: u64 = 300;

/// The claims of a verified session token.
pub struct Claims {
    /// The user id of the subject, in decimal.
    pub sub: String,
    /// Expiry, in seconds since the Unix epoch.
    pub exp: u64,
}

/// Why a session token was not accepted.
#[derive(Debug, Clone, Copy, PartialEq, Eq, Structural)]
pub enum TokenError {
    /// The token cannot be parsed, or lacks its claims.
    Malformed,
    /// The signature does not match the secret.
    BadSignature,
    /// The token was valid, but its expiry has passed.
    Expired,
}

/// What decoding the compact HS256 token `token` under `secret` yields:
/// its subject and expiry when its signature verifies and its claims hold a
/// string `sub` and an unsigned integer `exp`; `BadSignature` when the
/// signature does not match; `Malformed` for any other failure.
pub uninterp spec fn hs256_outcome(secret: Seq<u8>, token: Seq<u8>) -> Result<
    (Seq<char>, u64),
    TokenError,
>;

/// The subject and expiry that `token` carries, when it decodes under
/// `secret`.
pub open spec fn decoded_claims(secret: Seq<u8>, token: Seq<u8>) -> Option<(Seq<char>, u64)> {
    match hs256_outcome(secret, token) {
        Ok(c) => Some(c),
        Err(_) => None,
    }
}

/// A byte of a compact token: the base64url alphabet and the dot that
/// separates the three parts.
pub open spec fn is_token_byte(b: u8) -> bool {
    (65 <= b && b <= 90) || (97 <= b && b <= 122) || (48 <= b && b <= 57) || b == 45 || b == 95
        || b == 46
}

pub open spec fn is_compact_token(s: Seq<u8>) -> bool {
    forall|i: int| 0 <= i < s.len() ==> is_token_byte(#[trigger] s[i])
}

/// Relies on `jsonwebtoken::encode` with the default header (HS256) and an
/// HMAC key made from `secret`: the key family matches the algorithm, HMAC
/// takes a key of any length and the claims always serialise, so a token
/// always comes back. It is three base64url parts joined by dots, carries
/// exactly the claims given, and decodes back to them under the same secret.
#[verifier::external_body]
fn sign_hs256(secret: &[u8], sub: &str, exp: u64) -> (r: String)
    ensures
        r@.len() > 0,
        is_compact_token(encode_utf8(r@)),
        decoded_claims(secret@, encode_utf8(r@)) == Some((sub@, exp)),
{
    let mut claims = serde_json::Map::new();
    claims.insert("sub".to_string(), serde_json::Value::from(sub));
    claims.insert("exp".to_string(), serde_json::Value::from(exp));
    jsonwebtoken::encode(&Header::default(), &claims, &EncodingKey::from_secret(secret))
        .unwrap_or_default()
}

/// Relies on `jsonwebtoken::decode` with HS256 only and with the time checks
/// turned off (expiry is decided by the caller against its own clock): it
/// checks the structure and the signature, then the claims are read. A
/// signature mismatch is reported as such, any other failure as malformed.
#[verifier::external_body]
fn decode_hs256(secret: &[u8], token: &[u8]) -> (r: Result<(String, u64), TokenError>)
    ensures
        match hs256_outcome(secret@, token@) {
            Ok((sub, exp)) => r matches Ok((s, e)) && s@ == sub && e == exp,
            Err(k) => r == Err::<(String, u64), TokenError>(k),
        },
        !(r matches Err(TokenError::Expired)),
{
    let mut rules = Validation::new(Algorithm::HS256);
    rules.validate_exp = false;
    rules.validate_aud = false;
    match jsonwebtoken::decode::<serde_json::Value>(token, &DecodingKey::from_secret(secret), &rules) {
        Ok(data) => match (data.claims["sub"].as_str(), data.claims["exp"].as_u64()) {
            (Some(sub), Some(exp)) => Ok((sub.to_string(), exp)),
            _ => Err(TokenError::Malformed),
        },
        Err(e) if matches!(e.kind(), ErrorKind::InvalidSignature) => Err(TokenError::BadSignature),
        Err(_) => Err(TokenError::Malformed),
    }
}

/// The expiry of a token issued at `now`: `now` plus the validity window,
/// held at the largest timestamp.
pub open spec fn expiry_for(now: u64) -> u64 {
    if now as int + TOKEN_TTL_SECS as int > u64::MAX as int {
        u64::MAX
    } else {
        (now + TOKEN_TTL_SECS) as u64
    }
}

/// The claims that `token` carries when it is accepted at time `now`:
/// its signature verifies and its expiry lies after `now`.
pub open spec fn live_claims(secret: Seq<u8>, token: Seq<u8>, now: u64) -> Option<(Seq<char>, u64)> {
    match decoded_claims(secret, token) {
        Some((sub, exp)) => if now < exp {
            Some((sub, exp))
        } else {
            None
        },
        None => None,
    }
}

/// The user that `token` authenticates at time `now`: the subject of its
/// live claims, read as a user id.
pub open spec fn session_user(secret: Seq<u8>, token: Seq<u8>, now: u64) -> Option<int> {
    match live_claims(secret, token, now) {
        Some((sub, exp)) => parsed_user_id(sub),
        None => None,
    }
}

/// Issues a session token for `user_id` at time `now`: subject is the id in
/// decimal, expiry is `now` plus the validity window. The token is a
/// non-empty compact token.
pub fn create_token(secret: &[u8], user_id: UserId, now: u64) -> (r: String)
    ensures
        r@.len() > 0,
        is_compact_token(encode_utf8(r@)),
        decoded_claims(secret@, encode_utf8(r@)) == Some(
            (user_id_text(user_id as int), expiry_for(now)),
        ),
{
    let exp = now.saturating_add(TOKEN_TTL_SECS);
    let sub = format_user_id(user_id);
    sign_hs256(secret, sub.as_str(), exp)
}

/// Verifies a session token at time `now`. It is accepted when its
/// signature verifies under `secret` and its expiry lies after `now`;
/// a token that fails any check is never partly trusted.
pub fn validate_token(secret: &[u8], token: &[u8], now: u64) -> (r: Result<Claims, TokenError>)
    ensures
        match hs256_outcome(secret@, token@) {
            Ok((sub, exp)) => if now < exp {
                r matches Ok(c) && c.sub@ == sub && c.exp == exp
            } else {
                r == Err::<Claims, TokenError>(TokenError::Expired)
            },
            Err(k) => r == Err::<Claims, TokenError>(k) && k != TokenError::Expired,
        },
        r is Ok <==> live_claims(secret@, token@, now) is Some,
{
    match decode_hs256(secret, token) {
        Ok((sub, exp)) => {
            if now < exp {
                Ok(Claims { sub, exp })
            } else {
                Err(TokenError::Expired)
            }
        },
        Err(e) => Err(e),
    }
}

/// The user id that verified claims name, if their subject is one.
pub fn subject_user_id(claims: &Claims) -> (r: Option<UserId>)
    ensures
        r matches Some(v) ==> parsed_user_id(claims.sub@) == Some(v as int),
        r is None ==> parsed_user_id(claims.sub@) is None,
{
    parse_user_id(claims.sub.as_str())
}

/// A token issued for a user decodes, under the same secret, to that user
/// for as long as the clock stays before the expiry, and is refused as
/// expired from the end of the validity window on.
pub proof fn lemma_issued_token_authenticates(
    secret: Seq<u8>,
    token: Seq<u8>,
    user_id: i64,
    issued_at: u64,
    now: u64,
)
    requires
        decoded_claims(secret, token) == Some((user_id_text(user_id as int), expiry_for(issued_at))),
    ensures
        issued_at <= now && now < expiry_for(issued_at) ==> session_user(secret, token, now) == Some(
            user_id as int,
        ),
        now as int >= issued_at as int + TOKEN_TTL_SECS as int ==> live_claims(secret, token, now)
            is None,
{
    crate::decimal::lemma_user_id_text_round_trip(user_id);
}

} // verus!
