use vstd::prelude::*;
use vstd::utf8::encode_utf8;
use argon2::password_hash::rand_core::OsRng;
use argon2::password_hash::{PasswordHash, PasswordHasher, PasswordVerifier, SaltString};
use argon2::Argon2;

verus! {

/// Whether `password` verifies against the hash record `hash` under Argon2
/// with the parameters, salt and digest that the record holds.
pub uninterp spec fn password_matches(hash: Seq<char>, password: Seq<char>) -> bool;

/// Relies on `SaltString::generate` with the OS random source, then
/// `Argon2::hash_password` with the default parameters, rendered as a PHC
/// string: the record embeds algorithm, parameters, salt and digest, so
/// verifying the same password against it recomputes the same digest.
/// With a generated salt and the default parameters, hashing refuses only
/// a password longer than `u32::MAX` bytes.
#[verifier::external_body]
pub(crate) fn hash_password_phc(password: &str) -> (r: Option<String>)
    ensures
        r matches Some(h) ==> password_matches(h@, password@),
        encode_utf8(password@).len() <= 0xffff_ffff ==> r is Some,
{
    let salt = SaltString::generate(&mut OsRng);
    Argon2::default().hash_password(password.as_bytes(), &salt).ok().map(|h| h.to_string())
}

/// Relies on `PasswordHash::new` to parse the record and on
/// `Argon2::verify_password` to recompute and compare the digest; a record
/// that does not parse is no match.
#[verifier::external_body]
fn argon2_verify(password: &str, hash: &str) -> (r: bool)
    ensures
        r == password_matches(hash@, password@),
{
    PasswordHash::new(hash).is_ok_and(|h| Argon2::default().verify_password(password.as_bytes(), &h).is_ok())
}

/// Checks a plaintext password against a stored hash record. Never fails:
/// a malformed record is reported as no match.
pub fn verify_password(password: &str, hash: &str) -> (r: bool)
    ensures
        r == password_matches(hash@, password@),
{
    argon2_verify(password, hash)
}

} // verus!
