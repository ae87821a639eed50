//! Password hashing and checking with Argon2.

use vstd::prelude::*;

use argon2::password_hash::rand_core::OsRng;
use argon2::password_hash::{PasswordHash, PasswordHasher, PasswordVerifier, SaltString};

use crate::error::{AppErrorDto, AppErrorView};
use crate::text::byte_len;

verus! {

/// Whether `PasswordHash::new` accepts the text as a PHC password hash.
pub uninterp spec fn phc_hash_parses(hash: Seq<char>) -> bool;

/// Whether the default Argon2 verifier accepts `password` against a parsed hash.
pub uninterp spec fn argon2_accepts(password: Seq<char>, hash: Seq<char>) -> bool;

/// Calls `PasswordHash::new` on the stored hash and, when it parses,
/// `Argon2::default().verify_password` on the password's bytes. `Err` carries
/// the parse error's text; `Ok` tells whether the password matched.
#[verifier::external_body]
fn argon2_check(password: &str, password_hash: &str) -> (r: Result<bool, String>)
    ensures
        r is Ok <==> phc_hash_parses(password_hash@),
        r matches Ok(b) ==> b == argon2_accepts(password@, password_hash@),
{
    match PasswordHash::new(password_hash) {
        Ok(parsed) => Ok(argon2::Argon2::default().verify_password(password.as_bytes(), &parsed).is_ok()),
        Err(err) => Err(err.to_string()),
    }
}

/// Calls `SaltString::generate` with the operating system's random source and
/// `Argon2::default().hash_password`, giving the PHC text of the hash or the
/// error's text. The salt is random, so the hash text itself is left unsaid;
/// as the crate's documentation shows, the text parses as a PHC hash and the
/// default verifier accepts the same password against it. With a generated
/// salt and the default parameters the hasher fails only for a password of
/// more than `0xFFFF_FFFF` bytes. `SaltString::generate` panics if the
/// operating system cannot supply random bytes.
#[verifier::external_body]
fn argon2_hash(password: &str) -> (r: Result<String, String>)
    ensures
        byte_len(password@) <= 0xFFFF_FFFF ==> r is Ok,
        r matches Ok(h) ==> phc_hash_parses(h@) && argon2_accepts(password@, h@),
{
    let salt = SaltString::generate(&mut OsRng);
    match argon2::Argon2::default().hash_password(password.as_bytes(), &salt) {
        Ok(hash) => Ok(hash.to_string()),
        Err(err) => Err(err.to_string()),
    }
}

/// Hashes a password with a fresh random salt; a failure is `ERR_PASSWORD_HASH`,
/// which happens only for a password of more than `0xFFFF_FFFF` bytes. A hash
/// it gives back is one [`verify_password`] accepts for the same password.
pub fn hash_password(password: &str) -> (r: Result<String, AppErrorDto>)
    ensures
        byte_len(password@) <= 0xFFFF_FFFF ==> r is Ok,
        r matches Ok(h) ==> phc_hash_parses(h@) && argon2_accepts(password@, h@),
        r matches Err(e) ==> e@.code == "ERR_PASSWORD_HASH"@ && e@.message == "Не удалось создать хэш пароля."@,
{
    match argon2_hash(password) {
        Ok(h) => Ok(h),
        Err(msg) => Err(AppErrorDto::new("ERR_PASSWORD_HASH", "Не удалось создать хэш пароля.", Some(msg))),
    }
}

/// Checks a password against a stored hash. A hash that does not parse is
/// `ERR_PASSWORD_HASH_PARSE`; otherwise the result says whether it matched.
pub fn verify_password(password: &str, password_hash: &str) -> (r: Result<bool, AppErrorDto>)
    ensures
        r is Ok <==> phc_hash_parses(password_hash@),
        r matches Ok(b) ==> b == argon2_accepts(password@, password_hash@),
        r matches Err(e) ==> e@.code == "ERR_PASSWORD_HASH_PARSE"@ && e@.message == "Не удалось прочитать хэш пароля."@,
{
    match argon2_check(password, password_hash) {
        Ok(b) => Ok(b),
        Err(msg) => Err(AppErrorDto::new("ERR_PASSWORD_HASH_PARSE", "Не удалось прочитать хэш пароля.", Some(msg))),
    }
}

} // verus!
