//! The two checks a login rests on: the password against its stored hash,
//! and the one-time code against the user's secret.

use crate::error::HashError;
use google_authenticator::GoogleAuthenticator;
use vstd::prelude::*;
use vstd::string::StringSliceAdditionalSpecFns;
use vstd::utf8::encode_utf8;

verus! {

/// How many time steps before and after the present a one-time code may
/// come from.
pub const TOTP_WINDOW: u64 = 1;

/// The time slice that stands for the present.
pub const PRESENT: u64 = 0;

/// The length of a one-time code, in bytes.
pub const TOTP_CODE_LEN: usize = 6;

/// The shortest secret that one-time codes are derived from, in bytes.
pub const TOTP_SECRET_MIN_LEN: usize = 16;

/// The longest secret that one-time codes are derived from, in bytes.
pub const TOTP_SECRET_MAX_LEN: usize = 128;

/// `argon2::Error`: why a hash could not be decoded or computed. Nothing
/// is read from it.
#[verifier::external_type_specification]
#[verifier::external_body]
pub struct ExArgon2Error(argon2::Error);

/// What `argon2::verify_encoded` makes of an encoded hash and the bytes of a
/// password: whether they match, or `None` where it reports an error.
pub uninterp spec fn argon2_verify_encoded(encoded: Seq<char>, password: Seq<u8>) -> Option<bool>;

/// `argon2::verify_encoded` decodes the hash, hashes the password with the
/// parameters found in it and compares. Its result depends on its two
/// arguments alone. It works in as much memory as the hash names, which the
/// machine has to have.
pub assume_specification[ argon2::verify_encoded ](encoded: &str, pwd: &[u8]) -> (checked: Result<
    bool,
    argon2::Error,
>)
    ensures
        match checked {
            Ok(matches) => argon2_verify_encoded(encoded@, pwd@) == Some(matches),
            Err(_) => argon2_verify_encoded(encoded@, pwd@) is None,
        },
;

/// `GoogleAuthenticator::verify_code` on an authenticator made by
/// `GoogleAuthenticator::new`, which takes codes of six bytes.
///
/// It compares `code` with the codes of the time slices that lie up to
/// `discrepancy` around `time_slice`, or around the clock's present slice
/// where `time_slice` is 0; that clock must not stand before 1970. Claimed
/// is only what holds at any time: a code of another length than six bytes
/// is turned down, and so is every code for a secret shorter than 16 or
/// longer than 128 bytes.
#[verifier::external_body]
fn verify_code(secret: &str, code: &str, discrepancy: u64, time_slice: u64) -> (accepted: bool)
    requires
        discrepancy < u64::MAX,
    ensures
        code.spec_bytes().len() != 6 ==> !accepted,
        secret.spec_bytes().len() < 16 ==> !accepted,
        secret.spec_bytes().len() > 128 ==> !accepted,
{
    GoogleAuthenticator::new().verify_code(secret, code, discrepancy, time_slice)
}

/// What checking `password` against `stored_hash` comes to.
pub open spec fn password_verdict(stored_hash: Seq<char>, password: Seq<char>) -> Result<
    bool,
    HashError,
> {
    match argon2_verify_encoded(stored_hash, encode_utf8(password)) {
        Some(matches) => Ok(matches),
        None => Err(HashError),
    }
}

/// Whether a one-time code for `secret` can be right at any time, as far as
/// the lengths of the two tell.
pub open spec fn totp_plausible(secret: Seq<char>, code: Seq<char>) -> bool {
    &&& encode_utf8(code).len() == TOTP_CODE_LEN
    &&& TOTP_SECRET_MIN_LEN <= encode_utf8(secret).len() <= TOTP_SECRET_MAX_LEN
}

/// Checks a password against a stored hash.
pub fn verify_password(stored_hash: &str, password: &str) -> (checked: Result<bool, HashError>)
    ensures
        checked == password_verdict(stored_hash@, password@),
{
    match argon2::verify_encoded(stored_hash, password.as_bytes()) {
        Ok(matches) => Ok(matches),
        Err(_) => Err(HashError),
    }
}

/// Checks a one-time code against a secret at the present time, allowing
/// for a clock that is off by [`TOTP_WINDOW`] steps.
pub fn verify_totp(secret: &str, code: &str) -> (accepted: bool)
    ensures
        accepted ==> totp_plausible(secret@, code@),
{
    verify_code(secret, code, TOTP_WINDOW, PRESENT)
}

} // verus!
