//! Password hashing with Argon2 (default parameters, random 32-byte salt).

use vstd::prelude::*;

verus! {

#[verifier::external_type_specification]
#[verifier::external_body]
pub struct ExArgon2Error(argon2::Error);

/// The encoded Argon2 hash that `argon2::hash_encoded` makes of `password`
/// (its UTF-8 bytes) with `salt` and the default configuration.
pub uninterp spec fn argon2_hash_text(password: Seq<char>, salt: Seq<u8>) -> Seq<char>;

/// What `argon2::verify_encoded` answers for an encoded hash and a password:
/// `Some(matches)`, or `None` where it fails (an undecodable hash, for one).
pub uninterp spec fn argon2_check(encoded: Seq<char>, password: Seq<char>) -> Option<bool>;

/// 32 random bytes from `rand::thread_rng`. Nothing is claimed of them.
#[verifier::external_body]
fn random_salt() -> (salt: [u8; 32]) {
    let salt: [u8; 32] = rand::Rng::gen(&mut rand::thread_rng());
    salt
}

/// Hashes a password through `argon2::hash_encoded` with
/// `argon2::Config::default()`. Claimed: the encoded text is the one named by
/// `argon2_hash_text`; with the default configuration the only errors are a
/// salt shorter than 8 or longer than 2^32 - 1 bytes and a password longer
/// than 2^32 - 1 bytes (which fewer than 2^30 characters never are); and, as
/// the encoded text carries every parameter, `argon2::verify_encoded` accepts
/// the same password against it.
#[verifier::external_body]
fn hash_encoded(password: &str, salt: &[u8]) -> (r: Result<String, argon2::Error>)
    ensures
        8 <= salt@.len() <= u32::MAX && password@.len() < 0x4000_0000 ==> r is Ok,
        r matches Ok(h) ==> h@ == argon2_hash_text(password@, salt@),
        r matches Ok(h) ==> argon2_check(h@, password@) == Some(true),
{
    argon2::hash_encoded(password.as_bytes(), salt, &argon2::Config::default())
}

/// Checks a password against an encoded hash through `argon2::verify_encoded`;
/// the answer is the one named by `argon2_check`.
#[verifier::external_body]
pub(crate) fn verify_password(password: &str, hash: &str) -> (r: Result<bool, argon2::Error>)
    ensures
        match r {
            Ok(b) => argon2_check(hash@, password@) == Some(b),
            Err(_) => argon2_check(hash@, password@) is None,
        },
{
    argon2::verify_encoded(hash, password.as_bytes())
}

/// Hashes `password` with a fresh random salt. The result, when there is one,
/// is the Argon2 hash of the password with some 32-byte salt, and it verifies
/// against the same password.
pub fn hash_password(password: &str) -> (r: Result<String, argon2::Error>)
    ensures
        password@.len() < 0x4000_0000 ==> r is Ok,
        r matches Ok(h) ==> argon2_check(h@, password@) == Some(true),
        r matches Ok(h) ==> exists|salt: Seq<u8>|
            salt.len() == 32 && h@ == #[trigger] argon2_hash_text(password@, salt),
{
    let salt = random_salt();
    let r = hash_encoded(password, salt.as_slice());
    proof {
        if r is Ok {
            assert(r->Ok_0@ == argon2_hash_text(password@, salt@));
        }
    }
    r
}

} // verus!
