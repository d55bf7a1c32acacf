use vstd::prelude::*;

use crate::errors::ServiceError;
use rand::Rng;

verus! {

/// Is this byte an ASCII letter or digit?
pub open spec fn is_ascii_alphanumeric_byte(b: u8) -> bool {
    (65 <= b <= 90) || (97 <= b <= 122) || (48 <= b <= 57)
}

/// What a bcrypt hash string reads: a function of the password, the cost
/// and the salt alone.
pub uninterp spec fn bcrypt_hash(password: Seq<char>, cost: u32, salt: Seq<u8>) -> Seq<char>;

/// Relies on rand's `Alphanumeric` distribution over `thread_rng`: sixteen
/// random bytes, each an ASCII letter or digit. Nothing else is assumed of
/// the drawn values.
#[verifier::external_body]
fn random_alphanumeric_salt() -> (r: [u8; 16])
    ensures
        forall|i: int| 0 <= i < 16 ==> is_ascii_alphanumeric_byte(r@[i]),
{
    rand::thread_rng()
        .sample_iter(rand::distributions::Alphanumeric)
        .take(16)
        .collect::<Vec<u8>>()
        .as_slice()
        .try_into()
        .unwrap()
}

/// Relies on `bcrypt::hash_with_salt`: it fails exactly when the cost lies
/// outside 4..=31, and otherwise formats a 60-character hash string that is
/// a function of the password, the cost and the salt alone.
#[verifier::external_body]
fn bcrypt_hash_with_salt(password: &str, cost: u32, salt: &[u8; 16]) -> (r: Result<String, ()>)
    ensures
        r is Ok <==> 4 <= cost <= 31,
        r matches Ok(h) ==> h@ == bcrypt_hash(password@, cost, salt@) && h@.len() == 60,
{
    match bcrypt::hash_with_salt(password, cost, *salt) {
        Ok(parts) => Ok(parts.to_string()),
        Err(_) => Err(()),
    }
}

/// Hash a password with bcrypt at cost 4 over a fresh random alphanumeric
/// salt. Always succeeds; the result is the 60-character bcrypt hash of the
/// password under some such salt.
pub fn encrypt_password(password: &str) -> (r: Result<String, ServiceError>)
    ensures
        r is Ok,
        r matches Ok(h) ==> h@.len() == 60 && (exists|salt: Seq<u8>|
            salt.len() == 16 && (forall|i: int| 0 <= i < 16 ==> is_ascii_alphanumeric_byte(
                salt[i],
            )) && h@ == bcrypt_hash(password@, 4, salt)),
{
    let salt = random_alphanumeric_salt();
    match bcrypt_hash_with_salt(password, 4, &salt) {
        Ok(h) => {
            proof {
                assert(salt@.len() == 16);
            }
            Ok(h)
        },
        Err(_) => Err(ServiceError::InternalServerError),
    }
}

} // verus!
