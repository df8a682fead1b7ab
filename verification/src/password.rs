use vstd::prelude::*;
use crate::errors::ApiError;

verus! {

/// What `bcrypt::verify` returns for a password and a stored hash string:
/// `Ok(true)` when they match, `Ok(false)` when they do not, `Err` when the
/// hash string is not in bcrypt format. The result depends on the two
/// strings alone.
pub uninterp spec fn bcrypt_verify_of(password: Seq<char>, hash: Seq<char>) -> Result<bool, ()>;

/// A password matches a stored hash when bcrypt accepts the pair.
pub open spec fn password_accepted(password: Seq<char>, hash: Seq<char>) -> bool {
    bcrypt_verify_of(password, hash) == Ok::<bool, ()>(true)
}

/// Relies on bcrypt::hash: a salted hash at the crate's default cost, 60
/// ASCII characters, which bcrypt::verify accepts against the same password.
#[verifier::external_body]
fn bcrypt_hash(password: &String) -> (r: Result<String, ()>)
    ensures
        r matches Ok(h) ==> password_accepted(password@, h@) && h@.len() == 60,
{
    bcrypt::hash(password.as_str(), bcrypt::DEFAULT_COST).map_err(|_| ())
}

/// Relies on bcrypt::verify: deterministic in the password and the hash;
/// errors only for a hash string that is not in bcrypt format.
#[verifier::external_body]
fn bcrypt_check(password: &String, hash: &String) -> (r: Result<bool, ()>)
    ensures
        r == bcrypt_verify_of(password@, hash@),
{
    bcrypt::verify(password.as_str(), hash.as_str()).map_err(|_| ())
}

/// One-way hashes a plaintext password. Infrastructure failures (the random
/// salt source) surface as `Internal`; on success the returned hash string
/// verifies against the same plaintext.
pub fn hash_password(password: &String) -> (r: Result<String, ApiError>)
    ensures
        r matches Ok(h) ==> password_accepted(password@, h@) && h@.len() == 60,
        r matches Err(e) ==> e == ApiError::Internal,
{
    match bcrypt_hash(password) {
        Ok(h) => Ok(h),
        Err(_) => Err(ApiError::Internal),
    }
}

/// Checks a plaintext password against a stored hash. Returns false, not an
/// error, for a hash that is not in bcrypt format: a stored garbage hash
/// reads as a credential mismatch.
pub fn verify_password(password: &String, hash: &String) -> (r: bool)
    ensures
        r == password_accepted(password@, hash@),
{
    match bcrypt_check(password, hash) {
        Ok(b) => b,
        Err(_) => false,
    }
}

} // verus!
