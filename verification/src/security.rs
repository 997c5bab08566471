//! Password storage for the authentication layer: a password is kept only as
//! an encoded, salted hash, and verified against that encoding.

use crate::error::{ApiError, ApiResult};
use vstd::prelude::*;

verus! {

/// Memory cost, in kibibytes, of the password hash derivation.
pub const HASHING_MEMORY: u32 = 16;

/// Iteration cost of the password hash derivation.
pub const HASHING_ITERATIONS: u32 = 4;

/// Whether a password verifies against an encoded hash: a function of the
/// encoded text and the password alone, since the encoding carries the salt
/// and cost parameters the check re-derives with.
pub uninterp spec fn password_verifies(encoded: Seq<char>, password: Seq<char>) -> bool;

/// Relies on orion's pwhash::hash_password: hash a password with Argon2id
/// under the given cost parameters and a freshly generated random salt,
/// returning the encoded hash text. The result depends on that salt, so
/// nothing is promised of its content beyond one fact: verification
/// re-derives with the salt and cost parameters the encoding itself
/// carries, so a fresh hash verifies the password it was made from.
/// Failures (an empty password, bad cost parameters, random generation
/// failing) come back as a message.
#[verifier::external_body]
fn orion_hash_password(password: &str, iterations: u32, memory: u32) -> (r: Result<String, String>)
    ensures
        r matches Ok(encoded) ==> password_verifies(encoded@, password@),
{
    let pw = match orion::pwhash::Password::try_from(password.as_bytes()) {
        Ok(pw) => pw,
        Err(e) => return Err(e.to_string()),
    };
    let cost = match orion::pwhash::CostParams::new(iterations, memory, 1) {
        Ok(c) => c,
        Err(e) => return Err(e.to_string()),
    };
    match orion::pwhash::hash_password(&pw, &cost) {
        Ok(hash) => Ok(hash.unprotected_as_ref::<str>().to_string()),
        Err(e) => Err(e.to_string()),
    }
}

/// Relies on orion's pwhash::hash_password_verify: check a password against
/// an encoded Argon2id hash. The encoding determines the salt and cost
/// parameters, so the outcome is a function of the encoded text and the
/// password; an unparseable encoding or password verifies nothing.
#[verifier::external_body]
fn orion_verify_password(encoded: &str, password: &str) -> (r: bool)
    ensures
        r == password_verifies(encoded@, password@),
{
    let hash = match orion::pwhash::PasswordHash::try_from(encoded) {
        Ok(h) => h,
        Err(_) => return false,
    };
    let pw = match orion::pwhash::Password::try_from(password.as_bytes()) {
        Ok(p) => p,
        Err(_) => return false,
    };
    orion::pwhash::hash_password_verify(&hash, &pw).is_ok()
}

/// A stored password: only the encoded, salted hash.
#[derive(Clone, Debug, PartialEq, Eq)]
pub struct HashedPassword(pub String);

impl HashedPassword {
    /// Hash a password for storage. The encoding is salted, so two calls on
    /// one password give different values, but each verifies the password
    /// it was made from; a cryptographic failure is reported as such.
    pub fn new(password: &str) -> (r: ApiResult<HashedPassword>)
        ensures
            r matches Ok(h) ==> password_verifies(h.0@, password@),
            r matches Err(e) ==> e is CryptographicError,
    {
        match orion_hash_password(password, HASHING_ITERATIONS, HASHING_MEMORY) {
            Ok(encoded) => Ok(HashedPassword(encoded)),
            Err(detail) => Err(ApiError::CryptographicError(detail)),
        }
    }

    /// Rebuild a stored password from its encoded text.
    pub fn from_encoded(encoded: String) -> (r: HashedPassword)
        ensures
            r == HashedPassword(encoded),
    {
        HashedPassword(encoded)
    }

    /// Whether the password matches this stored hash.
    pub fn verify(&self, password: &str) -> (r: bool)
        ensures
            r == password_verifies(self.0@, password@),
    {
        orion_verify_password(self.0.as_str(), password)
    }

    /// The encoded text this password is stored as.
    pub fn encoded(&self) -> (r: String)
        ensures
            r == self.0,
    {
        self.0.clone()
    }
}

} // verus!
