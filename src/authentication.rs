use argon2::PasswordVerifier;
use vstd::prelude::*;

verus! {

#[verifier::external_type_specification]
#[verifier::external_body]
pub struct ExUuid(uuid::Uuid);

/// A valid Argon2id PHC string checked in place of a stored hash when the username is
/// unknown, so that every attempt pays for one full hash verification.
pub const DUMMY_PASSWORD_HASH: &'static str = "$argon2id$v=19$m=15000,t=2,p=1$gZiV/M1gPc22ElAH/Jh1Hw$CWOrkoo7oJBQ/iyh7uJ0LO2aLEfrHwTWllSAxT0zRno";

#[derive(Debug, Clone, Copy, PartialEq, Eq, Structural)]
pub enum AuthError {
    /// Unknown username or wrong password; the two are deliberately not told apart.
    InvalidCredentials,
    /// A malformed stored hash or a failed lookup in the credential store.
    UnexpectedError,
}

/// A submitted username and password.
pub struct Credentials {
    pub username: String,
    pub password: String,
}

/// The row kept for a user in the credential store.
pub struct StoredCredentials {
    pub user_id: uuid::Uuid,
    pub password_hash: String,
}

#[derive(Debug, Clone, Copy, PartialEq, Eq, Structural)]
pub enum HashError {
    /// The stored string is not a PHC hash string.
    Malformed,
    /// The candidate password does not hash to the stored digest.
    Mismatch,
}

/// Whether argon2's PHC parser accepts the string.
pub uninterp spec fn phc_well_formed(hash: Seq<char>) -> bool;

/// Whether Argon2 verification of the password against the (well-formed) PHC string succeeds.
pub uninterp spec fn argon2_accepts(hash: Seq<char>, password: Seq<char>) -> bool;

/// The outcome of checking a password against a stored PHC string.
pub open spec fn hash_check(hash: Seq<char>, password: Seq<char>) -> Result<(), HashError> {
    if !phc_well_formed(hash) {
        Err(HashError::Malformed)
    } else if argon2_accepts(hash, password) {
        Ok(())
    } else {
        Err(HashError::Mismatch)
    }
}

/// Relies on password_hash::PasswordHash::new to parse the PHC string, and on
/// argon2::Argon2's PasswordVerifier::verify_password, which recomputes the digest with the
/// algorithm, parameters and salt read from that string and compares it in constant time.
#[verifier::external_body]
fn verify_password_hash(expected_password_hash: &str, password_candidate: &str) -> (r: Result<(), HashError>)
    ensures
        !phc_well_formed(expected_password_hash@) ==> r is Err && r->Err_0 == HashError::Malformed,
        phc_well_formed(expected_password_hash@) && argon2_accepts(expected_password_hash@, password_candidate@) ==> r is Ok,
        phc_well_formed(expected_password_hash@) && !argon2_accepts(expected_password_hash@, password_candidate@) ==> r is Err && r->Err_0 == HashError::Mismatch,
{
    let parsed = match argon2::PasswordHash::new(expected_password_hash) {
        Ok(h) => h,
        Err(_) => return Err(HashError::Malformed),
    };
    match argon2::Argon2::default().verify_password(password_candidate.as_bytes(), &parsed) {
        Ok(()) => Ok(()),
        Err(_) => Err(HashError::Mismatch),
    }
}

/// What validation returns for a password, given the answer of the credential store
/// (`Err` carries the store's transport failure).
pub open spec fn validation_result(
    password: Seq<char>,
    stored: Result<Option<StoredCredentials>, String>,
) -> Result<uuid::Uuid, AuthError> {
    match stored {
        Err(_) => Err(AuthError::UnexpectedError),
        Ok(None) => Err(AuthError::InvalidCredentials),
        Ok(Some(record)) => match hash_check(record.password_hash@, password) {
            Ok(()) => Ok(record.user_id),
            Err(HashError::Mismatch) => Err(AuthError::InvalidCredentials),
            Err(HashError::Malformed) => Err(AuthError::UnexpectedError),
        },
    }
}

/// Checks credentials against the answer of the credential store for their username.
/// Unless the store failed, the password is hashed exactly once, against the stored hash or,
/// for an unknown user, against `DUMMY_PASSWORD_HASH`; an unknown user is never authenticated,
/// whatever that check says.
pub fn validate_credentials(
    credentials: Credentials,
    stored: Result<Option<StoredCredentials>, String>,
) -> (r: Result<uuid::Uuid, AuthError>)
    ensures
        r == validation_result(credentials.password@, stored),
{
    let record = match stored {
        Err(_) => {
            return Err(AuthError::UnexpectedError);
        },
        Ok(record) => record,
    };
    match record {
        None => {
            let _ = verify_password_hash(DUMMY_PASSWORD_HASH, credentials.password.as_str());
            Err(AuthError::InvalidCredentials)
        },
        Some(record) => match verify_password_hash(record.password_hash.as_str(), credentials.password.as_str()) {
            Ok(()) => Ok(record.user_id),
            Err(HashError::Mismatch) => Err(AuthError::InvalidCredentials),
            Err(HashError::Malformed) => Err(AuthError::UnexpectedError),
        },
    }
}

/// An unknown username is refused as invalid credentials, whatever the password.
pub proof fn lemma_unknown_user_rejected(password: Seq<char>)
    ensures
        validation_result(password, Ok(None)) == Err::<uuid::Uuid, AuthError>(AuthError::InvalidCredentials),
{
}

/// Even a password that the dummy hash accepts does not authenticate an unknown username.
pub proof fn lemma_dummy_match_never_authenticates(password: Seq<char>)
    requires
        phc_well_formed(DUMMY_PASSWORD_HASH@),
        argon2_accepts(DUMMY_PASSWORD_HASH@, password),
    ensures
        validation_result(password, Ok(None)) == Err::<uuid::Uuid, AuthError>(AuthError::InvalidCredentials),
{
}

/// A stored record accepts the password its hash was made from, and refuses as invalid
/// credentials a password that its hash does not accept.
pub proof fn lemma_stored_password_decides(record: StoredCredentials, right: Seq<char>, wrong: Seq<char>)
    requires
        phc_well_formed(record.password_hash@),
        argon2_accepts(record.password_hash@, right),
        !argon2_accepts(record.password_hash@, wrong),
    ensures
        validation_result(right, Ok(Some(record))) == Ok::<uuid::Uuid, AuthError>(record.user_id),
        validation_result(wrong, Ok(Some(record))) == Err::<uuid::Uuid, AuthError>(AuthError::InvalidCredentials),
{
}

} // verus!
