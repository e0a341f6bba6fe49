//! The three outside types that records carry, and the two outside calls the
//! service makes. Nothing here is proved: each contract is taken from the
//! outside crate.

use vstd::prelude::*;

verus! {

/// `uuid::Uuid`. Carried through as an opaque identifier.
#[verifier::external_type_specification]
#[verifier::external_body]
pub struct ExUuid(uuid::Uuid);

/// `chrono::NaiveDateTime`. Carried through as an opaque point in time.
#[verifier::external_type_specification]
#[verifier::external_body]
pub struct ExNaiveDateTime(chrono::NaiveDateTime);

/// `bcrypt::BcryptError`. Only ever told apart from success.
#[verifier::external_type_specification]
#[verifier::external_body]
pub struct ExBcryptError(bcrypt::BcryptError);

/// `<uuid::Uuid as Clone>::clone`. `Uuid` derives `Clone` and `Copy`, so the
/// clone is the value itself.
pub assume_specification[ <uuid::Uuid as Clone>::clone ](id: &uuid::Uuid) -> (copy: uuid::Uuid)
    ensures
        copy == *id,
;

/// `<chrono::NaiveDateTime as Clone>::clone`. `NaiveDateTime` derives `Clone`
/// and `Copy`, so the clone is the value itself.
pub assume_specification[ <chrono::NaiveDateTime as Clone>::clone ](
    time: &chrono::NaiveDateTime,
) -> (copy: chrono::NaiveDateTime)
    ensures
        copy == *time,
;

/// `chrono::Utc::now`, read as a naive UTC date and time.
///
/// Nothing is claimed of the value: it is whatever the system clock says.
/// chrono expects that clock to stand at or after the Unix epoch.
#[verifier::external_body]
pub(crate) fn current_utc_time() -> chrono::NaiveDateTime {
    chrono::Utc::now().naive_utc()
}

/// Whether `bcrypt::verify` accepts `hash` for `password`, that is, returns
/// `Ok(true)`. bcrypt decides this from the two texts alone: it reads cost and
/// salt out of the hash, hashes the password with them, and compares.
pub uninterp spec fn bcrypt_verifies(password: Seq<char>, hash: Seq<char>) -> bool;

/// `bcrypt::hash` at `bcrypt::DEFAULT_COST`, with the salt bcrypt draws itself.
///
/// The salt is random, so the text of the hash is not determined by the
/// password. What bcrypt does fix: a hash string is 60 characters long, and
/// `bcrypt::verify` accepts it for the password it was made from. Drawing the
/// salt may fail, and then there is no hash.
#[verifier::external_body]
pub(crate) fn salted_hash(password: &String) -> (hashed: Result<String, bcrypt::BcryptError>)
    ensures
        hashed matches Ok(text) ==> text@.len() == 60 && bcrypt_verifies(password@, text@),
{
    bcrypt::hash(password, bcrypt::DEFAULT_COST)
}

} // verus!
