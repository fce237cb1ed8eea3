use vstd::prelude::*;

verus! {

/// Name under which this application files its entries in the OS secret store.
pub const SECRET_SERVICE: &'static str = "smcli";

/// Why the OS secret store did not hand back or take a password.
#[derive(Debug, Clone, Copy, PartialEq, Eq, Structural)]
pub enum VaultError {
    /// The store could not be reached, or refused the request.
    Unavailable,
    /// The store answered, but holds no entry for the account.
    NotFound,
}

/// A password that has to be written to the OS secret store, under `account`,
/// before the record that points there may be kept.
#[derive(Debug, Clone, PartialEq, Eq)]
pub struct VaultWrite {
    pub account: String,
    pub password: String,
}

/// What a lookup in the secret store comes to, given the store's raw answer:
/// whether an entry was found, and its password.
pub open spec fn lookup_result(answer: Result<(bool, String), VaultError>) -> Result<String, VaultError> {
    match answer {
        Ok((true, pw)) => Ok(pw),
        Ok((false, _)) => Err(VaultError::NotFound),
        Err(e) => Err(e),
    }
}

/// Interprets the secret store's answer to a lookup: an entry that was found
/// yields its password (an empty one included), a missing entry is `NotFound`,
/// and a failed request stays as it came.
pub fn vault_answer(answer: Result<(bool, String), VaultError>) -> (r: Result<String, VaultError>)
    ensures
        r == lookup_result(answer),
{
    match answer {
        Ok((found, pw)) => {
            if found {
                Ok(pw)
            } else {
                Err(VaultError::NotFound)
            }
        },
        Err(e) => Err(e),
    }
}

} // verus!
