//! The error taxonomy of the credential store bridge.
//!
//! Absence of a stored secret is never an error: it is a valid empty result.
//! Errors only describe vault operations that actually failed.

use vstd::prelude::*;

verus! {

/// Machine-readable classification of a failed vault operation.
#[derive(Clone, Copy, Debug, PartialEq, Eq, Structural)]
pub enum AuthErrorCode {
    /// The vault could not be opened or addressed at all.
    KeyringError,
    /// The vault rejected a write.
    StoreError,
    /// A read failed for some reason other than absence.
    RetrieveError,
}

/// Why a store or fetch operation failed: a machine-readable code plus a
/// human-readable message that carries the vault's own description.
#[derive(Debug)]
pub struct AuthError {
    pub code: AuthErrorCode,
    pub message: String,
}

/// The wire label of each error code, as the front end sees it.
pub open spec fn code_label(code: AuthErrorCode) -> Seq<char> {
    match code {
        AuthErrorCode::KeyringError => "KEYRING_ERROR"@,
        AuthErrorCode::StoreError => "STORE_ERROR"@,
        AuthErrorCode::RetrieveError => "RETRIEVE_ERROR"@,
    }
}

impl AuthError {
    /// The wire label of this error's code.
    pub fn code_string(&self) -> (label: String)
        ensures
            label@ == code_label(self.code),
    {
        match self.code {
            AuthErrorCode::KeyringError => "KEYRING_ERROR".to_owned(),
            AuthErrorCode::StoreError => "STORE_ERROR".to_owned(),
            AuthErrorCode::RetrieveError => "RETRIEVE_ERROR".to_owned(),
        }
    }
}

} // verus!
