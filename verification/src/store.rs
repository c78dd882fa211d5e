//! The credential store bridge: store, fetch and clear of the two named
//! secrets, with every vault outcome classified into the error taxonomy.
//!
//! What the vault returns depends on the machine, so each bridge operation
//! is split in two layers, both verified: classification functions that are
//! proved exact for every possible outcome, and the operations themselves,
//! which state what holds whatever the vault answered.

use vstd::prelude::*;
use vstd::string::StringExecFns;
use keyring::Entry;
use crate::errors::{AuthError, AuthErrorCode};
use crate::vault::{delete_secret, open_entry, read_secret, write_secret, ReadOutcome};

verus! {

/// A concatenation starts with its first part.
proof fn lemma_concat_has_prefix(prefix: Seq<char>, rest: Seq<char>)
    ensures
        prefix.is_prefix_of(prefix + rest),
{
    assert(prefix =~= (prefix + rest).subrange(0, prefix.len() as int));
}

/// Builds the error reported for one failed vault call: the given code, and
/// a message that is exactly the context followed by the vault's own text.
pub fn vault_failure(code: AuthErrorCode, context: &str, detail: String) -> (e: AuthError)
    ensures
        e.code == code,
        e.message@ == context@ + detail@,
{
    AuthError { code, message: String::from_str(context).concat(detail.as_str()) }
}

/// Classifies the outcome of opening a vault entry: a handle passes through
/// untouched, and a failure becomes a `KEYRING_ERROR` whose message is the
/// given context followed by the vault's text.
pub fn classify_open(outcome: Result<Entry, String>, context: &str) -> (r: Result<Entry, AuthError>)
    ensures
        outcome matches Ok(entry) ==> r == Ok::<Entry, AuthError>(entry),
        outcome matches Err(detail) ==> (r matches Err(e)
            && e.code == AuthErrorCode::KeyringError
            && e.message@ == context@ + detail@),
{
    match outcome {
        Ok(entry) => Ok(entry),
        Err(detail) => Err(vault_failure(AuthErrorCode::KeyringError, context, detail)),
    }
}

/// Classifies the outcome of a vault write: success passes through, and a
/// failure becomes a `STORE_ERROR` whose message is the given context
/// followed by the vault's text.
pub fn classify_write(outcome: Result<(), String>, context: &str) -> (r: Result<(), AuthError>)
    ensures
        outcome is Ok ==> r is Ok,
        outcome matches Err(detail) ==> (r matches Err(e)
            && e.code == AuthErrorCode::StoreError
            && e.message@ == context@ + detail@),
{
    match outcome {
        Ok(()) => Ok(()),
        Err(detail) => Err(vault_failure(AuthErrorCode::StoreError, context, detail)),
    }
}

/// Classifies what a vault read produced: a stored value is `Ok(Some(..))`,
/// absence is `Ok(None)` — absence is not an error — and any other failure
/// is a `RETRIEVE_ERROR` carrying the vault's text.
pub fn fetch_result(outcome: ReadOutcome) -> (r: Result<Option<String>, AuthError>)
    ensures
        outcome matches ReadOutcome::Found(value) ==> r == Ok::<Option<String>, AuthError>(
            Some(value),
        ),
        outcome is Absent ==> r == Ok::<Option<String>, AuthError>(None),
        outcome matches ReadOutcome::Failed(detail) ==> (r matches Err(e)
            && e.code == AuthErrorCode::RetrieveError
            && e.message@ == "Failed to retrieve token: "@ + detail@),
{
    match outcome {
        ReadOutcome::Found(value) => Ok(Some(value)),
        ReadOutcome::Absent => Ok(None),
        ReadOutcome::Failed(detail) => Err(
            vault_failure(AuthErrorCode::RetrieveError, "Failed to retrieve token: ", detail),
        ),
    }
}

/// Writes one value into an already opened vault entry, overwriting any
/// previous value there. A rejected write is reported as a `STORE_ERROR`
/// whose message is the given context followed by the vault's text.
pub fn store_value(entry: &Entry, value: &str, context: &str) -> (r: Result<bool, AuthError>)
    ensures
        r matches Ok(stored) ==> stored == true,
        r matches Err(e) ==> (e.code == AuthErrorCode::StoreError && context@.is_prefix_of(
            e.message@,
        )),
{
    let outcome = write_secret(entry, value);
    let r = classify_write(outcome, context);
    proof {
        if r is Err {
            lemma_concat_has_prefix(context@, outcome->Err_0@);
        }
    }
    match r {
        Ok(()) => Ok(true),
        Err(e) => Err(e),
    }
}

/// Reads an already opened vault entry. Absence of a stored value is
/// `Ok(None)`, never an error; a failed read is a `RETRIEVE_ERROR`.
pub fn fetch_value(entry: &Entry) -> (r: Result<Option<String>, AuthError>)
    ensures
        r matches Err(e) ==> (e.code == AuthErrorCode::RetrieveError
            && "Failed to retrieve token: "@.is_prefix_of(e.message@)),
{
    let outcome = read_secret(entry);
    let r = fetch_result(outcome);
    proof {
        if r is Err {
            lemma_concat_has_prefix("Failed to retrieve token: "@, outcome->Failed_0@);
        }
    }
    r
}

/// Best-effort removal of an entry's stored value: whatever the vault
/// answers, including failure, is swallowed.
pub fn clear_value(entry: &Entry) {
    match delete_secret(entry) {
        Ok(()) => {},
        Err(_) => {},
    }
}

/// Writes the token under the `auth_token` account and, when one is given,
/// the refresh token under the `refresh_token` account, both scoped to the
/// fixed service identifier. The two writes are sequential, not
/// transactional: when the first succeeds and the second fails, the first
/// remains stored. Success is only ever reported as `Ok(true)`; a failure
/// to address the vault is a `KEYRING_ERROR` and a rejected write a
/// `STORE_ERROR`.
pub fn store_auth_token(token: String, refresh_token: Option<String>) -> (r: Result<
    bool,
    AuthError,
>)
    ensures
        r matches Ok(stored) ==> stored == true,
        r matches Err(e) ==> ((e.code == AuthErrorCode::KeyringError && (
        "Failed to access keyring: "@.is_prefix_of(e.message@)
            || "Failed to access keyring for refresh token: "@.is_prefix_of(e.message@))) || (
        e.code == AuthErrorCode::StoreError && ("Failed to store token: "@.is_prefix_of(e.message@)
            || "Failed to store refresh token: "@.is_prefix_of(e.message@)))),
{
    let opened = open_entry("alabama-auction-watcher", "auth_token");
    let entry = match classify_open(opened, "Failed to access keyring: ") {
        Ok(entry) => entry,
        Err(e) => {
            proof {
                lemma_concat_has_prefix("Failed to access keyring: "@, opened->Err_0@);
            }
            return Err(e);
        },
    };
    match store_value(&entry, token.as_str(), "Failed to store token: ") {
        Ok(_) => {},
        Err(e) => {
            return Err(e);
        },
    }
    if let Some(refresh) = refresh_token {
        let refresh_opened = open_entry("alabama-auction-watcher", "refresh_token");
        let refresh_entry = match classify_open(
            refresh_opened,
            "Failed to access keyring for refresh token: ",
        ) {
            Ok(entry) => entry,
            Err(e) => {
                proof {
                    lemma_concat_has_prefix(
                        "Failed to access keyring for refresh token: "@,
                        refresh_opened->Err_0@,
                    );
                }
                return Err(e);
            },
        };
        match store_value(&refresh_entry, refresh.as_str(), "Failed to store refresh token: ") {
            Ok(_) => {},
            Err(e) => {
                return Err(e);
            },
        }
    }
    Ok(true)
}

/// Reads the `auth_token` account. A missing token is `Ok(None)`, not an
/// error; a vault that cannot be addressed is a `KEYRING_ERROR`, and any
/// other read failure a `RETRIEVE_ERROR`.
pub fn get_auth_token() -> (r: Result<Option<String>, AuthError>)
    ensures
        r matches Err(e) ==> ((e.code == AuthErrorCode::KeyringError
            && "Failed to access keyring: "@.is_prefix_of(e.message@)) || (e.code
            == AuthErrorCode::RetrieveError && "Failed to retrieve token: "@.is_prefix_of(
            e.message@,
        ))),
{
    let opened = open_entry("alabama-auction-watcher", "auth_token");
    let entry = match classify_open(opened, "Failed to access keyring: ") {
        Ok(entry) => entry,
        Err(e) => {
            proof {
                lemma_concat_has_prefix("Failed to access keyring: "@, opened->Err_0@);
            }
            return Err(e);
        },
    };
    fetch_value(&entry)
}

/// Best-effort deletion of both token accounts. Never fails the caller:
/// whether or not either entry could be addressed or its deletion
/// succeeded, the result is always `Ok(true)`.
pub fn clear_auth_tokens() -> (r: Result<bool, AuthError>)
    ensures
        r == Ok::<bool, AuthError>(true),
{
    match open_entry("alabama-auction-watcher", "auth_token") {
        Ok(entry) => clear_value(&entry),
        Err(_) => {},
    }
    match open_entry("alabama-auction-watcher", "refresh_token") {
        Ok(entry) => clear_value(&entry),
        Err(_) => {},
    }
    Ok(true)
}

} // verus!
