//! Tests of the credential store bridge against the `keyring` mock store,
//! which is the default credential store of this build. The mock store
//! keeps each value inside its `Entry` handle, so lifecycle sequences work
//! on one shared handle, and lets tests inject a vault failure to watch the
//! error taxonomy at work.

use keyring::mock::MockCredential;
use keyring::Entry;
use token_vault::store::{
    classify_open, classify_write, clear_value, fetch_result, fetch_value, store_value,
};
use token_vault::vault::ReadOutcome;
use token_vault::{clear_auth_tokens, get_auth_token, store_auth_token, AuthErrorCode};

const SERVICE: &str = "alabama-auction-watcher";
const STORE_CONTEXT: &str = "Failed to store token: ";

fn mock_of(entry: &Entry) -> &MockCredential {
    entry
        .get_credential()
        .downcast_ref()
        .expect("the default store of this build is the mock store")
}

#[test]
fn fresh_fetch_returns_absence() {
    let fetched = get_auth_token().expect("absence is not an error");
    assert_eq!(fetched, None);
}

#[test]
fn clear_reports_success_on_fresh_vault() {
    assert_eq!(clear_auth_tokens().unwrap(), true);
}

#[test]
fn store_with_refresh_reports_success() {
    let stored = store_auth_token("abc123".to_string(), Some("rfh456".to_string()));
    assert_eq!(stored.unwrap(), true);
}

#[test]
fn store_without_refresh_reports_success() {
    let stored = store_auth_token("abc123".to_string(), None);
    assert_eq!(stored.unwrap(), true);
}

#[test]
fn token_lifecycle_round_trip() {
    let entry = Entry::new(SERVICE, "auth_token").unwrap();
    assert_eq!(store_value(&entry, "abc123", STORE_CONTEXT).unwrap(), true);
    assert_eq!(fetch_value(&entry).unwrap(), Some("abc123".to_string()));
    clear_value(&entry);
    assert_eq!(fetch_value(&entry).unwrap(), None);
}

#[test]
fn store_overwrites_previous_value() {
    let entry = Entry::new(SERVICE, "auth_token").unwrap();
    assert_eq!(store_value(&entry, "first", STORE_CONTEXT).unwrap(), true);
    assert_eq!(store_value(&entry, "second", STORE_CONTEXT).unwrap(), true);
    assert_eq!(fetch_value(&entry).unwrap(), Some("second".to_string()));
}

#[test]
fn accounts_persist_independently() {
    let auth = Entry::new(SERVICE, "auth_token").unwrap();
    let refresh = Entry::new(SERVICE, "refresh_token").unwrap();
    assert_eq!(store_value(&auth, "abc123", STORE_CONTEXT).unwrap(), true);
    assert_eq!(
        store_value(&refresh, "rfh456", "Failed to store refresh token: ").unwrap(),
        true
    );
    assert_eq!(fetch_value(&auth).unwrap(), Some("abc123".to_string()));
    assert_eq!(fetch_value(&refresh).unwrap(), Some("rfh456".to_string()));
}

#[test]
fn rejected_write_is_a_store_error() {
    let entry = Entry::new(SERVICE, "auth_token").unwrap();
    mock_of(&entry).set_error(keyring::Error::Invalid(
        "attr".to_string(),
        "bad".to_string(),
    ));
    let err = store_value(&entry, "abc123", STORE_CONTEXT).unwrap_err();
    assert_eq!(err.code, AuthErrorCode::StoreError);
    assert_eq!(
        err.message,
        "Failed to store token: Attribute attr is invalid: bad"
    );
    assert_eq!(err.code_string(), "STORE_ERROR");
}

#[test]
fn failed_read_is_a_retrieve_error() {
    let entry = Entry::new(SERVICE, "auth_token").unwrap();
    mock_of(&entry).set_error(keyring::Error::Invalid(
        "attr".to_string(),
        "bad".to_string(),
    ));
    let err = fetch_value(&entry).unwrap_err();
    assert_eq!(err.code, AuthErrorCode::RetrieveError);
    assert_eq!(
        err.message,
        "Failed to retrieve token: Attribute attr is invalid: bad"
    );
    assert_eq!(err.code_string(), "RETRIEVE_ERROR");
}

#[test]
fn clear_swallows_a_failed_delete() {
    let entry = Entry::new(SERVICE, "auth_token").unwrap();
    assert_eq!(store_value(&entry, "keepme", STORE_CONTEXT).unwrap(), true);
    mock_of(&entry).set_error(keyring::Error::Invalid(
        "attr".to_string(),
        "bad".to_string(),
    ));
    clear_value(&entry);
    // The injected failure was swallowed; the delete itself did not happen.
    assert_eq!(fetch_value(&entry).unwrap(), Some("keepme".to_string()));
    clear_value(&entry);
    assert_eq!(fetch_value(&entry).unwrap(), None);
}

#[test]
fn unaddressable_vault_is_a_keyring_error() {
    let err = classify_open(Err("no backend".to_string()), "Failed to access keyring: ")
        .map(|_| ())
        .unwrap_err();
    assert_eq!(err.code, AuthErrorCode::KeyringError);
    assert_eq!(err.message, "Failed to access keyring: no backend");
    assert_eq!(err.code_string(), "KEYRING_ERROR");
}

#[test]
fn classify_write_passes_success_through() {
    assert!(classify_write(Ok(()), STORE_CONTEXT).is_ok());
}

#[test]
fn fetch_result_maps_every_outcome() {
    assert_eq!(
        fetch_result(ReadOutcome::Found("v".to_string())).unwrap(),
        Some("v".to_string())
    );
    assert_eq!(fetch_result(ReadOutcome::Absent).unwrap(), None);
    let err = fetch_result(ReadOutcome::Failed("boom".to_string())).unwrap_err();
    assert_eq!(err.code, AuthErrorCode::RetrieveError);
    assert_eq!(err.message, "Failed to retrieve token: boom");
}
