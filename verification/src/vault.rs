//! The trusted boundary with the operating system's credential vault.
//!
//! Each function here makes exactly one call into the `keyring` crate and
//! converts its result into plain values. Nothing about the vault's state
//! is promised: what a call returns depends on the machine's credential
//! store, so the verified logic in `store` takes each outcome as an
//! argument and is proved for every value of it.

use vstd::prelude::*;
use keyring::Entry;

verus! {

/// A handle addressing one (service, account) slot of the operating
/// system's credential vault.
///
/// Relies on `keyring::Entry`: an opaque credential handle; the library
/// never looks inside one.
#[verifier::external_type_specification]
#[verifier::external_body]
pub struct ExEntry(Entry);

/// What a vault read produced: a stored value, a recorded absence, or a
/// failure described by the vault's own error text.
pub enum ReadOutcome {
    Found(String),
    Absent,
    Failed(String),
}

/// Relies on `keyring::Entry::new`: builds a handle for the given service
/// and account in the default credential store, or reports why the store
/// cannot be addressed. The error text is the vault error's own rendering.
#[verifier::external_body]
pub(crate) fn open_entry(service: &str, account: &str) -> (r: Result<Entry, String>) {
    match Entry::new(service, account) {
        Ok(entry) => Ok(entry),
        Err(e) => Err(format!("{}", e)),
    }
}

/// Relies on `keyring::Entry::set_password`: writes the value under the
/// entry's slot, overwriting any previous value, or reports the vault
/// error's own rendering.
#[verifier::external_body]
pub(crate) fn write_secret(entry: &Entry, value: &str) -> (r: Result<(), String>) {
    match entry.set_password(value) {
        Ok(()) => Ok(()),
        Err(e) => Err(format!("{}", e)),
    }
}

/// Relies on `keyring::Entry::get_password`: returns the stored value, and
/// a `keyring::Error::NoEntry` exactly when the slot holds nothing. Any
/// other failure is reported as the vault error's own rendering.
#[verifier::external_body]
pub(crate) fn read_secret(entry: &Entry) -> (r: ReadOutcome) {
    match entry.get_password() {
        Ok(value) => ReadOutcome::Found(value),
        Err(keyring::Error::NoEntry) => ReadOutcome::Absent,
        Err(e) => ReadOutcome::Failed(format!("{}", e)),
    }
}

/// Relies on `keyring::Entry::delete_credential`: removes the stored value,
/// or reports the vault error's own rendering (a `keyring::Error::NoEntry`
/// when the slot already held nothing).
#[verifier::external_body]
pub(crate) fn delete_secret(entry: &Entry) -> (r: Result<(), String>) {
    match entry.delete_credential() {
        Ok(()) => Ok(()),
        Err(e) => Err(format!("{}", e)),
    }
}

} // verus!
