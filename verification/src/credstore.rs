//! Credential store adapter: persists the single access token in the
//! operating system's secure credential store.
//!
//! One fixed secret is used, identified by the constant service
//! namespace [`SERVICE_NAME`] and the constant account name
//! [`TOKEN_ACCOUNT`]. Every call round-trips to the OS store; nothing
//! is cached in memory.
//!
//! The calls into the OS store go through trusted wrappers whose
//! results are plain outcome values; the verified interpretation
//! functions beside them say exactly how each outcome becomes the
//! adapter's result. In particular, "secret absent" is an ordinary
//! result of retrieval, and deleting an already-absent secret
//! succeeds.

use vstd::prelude::*;
use crate::errors::CredentialStoreError;

verus! {

/// The fixed service namespace identifying this application in the OS
/// credential store.
pub const SERVICE_NAME: &'static str = "shopping-assistant";

/// The fixed account name under which the access token is stored.
pub const TOKEN_ACCOUNT: &'static str = "access_token";

/// What the OS store reported when asked to build a handle for the
/// fixed secret.
pub enum HandleOutcome {
    /// A usable handle on the secret's slot.
    Handle(keyring::Entry),
    /// The platform store refused to produce a handle; carries its
    /// diagnostic text.
    Failure(String),
}

/// What the OS store reported for a write of the secret.
#[derive(Debug)]
pub enum StoreOutcome {
    /// The secret was written (created or overwritten).
    Stored,
    /// The store rejected the write; carries its diagnostic text.
    Failure(String),
}

/// What the OS store reported for a read of the secret.
#[derive(Debug)]
pub enum RetrieveOutcome {
    /// The secret is present, with its value.
    Present(String),
    /// No secret is stored under the fixed name.
    Absent,
    /// The store failed in some other way; carries its diagnostic text.
    Failure(String),
}

/// What the OS store reported for a deletion of the secret.
#[derive(Debug)]
pub enum DeleteOutcome {
    /// The secret existed and was deleted.
    Deleted,
    /// No secret was stored under the fixed name.
    Absent,
    /// The store failed in some other way; carries its diagnostic text.
    Failure(String),
}

#[verifier::external_type_specification]
#[verifier::external_body]
pub struct ExEntry(keyring::Entry);

/// Relies on keyring::Entry::new: builds a handle on the secret slot
/// named by a service and an account, or reports why the platform
/// store refused one. Whether it succeeds depends on the platform.
#[verifier::external_body]
fn entry_new(service: &str, account: &str) -> (r: HandleOutcome) {
    match keyring::Entry::new(service, account) {
        Ok(entry) => HandleOutcome::Handle(entry),
        Err(e) => HandleOutcome::Failure(e.to_string()),
    }
}

/// Relies on keyring::Entry::set_password: writes or overwrites the
/// secret behind the handle. The outcome depends on the OS store.
#[verifier::external_body]
fn entry_set_password(entry: &keyring::Entry, value: &str) -> (r: StoreOutcome) {
    match entry.set_password(value) {
        Ok(()) => StoreOutcome::Stored,
        Err(e) => StoreOutcome::Failure(e.to_string()),
    }
}

/// Relies on keyring::Entry::get_password: reads the secret behind the
/// handle; keyring::Error::NoEntry means no secret is stored. The
/// outcome depends on the OS store.
#[verifier::external_body]
fn entry_get_password(entry: &keyring::Entry) -> (r: RetrieveOutcome) {
    match entry.get_password() {
        Ok(value) => RetrieveOutcome::Present(value),
        Err(keyring::Error::NoEntry) => RetrieveOutcome::Absent,
        Err(e) => RetrieveOutcome::Failure(e.to_string()),
    }
}

/// Relies on keyring::Entry::delete_password: deletes the secret
/// behind the handle; keyring::Error::NoEntry means no secret was
/// stored. The outcome depends on the OS store.
#[verifier::external_body]
fn entry_delete_password(entry: &keyring::Entry) -> (r: DeleteOutcome) {
    match entry.delete_password() {
        Ok(()) => DeleteOutcome::Deleted,
        Err(keyring::Error::NoEntry) => DeleteOutcome::Absent,
        Err(e) => DeleteOutcome::Failure(e.to_string()),
    }
}

/// How a write outcome becomes the adapter's result: a write succeeds
/// exactly when the store reported it stored, and any store failure is
/// surfaced as a [`CredentialStoreError`] carrying the store's text.
pub fn interpret_store(o: StoreOutcome) -> (r: Result<(), CredentialStoreError>)
    ensures
        o is Stored <==> r is Ok,
        forall|m: String| o == StoreOutcome::Failure(m)
            ==> (r matches Err(e) && e.message@ == m@),
{
    match o {
        StoreOutcome::Stored => Ok(()),
        StoreOutcome::Failure(m) => Err(CredentialStoreError { message: m }),
    }
}

/// How a read outcome becomes the adapter's result: a present secret
/// is returned as its value, an absent secret is the explicit
/// "no token" result rather than an error, and any other store
/// failure is a [`CredentialStoreError`] carrying the store's text.
pub fn interpret_retrieve(o: RetrieveOutcome) -> (r: Result<Option<String>, CredentialStoreError>)
    ensures
        forall|t: String| o == RetrieveOutcome::Present(t)
            ==> (r matches Ok(v) && v matches Some(u) && u@ == t@),
        o is Absent <==> r == Result::<Option<String>, CredentialStoreError>::Ok(
            Option::<String>::None,
        ),
        forall|m: String| o == RetrieveOutcome::Failure(m)
            ==> (r matches Err(e) && e.message@ == m@),
{
    match o {
        RetrieveOutcome::Present(t) => Ok(Some(t)),
        RetrieveOutcome::Absent => Ok(None),
        RetrieveOutcome::Failure(m) => Err(CredentialStoreError { message: m }),
    }
}

/// How a deletion outcome becomes the adapter's result: deletion is
/// idempotent, so both "deleted" and "already absent" succeed, and
/// only a genuine store failure is a [`CredentialStoreError`].
pub fn interpret_delete(o: DeleteOutcome) -> (r: Result<(), CredentialStoreError>)
    ensures
        r is Ok <==> (o is Deleted || o is Absent),
        forall|m: String| o == DeleteOutcome::Failure(m)
            ==> (r matches Err(e) && e.message@ == m@),
{
    match o {
        DeleteOutcome::Deleted => Ok(()),
        DeleteOutcome::Absent => Ok(()),
        DeleteOutcome::Failure(m) => Err(CredentialStoreError { message: m }),
    }
}

/// How a handle failure becomes the adapter's result.
fn handle_error(m: String) -> (r: CredentialStoreError)
    ensures
        r.message@ == m@,
{
    CredentialStoreError { message: m }
}

/// Writes (or overwrites) the secret behind an already-built handle.
/// Succeeds exactly when the store accepted the write; the outcome
/// depends on the OS store.
pub fn store_token_with(entry: &keyring::Entry, token: &str) -> Result<(), CredentialStoreError> {
    interpret_store(entry_set_password(entry, token))
}

/// Reads the secret behind an already-built handle: `Ok(Some(t))` when
/// one is stored, `Ok(None)` when none is (an ordinary result, not an
/// error), and an error only for a genuine store failure. The outcome
/// depends on the OS store.
pub fn get_token_with(entry: &keyring::Entry) -> Result<Option<String>, CredentialStoreError> {
    interpret_retrieve(entry_get_password(entry))
}

/// Deletes the secret behind an already-built handle. Idempotent:
/// deleting an already-absent secret succeeds. The outcome depends on
/// the OS store.
pub fn clear_token_with(entry: &keyring::Entry) -> Result<(), CredentialStoreError> {
    interpret_delete(entry_delete_password(entry))
}

/// Writes (or overwrites) the access token in the OS credential store
/// under the fixed service and account names. Succeeds exactly when
/// the store accepted the write; the outcome depends on the OS store.
pub fn store_token(token: &str) -> Result<(), CredentialStoreError> {
    match entry_new(SERVICE_NAME, TOKEN_ACCOUNT) {
        HandleOutcome::Handle(entry) => store_token_with(&entry, token),
        HandleOutcome::Failure(m) => Err(handle_error(m)),
    }
}

/// Reads the access token from the OS credential store: `Ok(Some(t))`
/// when a token is stored, `Ok(None)` when none is (an ordinary
/// result, not an error), and an error only for a genuine store
/// failure. The outcome depends on the OS store.
pub fn get_token() -> Result<Option<String>, CredentialStoreError> {
    match entry_new(SERVICE_NAME, TOKEN_ACCOUNT) {
        HandleOutcome::Handle(entry) => get_token_with(&entry),
        HandleOutcome::Failure(m) => Err(handle_error(m)),
    }
}

/// Deletes the access token from the OS credential store. Idempotent:
/// deleting an already-absent token succeeds. The outcome depends on
/// the OS store.
pub fn clear_token() -> Result<(), CredentialStoreError> {
    match entry_new(SERVICE_NAME, TOKEN_ACCOUNT) {
        HandleOutcome::Handle(entry) => clear_token_with(&entry),
        HandleOutcome::Failure(m) => Err(handle_error(m)),
    }
}

} // verus!
