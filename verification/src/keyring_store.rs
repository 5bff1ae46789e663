//! Vault backend over the platform's credential manager, through the
//! keyring crate.
//!
//! What the OS store returns depends on machine state outside this process,
//! so nothing is assumed of it: the store vouches only for its read-through
//! cache, which holds the values this process wrote or observed.  The OS
//! store is written before the cache on every update, so a failed write is
//! never reflected in the cache, and a `get` served from the cache returns
//! the last value successfully written here.
//!
//! The build enables the keyring crate's Apple and Windows native stores;
//! on other targets the crate falls back to its in-memory mock store.  The
//! contracts hold either way, since they speak only of the cache.  Entry
//! construction can panic only where the crate's global builder lock was
//! poisoned by an earlier panic.

use vstd::prelude::*;

use crate::error::AppError;
use crate::error::code_keyring;
use crate::secret_map::SecretMap;
use crate::secret_store::SecretStore;

verus! {

#[verifier::external_type_specification]
#[verifier::external_body]
pub struct ExKeyringError(keyring::Error);

/// Relies on keyring::Entry::new and Entry::get_password: reads the secret
/// stored for `(service, key)` in the platform store.  A NoEntry failure
/// means no credential is stored and is returned as `Ok(None)`; the result
/// otherwise depends on the machine's credential store.
#[verifier::external_body]
fn keyring_read(service: &str, key: &str) -> (r: Result<Option<String>, keyring::Error>) {
    let entry = keyring::Entry::new(service, key)?;
    match entry.get_password() {
        Ok(value) => Ok(Some(value)),
        Err(keyring::Error::NoEntry) => Ok(None),
        Err(e) => Err(e),
    }
}

/// Relies on keyring::Entry::new and Entry::set_password: stores the secret
/// for `(service, key)` in the platform store, overwriting any old value.
#[verifier::external_body]
fn keyring_write(service: &str, key: &str, value: &str) -> (r: Result<(), keyring::Error>) {
    let entry = keyring::Entry::new(service, key)?;
    entry.set_password(value)
}

/// Relies on keyring::Entry::new and Entry::delete_credential: deletes the
/// credential for `(service, key)`.  A NoEntry failure means the credential
/// was already absent and is returned as success.
#[verifier::external_body]
fn keyring_delete(service: &str, key: &str) -> (r: Result<(), keyring::Error>) {
    let entry = keyring::Entry::new(service, key)?;
    match entry.delete_credential() {
        Ok(()) | Err(keyring::Error::NoEntry) => Ok(()),
        Err(e) => Err(e),
    }
}

/// Relies on keyring::Error's Display implementation for diagnostic text.
#[verifier::external_body]
fn keyring_error_text(e: &keyring::Error) -> String {
    format!("{}", e)
}

/// An error of the keyring backend, with the platform diagnostic appended.
fn keyring_error(prefix: &str, e: &keyring::Error) -> (r: AppError)
    ensures
        r.code@ == code_keyring(),
        r.details is Some,
{
    let mut details: String = prefix.to_owned();
    details.append(": ");
    let text_of_error = keyring_error_text(e);
    details.append(text_of_error.as_str());
    AppError::new("keyring", Some(details))
}

/// Vault backend over the OS credential manager, scoped by a service
/// namespace and fronted by a read-through cache.
pub struct KeyringSecretStore {
    service: String,
    cache: SecretMap,
}

impl KeyringSecretStore {
    /// Open the backend for a service namespace; nothing is read until a
    /// key is asked for.
    pub fn new(service: &str) -> (r: KeyringSecretStore)
        ensures
            r.service() == service@,
            r.known() == Map::<Seq<char>, Seq<char>>::empty(),
            !r.exact(),
    {
        KeyringSecretStore { service: service.to_owned(), cache: SecretMap::new() }
    }
}

impl SecretStore for KeyringSecretStore {
    closed spec fn service(&self) -> Seq<char> {
        self.service@
    }

    closed spec fn known(&self) -> Map<Seq<char>, Seq<char>> {
        self.cache@
    }

    closed spec fn exact(&self) -> bool {
        false
    }

    fn get(&mut self, key: &str) -> (r: Result<Option<String>, AppError>)
        ensures
            r matches Err(e) ==> e.code@ == code_keyring(),
    {
        match self.cache.get(key) {
            Some(value) => Ok(Some(value)),
            None => match keyring_read(self.service.as_str(), key) {
                Ok(Some(value)) => {
                    self.cache.set(key, value.as_str());
                    Ok(Some(value))
                },
                Ok(None) => Ok(None),
                Err(e) => Err(keyring_error("Failed to retrieve secret", &e)),
            },
        }
    }

    fn set(&mut self, key: &str, value: &str) -> (r: Result<(), AppError>)
        ensures
            r matches Err(e) ==> e.code@ == code_keyring(),
    {
        match keyring_write(self.service.as_str(), key, value) {
            Ok(()) => {
                self.cache.set(key, value);
                Ok(())
            },
            Err(e) => Err(keyring_error("Failed to store secret", &e)),
        }
    }

    fn remove(&mut self, key: &str) -> (r: Result<(), AppError>)
        ensures
            r matches Err(e) ==> e.code@ == code_keyring(),
    {
        match keyring_delete(self.service.as_str(), key) {
            Ok(()) => {
                self.cache.remove(key);
                Ok(())
            },
            Err(e) => Err(keyring_error("Failed to delete secret", &e)),
        }
    }
}

/// The backend the process uses by default: the OS credential manager,
/// cache-fronted, scoped by the given service namespace.  An embedding
/// application may select the file-backed store explicitly instead.
pub fn create_secret_store(service: &str) -> (r: KeyringSecretStore)
    ensures
        r.service() == service@,
        r.known() == Map::<Seq<char>, Seq<char>>::empty(),
        !r.exact(),
{
    KeyringSecretStore::new(service)
}

} // verus!
