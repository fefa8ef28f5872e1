//! The rules of the store that is backed by the operating system's credential
//! store.

use vstd::prelude::*;

use super::{provider_account, SecretStoreError, SECRET_SERVICE};

verus! {

/// Account used only to probe the backend. It is never written, so a working
/// backend reports it as absent.
pub const PROBE_ACCOUNT: &'static str = "__backend_probe__";

/// The kinds of failure that a platform credential store reports.
#[derive(Debug, Clone, Copy, PartialEq, Eq, Structural)]
pub enum KeyringFailure {
    NoEntry,
    NoStorageAccess,
    PlatformFailure,
    TooLong,
    Invalid,
    Other,
}

/// The store error of a platform failure.
pub open spec fn keyring_error(failure: KeyringFailure) -> SecretStoreError {
    match failure {
        KeyringFailure::NoEntry => SecretStoreError::NotFound,
        KeyringFailure::NoStorageAccess => SecretStoreError::AccessDenied,
        KeyringFailure::PlatformFailure => SecretStoreError::BackendUnavailable,
        _ => SecretStoreError::BackendFailure,
    }
}

/// The failure complains of the length or the form of what it was given.
pub open spec fn is_malformed(failure: KeyringFailure) -> bool {
    failure == KeyringFailure::TooLong || failure == KeyringFailure::Invalid
}

/// The store error of a platform failure.
pub fn map_keyring_error(failure: KeyringFailure) -> (r: SecretStoreError)
    ensures
        r == keyring_error(failure),
        r == SecretStoreError::NotFound <==> failure == KeyringFailure::NoEntry,
        r == SecretStoreError::AccessDenied <==> failure == KeyringFailure::NoStorageAccess,
        r == SecretStoreError::BackendUnavailable <==> failure == KeyringFailure::PlatformFailure,
        r == SecretStoreError::BackendFailure <==> failure == KeyringFailure::TooLong || failure
            == KeyringFailure::Invalid || failure == KeyringFailure::Other,
{
    match failure {
        KeyringFailure::NoEntry => SecretStoreError::NotFound,
        KeyringFailure::NoStorageAccess => SecretStoreError::AccessDenied,
        KeyringFailure::PlatformFailure => SecretStoreError::BackendUnavailable,
        _ => SecretStoreError::BackendFailure,
    }
}

/// The store error of a failure to name an entry.
pub fn map_entry_error(failure: KeyringFailure) -> (r: SecretStoreError)
    ensures
        r == (if is_malformed(failure) {
            SecretStoreError::InvalidProviderId
        } else {
            keyring_error(failure)
        }),
        r == SecretStoreError::InvalidProviderId <==> failure == KeyringFailure::TooLong || failure
            == KeyringFailure::Invalid,
        r == SecretStoreError::NotFound <==> failure == KeyringFailure::NoEntry,
        r == SecretStoreError::AccessDenied <==> failure == KeyringFailure::NoStorageAccess,
        r == SecretStoreError::BackendUnavailable <==> failure == KeyringFailure::PlatformFailure,
        r == SecretStoreError::BackendFailure <==> failure == KeyringFailure::Other,
{
    match failure {
        KeyringFailure::TooLong | KeyringFailure::Invalid => SecretStoreError::InvalidProviderId,
        _ => map_keyring_error(failure),
    }
}

/// The store error of a failure to write.
pub fn map_set_error(failure: KeyringFailure) -> (r: SecretStoreError)
    ensures
        r == (if is_malformed(failure) {
            SecretStoreError::InvalidSecret
        } else {
            keyring_error(failure)
        }),
        r == SecretStoreError::InvalidSecret <==> failure == KeyringFailure::TooLong || failure
            == KeyringFailure::Invalid,
        r == SecretStoreError::NotFound <==> failure == KeyringFailure::NoEntry,
        r == SecretStoreError::AccessDenied <==> failure == KeyringFailure::NoStorageAccess,
        r == SecretStoreError::BackendUnavailable <==> failure == KeyringFailure::PlatformFailure,
        r == SecretStoreError::BackendFailure <==> failure == KeyringFailure::Other,
{
    match failure {
        KeyringFailure::TooLong | KeyringFailure::Invalid => SecretStoreError::InvalidSecret,
        _ => map_keyring_error(failure),
    }
}

/// What deleting answers: an absent entry is as good as a deleted one.
pub fn delete_result(deleted: Result<(), KeyringFailure>) -> (r: Result<(), SecretStoreError>)
    ensures
        r is Ok == (deleted is Ok || deleted == Err::<(), KeyringFailure>(KeyringFailure::NoEntry)),
        r matches Err(error) ==> error == keyring_error(deleted->Err_0),
        deleted == Err::<(), KeyringFailure>(KeyringFailure::NoStorageAccess) ==> r == Err::<
            (),
            SecretStoreError,
        >(SecretStoreError::AccessDenied),
        deleted == Err::<(), KeyringFailure>(KeyringFailure::PlatformFailure) ==> r == Err::<
            (),
            SecretStoreError,
        >(SecretStoreError::BackendUnavailable),
        r matches Err(error) ==> error != SecretStoreError::NotFound,
{
    match deleted {
        Ok(_) => Ok(()),
        Err(KeyringFailure::NoEntry) => Ok(()),
        Err(failure) => Err(map_keyring_error(failure)),
    }
}

/// Whether a probe shows a working backend: it found a value, or definitely
/// found none.
pub fn probe_result(probe: Result<(), KeyringFailure>) -> (r: bool)
    ensures
        r == (probe is Ok || probe == Err::<(), KeyringFailure>(KeyringFailure::NoEntry)),
{
    match probe {
        Ok(_) => true,
        Err(KeyringFailure::NoEntry) => true,
        Err(_) => false,
    }
}

/// The handle of the platform's credential store. It holds no secret.
#[derive(Debug)]
pub struct KeyringSecretStore;

impl KeyringSecretStore {
    /// A handle.
    pub fn new() -> (r: Self)
        ensures
            r == KeyringSecretStore,
    {
        KeyringSecretStore
    }

    /// The service and the account of a provider's entry.
    pub fn entry_name(&self, provider_id: &str) -> (r: Result<(String, String), SecretStoreError>)
        ensures
            r is Ok == super::is_valid_provider_id(provider_id@),
            r matches Ok(name) ==> name.0@ == "parler.transcription"@ && name.1@
                == super::account_name(provider_id@),
            r matches Ok(name) ==> name.1@ == "provider/"@ + provider_id@ + "/api-key"@,
            r matches Err(error) ==> error == SecretStoreError::InvalidProviderId,
    {
        match provider_account(provider_id) {
            Ok(account) => Ok((SECRET_SERVICE.to_owned(), account)),
            Err(error) => Err(error),
        }
    }
}

/// Each platform failure has one store error, and an absent entry is never
/// mistaken for a broken store.
pub proof fn an_absent_entry_is_no_failure(failure: KeyringFailure)
    ensures
        keyring_error(failure) == SecretStoreError::NotFound <==> failure
            == KeyringFailure::NoEntry,
        keyring_error(failure) == SecretStoreError::AccessDenied <==> failure
            == KeyringFailure::NoStorageAccess,
        keyring_error(failure) == SecretStoreError::BackendUnavailable <==> failure
            == KeyringFailure::PlatformFailure,
        is_malformed(failure) <==> failure == KeyringFailure::TooLong || failure
            == KeyringFailure::Invalid,
        is_malformed(failure) ==> keyring_error(failure) == SecretStoreError::BackendFailure,
{
}

} // verus!
