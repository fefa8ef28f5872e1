//! Write-only commands for provider credentials. No command returns a stored
//! secret.

use vstd::prelude::*;

use crate::secrets::{SecretStore, SecretStoreError};
use crate::settings::AppSettings;
use crate::text::{same_text, trim};

verus! {

/// What is told of a credential: never its value.
#[derive(Debug, Clone, Copy, PartialEq, Eq, Structural)]
pub struct CredentialStatus {
    /// A secret is stored for the provider.
    pub configured: bool,
    /// The credential store can be reached.
    pub backend_available: bool,
}

/// The text of a store error. It never holds a secret.
pub fn store_error_to_string(error: SecretStoreError) -> (r: String)
    ensures
        r@ == crate::secrets::store_error_text(error),
{
    error.message()
}

/// Stores a credential, trimmed. A blank one is refused before the store is
/// asked; otherwise the answer is that of the store.
pub fn set_credential<S: SecretStore>(store: &mut S, provider_id: &str, secret: &str) -> (r: Result<
    (),
    SecretStoreError,
>)
    ensures
        crate::text::is_blank(secret@) ==> r == Err::<(), SecretStoreError>(
            SecretStoreError::InvalidSecret,
        ) && final(store).model() == old(store).model(),
        !crate::text::is_blank(secret@) ==> {
            let key = crate::text::trimmed(secret@);
            &&& r == old(store).model().write_answer(provider_id@, key)
            &&& final(store).model() == old(store).model().after_write(provider_id@, key)
        },
        r is Ok ==> final(store).model().entries == old(store).model().entries.insert(
            crate::secrets::account_name(provider_id@),
            crate::text::trimmed(secret@),
        ),
        r is Err ==> final(store).model().entries == old(store).model().entries,
{
    proof {
        crate::text::trimmed_is_empty_exactly_for_blank(secret@);
        crate::text::trimmed_is_empty_exactly_for_blank(crate::text::trimmed(secret@));
        crate::text::trimming_twice_changes_nothing(secret@);
    }
    let secret: &str = trim(secret);
    if secret.unicode_len() == 0 {
        return Err(SecretStoreError::InvalidSecret);
    }
    store.set_secret(provider_id, secret)
}

/// Deletes a credential. Deleting an absent one succeeds.
pub fn delete_credential<S: SecretStore>(store: &mut S, provider_id: &str) -> (r: Result<
    (),
    SecretStoreError,
>)
    ensures
        r == old(store).model().delete_answer(provider_id@),
        final(store).model() == old(store).model().after_delete(provider_id@),
{
    store.delete_secret(provider_id)
}

/// The status that a lookup stands for: a backend that fails counts as
/// unavailable, and only an invalid provider is an error.
pub open spec fn status_of(lookup: Result<bool, SecretStoreError>) -> Result<
    CredentialStatus,
    SecretStoreError,
> {
    match lookup {
        Ok(configured) => Ok(CredentialStatus { configured, backend_available: true }),
        Err(SecretStoreError::InvalidProviderId) => Err(SecretStoreError::InvalidProviderId),
        Err(_) => Ok(CredentialStatus { configured: false, backend_available: false }),
    }
}

/// The status that a lookup stands for.
pub fn status_from(lookup: Result<bool, SecretStoreError>) -> (r: Result<
    CredentialStatus,
    SecretStoreError,
>)
    ensures
        r == status_of(lookup),
        r is Err <==> lookup == Err::<bool, SecretStoreError>(SecretStoreError::InvalidProviderId),
        r is Err ==> r->Err_0 == SecretStoreError::InvalidProviderId,
        r matches Ok(status) ==> (status.backend_available <==> lookup is Ok),
        r matches Ok(status) ==> (status.configured <==> lookup == Ok::<bool, SecretStoreError>(
            true,
        )),
{
    match lookup {
        Ok(configured) => Ok(CredentialStatus { configured, backend_available: true }),
        Err(SecretStoreError::InvalidProviderId) => Err(SecretStoreError::InvalidProviderId),
        Err(_) => Ok(CredentialStatus { configured: false, backend_available: false }),
    }
}

/// The status of a credential.
pub fn credential_status<S: SecretStore>(store: &S, provider_id: &str) -> (r: Result<
    CredentialStatus,
    SecretStoreError,
>)
    ensures
        exists|lookup: Result<bool, SecretStoreError>|
            {
                &&& #[trigger] crate::secrets::configured_as(*store, provider_id@, lookup)
                &&& r == status_of(lookup)
            },
        r matches Ok(status) ==> if status.backend_available {
            status.configured == store.model().holds_secret(provider_id@)
        } else {
            !status.configured
        },
        store.model().readable ==> r == (if crate::secrets::is_valid_provider_id(provider_id@) {
            Ok::<CredentialStatus, SecretStoreError>(
                CredentialStatus {
                    configured: store.model().holds_secret(provider_id@),
                    backend_available: true,
                },
            )
        } else {
            Err(SecretStoreError::InvalidProviderId)
        }),
{
    let lookup: Result<bool, SecretStoreError> = store.is_configured(provider_id);
    proof {
        assert(crate::secrets::configured_as(*store, provider_id@, lookup));
        crate::secrets::configured_means_a_secret_is_held(*store, provider_id@, lookup);
    }
    status_from(lookup)
}

/// Clears the selected target where it belongs to a provider whose credential
/// was deleted: a target must not stay active without its key. Returns whether
/// it did.
pub fn deactivate_provider(settings: &mut AppSettings, provider_id: &str) -> (r: bool)
    ensures
        r == is_selected(*old(settings), provider_id@),
        r <==> (old(settings).selected_transcription_target matches Some(target)
            && target.provider_id@ == provider_id@),
        r ==> final(settings).selected_transcription_target is None,
        *final(settings) == (if r {
            AppSettings { selected_transcription_target: None, ..*old(settings) }
        } else {
            *old(settings)
        }),
{
    let selected: bool = match &settings.selected_transcription_target {
        Some(target) => same_text(target.provider_id.as_str(), provider_id),
        None => false,
    };
    if selected {
        settings.selected_transcription_target = None;
    }
    selected
}

/// The selected target belongs to the provider.
pub open spec fn is_selected(settings: AppSettings, provider_id: Seq<char>) -> bool {
    settings.selected_transcription_target matches Some(target) && target.provider_id@
        == provider_id
}

/// Deletes a credential, and clears the selected target with it where it belongs
/// to the provider. A failed deletion changes nothing.
pub fn delete_provider_credential<S: SecretStore>(
    store: &mut S,
    settings: &mut AppSettings,
    provider_id: &str,
) -> (r: Result<(), String>)
    ensures
        final(store).model() == old(store).model().after_delete(provider_id@),
        match old(store).model().delete_answer(provider_id@) {
            Ok(_) => r is Ok,
            Err(error) => r is Err && r->Err_0@ == crate::secrets::store_error_text(error),
        },
        *final(settings) == (if r is Ok && is_selected(*old(settings), provider_id@) {
            AppSettings { selected_transcription_target: None, ..*old(settings) }
        } else {
            *old(settings)
        }),
        r is Ok ==> final(store).model().entries == old(store).model().entries.remove(
            crate::secrets::account_name(provider_id@),
        ),
        r is Ok ==> (final(settings).selected_transcription_target matches Some(target)
            ==> target.provider_id@ != provider_id@),
        r is Err ==> *final(settings) == *old(settings) && final(store).model().entries == old(
            store,
        ).model().entries,
{
    match delete_credential(store, provider_id) {
        Ok(_) => {
            deactivate_provider(settings, provider_id);
            Ok(())
        },
        Err(error) => Err(store_error_to_string(error)),
    }
}

/// A status tells an absent credential from a store that fails; only an invalid
/// id is an error, and a store that fails never counts as configured.
pub proof fn a_failing_store_is_never_configured(lookup: Result<bool, SecretStoreError>)
    ensures
        status_of(lookup) is Err <==> lookup == Err::<bool, SecretStoreError>(
            SecretStoreError::InvalidProviderId,
        ),
        status_of(lookup) matches Ok(status) ==> {
            &&& status.backend_available <==> lookup is Ok
            &&& status.configured <==> lookup == Ok::<bool, SecretStoreError>(true)
        },
{
}

/// The selected target belongs to the provider that it names, and to no other.
pub proof fn a_target_belongs_to_one_provider(settings: AppSettings, a: Seq<char>, b: Seq<char>)
    ensures
        is_selected(settings, a) <==> settings.selected_transcription_target is Some
            && settings.selected_transcription_target->0.provider_id@ == a,
        is_selected(settings, a) && is_selected(settings, b) ==> a == b,
{
}

} // verus!
