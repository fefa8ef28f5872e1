//! The checks in front of every provider call.
//!
//! The service is the only layer that reads a credential. It resolves the exact
//! target, checks the accepted consent version, and fetches the key; the call
//! that it prepares is then made once. It never retries and never falls back to
//! another target.

use vstd::prelude::*;

use super::registry::TranscriptionRegistry;
use super::types::{
    invalid_configuration, ProviderDescriptor, ProviderKind, TranscriptionError,
    TranscriptionTargetId,
};
use crate::secrets::{SecretStore, SecretStoreError};
use crate::text::trim;

verus! {

/// The catalog and the credentials.
pub struct TranscriptionService<S: SecretStore> {
    pub registry: TranscriptionRegistry,
    pub secrets: S,
}

/// A call to make: which provider, which model, and with which key.
#[derive(Debug)]
pub struct PreparedCall {
    pub provider_id: String,
    pub model_id: String,
    /// Trimmed; empty where the provider needs none.
    pub credential: String,
}

/// The contents of a [`PreparedCall`].
pub struct CallTarget {
    pub provider_id: Seq<char>,
    pub model_id: Seq<char>,
    pub credential: Seq<char>,
}

impl View for PreparedCall {
    type V = CallTarget;

    open spec fn view(&self) -> CallTarget {
        CallTarget {
            provider_id: self.provider_id@,
            model_id: self.model_id@,
            credential: self.credential@,
        }
    }
}

/// The key that a lookup yields: trimmed, a blank one counting as missing.
pub open spec fn usable_credential(lookup: Result<Seq<char>, SecretStoreError>) -> Result<
    Seq<char>,
    super::types::ErrorView,
> {
    match lookup {
        Ok(secret) => if crate::text::is_blank(secret) {
            Err(super::types::ErrorView::MissingCredential)
        } else {
            Ok(crate::text::trimmed(secret))
        },
        Err(SecretStoreError::NotFound) => Err(super::types::ErrorView::MissingCredential),
        Err(_) => Err(super::types::ErrorView::ProviderUnavailable),
    }
}

/// The key that a lookup yields.
pub fn credential_of(lookup: Result<String, SecretStoreError>) -> (r: Result<
    String,
    TranscriptionError,
>)
    ensures
        (match r {
            Ok(key) => Ok::<Seq<char>, super::types::ErrorView>(key@),
            Err(error) => Err(error@),
        }) == usable_credential(crate::secrets::text_answer(lookup)),
        r is Ok <==> (lookup matches Ok(secret) && !crate::text::is_blank(secret@)),
        r matches Ok(key) ==> key@ == crate::text::trimmed(lookup->Ok_0@),
        r == Err::<String, TranscriptionError>(TranscriptionError::MissingCredential) <==> lookup
            == Err::<String, SecretStoreError>(SecretStoreError::NotFound) || (lookup is Ok
            && crate::text::is_blank(lookup->Ok_0@)),
        r == Err::<String, TranscriptionError>(TranscriptionError::ProviderUnavailable)
            <==> lookup is Err && lookup != Err::<String, SecretStoreError>(
            SecretStoreError::NotFound,
        ),
{
    match lookup {
        Ok(secret) => {
            proof {
                crate::text::trimmed_is_empty_exactly_for_blank(secret@);
            }
            let key: &str = trim(secret.as_str());
            if key.unicode_len() == 0 {
                Err(TranscriptionError::MissingCredential)
            } else {
                Ok(key.to_owned())
            }
        },
        Err(SecretStoreError::NotFound) => Err(TranscriptionError::MissingCredential),
        Err(_) => Err(TranscriptionError::ProviderUnavailable),
    }
}

/// What the credential step answers where every read answers: the stored key,
/// trimmed, or why there is none.
pub open spec fn stored_credential(
    m: crate::secrets::StoreModel,
    provider_id: Seq<char>,
) -> Result<Seq<char>, super::types::ErrorView> {
    if !crate::secrets::is_valid_provider_id(provider_id) {
        Err(super::types::ErrorView::ProviderUnavailable)
    } else if m.holds_secret(provider_id) {
        Ok(crate::text::trimmed(m.entries[crate::secrets::account_name(provider_id)]))
    } else {
        Err(super::types::ErrorView::MissingCredential)
    }
}

/// The credential step answers `r`: what [`usable_credential`] makes of what the
/// store answered.
pub open spec fn credential_answer<S: SecretStore>(
    secrets: S,
    provider_id: Seq<char>,
    r: Result<Seq<char>, super::types::ErrorView>,
) -> bool {
    &&& exists|read: Result<Seq<char>, SecretStoreError>|
        {
            &&& #[trigger] crate::secrets::reads_as(secrets, provider_id, read)
            &&& r == usable_credential(read)
        }
    &&& secrets.model().readable || r is Ok ==> r == stored_credential(
        secrets.model(),
        provider_id,
    )
}

/// The consent that the user has given covers the provider.
pub open spec fn consent_covers(
    descriptor: super::types::DescriptorView,
    accepted_version: u32,
) -> bool {
    descriptor.kind != ProviderKind::Cloud || accepted_version >= descriptor.consent_version
}

/// The current consent text of the provider was accepted, and there is a usable
/// key where one is needed.
pub open spec fn is_authorized<S: SecretStore>(
    provider_id: Seq<char>,
    descriptor: super::types::DescriptorView,
    accepted_version: u32,
    secrets: S,
) -> bool {
    &&& consent_covers(descriptor, accepted_version)
    &&& descriptor.requires_credential ==> secrets.model().holds_secret(provider_id)
}

impl<S: SecretStore> TranscriptionService<S> {
    /// The service over a catalog and a credential store.
    pub fn new(registry: TranscriptionRegistry, secrets: S) -> (r: Self)
        ensures
            r.registry == registry,
            r.secrets == secrets,
    {
        TranscriptionService { registry, secrets }
    }

    /// The key of a provider.
    fn credential(&self, provider_id: &str) -> (r: Result<String, TranscriptionError>)
        ensures
            credential_answer(
                self.secrets,
                provider_id@,
                match r {
                    Ok(key) => Ok(key@),
                    Err(error) => Err(error@),
                },
            ),
    {
        let read: Result<String, SecretStoreError> = self.secrets.get_secret(provider_id);
        proof {
            assert(crate::secrets::reads_as(
                self.secrets,
                provider_id@,
                crate::secrets::text_answer(read),
            ));
        }
        credential_of(read)
    }

    /// Prepares the connection test of a provider: the key to test with.
    pub fn test_connection(&self, provider_id: &str) -> (r: Result<String, TranscriptionError>)
        ensures
            ({
                let known = self.registry@.dom().contains(provider_id@);
                let descriptor = self.registry@[provider_id@];
                let answer: Result<Seq<char>, super::types::ErrorView> = match r {
                    Ok(key) => Ok(key@),
                    Err(error) => Err(error@),
                };
                if !known {
                    answer == Err::<Seq<char>, super::types::ErrorView>(
                        super::types::ErrorView::InvalidConfiguration("unknown provider"@),
                    )
                } else if descriptor.kind != ProviderKind::Cloud || !descriptor.requires_credential {
                    answer == Err::<Seq<char>, super::types::ErrorView>(
                        super::types::ErrorView::InvalidConfiguration(
                            "provider does not support credential testing"@,
                        ),
                    )
                } else {
                    credential_answer(self.secrets, provider_id@, answer)
                }
            }),
            r matches Ok(key) ==> {
                let account = crate::secrets::account_name(provider_id@);
                &&& self.registry@.dom().contains(provider_id@)
                &&& self.registry@[provider_id@].kind == ProviderKind::Cloud
                &&& self.registry@[provider_id@].requires_credential
                &&& self.secrets.model().entries.dom().contains(account)
                &&& key@ == crate::text::trimmed(self.secrets.model().entries[account])
                &&& key@.len() > 0
            },
            self.secrets.model().readable && self.registry@.dom().contains(provider_id@)
                && self.registry@[provider_id@].kind == ProviderKind::Cloud
                && self.registry@[provider_id@].requires_credential ==> (r is Ok
                <==> self.secrets.model().holds_secret(provider_id@)),
    {
        proof {
            crate::text::trimmed_is_empty_exactly_for_blank(
                self.secrets.model().entries[crate::secrets::account_name(provider_id@)],
            );
        }
        let descriptor: &ProviderDescriptor = match self.registry.get(provider_id) {
            Some(descriptor) => descriptor,
            None => {
                return Err(invalid_configuration("unknown provider"));
            },
        };
        if descriptor.kind != ProviderKind::Cloud || !descriptor.requires_credential {
            return Err(invalid_configuration("provider does not support credential testing"));
        }
        self.credential(provider_id)
    }

    /// Prepares a whole-file transcription: the provider call to make.
    pub fn transcribe_batch(
        &self,
        target: &TranscriptionTargetId,
        accepted_consent_version: u32,
        language: Option<&str>,
    ) -> (r: Result<PreparedCall, TranscriptionError>)
        ensures
            r is Ok ==> is_authorized(
                target@.provider_id,
                self.registry@[target@.provider_id],
                accepted_consent_version,
                self.secrets,
            ),
            match super::registry::batch_resolution(
                self.registry@,
                target@,
                match language {
                    Some(lang) => Some(lang@),
                    None => None,
                },
            ) {
                Err(error) => r is Err && r->Err_0@ == error,
                Ok(descriptor) => if !consent_covers(descriptor, accepted_consent_version) {
                    r is Err && r->Err_0@ == super::types::ErrorView::ConsentRequired
                } else if !descriptor.requires_credential {
                    r is Ok && r->Ok_0@ == (CallTarget {
                        provider_id: target@.provider_id,
                        model_id: target@.model_id,
                        credential: ""@,
                    })
                } else {
                    match r {
                        Ok(call) => {
                            &&& call@.provider_id == target@.provider_id
                            &&& call@.model_id == target@.model_id
                            &&& credential_answer(
                                self.secrets,
                                target@.provider_id,
                                Ok(call@.credential),
                            )
                        },
                        Err(error) => credential_answer(
                            self.secrets,
                            target@.provider_id,
                            Err(error@),
                        ),
                    }
                },
            },
            self.secrets.model().readable ==> (r is Ok <==> super::registry::batch_resolution(
                self.registry@,
                target@,
                match language {
                    Some(lang) => Some(lang@),
                    None => None,
                },
            ) is Ok && {
                let descriptor = self.registry@[target.provider_id@];
                &&& descriptor.kind == ProviderKind::Cloud ==> descriptor.consent_version
                    <= accepted_consent_version
                &&& descriptor.requires_credential ==> self.secrets.model().holds_secret(
                    target.provider_id@,
                )
            }),
            r matches Ok(call) ==> {
                let descriptor = self.registry@[target.provider_id@];
                &&& call.provider_id@ == target.provider_id@
                &&& call.model_id@ == target.model_id@
                &&& self.registry@.dom().contains(target.provider_id@)
                &&& descriptor.kind == ProviderKind::Cloud ==> accepted_consent_version
                    >= descriptor.consent_version
                &&& !descriptor.requires_credential ==> call.credential@.len() == 0
                &&& descriptor.requires_credential ==> {
                    let account = crate::secrets::account_name(target.provider_id@);
                    &&& self.secrets.model().entries.dom().contains(account)
                    &&& !crate::text::is_blank(self.secrets.model().entries[account])
                    &&& call.credential@ == crate::text::trimmed(
                        self.secrets.model().entries[account],
                    )
                }
            },
    {
        proof {
            reveal_strlit("");
        }
        let descriptor: &ProviderDescriptor = match self.registry.resolve_for_batch(
            target,
            language,
        ) {
            Ok(descriptor) => descriptor,
            Err(error) => {
                return Err(error);
            },
        };
        if descriptor.kind == ProviderKind::Cloud && accepted_consent_version
            < descriptor.consent_version {
            return Err(TranscriptionError::ConsentRequired);
        }
        let credential: String = if descriptor.requires_credential {
            match self.credential(target.provider_id.as_str()) {
                Ok(key) => key,
                Err(error) => {
                    return Err(error);
                },
            }
        } else {
            "".to_owned()
        };
        Ok(
            PreparedCall {
                provider_id: target.provider_id.clone(),
                model_id: target.model_id.clone(),
                credential,
            },
        )
    }
}

/// A consent covers a provider exactly where nothing leaves this device, or
/// where the accepted text is at least as new as the current one; so a newer
/// text takes every older consent back.
pub proof fn a_newer_text_takes_consent_back(
    descriptor: super::types::DescriptorView,
    accepted_version: u32,
)
    ensures
        descriptor.kind == ProviderKind::Local ==> consent_covers(descriptor, accepted_version),
        descriptor.kind == ProviderKind::Cloud ==> (consent_covers(descriptor, accepted_version)
            <==> descriptor.consent_version <= accepted_version),
{
}

/// A lookup yields a key exactly where it found a secret that is not blank. A
/// blank or absent one is missing; any other failure is the provider's.
pub proof fn which_lookups_yield_a_key(lookup: Result<Seq<char>, SecretStoreError>)
    ensures
        lookup matches Ok(secret) ==> !crate::text::is_blank(secret) ==> usable_credential(lookup)
            == Ok::<Seq<char>, super::types::ErrorView>(crate::text::trimmed(secret)),
        lookup matches Ok(secret) ==> crate::text::is_blank(secret) ==> usable_credential(lookup)
            == Err::<Seq<char>, super::types::ErrorView>(
            super::types::ErrorView::MissingCredential,
        ),
        lookup matches Err(error) ==> usable_credential(lookup) == Err::<
            Seq<char>,
            super::types::ErrorView,
        >(
            if error == SecretStoreError::NotFound {
                super::types::ErrorView::MissingCredential
            } else {
                super::types::ErrorView::ProviderUnavailable
            },
        ),
{
}

/// The stored key of a provider is its own, trimmed, and there is one exactly
/// where a secret that is not blank is stored for it.
pub proof fn a_stored_key_is_the_providers_own(
    m: crate::secrets::StoreModel,
    provider_id: Seq<char>,
)
    ensures
        stored_credential(m, provider_id) is Ok <==> m.holds_secret(provider_id),
        stored_credential(m, provider_id) matches Ok(key) ==> key == crate::text::trimmed(
            m.entries["provider/"@ + provider_id + "/api-key"@],
        ),
        crate::secrets::is_valid_provider_id(provider_id) && !m.holds_secret(provider_id)
            ==> stored_credential(m, provider_id) == Err::<Seq<char>, super::types::ErrorView>(
            super::types::ErrorView::MissingCredential,
        ),
        m.holds_secret(provider_id) <==> crate::secrets::is_valid_provider_id(provider_id)
            && m.entries.dom().contains("provider/"@ + provider_id + "/api-key"@)
            && !crate::text::is_blank(m.entries["provider/"@ + provider_id + "/api-key"@]),
{
}

/// Where every read answers, the credential step has one answer only: the key
/// that is stored. Otherwise it may fail, but it never makes a key up.
pub proof fn the_credential_step_makes_no_key_up<S: SecretStore>(
    secrets: S,
    provider_id: Seq<char>,
    answer: Result<Seq<char>, super::types::ErrorView>,
)
    requires
        credential_answer(secrets, provider_id, answer),
    ensures
        answer matches Ok(key) ==> secrets.model().holds_secret(provider_id) && key
            == crate::text::trimmed(
            secrets.model().entries["provider/"@ + provider_id + "/api-key"@],
        ),
        secrets.model().readable ==> (answer is Ok <==> secrets.model().holds_secret(provider_id)),
        answer matches Err(error) ==> error is MissingCredential || error is ProviderUnavailable,
{
}

} // verus!
