//! The commands for the catalog of providers: listing the cloud providers,
//! selecting a target, and recording consent.

use vstd::prelude::*;

use crate::managers::model::ModelInfo;
use crate::secrets::{SecretStore, SecretStoreError};
use crate::settings::AppSettings;
use crate::text::same_text;
use crate::transcription::registry::{knows_model, TranscriptionRegistry};
use crate::transcription::types::{ProviderDescriptor, ProviderKind, TranscriptionTargetId};

verus! {

/// The cloud providers of a list, in order.
pub open spec fn cloud_descriptors(
    list: Seq<crate::transcription::types::DescriptorView>,
) -> Seq<crate::transcription::types::DescriptorView> {
    list.filter(|d: crate::transcription::types::DescriptorView| d.kind == ProviderKind::Cloud)
}

/// Keeps the cloud providers. The local provider is never offered here: its
/// targets are selected by loading a model.
pub fn cloud_only(descriptors: Vec<ProviderDescriptor>) -> (r: Vec<ProviderDescriptor>)
    ensures
        crate::transcription::types::descriptors_view(r@) == cloud_descriptors(
            crate::transcription::types::descriptors_view(descriptors@),
        ),
        forall|i: int| 0 <= i < r@.len() ==> (#[trigger] r@[i]).kind == ProviderKind::Cloud,
{
    let ghost all = crate::transcription::types::descriptors_view(descriptors@);
    let mut kept: Vec<ProviderDescriptor> = Vec::new();
    let mut i: usize = 0;
    proof {
        reveal(Seq::filter);
        assert(all.take(0) == Seq::<crate::transcription::types::DescriptorView>::empty());
        assert(crate::transcription::types::descriptors_view(kept@) =~= cloud_descriptors(
            all.take(0),
        ));
    }
    while i < descriptors.len()
        invariant
            i <= descriptors@.len(),
            all == crate::transcription::types::descriptors_view(descriptors@),
            crate::transcription::types::descriptors_view(kept@) == cloud_descriptors(
                all.take(i as int),
            ),
            forall|j: int|
                0 <= j < kept@.len() ==> (#[trigger] kept@[j]).kind == ProviderKind::Cloud,
        decreases descriptors@.len() - i,
    {
        let ghost had = kept@;
        proof {
            reveal(Seq::filter);
            assert(all.take(i + 1).drop_last() == all.take(i as int));
            assert(all.take(i + 1).last() == descriptors@[i as int]@);
        }
        if descriptors[i].kind == ProviderKind::Cloud {
            kept.push(descriptors[i].clone());
            proof {
                assert(crate::transcription::types::descriptors_view(kept@)
                    =~= crate::transcription::types::descriptors_view(had).push(
                    descriptors@[i as int]@,
                ));
            }
        }
        i += 1;
    }
    proof {
        assert(all.take(i as int) == all);
    }
    kept
}

/// A model with the id is among the local ones.
pub open spec fn has_local_model(models: Seq<ModelInfo>, id: Seq<char>) -> bool {
    exists|i: int| 0 <= i < models.len() && (#[trigger] models[i]).id@ == id
}

fn knows_local_model(models: &Vec<ModelInfo>, id: &str) -> (r: bool)
    ensures
        r == has_local_model(models@, id@),
{
    let mut i: usize = 0;
    while i < models.len()
        invariant
            i <= models@.len(),
            forall|j: int| 0 <= j < i ==> (#[trigger] models@[j]).id@ != id@,
        decreases models@.len() - i,
    {
        if same_text(models[i].id.as_str(), id) {
            return true;
        }
        i += 1;
    }
    false
}

/// The checks that a target passes or fails, in order. `configured` says
/// whether a credential is stored.
pub open spec fn selection_error(
    providers: Map<Seq<char>, crate::transcription::types::DescriptorView>,
    local_models: Seq<ModelInfo>,
    consents: Map<Seq<char>, u32>,
    target: crate::transcription::types::TargetView,
    configured: bool,
) -> Option<Seq<char>> {
    if providers.dom().contains(target.provider_id) {
        let descriptor = providers[target.provider_id];
        if !crate::transcription::registry::has_model(descriptor, target.model_id) {
            Some("invalid_configuration"@)
        } else if descriptor.kind != ProviderKind::Cloud {
            None
        } else if super::history::accepted_version(consents, target.provider_id)
            < descriptor.consent_version {
            Some("consent_required"@)
        } else if descriptor.requires_credential && !configured {
            Some("missing_credential"@)
        } else {
            None
        }
    } else if target.provider_id == "local"@ && has_local_model(local_models, target.model_id) {
        None
    } else {
        Some("invalid_configuration"@)
    }
}

/// Whether the target may be selected hangs on a stored credential alone.
pub open spec fn hangs_on_credential(
    providers: Map<Seq<char>, crate::transcription::types::DescriptorView>,
    local_models: Seq<ModelInfo>,
    consents: Map<Seq<char>, u32>,
    target: crate::transcription::types::TargetView,
) -> bool {
    selection_error(providers, local_models, consents, target, true) != selection_error(
        providers,
        local_models,
        consents,
        target,
        false,
    )
}

/// A credential counts as stored only where the store says so: an error counts
/// as none.
pub open spec fn counts_as_configured<S: SecretStore>(
    store: S,
    id: Seq<char>,
    configured: bool,
) -> bool {
    exists|lookup: Result<bool, SecretStoreError>|
        {
            &&& #[trigger] crate::secrets::configured_as(store, id, lookup)
            &&& configured == (lookup == Ok::<bool, SecretStoreError>(true))
        }
}

/// The answer to a selection, where `configured` says whether a credential is
/// stored.
pub open spec fn selection_answer(
    providers: Map<Seq<char>, crate::transcription::types::DescriptorView>,
    local_models: Seq<ModelInfo>,
    consents: Map<Seq<char>, u32>,
    target: crate::transcription::types::TargetView,
    configured: bool,
    r: Result<(), String>,
) -> bool {
    match selection_error(providers, local_models, consents, target, configured) {
        Some(error) => r is Err && r->Err_0@ == error,
        None => r is Ok,
    }
}

/// Checks a target; see [`selection_error`]. The store is asked only where the
/// answer hangs on it.
pub fn check_selection<S: SecretStore>(
    registry: &TranscriptionRegistry,
    local_models: &Vec<ModelInfo>,
    settings: &AppSettings,
    store: &S,
    target: &TranscriptionTargetId,
) -> (r: Result<(), String>)
    ensures
        !hangs_on_credential(
            registry@,
            local_models@,
            settings.cloud_provider_consents@,
            target@,
        ) ==> selection_answer(
            registry@,
            local_models@,
            settings.cloud_provider_consents@,
            target@,
            false,
            r,
        ),
        hangs_on_credential(
            registry@,
            local_models@,
            settings.cloud_provider_consents@,
            target@,
        ) ==> counts_as_configured(*store, target@.provider_id, r is Ok) && selection_answer(
            registry@,
            local_models@,
            settings.cloud_provider_consents@,
            target@,
            r is Ok,
            r,
        ),
        r is Ok && hangs_on_credential(
            registry@,
            local_models@,
            settings.cloud_provider_consents@,
            target@,
        ) ==> store.model().holds_secret(target@.provider_id),
        store.model().readable ==> selection_answer(
            registry@,
            local_models@,
            settings.cloud_provider_consents@,
            target@,
            store.model().holds_secret(target@.provider_id),
            r,
        ),
        store.model().readable ==> (r is Ok <==> selection_error(
            registry@,
            local_models@,
            settings.cloud_provider_consents@,
            target@,
            store.model().holds_secret(target.provider_id@),
        ) is None),
        r is Ok ==> selection_error(
            registry@,
            local_models@,
            settings.cloud_provider_consents@,
            target@,
            store.model().holds_secret(target.provider_id@),
        ) is None,
{
    match registry.get(target.provider_id.as_str()) {
        Some(descriptor) => {
            if !knows_model(descriptor, target.model_id.as_str()) {
                return Err("invalid_configuration".to_owned());
            }
            if descriptor.kind == ProviderKind::Cloud {
                let accepted: u32 = match settings.cloud_provider_consents.get(
                    &target.provider_id,
                ) {
                    Some(version) => *version,
                    None => 0,
                };
                if accepted < descriptor.consent_version {
                    return Err("consent_required".to_owned());
                }
                if descriptor.requires_credential {
                    let lookup: Result<bool, SecretStoreError> = store.is_configured(
                        target.provider_id.as_str(),
                    );
                    proof {
                        assert(crate::secrets::configured_as(*store, target@.provider_id, lookup));
                        crate::secrets::configured_means_a_secret_is_held(
                            *store,
                            target@.provider_id,
                            lookup,
                        );
                    }
                    let configured: bool = match lookup {
                        Ok(configured) => configured,
                        Err(_) => false,
                    };
                    proof {
                        assert(counts_as_configured(*store, target@.provider_id, configured));
                    }
                    if !configured {
                        return Err("missing_credential".to_owned());
                    }
                }
            }
        },
        None => {
            if !(same_text(target.provider_id.as_str(), "local") && knows_local_model(
                local_models,
                target.model_id.as_str(),
            )) {
                return Err("invalid_configuration".to_owned());
            }
        },
    }
    Ok(())
}

/// The target is one of the local provider.
pub open spec fn is_local(target: Option<TranscriptionTargetId>) -> bool {
    target matches Some(t) && t.provider_id@ == "local"@
}

/// Selects a target, or none. A cloud target needs the current consent and a
/// stored credential; an unknown target is refused. A refusal changes nothing;
/// a local target also becomes the selected model.
pub fn set_selected_transcription_target<S: SecretStore>(
    settings: &mut AppSettings,
    registry: &TranscriptionRegistry,
    local_models: &Vec<ModelInfo>,
    store: &S,
    target: Option<TranscriptionTargetId>,
) -> (r: Result<(), String>)
    ensures
        r is Err ==> *final(settings) == *old(settings),
        r is Ok ==> {
            &&& final(settings).selected_transcription_target == target
            &&& is_local(target) ==> final(settings).selected_model@ == target->0.model_id@
            &&& !is_local(target) ==> final(settings).selected_model == old(
                settings
            ).selected_model
            &&& target is Some && target->0.provider_id@ == "local"@ ==> final(
                settings
            ).selected_model@ == target->0.model_id@
            &&& target is None || target->0.provider_id@ != "local"@ ==> final(
                settings
            ).selected_model == old(settings).selected_model
            &&& *final(settings) == (AppSettings {
                selected_transcription_target: target,
                selected_model: final(settings).selected_model,
                ..*old(settings)
            })
        },
        match target {
            None => r is Ok,
            Some(t) => {
                &&& !hangs_on_credential(
                    registry@,
                    local_models@,
                    old(settings).cloud_provider_consents@,
                    t@,
                ) ==> selection_answer(
                    registry@,
                    local_models@,
                    old(settings).cloud_provider_consents@,
                    t@,
                    false,
                    r,
                )
                &&& hangs_on_credential(
                    registry@,
                    local_models@,
                    old(settings).cloud_provider_consents@,
                    t@,
                ) ==> counts_as_configured(*store, t@.provider_id, r is Ok) && selection_answer(
                    registry@,
                    local_models@,
                    old(settings).cloud_provider_consents@,
                    t@,
                    r is Ok,
                    r,
                )
                &&& r is Ok && hangs_on_credential(
                    registry@,
                    local_models@,
                    old(settings).cloud_provider_consents@,
                    t@,
                ) ==> store.model().holds_secret(t@.provider_id)
                &&& store.model().readable ==> selection_answer(
                    registry@,
                    local_models@,
                    old(settings).cloud_provider_consents@,
                    t@,
                    store.model().holds_secret(t@.provider_id),
                    r,
                )
            },
        },
{
    match &target {
        Some(t) => {
            match check_selection(registry, local_models, settings, store, t) {
                Ok(_) => {},
                Err(error) => {
                    return Err(error);
                },
            }
            if same_text(t.provider_id.as_str(), "local") {
                settings.selected_model = t.model_id.clone();
            }
        },
        None => {},
    }
    settings.selected_transcription_target = target;
    Ok(())
}

/// No cloud target passes the checks without the current consent, nor without a
/// stored credential where one is needed.
pub proof fn a_cloud_target_needs_consent_and_credential(
    providers: Map<Seq<char>, crate::transcription::types::DescriptorView>,
    local_models: Seq<ModelInfo>,
    consents: Map<Seq<char>, u32>,
    target: crate::transcription::types::TargetView,
    configured: bool,
)
    requires
        selection_error(providers, local_models, consents, target, configured) is None,
        providers.dom().contains(target.provider_id),
        providers[target.provider_id].kind == ProviderKind::Cloud,
    ensures
        super::history::accepted_version(consents, target.provider_id)
            >= providers[target.provider_id].consent_version,
        providers[target.provider_id].requires_credential ==> configured,
{
}

/// Records the acceptance of a provider's consent text: only of a cloud
/// provider, and only of its current version.
pub fn set_cloud_provider_consent(
    settings: &mut AppSettings,
    registry: &TranscriptionRegistry,
    provider_id: String,
    version: u32,
) -> (r: Result<(), String>)
    ensures
        r is Ok == (registry@.dom().contains(provider_id@) && registry@[provider_id@].kind
            == ProviderKind::Cloud && registry@[provider_id@].consent_version == version),
        r matches Err(error) ==> error@ == "invalid_configuration"@ && *final(settings) == *old(
            settings
        ),
        r is Ok ==> final(settings).cloud_provider_consents@ == old(
            settings
        ).cloud_provider_consents@.insert(provider_id@, version),
        r is Ok ==> *final(settings) == (AppSettings {
            cloud_provider_consents: final(settings).cloud_provider_consents,
            ..*old(settings)
        }),
{
    match registry.get(provider_id.as_str()) {
        Some(descriptor) => {
            if descriptor.kind != ProviderKind::Cloud || version != descriptor.consent_version {
                return Err("invalid_configuration".to_owned());
            }
        },
        None => {
            return Err("invalid_configuration".to_owned());
        },
    }
    settings.cloud_provider_consents.insert(provider_id, version);
    Ok(())
}

/// Takes a consent back, and clears the selected target where it belongs to the
/// provider.
pub fn revoke_cloud_provider_consent(settings: &mut AppSettings, provider_id: String)
    ensures
        final(settings).cloud_provider_consents@ == old(
            settings
        ).cloud_provider_consents@.remove(provider_id@),
        *final(settings) == (AppSettings {
            cloud_provider_consents: final(settings).cloud_provider_consents,
            selected_transcription_target: if (old(
                settings
            ).selected_transcription_target matches Some(t) && t.provider_id@ == provider_id@) {
                None
            } else {
                old(settings).selected_transcription_target
            },
            ..*old(settings)
        }),
{
    settings.cloud_provider_consents.remove(&provider_id);
    let selected: bool = match &settings.selected_transcription_target {
        Some(target) => same_text(target.provider_id.as_str(), provider_id.as_str()),
        None => false,
    };
    if selected {
        settings.selected_transcription_target = None;
    }
}

/// The cloud providers of two lists, one behind the other, are those of the
/// first followed by those of the second; a single provider is among them
/// exactly where it is a cloud provider.
pub proof fn cloud_providers_are_kept_in_order(
    first: Seq<crate::transcription::types::DescriptorView>,
    second: Seq<crate::transcription::types::DescriptorView>,
    one: crate::transcription::types::DescriptorView,
)
    ensures
        cloud_descriptors(first + second) == cloud_descriptors(first) + cloud_descriptors(second),
        one.kind == ProviderKind::Cloud ==> cloud_descriptors(seq![one]) == seq![one],
        one.kind == ProviderKind::Local ==> cloud_descriptors(seq![one]).len() == 0,
{
    let is_cloud = |d: crate::transcription::types::DescriptorView| d.kind == ProviderKind::Cloud;
    Seq::filter_distributes_over_add(first, second, is_cloud);
    reveal(Seq::filter);
    let single = seq![one];
    assert(single.drop_last().len() == 0);
    assert(single.last() == one);
    assert(single.drop_last().filter(is_cloud) == Seq::<
        crate::transcription::types::DescriptorView,
    >::empty());
}

/// When a target may be selected: a registered one with a known model, which,
/// where it is in the cloud, has the current consent and a credential if it
/// needs one; and an unregistered one only where it is a known local model.
pub proof fn when_a_target_may_be_selected(
    providers: Map<Seq<char>, crate::transcription::types::DescriptorView>,
    local_models: Seq<ModelInfo>,
    consents: Map<Seq<char>, u32>,
    target: crate::transcription::types::TargetView,
    configured: bool,
)
    ensures
        ({
            let error = selection_error(providers, local_models, consents, target, configured);
            let known = providers.dom().contains(target.provider_id);
            let descriptor = providers[target.provider_id];
            let accepted = if consents.dom().contains(target.provider_id) {
                consents[target.provider_id]
            } else {
                0
            };
            let has_model = exists|i: int|
                0 <= i < descriptor.models.len() && (#[trigger] descriptor.models[i]).id
                    == target.model_id;
            &&& known ==> (error is None <==> has_model && (descriptor.kind == ProviderKind::Local
                || (accepted >= descriptor.consent_version && (descriptor.requires_credential
                ==> configured))))
            &&& !known ==> (error is None <==> target.provider_id == "local"@ && exists|i: int|
                0 <= i < local_models.len() && (#[trigger] local_models[i]).id@
                    == target.model_id)
            &&& !known && error is Some ==> error == Some("invalid_configuration"@)
            &&& known && !has_model ==> error == Some("invalid_configuration"@)
            &&& known && has_model && descriptor.kind == ProviderKind::Cloud && accepted
                < descriptor.consent_version ==> error == Some("consent_required"@)
            &&& known && has_model && descriptor.kind == ProviderKind::Cloud && accepted
                >= descriptor.consent_version && descriptor.requires_credential && !configured
                ==> error == Some("missing_credential"@)
        }),
{
}

/// The answer hangs on a stored credential exactly for a cloud provider that
/// needs one, where everything else is in order.
pub proof fn when_a_credential_decides(
    providers: Map<Seq<char>, crate::transcription::types::DescriptorView>,
    local_models: Seq<ModelInfo>,
    consents: Map<Seq<char>, u32>,
    target: crate::transcription::types::TargetView,
)
    ensures
        hangs_on_credential(providers, local_models, consents, target)
            <==> providers.dom().contains(target.provider_id)
            && providers[target.provider_id].kind == ProviderKind::Cloud
            && providers[target.provider_id].requires_credential && selection_error(
            providers,
            local_models,
            consents,
            target,
            true,
        ) is None,
{
}

/// A selection is answered with its error, and granted exactly where there is
/// none.
pub proof fn a_selection_is_answered_with_its_error(
    providers: Map<Seq<char>, crate::transcription::types::DescriptorView>,
    local_models: Seq<ModelInfo>,
    consents: Map<Seq<char>, u32>,
    target: crate::transcription::types::TargetView,
    configured: bool,
    r: Result<(), String>,
)
    requires
        selection_answer(providers, local_models, consents, target, configured, r),
    ensures
        r is Ok <==> selection_error(providers, local_models, consents, target, configured) is None,
        r matches Err(text) ==> selection_error(
            providers,
            local_models,
            consents,
            target,
            configured,
        ) == Some(text@),
{
}

/// A credential counts as stored only where one is held; a store that does not
/// answer counts as none.
pub proof fn only_a_held_secret_counts<S: SecretStore>(
    store: S,
    id: Seq<char>,
    configured: bool,
)
    requires
        counts_as_configured(store, id, configured),
    ensures
        configured ==> store.model().holds_secret(id),
        store.model().readable ==> configured == store.model().holds_secret(id),
{
    let lookup = choose|lookup: Result<bool, SecretStoreError>|
        {
            &&& #[trigger] crate::secrets::configured_as(store, id, lookup)
            &&& configured == (lookup == Ok::<bool, SecretStoreError>(true))
        };
    crate::secrets::configured_means_a_secret_is_held(store, id, lookup);
}

} // verus!
