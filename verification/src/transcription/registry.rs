//! The catalog of registered providers.
//!
//! Resolution is strict: an unknown provider or model is an error, never a
//! silent fallback to some default.

use vstd::prelude::*;

use super::types::{ProviderDescriptor, TranscriptionError, TranscriptionTargetId};
use crate::keyed_map::KeyedMap;
use crate::text::{has_member, same_text};

verus! {

/// The registered providers by id.
pub struct TranscriptionRegistry {
    providers: KeyedMap<String, ProviderDescriptor>,
}

impl View for TranscriptionRegistry {
    type V = Map<Seq<char>, super::types::DescriptorView>;

    closed spec fn view(&self) -> Map<Seq<char>, super::types::DescriptorView> {
        self.providers@.map_values(|d: ProviderDescriptor| d@)
    }
}

/// The provider has the model `model_id`.
pub open spec fn has_model(descriptor: super::types::DescriptorView, model_id: Seq<char>) -> bool {
    exists|i: int| 0 <= i < descriptor.models.len() && (#[trigger] descriptor.models[i]).id == model_id
}

/// The text that rejects an unknown provider.
pub open spec fn unknown_provider_text(provider_id: Seq<char>) -> Seq<char> {
    "unknown provider `"@ + provider_id + "`"@
}

/// The text that rejects an unknown model.
pub open spec fn unknown_model_text(target: super::types::TargetView) -> Seq<char> {
    "provider `"@ + target.provider_id + "` has no model `"@ + target.model_id + "`"@
}

/// The text that rejects a provider without whole-file transcription.
pub open spec fn no_batch_text(provider_id: Seq<char>) -> Seq<char> {
    "provider `"@ + provider_id + "` does not support batch transcription"@
}

/// What a target resolves to.
pub open spec fn resolution(
    providers: Map<Seq<char>, super::types::DescriptorView>,
    target: super::types::TargetView,
) -> Result<super::types::DescriptorView, super::types::ErrorView> {
    if !providers.dom().contains(target.provider_id) {
        Err(
            super::types::ErrorView::InvalidConfiguration(
                unknown_provider_text(target.provider_id),
            ),
        )
    } else if !has_model(providers[target.provider_id], target.model_id) {
        Err(super::types::ErrorView::InvalidConfiguration(unknown_model_text(target)))
    } else {
        Ok(providers[target.provider_id])
    }
}

/// The provider takes `language`: no language and `auto` always, and any one
/// where it lists none.
pub open spec fn takes_language(
    capabilities: super::types::CapabilitiesView,
    language: Option<Seq<char>>,
) -> bool {
    match language {
        None => true,
        Some(lang) => capabilities.supported_languages.len() == 0 || lang == "auto"@
            || capabilities.supported_languages.contains(lang),
    }
}

/// What a target resolves to for a whole-file request in `language`.
pub open spec fn batch_resolution(
    providers: Map<Seq<char>, super::types::DescriptorView>,
    target: super::types::TargetView,
    language: Option<Seq<char>>,
) -> Result<super::types::DescriptorView, super::types::ErrorView> {
    match resolution(providers, target) {
        Err(error) => Err(error),
        Ok(descriptor) => if !descriptor.capabilities.batch {
            Err(
                super::types::ErrorView::InvalidConfiguration(no_batch_text(target.provider_id)),
            )
        } else if !takes_language(descriptor.capabilities, language) {
            Err(super::types::ErrorView::UnsupportedLanguage(language->0))
        } else {
            Ok(descriptor)
        },
    }
}

/// The contents of a resolution.
pub open spec fn resolved_view(r: Result<&ProviderDescriptor, TranscriptionError>) -> Result<
    super::types::DescriptorView,
    super::types::ErrorView,
> {
    match r {
        Ok(descriptor) => Ok(descriptor@),
        Err(error) => Err(error@),
    }
}

/// A target never resolves to another provider than the one it names, nor to
/// one without the model it names.
pub proof fn resolution_never_falls_back(
    providers: Map<Seq<char>, super::types::DescriptorView>,
    target: super::types::TargetView,
    language: Option<Seq<char>>,
)
    requires
        batch_resolution(providers, target, language) is Ok,
    ensures
        ({
            let descriptor = batch_resolution(providers, target, language)->Ok_0;
            &&& providers.dom().contains(target.provider_id)
            &&& descriptor == providers[target.provider_id]
            &&& has_model(descriptor, target.model_id)
            &&& descriptor.capabilities.batch
            &&& takes_language(descriptor.capabilities, language)
        }),
{
}

/// Whether a provider has the model `model_id`.
pub fn knows_model(descriptor: &ProviderDescriptor, model_id: &str) -> (r: bool)
    ensures
        r == has_model(descriptor@, model_id@),
        r <==> exists|i: int|
            0 <= i < descriptor.models@.len() && (#[trigger] descriptor.models@[i]).id@
                == model_id@,
{
    let mut i: usize = 0;
    while i < descriptor.models.len()
        invariant
            i <= descriptor.models@.len(),
            forall|j: int| 0 <= j < i ==> (#[trigger] descriptor@.models[j]).id != model_id@,
        decreases descriptor.models@.len() - i,
    {
        proof {
            assert(descriptor@.models[i as int].id == descriptor.models@[i as int].id@);
        }
        if same_text(descriptor.models[i].id.as_str(), model_id) {
            return true;
        }
        i += 1;
    }
    proof {
        assert forall|j: int| 0 <= j < descriptor.models@.len() implies (
        #[trigger] descriptor.models@[j]).id@ != model_id@ by {
            assert(descriptor@.models[j].id == descriptor.models@[j].id@);
        }
    }
    false
}

/// The provider `id` stands in the catalog at position `i`.
pub open spec fn stands_at(
    catalog: Seq<super::types::DescriptorView>,
    id: Seq<char>,
    i: int,
) -> bool {
    0 <= i < catalog.len() && catalog[i].id == id
}

/// The catalog after `descriptor` was registered: in place of an earlier
/// provider with its id, else at the end.
pub open spec fn after_register(
    catalog: Seq<super::types::DescriptorView>,
    descriptor: super::types::DescriptorView,
) -> Seq<super::types::DescriptorView> {
    if exists|i: int| stands_at(catalog, descriptor.id, i) {
        catalog.update(choose|i: int| stands_at(catalog, descriptor.id, i), descriptor)
    } else {
        catalog.push(descriptor)
    }
}

/// The catalog lists exactly the registered providers, each of them once.
pub open spec fn lists_exactly(
    catalog: Seq<super::types::DescriptorView>,
    providers: Map<Seq<char>, super::types::DescriptorView>,
) -> bool {
    &&& forall|id: Seq<char>| #[trigger]
        providers.dom().contains(id) ==> exists|i: int| stands_at(catalog, id, i)
    &&& forall|i: int|
        0 <= i < catalog.len() ==> providers.dom().contains((#[trigger] catalog[i]).id)
            && providers[catalog[i].id] == catalog[i]
    &&& forall|i: int, j: int|
        0 <= i < j < catalog.len() ==> (#[trigger] catalog[i]).id != (#[trigger] catalog[j]).id
}

impl TranscriptionRegistry {
    #[verifier::type_invariant]
    spec fn keys_are_the_ids(self) -> bool {
        forall|i: int|
            0 <= i < self.providers.pairs().len() ==> (#[trigger] self.providers.pairs()[i]).1.id@
                == self.providers.pairs()[i].0@
    }

    /// The registered descriptors in order.
    pub closed spec fn catalog(&self) -> Seq<super::types::DescriptorView> {
        self.providers.pairs().map_values(|p: (String, ProviderDescriptor)| p.1@)
    }

    /// A registry without providers.
    pub fn new() -> (r: Self)
        ensures
            r@ == Map::<Seq<char>, super::types::DescriptorView>::empty(),
            r.catalog() == Seq::<super::types::DescriptorView>::empty(),
    {
        let r = TranscriptionRegistry { providers: KeyedMap::new() };
        proof {
            assert(r@ =~= Map::<Seq<char>, super::types::DescriptorView>::empty());
            assert(r.catalog() =~= Seq::<super::types::DescriptorView>::empty());
        }
        r
    }

    /// Registers a provider, in place of an earlier one with the same id.
    pub fn register(&mut self, descriptor: ProviderDescriptor)
        ensures
            final(self)@ == old(self)@.insert(descriptor@.id, descriptor@),
            final(self).catalog() == after_register(old(self).catalog(), descriptor@),
    {
        proof {
            use_type_invariant(&*self);
        }
        let key: String = descriptor.id.clone();
        let ghost view = descriptor@;
        let mut providers: KeyedMap<String, ProviderDescriptor> = KeyedMap::new();
        std::mem::swap(&mut providers, &mut self.providers);
        let ghost before = providers.pairs();
        let ghost listed = old(self).catalog();
        providers.insert(key, descriptor);
        proof {
            assert(providers@.map_values(|d: ProviderDescriptor| d@) =~= old(self)@.insert(
                view.id,
                view,
            ));
            let after = providers.pairs().map_values(|p: (String, ProviderDescriptor)| p.1@);
            if exists|i: int| stands_at(listed, view.id, i) {
                let i = choose|i: int| stands_at(listed, view.id, i);
                assert(crate::keyed_map::key_stands_at(before, view.id, i));
                let at = crate::keyed_map::position_of(before, view.id);
                assert(crate::keyed_map::key_stands_at(before, view.id, at));
                if at < i {
                    assert(before[at].0@ != before[i].0@);
                } else if i < at {
                    assert(before[i].0@ != before[at].0@);
                }
                assert(after =~= listed.update(i, view));
            } else {
                if old(self).providers@.dom().contains(view.id) {
                    let i = choose|i: int| crate::keyed_map::key_stands_at(before, view.id, i);
                    assert(stands_at(listed, view.id, i));
                }
                assert(after =~= listed.push(view));
            }
        }
        self.providers = providers;
    }

    /// The descriptor of a provider.
    pub fn get(&self, provider_id: &str) -> (r: Option<&ProviderDescriptor>)
        ensures
            r.is_some() == self@.dom().contains(provider_id@),
            r matches Some(descriptor) ==> descriptor@ == self@[provider_id@],
    {
        self.providers.get(&provider_id.to_owned())
    }

    /// The descriptors of all providers.
    pub fn descriptors(&self) -> (r: Vec<ProviderDescriptor>)
        ensures
            super::types::descriptors_view(r@) == self.catalog(),
            lists_exactly(super::types::descriptors_view(r@), self@),
            r@.len() == self@.dom().len(),
    {
        proof {
            use_type_invariant(self);
        }
        let mut list: Vec<ProviderDescriptor> = Vec::new();
        let n: usize = self.providers.len();
        proof {
            assert(self@.dom() =~= self.providers@.dom());
        }
        let mut i: usize = 0;
        while i < n
            invariant
                n == self.providers.pairs().len(),
                crate::keyed_map::distinct_keys(self.providers.pairs()),
                self.providers@ == crate::keyed_map::map_of(self.providers.pairs()),
                i <= n,
                list@.len() == i,
                forall|j: int|
                    0 <= j < n ==> (#[trigger] self.providers.pairs()[j]).1.id@
                        == self.providers.pairs()[j].0@,
                forall|j: int|
                    0 <= j < i ==> (#[trigger] list@[j])@ == self.providers.pairs()[j].1@
                        && self@.dom().contains(list@[j]@.id) && self@[list@[j]@.id] == list@[j]@,
            decreases n - i,
        {
            list.push(self.providers.value_at(i).clone());
            i += 1;
        }
        proof {
            let listed = self.catalog();
            assert(super::types::descriptors_view(list@) =~= listed);
            let pairs = self.providers.pairs();
            assert forall|id: Seq<char>| #[trigger] self@.dom().contains(id) implies exists|j: int|
                stands_at(listed, id, j) by {
                let j = choose|j: int| crate::keyed_map::key_stands_at(pairs, id, j);
                assert(stands_at(listed, id, j));
            }
            assert forall|j: int| 0 <= j < listed.len() implies self@.dom().contains(
                (#[trigger] listed[j]).id,
            ) && self@[listed[j].id] == listed[j] by {
                assert(list@[j]@ == listed[j]);
            }
            assert forall|j: int, k: int| 0 <= j < k < listed.len() implies (
            #[trigger] listed[j]).id != (#[trigger] listed[k]).id by {
                assert(pairs[j].0@ != pairs[k].0@);
            }
        }
        list
    }

    /// The provider of a target, where it exists and has the model.
    pub fn resolve(&self, target: &TranscriptionTargetId) -> (r: Result<
        &ProviderDescriptor,
        TranscriptionError,
    >)
        ensures
            resolved_view(r) == resolution(self@, target@),
            r is Ok <==> self@.dom().contains(target.provider_id@) && has_model(
                self@[target.provider_id@],
                target.model_id@,
            ),
            r matches Ok(descriptor) ==> descriptor@ == self@[target.provider_id@],
            !self@.dom().contains(target.provider_id@) ==> (r matches Err(
                TranscriptionError::InvalidConfiguration(text),
            ) && text@ == "unknown provider `"@ + target.provider_id@ + "`"@),
            self@.dom().contains(target.provider_id@) && r is Err ==> (r matches Err(
                TranscriptionError::InvalidConfiguration(text),
            ) && text@ == "provider `"@ + target.provider_id@ + "` has no model `"@
                + target.model_id@ + "`"@),
    {
        match self.get(target.provider_id.as_str()) {
            None => {
                let mut text: String = "unknown provider `".to_owned();
                text.append(target.provider_id.as_str());
                text.append("`");
                Err(TranscriptionError::InvalidConfiguration(text))
            },
            Some(descriptor) => {
                if knows_model(descriptor, target.model_id.as_str()) {
                    Ok(descriptor)
                } else {
                    let mut text: String = "provider `".to_owned();
                    text.append(target.provider_id.as_str());
                    text.append("` has no model `");
                    text.append(target.model_id.as_str());
                    text.append("`");
                    Err(TranscriptionError::InvalidConfiguration(text))
                }
            },
        }
    }

    /// The provider of a target for a whole-file request in `language`.
    pub fn resolve_for_batch(&self, target: &TranscriptionTargetId, language: Option<&str>) -> (r:
        Result<&ProviderDescriptor, TranscriptionError>)
        ensures
            resolved_view(r) == batch_resolution(
                self@,
                target@,
                match language {
                    Some(lang) => Some(lang@),
                    None => None,
                },
            ),
            r matches Ok(descriptor) ==> {
                &&& self@.dom().contains(target.provider_id@)
                &&& descriptor@ == self@[target.provider_id@]
                &&& has_model(descriptor@, target.model_id@)
                &&& descriptor.capabilities.batch
                &&& language matches Some(lang) ==> {
                    ||| descriptor.capabilities.supported_languages@.len() == 0
                    ||| lang@ == "auto"@
                    ||| exists|i: int|
                        0 <= i < descriptor.capabilities.supported_languages@.len() && (
                        #[trigger] descriptor.capabilities.supported_languages@[i])@ == lang@
                }
            },
            self@.dom().contains(target.provider_id@) && has_model(
                self@[target.provider_id@],
                target.model_id@,
            ) ==> {
                let descriptor = self@[target.provider_id@];
                &&& !descriptor.capabilities.batch ==> (r matches Err(
                    TranscriptionError::InvalidConfiguration(text),
                ) && text@ == "provider `"@ + target.provider_id@
                    + "` does not support batch transcription"@)
                &&& descriptor.capabilities.batch && (language is None
                    || descriptor.capabilities.supported_languages.len() == 0 || language->0@
                    == "auto"@ || descriptor.capabilities.supported_languages.contains(
                    language->0@,
                )) ==> r is Ok
                &&& descriptor.capabilities.batch && r is Err ==> language is Some && (r matches Err(
                    TranscriptionError::UnsupportedLanguage(lang),
                ) && lang@ == language->0@)
            },
    {
        let descriptor: &ProviderDescriptor = match self.resolve(target) {
            Ok(descriptor) => descriptor,
            Err(error) => {
                return Err(error);
            },
        };
        if !descriptor.capabilities.batch {
            let mut text: String = "provider `".to_owned();
            text.append(target.provider_id.as_str());
            text.append("` does not support batch transcription");
            return Err(TranscriptionError::InvalidConfiguration(text));
        }
        match language {
            Some(lang) => {
                let supported: &Vec<String> = &descriptor.capabilities.supported_languages;
                if supported.len() != 0 && !same_text(lang, "auto") && !has_member(
                    supported,
                    lang,
                ) {
                    return Err(TranscriptionError::UnsupportedLanguage(lang.to_owned()));
                }
            },
            None => {},
        }
        Ok(descriptor)
    }
}

/// A target resolves exactly where its provider is registered and has its model;
/// the provider itself is what it resolves to, and each refusal names what is
/// missing.
pub proof fn when_a_target_resolves(
    providers: Map<Seq<char>, super::types::DescriptorView>,
    target: super::types::TargetView,
)
    ensures
        resolution(providers, target) is Ok <==> providers.dom().contains(target.provider_id)
            && exists|i: int|
            0 <= i < providers[target.provider_id].models.len() && (
            #[trigger] providers[target.provider_id].models[i]).id == target.model_id,
        resolution(providers, target) matches Ok(descriptor) ==> descriptor
            == providers[target.provider_id],
        !providers.dom().contains(target.provider_id) ==> resolution(providers, target) == Err::<
            super::types::DescriptorView,
            super::types::ErrorView,
        >(
            super::types::ErrorView::InvalidConfiguration(
                "unknown provider `"@ + target.provider_id + "`"@,
            ),
        ),
        providers.dom().contains(target.provider_id) && resolution(providers, target) is Err
            ==> resolution(providers, target) == Err::<
            super::types::DescriptorView,
            super::types::ErrorView,
        >(
            super::types::ErrorView::InvalidConfiguration(
                "provider `"@ + target.provider_id + "` has no model `"@ + target.model_id + "`"@,
            ),
        ),
{
}

/// A language is refused only where the provider lists its languages and this
/// one, which is not `auto`, is not among them.
pub proof fn which_languages_are_refused(
    capabilities: super::types::CapabilitiesView,
    lang: Seq<char>,
)
    ensures
        takes_language(capabilities, None),
        takes_language(capabilities, Some("auto"@)),
        capabilities.supported_languages.len() == 0 ==> takes_language(capabilities, Some(lang)),
        capabilities.supported_languages.contains(lang) ==> takes_language(
            capabilities,
            Some(lang),
        ),
        capabilities.supported_languages.len() > 0 && lang != "auto"@
            && !capabilities.supported_languages.contains(lang) ==> !takes_language(
            capabilities,
            Some(lang),
        ),
{
}

/// A whole-file request resolves exactly where the target does, the provider
/// transcribes whole files, and it takes the language.
pub proof fn when_a_target_resolves_for_a_file(
    providers: Map<Seq<char>, super::types::DescriptorView>,
    target: super::types::TargetView,
    language: Option<Seq<char>>,
)
    ensures
        batch_resolution(providers, target, language) is Ok <==> resolution(providers, target) is Ok
            && providers[target.provider_id].capabilities.batch && takes_language(
            providers[target.provider_id].capabilities,
            language,
        ),
        resolution(providers, target) is Err ==> batch_resolution(providers, target, language)
            == resolution(providers, target),
        resolution(providers, target) is Ok && !providers[target.provider_id].capabilities.batch
            ==> batch_resolution(providers, target, language) == Err::<
            super::types::DescriptorView,
            super::types::ErrorView,
        >(
            super::types::ErrorView::InvalidConfiguration(
                "provider `"@ + target.provider_id + "` does not support batch transcription"@,
            ),
        ),
        resolution(providers, target) is Ok && providers[target.provider_id].capabilities.batch
            && !takes_language(providers[target.provider_id].capabilities, language)
            ==> batch_resolution(providers, target, language) == Err::<
            super::types::DescriptorView,
            super::types::ErrorView,
        >(super::types::ErrorView::UnsupportedLanguage(language->0)),
{
}

/// Registering a provider puts it into the catalog once, and moves or drops no
/// other one.
pub proof fn a_registration_moves_no_other_provider(
    catalog: Seq<super::types::DescriptorView>,
    descriptor: super::types::DescriptorView,
    i: int,
)
    requires
        0 <= i < catalog.len(),
        catalog[i].id != descriptor.id,
    ensures
        after_register(catalog, descriptor).len() >= catalog.len(),
        after_register(catalog, descriptor).len() == catalog.len() <==> exists|j: int|
            stands_at(catalog, descriptor.id, j),
        after_register(catalog, descriptor)[i] == catalog[i],
        after_register(catalog, descriptor).contains(descriptor),
{
    let after = after_register(catalog, descriptor);
    if exists|j: int| stands_at(catalog, descriptor.id, j) {
        let j = choose|j: int| stands_at(catalog, descriptor.id, j);
        assert(after[j] == descriptor);
    } else {
        assert(after[catalog.len() as int] == descriptor);
    }
}

} // verus!
