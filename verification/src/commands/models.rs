//! The commands for the catalog of targets and the local models.

use vstd::prelude::*;

use crate::managers::model::{EngineType, ModelInfo};
use crate::settings::AppSettings;
use crate::text::{is_text_le, same_text};
use crate::transcription::local::catalog;
use crate::transcription::types::{
    ProviderDescriptor, TranscriptionModelDescriptor, TranscriptionTargetId,
};

verus! {

/// The model runs in an engine, not in a subprocess.
pub open spec fn is_engine_model(info: ModelInfo) -> bool {
    info.engine_type != EngineType::InsanelyFastWhisper
}

/// The catalog entries of the models that run in an engine, in order.
pub open spec fn engine_models(
    models: Seq<ModelInfo>,
) -> Seq<crate::transcription::types::ModelView>
    decreases models.len(),
{
    if models.len() == 0 {
        Seq::empty()
    } else {
        let before = engine_models(models.drop_last());
        if is_engine_model(models.last()) {
            before.push(crate::transcription::local::model_entry(models.last()))
        } else {
            before
        }
    }
}

/// The local provider as the catalog offers it: with the models that run in an
/// engine.
pub fn local_descriptor(available: &Vec<ModelInfo>) -> (r: ProviderDescriptor)
    ensures
        r@ == crate::transcription::local::local_catalog(engine_models(available@)),
        r.id@ == "local"@,
        crate::transcription::types::models_view(r.models@) == engine_models(available@),
{
    let mut models: Vec<TranscriptionModelDescriptor> = Vec::new();
    let mut i: usize = 0;
    proof {
        assert(crate::transcription::types::models_view(models@) =~= Seq::<
            crate::transcription::types::ModelView,
        >::empty());
    }
    while i < available.len()
        invariant
            i <= available@.len(),
            crate::transcription::types::models_view(models@) == engine_models(
                available@.take(i as int),
            ),
        decreases available@.len() - i,
    {
        let ghost had = models@;
        proof {
            assert(available@.take(i + 1).drop_last() == available@.take(i as int));
        }
        if available[i].engine_type != EngineType::InsanelyFastWhisper {
            models.push(
                TranscriptionModelDescriptor {
                    id: available[i].id.clone(),
                    label: available[i].name.clone(),
                },
            );
            proof {
                assert(crate::transcription::types::models_view(models@)
                    =~= crate::transcription::types::models_view(had).push(
                    crate::transcription::local::model_entry(available@[i as int]),
                ));
            }
        }
        i += 1;
    }
    proof {
        assert(available@.take(i as int) == available@);
    }
    catalog(models)
}

/// The providers of a list other than the local one.
pub open spec fn others(
    list: Seq<crate::transcription::types::DescriptorView>,
) -> Seq<crate::transcription::types::DescriptorView> {
    list.filter(|d: crate::transcription::types::DescriptorView| d.id != "local"@)
}

/// The labels are in lexicographic order.
pub open spec fn sorted_by_label(list: Seq<crate::transcription::types::DescriptorView>) -> bool {
    forall|i: int, j: int|
        0 <= i < j < list.len() ==> crate::text::text_le(
            (#[trigger] list[i]).label,
            (#[trigger] list[j]).label,
        )
}

/// The providers with this label, in order.
pub open spec fn labelled(
    list: Seq<crate::transcription::types::DescriptorView>,
    label: Seq<char>,
) -> Seq<crate::transcription::types::DescriptorView> {
    list.filter(|d: crate::transcription::types::DescriptorView| d.label == label)
}

/// The list is the other one put in the order of the labels, and providers with
/// the same label keep their order.
pub open spec fn is_ordering_of(
    sorted: Seq<crate::transcription::types::DescriptorView>,
    list: Seq<crate::transcription::types::DescriptorView>,
) -> bool {
    &&& sorted_by_label(sorted)
    &&& forall|label: Seq<char>| #[trigger] labelled(sorted, label) == labelled(list, label)
}

/// The last of the providers stands last among those with its label.
proof fn lemma_last_labelled(list: Seq<crate::transcription::types::DescriptorView>)
    requires
        list.len() > 0,
    ensures
        labelled(list, list.last().label) == labelled(list.drop_last(), list.last().label).push(
            list.last(),
        ),
        forall|label: Seq<char>|
            label != list.last().label ==> #[trigger] labelled(list, label) == labelled(
                list.drop_last(),
                label,
            ),
{
    reveal(Seq::filter);
}

/// In a sorted list no label stands behind the one at its end.
proof fn lemma_end_is_greatest(
    list: Seq<crate::transcription::types::DescriptorView>,
    label: Seq<char>,
)
    requires
        sorted_by_label(list),
        labelled(list, label).len() > 0,
    ensures
        list.len() > 0,
        crate::text::text_le(label, list.last().label),
{
    broadcast use Seq::lemma_filter_contains_rev;

    let has = |d: crate::transcription::types::DescriptorView| d.label == label;
    let first = labelled(list, label)[0];
    assert(labelled(list, label).contains(first));
    list.lemma_filter_pred(has, 0);
    let i = choose|i: int| 0 <= i < list.len() && list[i] == first;
    if i < list.len() - 1 {
        assert(crate::text::text_le(list[i].label, list[list.len() - 1].label));
    } else {
        crate::text::text_order_is_reflexive(label);
    }
}

/// Two sorted lists with the same providers under each label are equal.
proof fn lemma_same_ordering(
    a: Seq<crate::transcription::types::DescriptorView>,
    b: Seq<crate::transcription::types::DescriptorView>,
)
    requires
        is_ordering_of(a, b),
        sorted_by_label(b),
    ensures
        a == b,
    decreases a.len(),
{
    if a.len() == 0 && b.len() > 0 {
        lemma_last_labelled(b);
        assert(labelled(a, b.last().label) == labelled(b, b.last().label));
        lemma_end_is_greatest(a, b.last().label);
    } else if a.len() > 0 {
        lemma_last_labelled(a);
        assert(labelled(a, a.last().label) == labelled(b, a.last().label));
        lemma_end_is_greatest(b, a.last().label);
        lemma_last_labelled(b);
        assert(labelled(a, b.last().label) == labelled(b, b.last().label));
        lemma_end_is_greatest(a, b.last().label);
        crate::text::text_order_is_antisymmetric(a.last().label, b.last().label);
        let label = a.last().label;
        let x = labelled(a.drop_last(), label);
        let y = labelled(b.drop_last(), label);
        assert(x.push(a.last()) == y.push(b.last()));
        assert(x.push(a.last()).last() == y.push(b.last()).last());
        assert(x == x.push(a.last()).drop_last());
        assert(y == y.push(b.last()).drop_last());
        assert forall|other: Seq<char>| #[trigger]
            labelled(a.drop_last(), other) == labelled(b.drop_last(), other) by {
            if other != label {
                assert(labelled(a, other) == labelled(b, other));
            }
        }
        lemma_same_ordering(a.drop_last(), b.drop_last());
        assert(a == a.drop_last().push(a.last()));
        assert(b == b.drop_last().push(b.last()));
    }
}

/// A list has one ordering only.
pub proof fn an_ordering_is_unique(
    list: Seq<crate::transcription::types::DescriptorView>,
    a: Seq<crate::transcription::types::DescriptorView>,
    b: Seq<crate::transcription::types::DescriptorView>,
)
    requires
        is_ordering_of(a, list),
        is_ordering_of(b, list),
    ensures
        a == b,
{
    assert forall|label: Seq<char>| #[trigger] labelled(a, label) == labelled(b, label) by {
        assert(labelled(b, label) == labelled(list, label));
    }
    lemma_same_ordering(a, b);
}

/// A provider put in front of providers with other labels comes last of those
/// with its label.
proof fn lemma_insert_labelled(
    list: Seq<crate::transcription::types::DescriptorView>,
    at: int,
    descriptor: crate::transcription::types::DescriptorView,
    label: Seq<char>,
)
    requires
        0 <= at <= list.len(),
        forall|j: int| at <= j < list.len() ==> (#[trigger] list[j]).label != descriptor.label,
    ensures
        labelled(list.insert(at, descriptor), label) == labelled(list.push(descriptor), label),
{
    reveal(Seq::filter);
    let has = |d: crate::transcription::types::DescriptorView| d.label == label;
    let front = list.take(at);
    let back = list.skip(at);
    let one = Seq::<crate::transcription::types::DescriptorView>::empty().push(descriptor);
    assert(list.insert(at, descriptor) == front + (one + back));
    assert(list.push(descriptor) == front + (back + one));
    Seq::filter_distributes_over_add(front, one + back, has);
    Seq::filter_distributes_over_add(front, back + one, has);
    Seq::filter_distributes_over_add(one, back, has);
    Seq::filter_distributes_over_add(back, one, has);
    assert(one.drop_last() == Seq::<crate::transcription::types::DescriptorView>::empty());
    if descriptor.label == label {
        back.lemma_all_neg_filter_empty(has);
    } else {
        one.lemma_all_neg_filter_empty(has);
    }
    assert(one.filter(has) + back.filter(has) == back.filter(has) + one.filter(has));
}

/// Puts a descriptor behind those with the same or a lesser label.
fn insert_by_label(list: &mut Vec<ProviderDescriptor>, descriptor: ProviderDescriptor)
    requires
        sorted_by_label(crate::transcription::types::descriptors_view(old(list)@)),
    ensures
        is_ordering_of(
            crate::transcription::types::descriptors_view(final(list)@),
            crate::transcription::types::descriptors_view(old(list)@).push(descriptor@),
        ),
{
    let ghost before = crate::transcription::types::descriptors_view(list@);
    let ghost view = descriptor@;
    let mut at: usize = list.len();
    while at > 0 && !is_text_le(list[at - 1].label.as_str(), descriptor.label.as_str())
        invariant
            at <= list@.len(),
            view == descriptor@,
            before == crate::transcription::types::descriptors_view(list@),
            forall|j: int|
                at <= j < before.len() ==> !crate::text::text_le(
                    (#[trigger] before[j]).label,
                    view.label,
                ),
        decreases at,
    {
        proof {
            assert(before[at - 1].label == list@[at - 1].label@);
        }
        at -= 1;
    }
    proof {
        if at > 0 {
            assert(before[at - 1].label == list@[at - 1].label@);
        }
    }
    list.insert(at, descriptor);
    proof {
        let after = crate::transcription::types::descriptors_view(list@);
        assert(after =~= before.insert(at as int, view));
        crate::text::text_order_is_reflexive(view.label);
        assert forall|label: Seq<char>| #[trigger]
            labelled(after, label) == labelled(before.push(view), label) by {
            lemma_insert_labelled(before, at as int, view, label);
        }
        assert forall|i: int, j: int| 0 <= i < j < after.len() implies crate::text::text_le(
            (#[trigger] after[i]).label,
            (#[trigger] after[j]).label,
        ) by {
            let a = if i < at {
                i
            } else {
                i - 1
            };
            let b = if j < at {
                j
            } else {
                j - 1
            };
            if i != at && j != at {
                assert(after[i] == before[a]);
                assert(after[j] == before[b]);
                assert(crate::text::text_le(before[a].label, before[b].label));
            } else if j == at {
                assert(after[i] == before[i]);
                if i < at - 1 {
                    assert(crate::text::text_le(before[i].label, before[at - 1].label));
                    crate::text::text_order_is_transitive(
                        before[i].label,
                        before[at - 1].label,
                        view.label,
                    );
                }
            } else {
                assert(after[j] == before[b]);
                crate::text::text_order_is_total(before[b].label, view.label);
            }
        }
    }
}

/// The catalog of targets: the local provider first, then every other provider
/// in the order of the labels.
pub fn get_transcription_targets(
    available: &Vec<ModelInfo>,
    registered: &Vec<ProviderDescriptor>,
) -> (r: Vec<ProviderDescriptor>)
    ensures
        r@.len() > 0,
        r@[0]@ == crate::transcription::local::local_catalog(engine_models(available@)),
        r@[0].id@ == "local"@,
        forall|i: int, j: int|
            1 <= i < j < r@.len() ==> crate::text::text_le(
                (#[trigger] r@[i]).label@,
                (#[trigger] r@[j]).label@,
            ),
        is_ordering_of(
            crate::transcription::types::descriptors_view(r@).skip(1),
            others(crate::transcription::types::descriptors_view(registered@)),
        ),
{
    let ghost all = crate::transcription::types::descriptors_view(registered@);
    let mut sorted: Vec<ProviderDescriptor> = Vec::new();
    let mut i: usize = 0;
    proof {
        reveal(Seq::filter);
        assert(all.take(0) == Seq::<crate::transcription::types::DescriptorView>::empty());
        assert(crate::transcription::types::descriptors_view(sorted@) =~= others(all.take(0)));
    }
    while i < registered.len()
        invariant
            i <= registered@.len(),
            all == crate::transcription::types::descriptors_view(registered@),
            is_ordering_of(
                crate::transcription::types::descriptors_view(sorted@),
                others(all.take(i as int)),
            ),
        decreases registered@.len() - i,
    {
        let ghost had = crate::transcription::types::descriptors_view(sorted@);
        let ghost one = registered@[i as int]@;
        proof {
            reveal(Seq::filter);
            assert(all.take(i + 1).drop_last() == all.take(i as int));
            assert(all.take(i + 1).last() == one);
        }
        if !same_text(registered[i].id.as_str(), "local") {
            insert_by_label(&mut sorted, registered[i].clone());
            proof {
                assert forall|label: Seq<char>| #[trigger]
                    labelled(
                        crate::transcription::types::descriptors_view(sorted@),
                        label,
                    ) == labelled(others(all.take(i + 1)), label) by {
                    assert(others(all.take(i + 1)) == others(all.take(i as int)).push(one));
                    assert(labelled(had, label) == labelled(others(all.take(i as int)), label));
                    assert(had.push(one).drop_last() == had);
                    assert(others(all.take(i as int)).push(one).drop_last() == others(
                        all.take(i as int),
                    ));
                }
            }
        }
        i += 1;
    }
    let ghost tail = crate::transcription::types::descriptors_view(sorted@);
    sorted.insert(0, local_descriptor(available));
    proof {
        assert(all.take(i as int) == all);
        assert(crate::transcription::types::descriptors_view(sorted@).skip(1) =~= tail);
        assert forall|i: int, j: int| 1 <= i < j < sorted@.len() implies crate::text::text_le(
            (#[trigger] sorted@[i]).label@,
            (#[trigger] sorted@[j]).label@,
        ) by {
            assert(tail[i - 1].label == sorted@[i].label@);
            assert(tail[j - 1].label == sorted@[j].label@);
        }
    }
    sorted
}

/// Whether a model that is deleted has to be unloaded first: the selected one.
pub fn deletes_active_model(settings: &AppSettings, model_id: &str) -> (r: bool)
    ensures
        r == (settings.selected_model@ == model_id@),
{
    same_text(settings.selected_model.as_str(), model_id)
}

/// The target is the local model `model_id`.
pub open spec fn is_local_model(target: Option<TranscriptionTargetId>, model_id: Seq<char>) -> bool {
    target matches Some(t) && t.provider_id@ == "local"@ && t.model_id@ == model_id
}

/// Forgets the selected model that is being deleted, once unloading it was
/// attempted, and a selected target on it. Where it could not be unloaded,
/// nothing changes.
pub fn forget_active_model(
    settings: &mut AppSettings,
    model_id: &str,
    unloaded: Result<(), String>,
) -> (r: Result<(), String>)
    ensures
        match unloaded {
            Err(error) => r is Err && r->Err_0@ == "Failed to unload model: "@ + error@
                && *final(settings) == *old(settings),
            Ok(_) => {
                &&& r is Ok
                &&& final(settings).selected_model@ == ""@
                &&& *final(settings) == (AppSettings {
                    selected_model: final(settings).selected_model,
                    selected_transcription_target: if is_local_model(
                        old(settings).selected_transcription_target,
                        model_id@,
                    ) {
                        None
                    } else {
                        old(settings).selected_transcription_target
                    },
                    ..*old(settings)
                })
            },
        },
        r is Ok <==> unloaded is Ok,
        r is Ok ==> (final(settings).selected_transcription_target matches Some(target) ==> !(
        target.provider_id@ == "local"@ && target.model_id@ == model_id@)),
        old(settings).selected_transcription_target is Some && !(old(
            settings,
        ).selected_transcription_target->0.provider_id@ == "local"@ && old(
            settings,
        ).selected_transcription_target->0.model_id@ == model_id@) ==> final(
            settings
        ).selected_transcription_target == old(settings).selected_transcription_target,
{
    match unloaded {
        Err(error) => {
            let mut text: String = "Failed to unload model: ".to_owned();
            text.append(error.as_str());
            return Err(text);
        },
        Ok(_) => {},
    }
    settings.selected_model = "".to_owned();
    let selected: bool = match &settings.selected_transcription_target {
        Some(target) => same_text(target.provider_id.as_str(), "local") && same_text(
            target.model_id.as_str(),
            model_id,
        ),
        None => false,
    };
    if selected {
        settings.selected_transcription_target = None;
    }
    Ok(())
}

/// Whether a model can be activated: it must be known and downloaded.
pub fn check_activation(model_id: &str, info: &Option<ModelInfo>) -> (r: Result<(), String>)
    ensures
        match *info {
            None => r is Err && r->Err_0@ == "Model not found: "@ + model_id@,
            Some(known) => if known.is_downloaded {
                r is Ok
            } else {
                r is Err && r->Err_0@ == "Model not downloaded: "@ + model_id@
            },
        },
{
    match info {
        None => {
            let mut text: String = "Model not found: ".to_owned();
            text.append(model_id);
            Err(text)
        },
        Some(known) => {
            if known.is_downloaded {
                Ok(())
            } else {
                let mut text: String = "Model not downloaded: ".to_owned();
                text.append(model_id);
                Err(text)
            }
        },
    }
}

/// Selects a model once loading it was attempted: only a model that was loaded
/// becomes the selected one and the selected target.
pub fn set_active_model(
    settings: &mut AppSettings,
    model_id: String,
    loaded: Result<(), String>,
) -> (r: Result<(), String>)
    ensures
        match loaded {
            Err(error) => r == Err::<(), String>(error) && *final(settings) == *old(settings),
            Ok(_) => {
                &&& r is Ok
                &&& final(settings).selected_model == model_id
                &&& crate::transcription::types::optional_target(
                    final(settings).selected_transcription_target,
                ) == Some(
                    crate::transcription::types::TargetView {
                        provider_id: "local"@,
                        model_id: model_id@,
                    },
                )
                &&& *final(settings) == (AppSettings {
                    selected_model: model_id,
                    selected_transcription_target: final(settings).selected_transcription_target,
                    ..*old(settings)
                })
            },
        },
{
    match loaded {
        Err(error) => {
            return Err(error);
        },
        Ok(_) => {},
    }
    settings.selected_transcription_target =
    Some(TranscriptionTargetId::new("local", model_id.as_str()));
    settings.selected_model = model_id;
    Ok(())
}

/// Whether a model is still being loaded: none is current.
pub fn is_model_loading(current_model: &Option<String>) -> (r: bool)
    ensures
        r == current_model.is_none(),
{
    current_model.is_none()
}

/// One of the models that run in an engine is downloaded.
pub open spec fn any_downloaded(models: Seq<ModelInfo>) -> bool {
    exists|i: int|
        0 <= i < models.len() && (#[trigger] models[i]).is_downloaded && is_engine_model(models[i])
}

/// One of the models that run in an engine is downloaded or being downloaded.
pub open spec fn any_downloaded_or_downloading(models: Seq<ModelInfo>) -> bool {
    exists|i: int|
        0 <= i < models.len() && is_engine_model(#[trigger] models[i]) && (models[i].is_downloaded
            || models[i].is_downloading)
}

/// Whether there is a model to transcribe with.
pub fn has_any_models_available(models: &Vec<ModelInfo>) -> (r: bool)
    ensures
        r == any_downloaded(models@),
        r <==> exists|i: int|
            0 <= i < models@.len() && (#[trigger] models@[i]).is_downloaded
                && models@[i].engine_type != EngineType::InsanelyFastWhisper,
{
    let mut i: usize = 0;
    while i < models.len()
        invariant
            i <= models@.len(),
            forall|j: int|
                0 <= j < i ==> !((#[trigger] models@[j]).is_downloaded && is_engine_model(
                    models@[j],
                )),
        decreases models@.len() - i,
    {
        if models[i].is_downloaded && models[i].engine_type != EngineType::InsanelyFastWhisper {
            return true;
        }
        i += 1;
    }
    false
}

/// Whether there is, or will soon be, a model to transcribe with.
pub fn has_any_models_or_downloads(models: &Vec<ModelInfo>) -> (r: bool)
    ensures
        r == any_downloaded_or_downloading(models@),
        r <==> exists|i: int|
            0 <= i < models@.len() && ((#[trigger] models@[i]).is_downloaded
                || models@[i].is_downloading) && models@[i].engine_type
                != EngineType::InsanelyFastWhisper,
{
    let mut i: usize = 0;
    while i < models.len()
        invariant
            i <= models@.len(),
            forall|j: int|
                0 <= j < i ==> !(is_engine_model(#[trigger] models@[j]) && (models@[j].is_downloaded
                    || models@[j].is_downloading)),
        decreases models@.len() - i,
    {
        if models[i].engine_type != EngineType::InsanelyFastWhisper && (models[i].is_downloaded
            || models[i].is_downloading) {
            return true;
        }
        i += 1;
    }
    false
}

/// The models of the catalog are found one by one, in order; a single model is
/// offered, under its own id and name, exactly where an engine runs it.
pub proof fn the_catalog_offers_every_engine_model(
    first: Seq<ModelInfo>,
    second: Seq<ModelInfo>,
    one: ModelInfo,
)
    ensures
        engine_models(first + second) == engine_models(first) + engine_models(second),
        one.engine_type != EngineType::InsanelyFastWhisper ==> engine_models(seq![one]) == seq![
            crate::transcription::types::ModelView { id: one.id@, label: one.name@ },
        ],
        one.engine_type == EngineType::InsanelyFastWhisper ==> engine_models(seq![one]).len() == 0,
    decreases second.len(),
{
    if second.len() == 0 {
        assert(first + second == first);
    } else {
        let whole = first + second;
        the_catalog_offers_every_engine_model(first, second.drop_last(), one);
        assert(whole.drop_last() == first + second.drop_last());
        assert(whole.last() == second.last());
    }
    let single = seq![one];
    assert(single.drop_last().len() == 0);
    assert(single.last() == one);
    assert(engine_models(single.drop_last()) == Seq::<
        crate::transcription::types::ModelView,
    >::empty());
}

/// The other providers of a list are found one by one, in order: every one but
/// the local one.
pub proof fn only_the_local_provider_is_left_out(
    first: Seq<crate::transcription::types::DescriptorView>,
    second: Seq<crate::transcription::types::DescriptorView>,
    one: crate::transcription::types::DescriptorView,
)
    ensures
        others(first + second) == others(first) + others(second),
        one.id != "local"@ ==> others(seq![one]) == seq![one],
        one.id == "local"@ ==> others(seq![one]).len() == 0,
{
    let is_other = |d: crate::transcription::types::DescriptorView| d.id != "local"@;
    Seq::filter_distributes_over_add(first, second, is_other);
    reveal(Seq::filter);
    let single = seq![one];
    assert(single.drop_last().len() == 0);
    assert(single.last() == one);
    assert(single.drop_last().filter(is_other) == Seq::<
        crate::transcription::types::DescriptorView,
    >::empty());
}

/// Putting providers in order adds and drops none.
pub proof fn an_ordering_keeps_every_provider(
    sorted: Seq<crate::transcription::types::DescriptorView>,
    list: Seq<crate::transcription::types::DescriptorView>,
    one: crate::transcription::types::DescriptorView,
)
    requires
        is_ordering_of(sorted, list),
    ensures
        sorted.contains(one) <==> list.contains(one),
        forall|i: int, j: int|
            0 <= i < j < sorted.len() ==> crate::text::text_le(
                (#[trigger] sorted[i]).label,
                (#[trigger] sorted[j]).label,
            ),
{
    lemma_labelled_contains(sorted, one);
    lemma_labelled_contains(list, one);
    assert(labelled(sorted, one.label) == labelled(list, one.label));
}

proof fn lemma_labelled_contains(
    list: Seq<crate::transcription::types::DescriptorView>,
    one: crate::transcription::types::DescriptorView,
)
    ensures
        labelled(list, one.label).contains(one) <==> list.contains(one),
{
    broadcast use {Seq::lemma_filter_contains, Seq::lemma_filter_contains_rev};

    let has = |d: crate::transcription::types::DescriptorView| d.label == one.label;
    if list.contains(one) {
        let i = choose|i: int| 0 <= i < list.len() && list[i] == one;
        list.lemma_filter_contains(has, i);
    }
    if labelled(list, one.label).contains(one) {
        let k = choose|k: int|
            0 <= k < labelled(list, one.label).len() && labelled(list, one.label)[k] == one;
        list.lemma_filter_contains_rev(has, one);
    }
}

/// A model to transcribe with is one that is downloaded and runs in an engine;
/// one being downloaded counts only where it is asked for.
pub proof fn which_models_can_transcribe(models: Seq<ModelInfo>, one: ModelInfo)
    ensures
        any_downloaded(models.push(one)) <==> any_downloaded(models) || (one.is_downloaded
            && one.engine_type != EngineType::InsanelyFastWhisper),
        any_downloaded_or_downloading(models.push(one)) <==> any_downloaded_or_downloading(models)
            || ((one.is_downloaded || one.is_downloading) && one.engine_type
            != EngineType::InsanelyFastWhisper),
        !any_downloaded(Seq::empty()),
        !any_downloaded_or_downloading(Seq::empty()),
        any_downloaded(models) ==> any_downloaded_or_downloading(models),
{
    let longer = models.push(one);
    assert(longer[models.len() as int] == one);
    if any_downloaded(models) {
        let i = choose|i: int|
            0 <= i < models.len() && (#[trigger] models[i]).is_downloaded && is_engine_model(
                models[i],
            );
        assert(longer[i] == models[i]);
    }
    if any_downloaded_or_downloading(models) {
        let i = choose|i: int|
            0 <= i < models.len() && is_engine_model(#[trigger] models[i]) && (
            models[i].is_downloaded || models[i].is_downloading);
        assert(longer[i] == models[i]);
    }
    if any_downloaded(longer) {
        let i = choose|i: int|
            0 <= i < longer.len() && (#[trigger] longer[i]).is_downloaded && is_engine_model(
                longer[i],
            );
        if i < models.len() {
            assert(longer[i] == models[i]);
        }
    }
    if any_downloaded_or_downloading(longer) {
        let i = choose|i: int|
            0 <= i < longer.len() && is_engine_model(#[trigger] longer[i]) && (
            longer[i].is_downloaded || longer[i].is_downloading);
        if i < models.len() {
            assert(longer[i] == models[i]);
        }
    }
}

} // verus!
