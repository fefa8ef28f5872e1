//! The commands for the Gemini key and model.

use vstd::prelude::*;

use super::secrets::{delete_credential, set_credential};
use crate::secrets::SecretStore;
use crate::settings::AppSettings;
use crate::text::{same_text, trim};
use crate::transcription::gemini::GeminiProvider;
use crate::transcription::registry::TranscriptionRegistry;
use crate::transcription::types::TranscriptionTargetId;

verus! {

/// The target is one of Gemini.
pub open spec fn is_gemini(target: Option<TranscriptionTargetId>) -> bool {
    target matches Some(t) && t.provider_id@ == "gemini"@
}

/// Whether deleting the Gemini key also clears the selected target.
pub fn gemini_delete_clears_target(selected: Option<&TranscriptionTargetId>) -> (r: bool)
    ensures
        r == (selected matches Some(target) && target.provider_id@ == "gemini"@),
{
    match selected {
        Some(target) => same_text(target.provider_id.as_str(), "gemini"),
        None => false,
    }
}

/// What the store answers to a new Gemini key: a blank one is deleted.
pub open spec fn key_answer(m: crate::secrets::StoreModel, api_key: Seq<char>) -> Result<
    (),
    crate::secrets::SecretStoreError,
> {
    if crate::text::is_blank(api_key) {
        m.delete_answer("gemini"@)
    } else {
        m.write_answer("gemini"@, crate::text::trimmed(api_key))
    }
}

/// Stores the Gemini key, or deletes it where the new one is blank, and then
/// drops the plaintext key of the settings. A deletion also clears a selected
/// Gemini target. Where the store fails, the settings stay as they were.
pub fn change_gemini_api_key_setting<S: SecretStore>(
    store: &mut S,
    settings: &mut AppSettings,
    api_key: &str,
) -> (r: Result<(), String>)
    ensures
        final(store).model() == (if crate::text::is_blank(api_key@) {
            old(store).model().after_delete("gemini"@)
        } else {
            old(store).model().after_write("gemini"@, crate::text::trimmed(api_key@))
        }),
        match key_answer(old(store).model(), api_key@) {
            Ok(_) => r is Ok,
            Err(error) => r is Err && r->Err_0@ == crate::secrets::store_error_text(error),
        },
        r is Ok ==> final(store).model().entries == (if crate::text::is_blank(api_key@) {
            old(store).model().entries.remove(crate::secrets::account_name("gemini"@))
        } else {
            old(store).model().entries.insert(
                crate::secrets::account_name("gemini"@),
                crate::text::trimmed(api_key@),
            )
        }),
        r is Ok ==> *final(settings) == (AppSettings {
            gemini_api_key: None,
            selected_transcription_target: if crate::text::is_blank(api_key@) && is_gemini(
                old(settings).selected_transcription_target,
            ) {
                None
            } else {
                old(settings).selected_transcription_target
            },
            ..*old(settings)
        }),
        r is Err ==> final(store).model().entries == old(store).model().entries && *final(settings)
            == *old(settings),
        r is Ok ==> final(settings).gemini_api_key is None,
        r is Ok && crate::text::is_blank(api_key@) ==> (final(
            settings
        ).selected_transcription_target matches Some(target) ==> target.provider_id@ != "gemini"@),
        r is Ok && !crate::text::is_blank(api_key@) ==> final(
            settings
        ).selected_transcription_target == old(settings).selected_transcription_target,
{
    proof {
        crate::text::trimmed_is_empty_exactly_for_blank(api_key@);
        reveal_strlit("gemini");
        assert(crate::secrets::is_valid_provider_id("gemini"@));
    }
    let is_delete: bool = trim(api_key).unicode_len() == 0;
    let stored = if is_delete {
        delete_credential(store, "gemini")
    } else {
        set_credential(store, "gemini", api_key)
    };
    match stored {
        Ok(_) => {},
        Err(error) => {
            return Err(error.message());
        },
    }
    settings.gemini_api_key = None;
    if is_delete && gemini_delete_clears_target(settings.selected_transcription_target.as_ref()) {
        settings.selected_transcription_target = None;
    }
    Ok(())
}

/// Selects the Gemini model: the settings remember it, a selected Gemini target
/// moves to it, and the catalog offers it.
pub fn change_gemini_model_setting(
    settings: &mut AppSettings,
    registry: &mut TranscriptionRegistry,
    model: &str,
) -> (r: Result<(), String>)
    ensures
        r is Ok == !crate::text::is_blank(model@),
        r matches Err(error) ==> error@ == "invalid_configuration"@ && *final(settings) == *old(
            settings
        ) && final(registry)@ == old(registry)@,
        r is Ok ==> {
            let chosen = crate::text::trimmed(model@);
            &&& final(settings).gemini_model@ == chosen
            &&& is_gemini(old(settings).selected_transcription_target)
                ==> crate::transcription::types::optional_target(
                final(settings).selected_transcription_target,
            ) == Some(
                crate::transcription::types::TargetView {
                    provider_id: "gemini"@,
                    model_id: chosen,
                },
            )
            &&& !is_gemini(old(settings).selected_transcription_target)
                ==> final(settings).selected_transcription_target == old(
                settings
            ).selected_transcription_target
            &&& *final(settings) == (AppSettings {
                gemini_model: final(settings).gemini_model,
                selected_transcription_target: final(settings).selected_transcription_target,
                ..*old(settings)
            })
            &&& final(registry)@ == old(registry)@.insert(
                "gemini"@,
                crate::transcription::gemini::descriptor_view(chosen, chosen),
            )
        },
{
    proof {
        crate::text::trimmed_is_empty_exactly_for_blank(model@);
    }
    let model: &str = trim(model);
    if model.unicode_len() == 0 {
        return Err("invalid_configuration".to_owned());
    }
    settings.gemini_model = model.to_owned();
    if gemini_delete_clears_target(settings.selected_transcription_target.as_ref()) {
        settings.selected_transcription_target = Some(TranscriptionTargetId::new("gemini", model));
    }
    registry.register(GeminiProvider::with_model(model).descriptor());
    Ok(())
}

/// A target counts as one of Gemini exactly where its provider is `gemini`.
pub proof fn which_targets_are_geminis(target: Option<TranscriptionTargetId>)
    ensures
        is_gemini(target) <==> target is Some && target->0.provider_id@ == "gemini"@,
{
}

/// A new key is written, trimmed, and a blank one deleted, under the name of
/// Gemini either way.
pub proof fn a_blank_key_is_deleted(m: crate::secrets::StoreModel, api_key: Seq<char>)
    ensures
        crate::text::is_blank(api_key) ==> key_answer(m, api_key) == m.delete_answer("gemini"@),
        !crate::text::is_blank(api_key) ==> key_answer(m, api_key) == m.write_answer(
            "gemini"@,
            api_key,
        ),
{
    crate::text::trimming_twice_changes_nothing(api_key);
    crate::text::trimmed_is_empty_exactly_for_blank(api_key);
    crate::text::trimmed_is_empty_exactly_for_blank(crate::text::trimmed(api_key));
}

} // verus!
