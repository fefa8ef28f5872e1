//! The rules behind the application's commands. Each takes what the command
//! read and returns what it answers and changes.

use vstd::prelude::*;

use crate::keyed_map::KeyedMap;
use crate::secrets::migration::{clear_legacy_plaintext, CURRENT_MIGRATION_VERSION};
use crate::settings::AppSettings;
use crate::text::same_text;
use crate::transcription::types::TranscriptionTargetId;

pub mod gemini;
pub mod hardware;
pub mod history;
pub mod insanely_fast_whisper;
pub mod models;
pub mod providers;
pub mod secrets;

verus! {

/// Marks that shortcuts have been initialized.
#[derive(Debug, Clone, Copy, PartialEq, Eq, Structural)]
pub struct ShortcutsInitialized;

/// Claims the initialization of the shortcuts. Only the first claim succeeds, so
/// that initializing twice is safe.
pub fn initialize_shortcuts(state: &mut Option<ShortcutsInitialized>) -> (r: bool)
    ensures
        r == old(state).is_none(),
        *final(state) == Some(ShortcutsInitialized),
{
    let first: bool = state.is_none();
    *state = Some(ShortcutsInitialized);
    first
}

/// Initializes the simulation of input once: where that is done already, nothing
/// is created again.
pub fn initialize_enigo<F: FnOnce() -> Result<(), String>>(
    initialized: &mut bool,
    create: F,
) -> (r: Result<(), String>)
    requires
        !*old(initialized) ==> create.requires(()),
    ensures
        *old(initialized) ==> r is Ok && *final(initialized),
        !*old(initialized) ==> exists|created: Result<(), String>|
            {
                &&& #[trigger] create.ensures((), created)
                &&& *final(initialized) == created is Ok
                &&& match created {
                    Ok(_) => r is Ok,
                    Err(error) => r is Err && r->Err_0@ == "Failed to initialize input system: "@
                        + error@,
                }
            },
{
    if *initialized {
        return Ok(());
    }
    match create() {
        Ok(_) => {
            *initialized = true;
            Ok(())
        },
        Err(error) => {
            let mut text: String = "Failed to initialize input system: ".to_owned();
            text.append(error.as_str());
            Err(text)
        },
    }
}

/// The model is the pseudo-model that earlier releases used for Gemini.
pub open spec fn is_legacy_cloud_model(model: Seq<char>) -> bool {
    model == "gemini-api"@
}

/// A target that an import keeps: one of the local provider.
pub open spec fn kept_target(target: Option<TranscriptionTargetId>) -> Option<
    crate::transcription::types::TargetView,
> {
    match target {
        Some(t) => if t.provider_id@ == "local"@ {
            Some(t@)
        } else {
            None
        },
        None => None,
    }
}

/// The model that an import keeps selected.
pub open spec fn kept_model(model: Seq<char>) -> Seq<char> {
    if is_legacy_cloud_model(model) {
        ""@
    } else {
        model
    }
}

/// The target that is selected after an import: the one kept, else the kept
/// model, else none.
pub open spec fn imported_target(
    target: Option<TranscriptionTargetId>,
    model: Seq<char>,
) -> Option<crate::transcription::types::TargetView> {
    if kept_target(target) is None && kept_model(model).len() > 0 {
        Some(
            crate::transcription::types::TargetView {
                provider_id: "local"@,
                model_id: kept_model(model),
            },
        )
    } else {
        kept_target(target)
    }
}

fn keep_local(target: Option<TranscriptionTargetId>) -> (r: Option<TranscriptionTargetId>)
    ensures
        crate::transcription::types::optional_target(r) == kept_target(target),
        target matches Some(t) ==> t.provider_id@ == "local"@ ==> r == target,
        r is Some ==> r == target && r->0.provider_id@ == "local"@,
{
    match target {
        Some(t) => {
            if same_text(t.provider_id.as_str(), "local") {
                Some(t)
            } else {
                None
            }
        },
        None => None,
    }
}

/// Strips imported settings of everything that only the user may decide on this
/// machine: credentials, consents, and cloud targets, pseudo-models of earlier
/// releases included.
pub fn sanitize_imported_settings(settings: &mut AppSettings)
    ensures
        final(settings).gemini_api_key is None,
        crate::secrets::migration::with_empty_values(
            old(settings).post_process_api_keys.pairs(),
            final(settings).post_process_api_keys.pairs(),
        ),
        final(settings).cloud_provider_consents@ == Map::<Seq<char>, u32>::empty(),
        final(settings).selected_model@ == kept_model(old(settings).selected_model@),
        crate::text::optional_text(final(settings).long_audio_model) == (match old(
            settings,
        ).long_audio_model {
            Some(model) => if is_legacy_cloud_model(model@) {
                None
            } else {
                Some(model@)
            },
            None => None,
        }),
        crate::transcription::types::optional_target(final(settings).long_audio_target)
            == kept_target(old(settings).long_audio_target),
        crate::transcription::types::optional_target(
            final(settings).selected_transcription_target,
        ) == imported_target(
            old(settings).selected_transcription_target,
            old(settings).selected_model@,
        ),
        final(settings).transcription_target_migration_version == 1,
        final(settings).secret_store_migration_version == CURRENT_MIGRATION_VERSION,
        old(settings).selected_model@ != "gemini-api"@ ==> final(settings).selected_model == old(
            settings,
        ).selected_model,
        old(settings).selected_model@ == "gemini-api"@ ==> final(settings).selected_model@ == ""@,
        old(settings).selected_transcription_target is Some && old(
            settings,
        ).selected_transcription_target->0.provider_id@ == "local"@ ==> final(
            settings
        ).selected_transcription_target == old(settings).selected_transcription_target,
        (old(settings).selected_transcription_target is None || old(
            settings,
        ).selected_transcription_target->0.provider_id@ != "local"@) ==> {
            let model = old(settings).selected_model@;
            let target = final(settings).selected_transcription_target;
            &&& model.len() > 0 && model != "gemini-api"@ ==> target is Some
                && target->0.provider_id@ == "local"@ && target->0.model_id@ == model
            &&& model.len() == 0 || model == "gemini-api"@ ==> target is None
        },
        old(settings).long_audio_target is Some && old(settings).long_audio_target->0.provider_id@
            == "local"@ ==> final(settings).long_audio_target == old(settings).long_audio_target,
        old(settings).long_audio_target is None || old(
            settings,
        ).long_audio_target->0.provider_id@ != "local"@ ==> final(
            settings
        ).long_audio_target is None,
        old(settings).long_audio_model is Some && old(settings).long_audio_model->0@
            != "gemini-api"@ ==> final(settings).long_audio_model == old(settings).long_audio_model,
        old(settings).long_audio_model is None || old(settings).long_audio_model->0@
            == "gemini-api"@ ==> final(settings).long_audio_model is None,
        final(settings).secret_store_migration_version == 2,
        *final(settings) == (AppSettings {
            gemini_api_key: final(settings).gemini_api_key,
            post_process_api_keys: final(settings).post_process_api_keys,
            cloud_provider_consents: final(settings).cloud_provider_consents,
            selected_model: final(settings).selected_model,
            long_audio_model: final(settings).long_audio_model,
            long_audio_target: final(settings).long_audio_target,
            selected_transcription_target: final(settings).selected_transcription_target,
            transcription_target_migration_version: final(
                settings
            ).transcription_target_migration_version,
            secret_store_migration_version: final(settings).secret_store_migration_version,
            ..*old(settings)
        }),
{
    clear_legacy_plaintext(settings);
    settings.cloud_provider_consents = KeyedMap::new();
    proof {
        reveal_strlit("");
    }
    if same_text(settings.selected_model.as_str(), "gemini-api") {
        settings.selected_model = "".to_owned();
    }
    let legacy_long: bool = match &settings.long_audio_model {
        Some(model) => same_text(model.as_str(), "gemini-api"),
        None => false,
    };
    if legacy_long {
        settings.long_audio_model = None;
    }
    let mut selected: Option<TranscriptionTargetId> = None;
    std::mem::swap(&mut selected, &mut settings.selected_transcription_target);
    settings.selected_transcription_target = keep_local(selected);
    let mut long_audio: Option<TranscriptionTargetId> = None;
    std::mem::swap(&mut long_audio, &mut settings.long_audio_target);
    settings.long_audio_target = keep_local(long_audio);
    if settings.selected_transcription_target.is_none()
        && settings.selected_model.as_str().unicode_len() > 0 {
        settings.selected_transcription_target =
        Some(TranscriptionTargetId::new("local", settings.selected_model.as_str()));
    }
    settings.transcription_target_migration_version = 1;
    settings.secret_store_migration_version = CURRENT_MIGRATION_VERSION;
}

/// No import can select a cloud target.
pub proof fn an_import_never_selects_a_cloud_target(
    target: Option<TranscriptionTargetId>,
    model: Seq<char>,
)
    ensures
        imported_target(target, model) matches Some(selected) ==> selected.provider_id == "local"@,
        kept_target(target) matches Some(kept) ==> kept.provider_id == "local"@,
{
}

/// The settings as they are shown: without the plaintext credentials that may
/// remain in them.
pub fn get_app_settings(settings: AppSettings) -> (r: AppSettings)
    ensures
        crate::secrets::migration::with_empty_values(
            settings.post_process_api_keys.pairs(),
            r.post_process_api_keys.pairs(),
        ),
        r == (AppSettings {
            gemini_api_key: None,
            post_process_api_keys: r.post_process_api_keys,
            ..settings
        }),
{
    let mut shown: AppSettings = settings;
    clear_legacy_plaintext(&mut shown);
    shown
}

/// An import keeps the selected model, whichever it is; only the pseudo-model of
/// earlier releases is forgotten.
pub proof fn an_import_keeps_the_selected_model(model: Seq<char>)
    ensures
        model != "gemini-api"@ ==> kept_model(model) == model,
        model == "gemini-api"@ ==> kept_model(model).len() == 0,
{
    reveal_strlit("");
}

/// An import keeps a local target as it is. Without one it selects the local
/// model that is selected, and nothing where there is none.
pub proof fn an_import_selects_what_was_local(
    target: Option<TranscriptionTargetId>,
    model: Seq<char>,
)
    ensures
        target matches Some(t) ==> t.provider_id@ == "local"@ ==> {
            &&& kept_target(target) is Some
            &&& kept_target(target)->0.provider_id == t.provider_id@
            &&& kept_target(target)->0.model_id == t.model_id@
            &&& imported_target(target, model) == kept_target(target)
        },
        target is None || target->0.provider_id@ != "local"@ ==> {
            &&& kept_target(target) is None
            &&& model.len() > 0 && model != "gemini-api"@ ==> {
                &&& imported_target(target, model) is Some
                &&& imported_target(target, model)->0.provider_id == "local"@
                &&& imported_target(target, model)->0.model_id == model
            }
            &&& model.len() == 0 || model == "gemini-api"@ ==> imported_target(
                target,
                model,
            ) is None
        },
{
    reveal_strlit("");
}

/// Importing twice is importing once: what an import keeps, another keeps too.
pub proof fn importing_twice_changes_nothing_more(
    target: Option<TranscriptionTargetId>,
    again: Option<TranscriptionTargetId>,
    model: Seq<char>,
)
    requires
        crate::transcription::types::optional_target(again) == imported_target(target, model),
    ensures
        kept_model(kept_model(model)) == kept_model(model),
        imported_target(again, kept_model(model)) == imported_target(target, model),
{
    reveal_strlit("");
    reveal_strlit("gemini-api");
    assert("gemini-api"@.len() == 10);
}

} // verus!
