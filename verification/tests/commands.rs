//! The commands: settings, credentials, targets, models and history.

use parler::commands::gemini::{
    change_gemini_api_key_setting, change_gemini_model_setting, gemini_delete_clears_target,
};
use parler::commands::hardware::get_hardware_info;
use parler::commands::history::{
    check_reprocess, finalize_reprocess, finalize_reprocess_error, finish_cloud_retry,
    finish_reprocess, retry_cloud_request, retry_cloud_target, update_history_limit,
    update_recording_retention_period, AudioLookup, EntryLookup, RecordingLookup,
};
use parler::commands::insanely_fast_whisper::change_insanely_fast_whisper_model_setting;
use parler::commands::models::{
    check_activation, deletes_active_model, forget_active_model, get_transcription_targets,
    has_any_models_available, has_any_models_or_downloads, is_model_loading, local_descriptor,
    set_active_model,
};
use parler::commands::providers::{
    check_selection, cloud_only, revoke_cloud_provider_consent, set_cloud_provider_consent,
    set_selected_transcription_target,
};
use parler::commands::secrets::{
    credential_status, deactivate_provider, delete_credential, delete_provider_credential,
    set_credential, store_error_to_string,
};
use parler::commands::{
    get_app_settings, initialize_enigo, initialize_shortcuts, sanitize_imported_settings,
    ShortcutsInitialized,
};
use parler::hardware_detection::HardwareCapabilities;
use parler::managers::model::{EngineType, ModelInfo};
use parler::secrets::memory_store::MemorySecretStore;
use parler::secrets::{SecretStore, SecretStoreError};
use parler::settings::{get_default_settings, AppSettings, RecordingRetentionPeriod};
use parler::transcription::registry::TranscriptionRegistry;
use parler::transcription::slot::RestoreOutcome;
use parler::transcription::types::{
    ProviderCapabilities, ProviderDescriptor, ProviderKind, TranscriptionError,
    TranscriptionModelDescriptor, TranscriptionTargetId,
};

fn descriptor(id: &str, kind: ProviderKind) -> ProviderDescriptor {
    ProviderDescriptor {
        id: id.into(),
        label: id.into(),
        kind,
        models: vec![TranscriptionModelDescriptor {
            id: "model".into(),
            label: "Model".into(),
        }],
        capabilities: ProviderCapabilities {
            batch: true,
            realtime: false,
            supported_languages: vec![],
            supports_word_timestamps: false,
            sends_audio_off_device: kind == ProviderKind::Cloud,
        },
        requires_credential: kind == ProviderKind::Cloud,
        privacy_url: None,
        pricing_url: None,
        cost_text: None,
        retention_text: None,
        consent_version: 0,
        beta: false,
    }
}

fn model(id: &str, engine_type: EngineType) -> ModelInfo {
    ModelInfo {
        id: id.to_string(),
        name: format!("Model {id}"),
        engine_type,
        is_downloaded: true,
        is_downloading: false,
    }
}

fn plaintext_keys(settings: &AppSettings) -> Vec<String> {
    let keys = &settings.post_process_api_keys;
    (0..keys.len()).map(|i| keys.value_at(i).clone()).collect()
}

fn consent_of(settings: &AppSettings, provider_id: &str) -> Option<u32> {
    settings
        .cloud_provider_consents
        .get(&provider_id.to_string())
        .copied()
}

#[test]
fn blank_key_deletion_clears_the_target_when_gemini_is_active() {
    let target = TranscriptionTargetId::new("gemini", "gemini-2.5-flash");
    assert!(gemini_delete_clears_target(Some(&target)));
}

#[test]
fn blank_key_deletion_leaves_a_different_active_target_untouched() {
    let target = TranscriptionTargetId::new("elevenlabs", "scribe_v2");
    assert!(!gemini_delete_clears_target(Some(&target)));
}

#[test]
fn blank_key_deletion_is_a_no_op_when_nothing_is_selected() {
    assert!(!gemini_delete_clears_target(None));
}

#[test]
fn a_gemini_key_goes_to_the_store_and_never_to_the_settings() {
    let mut store = MemorySecretStore::new();
    let mut settings = get_default_settings();
    settings.gemini_api_key = Some("legacy".into());
    change_gemini_api_key_setting(&mut store, &mut settings, "  new-key ").unwrap();
    assert_eq!(store.get_secret("gemini").unwrap(), "new-key");
    assert_eq!(settings.gemini_api_key, None);

    settings.selected_transcription_target =
        Some(TranscriptionTargetId::new("gemini", "gemini-2.5-flash"));
    change_gemini_api_key_setting(&mut store, &mut settings, "   ").unwrap();
    assert_eq!(
        store.get_secret("gemini"),
        Err(SecretStoreError::NotFound)
    );
    assert_eq!(settings.selected_transcription_target, None);
}

#[test]
fn a_failing_store_keeps_the_gemini_settings() {
    let mut store = MemorySecretStore::failing();
    let mut settings = get_default_settings();
    settings.gemini_api_key = Some("legacy".into());
    let answer = change_gemini_api_key_setting(&mut store, &mut settings, "new-key");
    assert!(answer.is_err());
    assert_eq!(settings.gemini_api_key, Some("legacy".to_string()));
}

#[test]
fn a_gemini_model_change_follows_an_active_gemini_target() {
    let mut settings = get_default_settings();
    let mut registry = TranscriptionRegistry::new();
    settings.selected_transcription_target =
        Some(TranscriptionTargetId::new("gemini", "gemini-2.5-flash"));
    change_gemini_model_setting(&mut settings, &mut registry, " gemini-3 ").unwrap();
    assert_eq!(settings.gemini_model, "gemini-3");
    assert_eq!(
        settings.selected_transcription_target,
        Some(TranscriptionTargetId::new("gemini", "gemini-3"))
    );
    assert_eq!(registry.get("gemini").unwrap().models[0].id, "gemini-3");
    assert_eq!(
        change_gemini_model_setting(&mut settings, &mut registry, "  "),
        Err("invalid_configuration".to_string())
    );
    assert_eq!(settings.gemini_model, "gemini-3");
}

#[test]
fn restored_outcome_returns_the_new_text() {
    assert_eq!(
        finalize_reprocess("hello".to_string(), RestoreOutcome::Restored),
        Ok("hello".to_string())
    );
}

#[test]
fn superseded_outcome_is_not_a_failure() {
    assert_eq!(
        finalize_reprocess("hello".to_string(), RestoreOutcome::Superseded),
        Ok("hello".to_string())
    );
}

#[test]
fn failed_outcome_is_signaled_fail_closed_to_the_caller() {
    let result = finalize_reprocess(
        "hello".to_string(),
        RestoreOutcome::Failed("load failed".to_string()),
    );
    assert!(result.is_err());
}

#[test]
fn primary_error_surfaces_when_restore_succeeds() {
    let result =
        finalize_reprocess_error("inference failed".to_string(), RestoreOutcome::Restored);
    assert_eq!(result, Err("inference failed".to_string()));
}

#[test]
fn primary_error_surfaces_when_restore_is_superseded() {
    let result = finalize_reprocess_error(
        "history write failed".to_string(),
        RestoreOutcome::Superseded,
    );
    assert_eq!(result, Err("history write failed".to_string()));
}

#[test]
fn a_restore_failure_is_never_dropped_even_when_something_else_already_failed() {
    let result = finalize_reprocess_error(
        "inference failed".to_string(),
        RestoreOutcome::Failed("load failed".to_string()),
    );
    let error = result.expect_err("must surface an error");
    assert!(error.contains("inference failed"));
    assert!(error.contains("restore"));
}

#[test]
fn imported_cloud_activation_and_consent_are_stripped() {
    let mut settings = get_default_settings();
    settings.gemini_api_key = Some("legacy-secret".into());
    settings
        .post_process_api_keys
        .insert("openai".into(), "legacy-secret-2".into());
    settings
        .cloud_provider_consents
        .insert("elevenlabs".into(), 99);
    settings.selected_model = "gemini-api".into();
    settings.long_audio_model = Some("gemini-api".into());
    settings.long_audio_target = Some(TranscriptionTargetId::new("gemini", "legacy"));
    settings.selected_transcription_target =
        Some(TranscriptionTargetId::new("elevenlabs", "scribe_v2"));

    sanitize_imported_settings(&mut settings);

    assert!(settings.gemini_api_key.is_none());
    assert!(plaintext_keys(&settings).iter().all(String::is_empty));
    assert_eq!(settings.cloud_provider_consents.len(), 0);
    assert!(settings.selected_transcription_target.is_none());
    assert!(settings.selected_model.is_empty());
    assert!(settings.long_audio_model.is_none());
    assert!(settings.long_audio_target.is_none());
    assert_eq!(settings.transcription_target_migration_version, 1);
}

#[test]
fn imported_local_target_is_preserved() {
    let mut settings = get_default_settings();
    let target = TranscriptionTargetId::new("local", "whisper-small");
    settings.selected_transcription_target = Some(target.clone());

    sanitize_imported_settings(&mut settings);

    assert_eq!(settings.selected_transcription_target, Some(target));
}

#[test]
fn settings_are_handed_out_without_secrets() {
    let mut settings = get_default_settings();
    settings.gemini_api_key = Some("legacy-secret".into());
    settings
        .post_process_api_keys
        .insert("openai".into(), "legacy-secret-2".into());
    let shown = get_app_settings(settings);
    assert_eq!(shown.gemini_api_key, None);
    assert!(plaintext_keys(&shown).iter().all(String::is_empty));
}

#[test]
fn shortcuts_are_initialized_once() {
    let mut state: Option<ShortcutsInitialized> = None;
    assert!(initialize_shortcuts(&mut state));
    assert_eq!(state, Some(ShortcutsInitialized));
    assert!(!initialize_shortcuts(&mut state));
    assert_eq!(state, Some(ShortcutsInitialized));
}

#[test]
fn input_is_initialized_once() {
    let mut initialized = false;
    assert_eq!(
        initialize_enigo(&mut initialized, || Err("no permission".to_string())),
        Err("Failed to initialize input system: no permission".to_string())
    );
    assert!(!initialized);
    assert_eq!(initialize_enigo(&mut initialized, || Ok(())), Ok(()));
    assert!(initialized);
    assert_eq!(
        initialize_enigo(&mut initialized, || panic!("it is there already")),
        Ok(())
    );
}

#[test]
fn cloud_only_excludes_the_local_provider() {
    let descriptors = vec![
        descriptor("local", ProviderKind::Local),
        descriptor("elevenlabs", ProviderKind::Cloud),
        descriptor("gemini", ProviderKind::Cloud),
    ];

    let cloud = cloud_only(descriptors);

    assert_eq!(cloud.len(), 2);
    assert!(cloud.iter().all(|d| d.kind == ProviderKind::Cloud));
    assert!(!cloud.iter().any(|d| d.id == "local"));
}

#[test]
fn cloud_only_of_local_only_registry_is_empty() {
    let descriptors = vec![descriptor("local", ProviderKind::Local)];
    assert!(cloud_only(descriptors).is_empty());
}

#[test]
fn a_cloud_target_is_selected_only_with_consent_and_credential() {
    let mut settings = get_default_settings();
    let mut registry = TranscriptionRegistry::new();
    let mut cloud = descriptor("elevenlabs", ProviderKind::Cloud);
    cloud.consent_version = 3;
    registry.register(cloud);
    let mut store = MemorySecretStore::new();
    let target = TranscriptionTargetId::new("elevenlabs", "model");
    let models: Vec<ModelInfo> = vec![];

    let before_consent = check_selection(&registry, &models, &settings, &store, &target);
    assert_eq!(before_consent, Err("consent_required".to_string()));

    set_cloud_provider_consent(&mut settings, &registry, "elevenlabs".into(), 3).unwrap();
    let before_key = check_selection(&registry, &models, &settings, &store, &target);
    assert_eq!(before_key, Err("missing_credential".to_string()));

    store.set_secret("elevenlabs", "sk-123").unwrap();
    set_selected_transcription_target(
        &mut settings,
        &registry,
        &models,
        &store,
        Some(target.clone()),
    )
    .unwrap();
    assert_eq!(settings.selected_transcription_target, Some(target));

    revoke_cloud_provider_consent(&mut settings, "elevenlabs".into());
    assert_eq!(consent_of(&settings, "elevenlabs"), None);
    assert_eq!(settings.selected_transcription_target, None);
}

#[test]
fn a_local_target_must_be_a_known_model() {
    let mut settings = get_default_settings();
    let registry = TranscriptionRegistry::new();
    let store = MemorySecretStore::new();
    let models = vec![model("small", EngineType::Whisper)];
    let known = TranscriptionTargetId::new("local", "small");
    let unknown = TranscriptionTargetId::new("local", "large");
    assert_eq!(
        check_selection(&registry, &models, &settings, &store, &unknown),
        Err("invalid_configuration".to_string())
    );
    set_selected_transcription_target(
        &mut settings,
        &registry,
        &models,
        &store,
        Some(known.clone()),
    )
    .unwrap();
    assert_eq!(settings.selected_transcription_target, Some(known));
    set_selected_transcription_target(&mut settings, &registry, &models, &store, None).unwrap();
    assert_eq!(settings.selected_transcription_target, None);
}

#[test]
fn consent_is_taken_only_for_the_current_version_of_a_known_provider() {
    let mut settings = get_default_settings();
    let mut registry = TranscriptionRegistry::new();
    let mut cloud = descriptor("elevenlabs", ProviderKind::Cloud);
    cloud.consent_version = 3;
    registry.register(cloud);
    assert!(set_cloud_provider_consent(&mut settings, &registry, "azure".into(), 3).is_err());
    assert!(set_cloud_provider_consent(&mut settings, &registry, "elevenlabs".into(), 2).is_err());
    assert_eq!(settings.cloud_provider_consents.len(), 0);
    set_cloud_provider_consent(&mut settings, &registry, "elevenlabs".into(), 3).unwrap();
    assert_eq!(consent_of(&settings, "elevenlabs"), Some(3));
}

#[test]
fn set_then_status_reports_configured() {
    let mut store = MemorySecretStore::new();
    set_credential(&mut store, "elevenlabs", "sk-123").unwrap();

    let status = credential_status(&store, "elevenlabs").unwrap();
    assert!(status.configured);
    assert!(status.backend_available);
}

#[test]
fn status_for_unknown_provider_is_unconfigured() {
    let store = MemorySecretStore::new();
    let status = credential_status(&store, "azure").unwrap();
    assert!(!status.configured);
    assert!(status.backend_available);
}

#[test]
fn a_blank_stored_value_counts_as_no_credential() {
    let mut store = MemorySecretStore::new();
    store.seed_raw("elevenlabs", "  ");
    let status = credential_status(&store, "elevenlabs").unwrap();
    assert!(!status.configured);
    assert!(status.backend_available);
}

#[test]
fn a_refused_deletion_keeps_the_selected_target() {
    let mut store = MemorySecretStore::failing();
    let mut settings = get_default_settings();
    let target = TranscriptionTargetId::new("elevenlabs", "scribe_v2");
    settings.selected_transcription_target =
        Some(TranscriptionTargetId::new("elevenlabs", "scribe_v2"));
    assert_eq!(
        delete_provider_credential(&mut store, &mut settings, "elevenlabs"),
        Err("secret backend operation failed".to_string())
    );
    assert_eq!(settings.selected_transcription_target, Some(target));
    assert_eq!(
        set_credential(&mut store, "elevenlabs", "key"),
        Err(SecretStoreError::BackendFailure)
    );
}

#[test]
fn empty_secret_is_rejected() {
    let mut store = MemorySecretStore::new();
    assert!(set_credential(&mut store, "p", "").is_err());
    assert!(!credential_status(&store, "p").unwrap().configured);
}

#[test]
fn whitespace_only_secret_is_rejected() {
    let mut store = MemorySecretStore::new();
    assert_eq!(
        set_credential(&mut store, "p", "   \t  "),
        Err(SecretStoreError::InvalidSecret)
    );
    assert!(!credential_status(&store, "p").unwrap().configured);
}

#[test]
fn secret_with_surrounding_whitespace_is_stored_trimmed() {
    let mut store = MemorySecretStore::new();
    set_credential(&mut store, "p", "  sk-abc  ").unwrap();
    assert_eq!(store.get_secret("p").unwrap(), "sk-abc");
}

#[test]
fn delete_clears_configured_flag() {
    let mut store = MemorySecretStore::new();
    set_credential(&mut store, "p", "secret").unwrap();
    delete_credential(&mut store, "p").unwrap();
    assert!(!credential_status(&store, "p").unwrap().configured);
}

#[test]
fn delete_unknown_provider_is_ok() {
    let mut store = MemorySecretStore::new();
    assert!(delete_credential(&mut store, "never-set").is_ok());
}

#[test]
fn status_reports_unavailable_backend() {
    let store = MemorySecretStore::unavailable();
    let status = credential_status(&store, "p").unwrap();
    assert!(!status.configured);
    assert!(!status.backend_available);
}

#[test]
fn status_reports_backend_failure_as_unavailable() {
    let store = MemorySecretStore::failing();
    let status = credential_status(&store, "p").unwrap();
    assert!(!status.configured);
    assert!(!status.backend_available);
}

#[test]
fn invalid_provider_id_is_rejected() {
    let mut store = MemorySecretStore::new();
    assert_eq!(
        set_credential(&mut store, "../invalid", "secret"),
        Err(SecretStoreError::InvalidProviderId)
    );
    assert!(matches!(
        credential_status(&store, "../invalid"),
        Err(SecretStoreError::InvalidProviderId)
    ));
}

#[test]
fn backend_failure_surfaces_error_without_leaking_secret() {
    let mut store = MemorySecretStore::failing();
    let err = set_credential(&mut store, "p", "top-secret-value").unwrap_err();
    let message = store_error_to_string(err);
    assert!(
        !message.contains("top-secret-value"),
        "error leaked secret: {message}"
    );
}

#[test]
fn deleting_a_credential_deactivates_its_provider() {
    let mut store = MemorySecretStore::new();
    store.set_secret("elevenlabs", "sk-123").unwrap();
    let mut settings = get_default_settings();
    settings.selected_transcription_target =
        Some(TranscriptionTargetId::new("elevenlabs", "scribe_v2"));
    delete_provider_credential(&mut store, &mut settings, "elevenlabs").unwrap();
    assert_eq!(settings.selected_transcription_target, None);
    assert_eq!(
        store.get_secret("elevenlabs"),
        Err(SecretStoreError::NotFound)
    );

    settings.selected_transcription_target = Some(TranscriptionTargetId::new("local", "small"));
    assert!(!deactivate_provider(&mut settings, "elevenlabs"));
    assert_eq!(
        settings.selected_transcription_target,
        Some(TranscriptionTargetId::new("local", "small"))
    );
}

#[test]
fn the_catalog_puts_local_first_and_sorts_the_rest_by_label() {
    let models = vec![
        model("small", EngineType::Whisper),
        model("fast", EngineType::InsanelyFastWhisper),
        model("sense", EngineType::SenseVoice),
    ];
    let mut zeta = descriptor("zeta", ProviderKind::Cloud);
    zeta.label = "A".into();
    let mut first_tie = descriptor("first", ProviderKind::Cloud);
    first_tie.label = "B".into();
    let mut second_tie = descriptor("second", ProviderKind::Cloud);
    second_tie.label = "B".into();
    let registered = vec![
        first_tie,
        descriptor("local", ProviderKind::Local),
        second_tie,
        zeta,
    ];
    let targets = get_transcription_targets(&models, &registered);
    let ids: Vec<&str> = targets.iter().map(|d| d.id.as_str()).collect();
    assert_eq!(ids, vec!["local", "zeta", "first", "second"]);
    let local: Vec<&str> = targets[0].models.iter().map(|m| m.id.as_str()).collect();
    assert_eq!(local, vec!["small", "sense"]);
    assert_eq!(targets[0].models[0].label, "Model small");
    assert_eq!(local_descriptor(&models).label, "Local");
}

#[test]
fn deleting_the_active_model_forgets_it() {
    let mut settings = get_default_settings();
    settings.selected_model = "small".into();
    settings.selected_transcription_target = Some(TranscriptionTargetId::new("local", "small"));
    assert!(deletes_active_model(&settings, "small"));
    assert!(!deletes_active_model(&settings, "large"));
    assert_eq!(
        forget_active_model(&mut settings, "small", Err("busy".into())),
        Err("Failed to unload model: busy".to_string())
    );
    assert_eq!(settings.selected_model, "small");
    forget_active_model(&mut settings, "small", Ok(())).unwrap();
    assert_eq!(settings.selected_model, "");
    assert_eq!(settings.selected_transcription_target, None);
}

#[test]
fn only_a_downloaded_model_that_loads_becomes_active() {
    let mut settings = get_default_settings();
    assert_eq!(
        check_activation("small", &None),
        Err("Model not found: small".to_string())
    );
    let mut info = model("small", EngineType::Whisper);
    info.is_downloaded = false;
    assert_eq!(
        check_activation("small", &Some(info)),
        Err("Model not downloaded: small".to_string())
    );
    let info = model("small", EngineType::Whisper);
    assert_eq!(check_activation("small", &Some(info)), Ok(()));
    assert_eq!(
        set_active_model(&mut settings, "small".into(), Err("no memory".into())),
        Err("no memory".to_string())
    );
    assert_eq!(settings.selected_transcription_target, None);
    set_active_model(&mut settings, "small".into(), Ok(())).unwrap();
    assert_eq!(settings.selected_model, "small");
    assert_eq!(
        settings.selected_transcription_target,
        Some(TranscriptionTargetId::new("local", "small"))
    );
    assert!(is_model_loading(&None));
    assert!(!is_model_loading(&Some("small".to_string())));
}

#[test]
fn subprocess_models_do_not_count_as_available() {
    let fast = vec![model("fast", EngineType::InsanelyFastWhisper)];
    assert!(!has_any_models_available(&fast));
    assert!(!has_any_models_or_downloads(&fast));
    let mut loading = model("small", EngineType::Whisper);
    loading.is_downloaded = false;
    loading.is_downloading = true;
    let loading = vec![loading];
    assert!(!has_any_models_available(&loading));
    assert!(has_any_models_or_downloads(&loading));
    let ready = vec![model("small", EngineType::Whisper)];
    assert!(has_any_models_available(&ready));
}

#[test]
fn hardware_is_reported_as_detected() {
    let info = get_hardware_info(HardwareCapabilities {
        has_gpu: true,
        cpu_cores: 8,
        recommended_threads: 4,
    });
    assert!(info.has_gpu);
    assert_eq!(info.cpu_cores, 8);
    assert_eq!(info.recommended_threads, 4);
}

#[test]
fn a_subprocess_model_is_remembered() {
    let mut settings = get_default_settings();
    change_insanely_fast_whisper_model_setting(&mut settings, "large-v3".into());
    assert_eq!(
        settings.insanely_fast_whisper_model,
        Some("large-v3".to_string())
    );
}

#[test]
fn history_settings_are_changed() {
    let mut settings = get_default_settings();
    update_history_limit(&mut settings, 7);
    assert_eq!(settings.history_limit, 7);
    let periods = [
        ("never", RecordingRetentionPeriod::Never),
        ("preserve_limit", RecordingRetentionPeriod::PreserveLimit),
        ("days3", RecordingRetentionPeriod::Days3),
        ("weeks2", RecordingRetentionPeriod::Weeks2),
        ("months3", RecordingRetentionPeriod::Months3),
    ];
    for (name, period) in periods {
        update_recording_retention_period(&mut settings, name).unwrap();
        assert_eq!(settings.recording_retention_period, period);
    }
    assert!(update_recording_retention_period(&mut settings, "years").is_err());
    assert_eq!(
        settings.recording_retention_period,
        RecordingRetentionPeriod::Months3
    );
}

#[test]
fn reprocessing_needs_a_readable_recording() {
    assert_eq!(check_reprocess(RecordingLookup::Found), Ok(()));
    assert_eq!(
        check_reprocess(RecordingLookup::HistoryFailed("io".into())),
        Err("io".to_string())
    );
    assert_eq!(
        check_reprocess(RecordingLookup::NoEntry),
        Err("History entry not found".to_string())
    );
    assert_eq!(
        check_reprocess(RecordingLookup::NoAudioFile),
        Err("Audio file not found".to_string())
    );
    assert_eq!(
        check_reprocess(RecordingLookup::AudioFailed("cut".into())),
        Err("cut".to_string())
    );
}

#[test]
fn a_reprocess_reports_the_first_failure() {
    let done = finish_reprocess(Ok("new".into()), Ok(()), RestoreOutcome::Restored);
    assert_eq!(done, Ok("new".to_string()));
    let write = finish_reprocess(Ok("new".into()), Err("disk".into()), RestoreOutcome::Restored);
    assert_eq!(write, Err("disk".to_string()));
    let run = finish_reprocess(
        Err(TranscriptionError::Network),
        Ok(()),
        RestoreOutcome::Failed("lost".into()),
    );
    assert_eq!(
        run,
        Err(
            "network; additionally failed to restore the previous local model state".to_string()
        )
    );
}

#[test]
fn a_cloud_retry_keeps_the_target_of_the_entry() {
    let found = |name: &str| retry_cloud_target(EntryLookup::Found(Some(name.to_string())));
    assert_eq!(
        found("elevenlabs/scribe_v2"),
        Ok(TranscriptionTargetId::new("elevenlabs", "scribe_v2"))
    );
    assert_eq!(
        found("gemini/models/flash"),
        Ok(TranscriptionTargetId::new("gemini", "models/flash"))
    );
    assert_eq!(found("whisper-small"), Err("cloud_target_invalid".into()));
    assert_eq!(found("/scribe_v2"), Err("cloud_target_invalid".into()));
    assert_eq!(found("elevenlabs/"), Err("cloud_target_invalid".into()));
    assert_eq!(found("local/small"), Err("cloud_target_required".into()));
    assert_eq!(
        retry_cloud_target(EntryLookup::Found(None)),
        Err("cloud_target_missing".into())
    );
    assert_eq!(
        retry_cloud_target(EntryLookup::ReadFailed),
        Err("history_read_failed".into())
    );
    assert_eq!(
        retry_cloud_target(EntryLookup::NotFound),
        Err("history_entry_not_found".into())
    );
}

#[test]
fn a_cloud_retry_carries_the_settings() {
    let mut settings = get_default_settings();
    settings
        .cloud_provider_consents
        .insert("elevenlabs".into(), 4);
    settings.selected_language = "fr".into();
    settings.custom_words = vec!["Parler".to_string()];
    let target = TranscriptionTargetId::new("elevenlabs", "scribe_v2");
    let request =
        retry_cloud_request(&target, AudioLookup::Samples(vec![1, -2]), &settings).unwrap();
    assert_eq!(request.accepted_consent_version, 4);
    assert_eq!(request.request.audio_16khz_mono, vec![1, -2]);
    assert_eq!(request.request.language, Some("fr".to_string()));
    assert_eq!(request.request.custom_words, vec!["Parler".to_string()]);
    assert!(retry_cloud_request(&target, AudioLookup::NotFound, &settings).is_err());
    assert!(retry_cloud_request(&target, AudioLookup::ReadFailed, &settings).is_err());
    assert_eq!(
        finish_cloud_retry(Ok("text".into()), true),
        Ok("text".to_string())
    );
    assert!(finish_cloud_retry(Ok("text".into()), false).is_err());
    assert_eq!(
        finish_cloud_retry(Err(TranscriptionError::Timeout), true),
        Err("timeout".to_string())
    );
}
