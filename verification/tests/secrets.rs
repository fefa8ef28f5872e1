//! The credential stores and the move of plaintext keys into them.

use keyring::Error as KeyringError;
use parler::secrets::keyring_store::{
    delete_result, map_entry_error, map_keyring_error, map_set_error, probe_result,
    KeyringFailure, KeyringSecretStore,
};
use parler::secrets::memory_store::MemorySecretStore;
use parler::secrets::migration::{
    clear_legacy_plaintext, copy_legacy_secrets, copy_or_roll_back, CURRENT_MIGRATION_VERSION,
    GEMINI_ACCOUNT, POST_PROCESS_ACCOUNT_PREFIX,
};
use parler::secrets::{
    normalize_secret, provider_account, SecretStore, SecretStoreError, MAX_PROVIDER_ID_LEN,
    SECRET_SERVICE,
};
use parler::settings::{get_default_settings, AppSettings};

fn settings_with_legacy_secrets() -> AppSettings {
    let mut settings = get_default_settings();
    settings.gemini_api_key = Some("gemini-legacy-key".into());
    settings
        .post_process_api_keys
        .insert("openai".into(), "openai-legacy-key".into());
    settings
        .post_process_api_keys
        .insert("anthropic".into(), String::new());
    settings
}

fn failure(error: KeyringError) -> KeyringFailure {
    match error {
        KeyringError::NoEntry => KeyringFailure::NoEntry,
        KeyringError::NoStorageAccess(_) => KeyringFailure::NoStorageAccess,
        KeyringError::PlatformFailure(_) => KeyringFailure::PlatformFailure,
        KeyringError::TooLong(_, _) => KeyringFailure::TooLong,
        KeyringError::Invalid(_, _) => KeyringFailure::Invalid,
        _ => KeyringFailure::Other,
    }
}

#[test]
fn debug_output_is_a_safe_marker() {
    assert_eq!(
        format!("{:?}", KeyringSecretStore::new()),
        "KeyringSecretStore"
    );
}

#[test]
fn entry_uses_stable_service_and_account() {
    let store = KeyringSecretStore::new();
    assert!(store.entry_name("elevenlabs").is_ok());
    assert_eq!(SECRET_SERVICE, "parler.transcription");
    assert_eq!(
        provider_account("elevenlabs").unwrap(),
        "provider/elevenlabs/api-key"
    );
    assert_eq!(
        store.entry_name("elevenlabs").unwrap(),
        (
            "parler.transcription".to_string(),
            "provider/elevenlabs/api-key".to_string()
        )
    );
    assert_eq!(
        store.entry_name("Eleven Labs"),
        Err(SecretStoreError::InvalidProviderId)
    );
}

#[test]
fn keyring_errors_are_mapped_to_closed_safe_variants() {
    assert_eq!(
        map_keyring_error(failure(KeyringError::NoEntry)),
        SecretStoreError::NotFound
    );
    assert_eq!(
        map_keyring_error(failure(KeyringError::NoStorageAccess(Box::new(
            std::io::Error::other("sensitive platform detail")
        )))),
        SecretStoreError::AccessDenied
    );
    assert_eq!(
        map_keyring_error(failure(KeyringError::PlatformFailure(Box::new(
            std::io::Error::other("sensitive platform detail")
        )))),
        SecretStoreError::BackendUnavailable
    );
    assert_eq!(
        map_entry_error(failure(KeyringError::Invalid(
            "account".to_string(),
            "sensitive platform detail".to_string()
        ))),
        SecretStoreError::InvalidProviderId
    );
    assert_eq!(
        map_set_error(failure(KeyringError::TooLong("password".to_string(), 42))),
        SecretStoreError::InvalidSecret
    );
    assert!(!SecretStoreError::BackendFailure
        .message()
        .contains("sensitive platform detail"));
}

#[test]
fn a_missing_entry_is_deleted_and_shows_a_reachable_keyring() {
    assert_eq!(delete_result(Ok(())), Ok(()));
    assert_eq!(delete_result(Err(KeyringFailure::NoEntry)), Ok(()));
    assert_eq!(
        delete_result(Err(KeyringFailure::NoStorageAccess)),
        Err(SecretStoreError::AccessDenied)
    );
    assert!(probe_result(Ok(())));
    assert!(probe_result(Err(KeyringFailure::NoEntry)));
    assert!(!probe_result(Err(KeyringFailure::PlatformFailure)));
    assert_eq!(
        map_keyring_error(KeyringFailure::Other),
        SecretStoreError::BackendFailure
    );
}

#[test]
fn copies_non_empty_secrets_into_keyring() {
    let mut store = MemorySecretStore::new();
    let settings = settings_with_legacy_secrets();

    let report = copy_legacy_secrets(&mut store, &settings).unwrap();

    assert_eq!(
        store.get_secret(GEMINI_ACCOUNT).unwrap(),
        "gemini-legacy-key"
    );
    assert_eq!(
        store.get_secret("postprocess-openai").unwrap(),
        "openai-legacy-key"
    );
    assert!(report
        .migrated_accounts
        .contains(&GEMINI_ACCOUNT.to_string()));
    assert!(report
        .migrated_accounts
        .contains(&"postprocess-openai".to_string()));
}

#[test]
fn empty_values_are_not_migrated() {
    let mut store = MemorySecretStore::new();
    let settings = settings_with_legacy_secrets();
    copy_legacy_secrets(&mut store, &settings).unwrap();
    assert_eq!(
        store.get_secret("postprocess-anthropic"),
        Err(SecretStoreError::NotFound)
    );
}

#[test]
fn no_secrets_migrates_nothing() {
    let mut store = MemorySecretStore::new();
    let mut settings = get_default_settings();
    settings.gemini_api_key = None;
    let report = copy_legacy_secrets(&mut store, &settings).unwrap();
    assert!(report.migrated_accounts.is_empty());
}

#[test]
fn is_idempotent() {
    let mut store = MemorySecretStore::new();
    let settings = settings_with_legacy_secrets();
    copy_legacy_secrets(&mut store, &settings).unwrap();
    let second = copy_legacy_secrets(&mut store, &settings).unwrap();
    assert_eq!(
        store.get_secret(GEMINI_ACCOUNT).unwrap(),
        "gemini-legacy-key"
    );
    assert!(second
        .migrated_accounts
        .contains(&GEMINI_ACCOUNT.to_string()));
}

#[test]
fn backend_failure_is_propagated_without_leaking_value() {
    let mut store = MemorySecretStore::failing();
    let settings = settings_with_legacy_secrets();
    let err = copy_legacy_secrets(&mut store, &settings).unwrap_err();
    assert!(!err.message().contains("gemini-legacy-key"));
}

#[test]
fn partial_failure_restores_preexisting_values_and_deletes_new_entries() {
    let mut store = MemorySecretStore::new();
    store
        .set_secret(GEMINI_ACCOUNT, "preexisting-gemini")
        .unwrap();
    let mut settings = settings_with_legacy_secrets();
    settings
        .post_process_api_keys
        .insert("mistral".into(), "mistral-legacy-key".into());
    store.set_fail_once_after_writes(2);

    assert!(copy_legacy_secrets(&mut store, &settings).is_err());
    assert_eq!(
        store.get_secret(GEMINI_ACCOUNT).unwrap(),
        "preexisting-gemini"
    );
    assert_eq!(
        store.get_secret("postprocess-openai"),
        Err(SecretStoreError::NotFound)
    );
    assert_eq!(
        store.get_secret("postprocess-mistral"),
        Err(SecretStoreError::NotFound)
    );
}

#[test]
fn partial_failure_restores_a_blank_legacy_original_by_deleting_it() {
    let mut store = MemorySecretStore::new();
    store.seed_raw(GEMINI_ACCOUNT, "   ");
    let mut settings = settings_with_legacy_secrets();
    settings
        .post_process_api_keys
        .insert("mistral".into(), "mistral-legacy-key".into());
    store.set_fail_once_after_writes(1);

    assert!(copy_legacy_secrets(&mut store, &settings).is_err());
    assert_eq!(
        store.get_secret(GEMINI_ACCOUNT),
        Err(SecretStoreError::NotFound)
    );
}

#[test]
fn invalid_account_aborts_before_any_write() {
    let mut store = MemorySecretStore::new();
    let mut settings = settings_with_legacy_secrets();
    settings
        .post_process_api_keys
        .insert("unsupported/provider".into(), "must-not-be-lost".into());

    assert_eq!(
        copy_legacy_secrets(&mut store, &settings),
        Err(SecretStoreError::InvalidProviderId)
    );
    assert_eq!(
        store.get_secret(GEMINI_ACCOUNT),
        Err(SecretStoreError::NotFound)
    );
}

#[test]
fn plaintext_is_cleared_only_by_explicit_success_step() {
    let mut settings = settings_with_legacy_secrets();
    clear_legacy_plaintext(&mut settings);
    assert!(settings.gemini_api_key.is_none());
    let keys = &settings.post_process_api_keys;
    assert_eq!(keys.len(), 2);
    assert!((0..keys.len()).all(|i| keys.value_at(i).is_empty()));
}

#[test]
fn a_rolled_back_copy_says_how_far_it_came() {
    let mut store = MemorySecretStore::new();
    let settings = settings_with_legacy_secrets();
    store.set_fail_once_after_writes(1);
    let failure = copy_or_roll_back(&mut store, &settings).unwrap_err();
    assert_eq!(failure.error, SecretStoreError::BackendFailure);
    assert_eq!(failure.written, 1);
    assert!(failure.restored);
    assert_eq!(POST_PROCESS_ACCOUNT_PREFIX, "postprocess-");
    assert_eq!(CURRENT_MIGRATION_VERSION, 2);
}

#[test]
fn set_then_get_returns_stored_secret() {
    let mut store = MemorySecretStore::new();
    store.set_secret("elevenlabs", "sk-abc").unwrap();
    assert_eq!(store.get_secret("elevenlabs").unwrap(), "sk-abc");
}

#[test]
fn get_absent_secret_is_not_found() {
    let store = MemorySecretStore::new();
    assert_eq!(
        store.get_secret("elevenlabs"),
        Err(SecretStoreError::NotFound)
    );
}

#[test]
fn set_overwrites_existing_secret() {
    let mut store = MemorySecretStore::new();
    store.set_secret("azure", "one").unwrap();
    store.set_secret("azure", "two").unwrap();
    assert_eq!(store.get_secret("azure").unwrap(), "two");
}

#[test]
fn delete_removes_secret() {
    let mut store = MemorySecretStore::new();
    store.set_secret("assemblyai", "key").unwrap();
    store.delete_secret("assemblyai").unwrap();
    assert_eq!(
        store.get_secret("assemblyai"),
        Err(SecretStoreError::NotFound)
    );
}

#[test]
fn delete_absent_secret_is_ok() {
    let mut store = MemorySecretStore::new();
    assert!(store.delete_secret("nope").is_ok());
}

#[test]
fn providers_are_isolated() {
    let mut store = MemorySecretStore::new();
    store.set_secret("elevenlabs", "eleven").unwrap();
    store.set_secret("azure", "azure-key").unwrap();

    assert_eq!(store.get_secret("elevenlabs").unwrap(), "eleven");
    assert_eq!(store.get_secret("azure").unwrap(), "azure-key");

    store.delete_secret("elevenlabs").unwrap();
    assert_eq!(
        store.get_secret("elevenlabs"),
        Err(SecretStoreError::NotFound)
    );
    assert_eq!(store.get_secret("azure").unwrap(), "azure-key");
}

#[test]
fn account_names_are_stable_and_provider_scoped() {
    assert_eq!(
        provider_account("elevenlabs").unwrap(),
        "provider/elevenlabs/api-key"
    );
    assert_eq!(provider_account("azure").unwrap(), "provider/azure/api-key");
    assert_ne!(
        provider_account("a").unwrap(),
        provider_account("b").unwrap()
    );
}

#[test]
fn invalid_provider_ids_are_rejected() {
    for provider_id in ["", "Azure", "with/slash", "with space", "é"] {
        assert_eq!(
            provider_account(provider_id),
            Err(SecretStoreError::InvalidProviderId)
        );
    }
    assert_eq!(
        provider_account(&"a".repeat(MAX_PROVIDER_ID_LEN + 1)),
        Err(SecretStoreError::InvalidProviderId)
    );
    assert!(provider_account(&"a".repeat(MAX_PROVIDER_ID_LEN)).is_ok());
}

#[test]
fn backend_error_is_reported_for_every_operation() {
    let mut store = MemorySecretStore::failing();
    assert!(matches!(
        store.set_secret("x", "y"),
        Err(SecretStoreError::BackendFailure)
    ));
    assert!(matches!(
        store.get_secret("x"),
        Err(SecretStoreError::BackendFailure)
    ));
    assert!(matches!(
        store.delete_secret("x"),
        Err(SecretStoreError::BackendFailure)
    ));
}

#[test]
fn is_configured_reflects_presence() {
    let mut store = MemorySecretStore::new();
    assert!(!store.is_configured("p").unwrap());
    store.set_secret("p", "secret").unwrap();
    assert!(store.is_configured("p").unwrap());
}

#[test]
fn a_blank_stored_value_is_not_configured() {
    let mut store = MemorySecretStore::new();
    store.seed_raw("p", " \t ");
    assert_eq!(store.get_secret("p").unwrap(), " \t ");
    assert_eq!(store.is_configured("p"), Ok(false));
    assert_eq!(
        store.is_configured("not valid"),
        Err(SecretStoreError::InvalidProviderId)
    );
}

#[test]
fn a_failed_read_ends_the_copy_before_the_first_write() {
    let mut store = MemorySecretStore::unavailable();
    let settings = settings_with_legacy_secrets();
    let failure = copy_or_roll_back(&mut store, &settings).unwrap_err();
    assert_eq!(failure.error, SecretStoreError::BackendUnavailable);
    assert_eq!(failure.written, 0);
    assert!(failure.restored);
    assert_eq!(
        copy_legacy_secrets(&mut store, &settings),
        Err(SecretStoreError::BackendUnavailable)
    );
}

#[test]
fn an_armed_failure_leaves_reads_alone_and_meets_one_write() {
    let mut store = MemorySecretStore::new();
    store.set_secret("p", "one").unwrap();
    store.set_fail_once_after_writes(1);
    assert_eq!(store.get_secret("p").unwrap(), "one");
    store.set_secret("p", "two").unwrap();
    assert_eq!(
        store.set_secret("p", "three"),
        Err(SecretStoreError::BackendFailure)
    );
    assert_eq!(store.get_secret("p").unwrap(), "two");
    store.set_secret("p", " four ").unwrap();
    assert_eq!(store.get_secret("p").unwrap(), "four");
}

#[test]
fn is_configured_propagates_backend_error() {
    let store = MemorySecretStore::failing();
    assert!(store.is_configured("p").is_err());
}

#[test]
fn backend_available_flag_is_reported() {
    assert!(MemorySecretStore::new().backend_available());
    assert!(!MemorySecretStore::unavailable().backend_available());
}

#[test]
fn debug_never_exposes_secret_value() {
    let mut store = MemorySecretStore::new();
    store
        .set_secret("elevenlabs", "super-secret-value")
        .unwrap();
    let rendered = store.redacted_text();
    assert!(
        !rendered.contains("super-secret-value"),
        "Debug output leaked the secret: {rendered}"
    );
    assert!(rendered.contains("<1 redacted>"));
}

#[test]
fn error_display_and_debug_do_not_carry_secrets() {
    for err in [
        SecretStoreError::BackendUnavailable,
        SecretStoreError::AccessDenied,
        SecretStoreError::BackendFailure,
    ] {
        assert!(!err.message().contains("secret-value"));
        assert!(!format!("{err:?}").contains("secret-value"));
    }
}

#[test]
fn a_secret_is_trimmed_and_never_blank() {
    assert_eq!(normalize_secret("\u{3000}key\n").unwrap(), "key");
    assert_eq!(
        normalize_secret(" \u{2003}\t"),
        Err(SecretStoreError::InvalidSecret)
    );
}
