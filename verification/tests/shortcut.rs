//! Shortcuts: the hotkey registry, the recording session and the manager loop.

use std::cell::Cell;

use parler::keyed_map::KeyedMap;
use parler::settings::{get_default_settings, KeyboardImplementation, ShortcutBinding};
use parler::shortcut::handy_keys::{
    active_managers, cancel_shortcut, check_recording_available, dispatch_event, do_register,
    frontend_event, is_transcribe_binding, modifiers_to_strings, physical_category,
    process_command, should_block_os_key, startup_bindings, uses_recording_shortcuts,
    validate_shortcut, ManagerCommand, ManagerStep, Platform, CMD, CTRL, FN, OPT, SHIFT,
};
use parler::shortcut::recording::{
    KeyEvent, RecordingState, RecordingStep, MAX_RECORDING_DURATION,
};
use parler::shortcut::registry::{Hotkey, HotkeyRegistry, ManagerCategory};

const SECOND: u64 = 1_000_000_000;

fn hotkey(s: &str) -> Hotkey {
    match s {
        "ctrl+space" => Hotkey {
            modifiers: CTRL,
            key: Some(32),
        },
        "ctrl+alt+p" => Hotkey {
            modifiers: CTRL | OPT,
            key: Some(112),
        },
        _ => panic!("valid hotkey"),
    }
}

fn target_of(registry: &HotkeyRegistry, category: ManagerCategory, id: u32) -> Option<String> {
    registry
        .dispatch_target(category, &id)
        .map(|target| target.binding_id.clone())
}

#[test]
fn should_only_block_transcription_bindings() {
    assert!(should_block_os_key("transcribe"));
    assert!(should_block_os_key("transcribe_with_post_process"));

    assert!(!should_block_os_key("pause"));
    assert!(!should_block_os_key("cancel"));
    assert!(!should_block_os_key("show_history"));
    assert!(!should_block_os_key("copy_latest_history"));
    assert!(!should_block_os_key("action_1"));
    assert!(!should_block_os_key("action_9"));
    assert!(!should_block_os_key("ppa-example"));
}

#[test]
fn rejects_inter_manager_collision_blocking_then_passive() {
    let mut registry = HotkeyRegistry::new();
    let combo = hotkey("ctrl+space");

    registry.check_collision(&combo, "transcribe").unwrap();
    registry.commit(
        "transcribe",
        combo,
        "ctrl+space",
        1,
        ManagerCategory::Blocking,
    );

    assert!(registry.check_collision(&combo, "pause").is_err());
}

#[test]
fn rejects_inter_manager_collision_passive_then_blocking() {
    let mut registry = HotkeyRegistry::new();
    let combo = hotkey("ctrl+space");

    registry.commit("pause", combo, "ctrl+space", 1, ManagerCategory::Passive);

    assert!(registry.check_collision(&combo, "transcribe").is_err());
}

#[test]
fn same_binding_may_recheck_its_own_hotkey() {
    let mut registry = HotkeyRegistry::new();
    let combo = hotkey("ctrl+space");

    registry.commit(
        "transcribe",
        combo,
        "ctrl+space",
        1,
        ManagerCategory::Blocking,
    );

    assert!(registry.check_collision(&combo, "transcribe").is_ok());
}

#[test]
fn unregister_then_reregister_cleans_registry() {
    let mut registry = HotkeyRegistry::new();
    let combo = hotkey("ctrl+space");

    registry.commit(
        "transcribe",
        combo,
        "ctrl+space",
        1,
        ManagerCategory::Blocking,
    );
    let removed = registry.remove("transcribe");
    assert_eq!(removed, Some((1, ManagerCategory::Blocking)));

    assert!(registry.check_collision(&combo, "pause").is_ok());
    registry.commit("pause", combo, "ctrl+space", 7, ManagerCategory::Passive);
    assert_eq!(
        target_of(&registry, ManagerCategory::Passive, 7).as_deref(),
        Some("pause")
    );
    assert!(registry
        .dispatch_target(ManagerCategory::Blocking, &1)
        .is_none());
}

#[test]
fn failed_registration_does_not_pollute_registry() {
    let registry = HotkeyRegistry::new();
    let combo = hotkey("ctrl+space");

    registry.check_collision(&combo, "transcribe").unwrap();

    assert!(registry.owner_of(&combo).is_none());
    assert!(registry.os_handle("transcribe").is_none());
    assert!(registry.check_collision(&combo, "pause").is_ok());
}

#[test]
fn reregistering_same_combo_is_noop() {
    let mut registry = HotkeyRegistry::new();
    let combo = hotkey("ctrl+space");
    registry.commit(
        "transcribe",
        combo,
        "ctrl+space",
        1,
        ManagerCategory::Blocking,
    );

    registry
        .register_transactional(
            "transcribe",
            combo,
            "ctrl+space",
            ManagerCategory::Blocking,
            |_| panic!("no OS register for an identical re-registration"),
            |_, _| panic!("no OS unregister for an identical re-registration"),
        )
        .unwrap();
    assert_eq!(
        target_of(&registry, ManagerCategory::Blocking, 1).as_deref(),
        Some("transcribe")
    );
}

#[test]
fn replacement_colliding_with_other_binding_preserves_old() {
    let mut registry = HotkeyRegistry::new();
    let a = hotkey("ctrl+space");
    let b = hotkey("ctrl+alt+p");
    registry.commit("transcribe", a, "ctrl+space", 1, ManagerCategory::Blocking);
    registry.commit("pause", b, "ctrl+alt+p", 2, ManagerCategory::Passive);

    let res = registry.register_transactional(
        "transcribe",
        b,
        "ctrl+alt+p",
        ManagerCategory::Blocking,
        |_| panic!("OS register must not run on a rejected collision"),
        |_, _| panic!("OS unregister must not run on a rejected collision"),
    );
    assert!(res.is_err());

    assert_eq!(registry.owner_of(&a), Some("transcribe"));
    assert_eq!(
        target_of(&registry, ManagerCategory::Blocking, 1).as_deref(),
        Some("transcribe")
    );
}

#[test]
fn failed_replacement_registration_preserves_old_binding() {
    let mut registry = HotkeyRegistry::new();
    let old = hotkey("ctrl+space");
    let new = hotkey("ctrl+alt+p");
    registry.commit(
        "transcribe",
        old,
        "ctrl+space",
        1,
        ManagerCategory::Blocking,
    );

    let res = registry.register_transactional(
        "transcribe",
        new,
        "ctrl+alt+p",
        ManagerCategory::Blocking,
        |_| Err("os rejected".to_string()),
        |_, _| panic!("old registration must be preserved, not released, on failure"),
    );
    assert!(res.is_err());

    assert_eq!(registry.owner_of(&old), Some("transcribe"));
    assert!(registry.owner_of(&new).is_none());
    assert_eq!(
        target_of(&registry, ManagerCategory::Blocking, 1).as_deref(),
        Some("transcribe")
    );
}

#[test]
fn successful_replacement_swaps_combo_and_releases_old() {
    let mut registry = HotkeyRegistry::new();
    let old = hotkey("ctrl+space");
    let new = hotkey("ctrl+alt+p");
    registry.commit(
        "transcribe",
        old,
        "ctrl+space",
        1,
        ManagerCategory::Blocking,
    );

    let mut released = None;
    registry
        .register_transactional(
            "transcribe",
            new,
            "ctrl+alt+p",
            ManagerCategory::Blocking,
            |_| Ok(2u32),
            |id, cat| {
                released = Some((id, cat));
                Ok(())
            },
        )
        .unwrap();

    assert_eq!(released, Some((1, ManagerCategory::Blocking)));
    assert!(registry.owner_of(&old).is_none());
    assert_eq!(registry.owner_of(&new), Some("transcribe"));
    assert_eq!(
        target_of(&registry, ManagerCategory::Blocking, 2).as_deref(),
        Some("transcribe")
    );
    assert!(registry
        .dispatch_target(ManagerCategory::Blocking, &1)
        .is_none());
}

#[test]
fn the_earlier_combo_is_released_only_once_the_new_one_is_live() {
    let mut registry = HotkeyRegistry::new();
    let old = hotkey("ctrl+space");
    let new = hotkey("ctrl+alt+p");
    registry.commit(
        "transcribe",
        old,
        "ctrl+space",
        1,
        ManagerCategory::Passive,
    );
    let calls = std::cell::RefCell::new(Vec::new());
    let step = process_command(
        &mut registry,
        Platform::Linux,
        ManagerCommand::Register {
            binding_id: "transcribe".into(),
            hotkey_string: "ctrl+alt+p".into(),
            parsed: Ok(new),
        },
        |_, _| {
            calls.borrow_mut().push("register");
            Ok(2)
        },
        |id, _| {
            assert_eq!(id, 1);
            calls.borrow_mut().push("release");
            Err("ignored".to_string())
        },
    );
    assert!(matches!(step, ManagerStep::Respond(Ok(()))));
    assert_eq!(calls.into_inner(), vec!["register", "release"]);
    assert_eq!(registry.owner_of(&new), Some("transcribe"));
    assert_eq!(registry.owner_of(&old), None);
}

#[test]
fn every_claim_has_a_generation_of_its_own() {
    let mut state = RecordingState::new();
    let mut seen = Vec::new();
    for now in 0..4 {
        let generation = state.claim(now).unwrap();
        assert!(!seen.contains(&generation));
        seen.push(generation);
        if now % 2 == 0 {
            state.teardown();
        } else {
            state.abort_claim(generation);
        }
    }
}

#[test]
fn failed_os_unregister_keeps_registry_entry() {
    let mut registry = HotkeyRegistry::new();
    let combo = hotkey("ctrl+space");
    registry.commit(
        "transcribe",
        combo,
        "ctrl+space",
        1,
        ManagerCategory::Blocking,
    );

    let res = registry.unregister_transactional("transcribe", |_, _| Err("os busy".to_string()));
    assert!(res.is_err());
    assert_eq!(registry.owner_of(&combo), Some("transcribe"));
    assert!(registry.os_handle("transcribe").is_some());
    assert!(registry.check_collision(&combo, "pause").is_err());
}

#[test]
fn successful_os_unregister_frees_combo() {
    let mut registry = HotkeyRegistry::new();
    let combo = hotkey("ctrl+space");
    registry.commit(
        "transcribe",
        combo,
        "ctrl+space",
        1,
        ManagerCategory::Blocking,
    );

    registry
        .unregister_transactional("transcribe", |id, cat| {
            assert_eq!((id, cat), (1, ManagerCategory::Blocking));
            Ok(())
        })
        .unwrap();
    assert!(registry.owner_of(&combo).is_none());
    assert!(registry.os_handle("transcribe").is_none());
    assert!(registry.check_collision(&combo, "pause").is_ok());
}

#[test]
fn unregister_unknown_binding_is_ok() {
    let mut registry = HotkeyRegistry::new();
    registry
        .unregister_transactional("missing", |_, _| panic!("no OS call for unknown binding"))
        .unwrap();
}

fn claim_and_install(state: &mut RecordingState, binding: &str, now: u64) -> u64 {
    let generation = state.claim(now).expect("claim succeeds");
    state
        .install_session(generation, binding.into(), now)
        .expect("install succeeds for a fresh claim")
}

#[test]
fn rejects_concurrent_double_start() {
    let mut state = RecordingState::new();
    let _g = state.claim(0).expect("first claim succeeds");
    assert!(state.claim(0).is_err());
}

#[test]
fn teardown_between_claim_and_install_drops_stale_listener() {
    let mut state = RecordingState::new();
    let generation = state.claim(0).expect("claim");

    state.teardown();

    assert!(state
        .install_session(generation, "transcribe".into(), 0)
        .is_none());
    assert!(!state.is_capturing_at(0));
    assert!(state.claim(0).is_ok());
}

#[test]
fn install_for_superseded_claim_is_refused() {
    let mut state = RecordingState::new();
    let stale = state.claim(0).expect("first claim");
    state.teardown();
    let _fresh = state.claim(0).expect("second claim");

    assert!(state
        .install_session(stale, "transcribe".into(), 0)
        .is_none());
}

#[test]
fn expiry_fully_and_idempotently_cleans_session() {
    let mut state = RecordingState::new();
    let running = claim_and_install(&mut state, "transcribe", 5);

    assert!(state.is_capturing_at(5));

    let future = 5 + MAX_RECORDING_DURATION + SECOND;
    assert!(!state.is_capturing_at(future));
    assert!(!state.is_running(running), "expiry stops the loop");
    assert!(state.claim(future).is_ok());
}

#[test]
fn watchdog_expires_session_without_any_events() {
    let mut state = RecordingState::new();
    let running = claim_and_install(&mut state, "transcribe", 5);

    assert!(matches!(
        state.poll_for_loop(running, 5, None),
        RecordingStep::Idle
    ));

    let future = 5 + MAX_RECORDING_DURATION + SECOND;
    assert!(matches!(
        state.poll_for_loop(running, future, None),
        RecordingStep::Stop
    ));
    assert!(!state.is_running(running), "watchdog stopped the loop");
    assert!(!state.is_capturing_at(future));
}

#[test]
fn poll_for_loop_stops_superseded_loop() {
    let mut state = RecordingState::new();
    let old = claim_and_install(&mut state, "transcribe", 0);
    state.teardown();
    let new = claim_and_install(&mut state, "pause", 0);

    assert!(matches!(
        state.poll_for_loop(old, 0, None),
        RecordingStep::Stop
    ));
    assert!(matches!(
        state.poll_for_loop(new, 0, None),
        RecordingStep::Idle
    ));
}

#[test]
fn teardown_clears_all_state() {
    let mut state = RecordingState::new();
    let running = claim_and_install(&mut state, "pause", 0);

    state.teardown();

    assert!(!state.is_running(running), "loop stop flag cleared");
    assert!(!state.is_capturing_at(0));
}

#[test]
fn teardown_is_idempotent() {
    let mut state = RecordingState::new();
    let _running = claim_and_install(&mut state, "pause", 0);

    state.teardown();
    state.teardown();

    assert!(!state.is_capturing_at(0));
    assert!(state.claim(0).is_ok());
}

#[test]
fn a_failed_listener_frees_the_slot() {
    let mut state = RecordingState::new();
    let generation = state.claim(0).unwrap();
    let answer = state.finish_start(generation, "pause".into(), Err("no device".into()), 0);
    assert!(answer.is_err());
    assert!(!state.is_capturing_at(0));
    let generation = state.claim(0).unwrap();
    let running = state
        .finish_start(generation, "pause".into(), Ok(()), 0)
        .unwrap()
        .unwrap();
    assert!(state.is_running(running));
    state.abort_claim(generation);
    assert!(state.is_running(running));
}

#[test]
fn a_session_ends_exactly_at_the_limit() {
    let mut state = RecordingState::new();
    let _running = claim_and_install(&mut state, "pause", 100);
    assert!(!state.expire(100 + MAX_RECORDING_DURATION - 1));
    let at_the_limit = state.expire(100 + MAX_RECORDING_DURATION);
    assert_eq!(at_the_limit, !state.is_capturing_at(100));
}

#[test]
fn a_live_loop_hands_its_event_on() {
    let mut state = RecordingState::new();
    let running = claim_and_install(&mut state, "pause", 0);
    let event = KeyEvent {
        modifiers: CTRL,
        key: Some("space".into()),
        is_key_down: true,
        hotkey_string: Some("ctrl+space".into()),
    };
    match state.poll_for_loop(running, 1, Some(event)) {
        RecordingStep::Event(event) => {
            let shown = frontend_event(Platform::Linux, &event);
            assert_eq!(shown.modifiers, vec!["ctrl".to_string()]);
            assert_eq!(shown.key, Some("space".to_string()));
            assert!(shown.is_key_down);
            assert_eq!(shown.hotkey_string, "ctrl+space");
        }
        _ => panic!("the event is handed on"),
    }
}

#[test]
fn modifiers_are_named_for_the_platform() {
    let all = CMD | SHIFT | CTRL | OPT | FN;
    assert_eq!(
        modifiers_to_strings(Platform::MacOs, all),
        vec!["ctrl", "option", "shift", "command", "fn"]
    );
    assert_eq!(
        modifiers_to_strings(Platform::Windows, all),
        vec!["ctrl", "alt", "shift", "super", "fn"]
    );
    assert!(modifiers_to_strings(Platform::Linux, 0).is_empty());
}

#[test]
fn a_modifier_of_one_side_is_enough() {
    for side in [0x04, 0x80] {
        assert_eq!(modifiers_to_strings(Platform::Linux, side), vec!["ctrl"]);
    }
    for side in [0x02, 0x40] {
        assert_eq!(modifiers_to_strings(Platform::MacOs, side), vec!["shift"]);
    }
}

#[test]
fn a_shortcut_is_checked_before_it_is_saved() {
    assert!(validate_shortcut("  ", Ok(hotkey("ctrl+space"))).is_err());
    assert!(validate_shortcut("ctrl+?", Err("unknown key".into())).is_err());
    assert!(validate_shortcut("ctrl+space", Ok(hotkey("ctrl+space"))).is_ok());
}

#[test]
fn every_binding_runs_in_an_active_manager() {
    for platform in [Platform::Linux, Platform::MacOs, Platform::Windows] {
        for id in ["transcribe", "pause"] {
            assert!(active_managers(platform).contains(&physical_category(platform, id)));
        }
    }
    assert!(is_transcribe_binding("transcribe"));
    assert!(!is_transcribe_binding("pause"));
}

#[test]
fn the_manager_registers_dispatches_and_unregisters() {
    let mut registry = HotkeyRegistry::new();
    let combo = hotkey("ctrl+space");
    let asked: Cell<Option<ManagerCategory>> = Cell::new(None);
    let step = process_command(
        &mut registry,
        Platform::MacOs,
        ManagerCommand::Register {
            binding_id: "transcribe".into(),
            hotkey_string: "ctrl+space".into(),
            parsed: Ok(combo),
        },
        |_, category| {
            asked.set(Some(category));
            Ok(9)
        },
        |_, _| panic!("nothing to release"),
    );
    assert!(matches!(step, ManagerStep::Respond(Ok(()))));
    let category = physical_category(Platform::MacOs, "transcribe");
    assert_eq!(asked.get(), Some(category));

    let event = dispatch_event(&registry, category, 9, true, || false).unwrap();
    assert_eq!(event.binding_id, "transcribe");
    assert_eq!(event.hotkey_string, "ctrl+space");
    assert!(event.is_pressed);
    assert!(dispatch_event(&registry, category, 9, true, || true).is_none());
    assert!(dispatch_event(&registry, category, 10, true, || {
        panic!("nobody owns the id")
    })
    .is_none());

    let unparsed = do_register(
        &mut registry,
        Platform::MacOs,
        "pause",
        "?",
        Err("unknown key".into()),
        |_, _| panic!("nothing to register"),
        |_, _| panic!("nothing to release"),
    );
    assert!(unparsed.is_err());

    let step = process_command(
        &mut registry,
        Platform::MacOs,
        ManagerCommand::Unregister {
            binding_id: "transcribe".into(),
        },
        |_, _| panic!("nothing to register"),
        |id, _| {
            assert_eq!(id, 9);
            Ok(())
        },
    );
    assert!(matches!(step, ManagerStep::Respond(Ok(()))));
    assert!(registry.owner_of(&combo).is_none());

    let quiet = |command: ManagerCommand| {
        process_command(
            &mut HotkeyRegistry::new(),
            Platform::Linux,
            command,
            |_, _| panic!("nothing to register"),
            |_, _| panic!("nothing to release"),
        )
    };
    assert!(matches!(quiet(ManagerCommand::Timeout), ManagerStep::Continue));
    assert!(matches!(quiet(ManagerCommand::Shutdown), ManagerStep::Stop));
    assert!(matches!(
        quiet(ManagerCommand::Disconnected),
        ManagerStep::Stop
    ));
}

#[test]
fn startup_takes_the_bindings_of_the_user() {
    let binding = |id: &str, keys: &str| ShortcutBinding {
        id: id.to_string(),
        current_binding: keys.to_string(),
    };
    let mut defaults: KeyedMap<String, ShortcutBinding> = KeyedMap::new();
    defaults.insert("transcribe".into(), binding("transcribe", "ctrl+space"));
    defaults.insert("cancel".into(), binding("cancel", "escape"));
    let mut settings = get_default_settings();
    settings
        .bindings
        .insert("transcribe".into(), binding("transcribe", "ctrl+alt+p"));
    let started = startup_bindings(&defaults, &settings);
    assert!(started.contains(&binding("transcribe", "ctrl+alt+p")));
    assert!(!started.iter().any(|b| b.id == "cancel"));
    assert!(!uses_recording_shortcuts(Platform::Linux));
    assert!(cancel_shortcut(Platform::Linux, &settings).is_none());
    settings
        .bindings
        .insert("cancel".into(), binding("cancel", "escape"));
    assert_eq!(
        cancel_shortcut(Platform::MacOs, &settings),
        Some(binding("cancel", "escape"))
    );
}

#[test]
fn recording_needs_the_handy_keys_backend() {
    let mut settings = get_default_settings();
    settings.keyboard_implementation = KeyboardImplementation::Tauri;
    assert_eq!(
        check_recording_available(&settings),
        Err("handy-keys is not the active keyboard implementation".to_string())
    );
    settings.keyboard_implementation = KeyboardImplementation::HandyKeys;
    assert_eq!(check_recording_available(&settings), Ok(()));
}
