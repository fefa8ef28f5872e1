//! Hardware detection, the overlay, text and maps.

use parler::hardware_detection::{
    calculate_recommended_threads, cores_or_default, detect_gpu, detect_hardware, GpuProbe,
    HardwareCache,
};
use parler::keyed_map::KeyedMap;
use parler::overlay::{
    anchors_to_top, creates_overlay, get_fallback_monitor, get_monitor_with_cursor,
    is_point_within_monitor, largest_monitor, names_kde, shows_overlay, skips_layer_shell, Area,
    LinuxSession, MonitorAreas, MonitorChoice, ScaledView,
};
use parler::settings::OverlayPosition;
use parler::shortcut::handy_keys::Platform;
use parler::text::{
    after_prefix, count_words, decimal_text, has_text, is_text_le, is_white_space_char,
    same_text_ignoring_ascii_case, split_first, trim, trim_trailing,
};

#[test]
fn test_cpu_cores_detection() {
    let cores = cores_or_default(Some(8));
    assert!(cores >= 1, "Should detect at least 1 CPU core");
    assert!(cores <= 256, "Sanity check: unrealistic core count");
    let unknown = cores_or_default(None);
    assert!(unknown >= 1);
}

#[test]
fn test_thread_calculation_with_gpu() {
    let threads = calculate_recommended_threads(8, true);
    assert!(threads >= 2 && threads <= 4);
}

#[test]
fn test_thread_calculation_without_gpu() {
    let threads = calculate_recommended_threads(8, false);
    assert!(threads >= 4 && threads <= 8);
}

#[test]
fn test_thread_calculation_low_cores() {
    let threads = calculate_recommended_threads(2, false);
    assert_eq!(threads, 2, "Should use minimum 2 threads");
}

#[test]
fn test_hardware_detection() {
    let caps = detect_hardware(
        &GpuProbe::Linux {
            nvidia_driver: false,
            card_vendor: None,
        },
        Some(8),
    );
    assert!(caps.cpu_cores >= 1);
    assert!(caps.recommended_threads >= 2);
    assert!(caps.recommended_threads <= caps.cpu_cores);
}

#[test]
fn a_gpu_is_found_by_its_driver_or_vendor() {
    let linux = |nvidia_driver: bool, vendor: Option<&str>| {
        detect_gpu(&GpuProbe::Linux {
            nvidia_driver,
            card_vendor: vendor.map(|vendor| vendor.to_string()),
        })
    };
    assert!(linux(true, None));
    assert!(linux(false, Some("0x1002\n")));
    assert!(!linux(false, Some("0x8086\n")));
    assert!(!linux(false, None));
    assert!(detect_gpu(&GpuProbe::MacOs));
    assert!(detect_gpu(&GpuProbe::Windows {
        nvidia_smi_succeeded: true
    }));
    assert!(!detect_gpu(&GpuProbe::Windows {
        nvidia_smi_succeeded: false
    }));
}

#[test]
fn any_number_of_cores_has_a_recommendation() {
    assert_eq!(calculate_recommended_threads(usize::MAX, false), 8);
    assert_eq!(calculate_recommended_threads(usize::MAX, true), usize::MAX / 2);
    assert_eq!(calculate_recommended_threads(12, false), 8);
    assert_eq!(calculate_recommended_threads(11, false), 8);
    assert_eq!(calculate_recommended_threads(10, false), 7);
    assert_eq!(calculate_recommended_threads(1, false), 2);
}

#[test]
fn hardware_is_detected_once() {
    let mut cache = HardwareCache::new();
    let first = cache.get_hardware_capabilities(|| detect_hardware(&GpuProbe::MacOs, Some(8)));
    assert_eq!(
        cache.get_hardware_capabilities(|| panic!("detected before")),
        first
    );
    assert!(first.has_gpu);
    assert_eq!(first.cpu_cores, 8);
}

fn area(x: i32, y: i32, width: u32, height: u32) -> Area {
    Area {
        x,
        y,
        width,
        height,
    }
}

fn monitor(bounds: Area) -> MonitorAreas {
    MonitorAreas {
        bounds,
        work_area: bounds,
        scaled: None,
    }
}

#[test]
fn a_monitor_ends_before_its_right_and_bottom_edges() {
    let bounds = area(-100, 0, 100, 50);
    assert!(is_point_within_monitor((-100, 0), &bounds));
    assert!(is_point_within_monitor((-1, 49), &bounds));
    assert!(!is_point_within_monitor((0, 49), &bounds));
    assert!(!is_point_within_monitor((-1, 50), &bounds));
}

#[test]
fn the_overlay_goes_to_the_monitor_with_the_pointer() {
    let monitors = vec![
        monitor(area(0, 0, 100, 100)),
        monitor(area(100, 0, 200, 100)),
        monitor(area(300, 0, 100, 200)),
    ];
    let at = |pointer: Option<(i32, i32)>, reported: bool| {
        get_monitor_with_cursor(pointer, reported, &monitors, false, false)
    };
    assert_eq!(at(Some((150, 5)), true), MonitorChoice::AtPointer);
    assert_eq!(at(Some((150, 5)), false), MonitorChoice::Listed(1));
    assert_eq!(at(Some((900, 5)), false), MonitorChoice::Listed(2));
    assert_eq!(at(None, false), MonitorChoice::Listed(2));
    assert_eq!(largest_monitor(&monitors), Some(2));
    assert_eq!(
        get_fallback_monitor(&monitors, true, true),
        MonitorChoice::MainWindow
    );
    assert_eq!(
        get_fallback_monitor(&monitors, false, true),
        MonitorChoice::OverlayWindow
    );
    assert_eq!(
        get_fallback_monitor(&vec![], false, false),
        MonitorChoice::Primary
    );
    let mut scaled = monitors[0];
    scaled.scaled = Some(ScaledView {
        logical_bounds: area(900, 0, 50, 50),
        scaled_pointer: (-5, -5),
    });
    assert_eq!(
        get_monitor_with_cursor(Some((910, 5)), false, &vec![scaled], true, true),
        MonitorChoice::Listed(0)
    );
}

#[test]
fn the_layer_shell_is_skipped_on_kde_under_wayland_only() {
    let session = |wayland: bool, session_type: Option<&str>, desktop: Option<&str>, kde: bool| {
        skips_layer_shell(&LinuxSession {
            has_wayland_display: wayland,
            session_type: session_type.map(|s| s.to_string()),
            current_desktop: desktop.map(|s| s.to_string()),
            has_kde_session: kde,
        })
    };
    assert!(session(true, None, Some("kde"), false));
    assert!(session(false, Some("Wayland"), None, true));
    assert!(!session(true, None, Some("GNOME"), false));
    assert!(!session(false, Some("x11"), Some("KDE"), true));
    assert!(names_kde("UBUNTU:KDE"));
    assert!(!names_kde("GNOME"));
}

#[test]
fn the_overlay_is_placed_and_shown_by_the_settings() {
    assert!(anchors_to_top(OverlayPosition::Top));
    assert!(!anchors_to_top(OverlayPosition::Bottom));
    assert!(!anchors_to_top(OverlayPosition::Hidden));
    assert!(shows_overlay(OverlayPosition::Bottom));
    assert!(!shows_overlay(OverlayPosition::Hidden));
    assert!(creates_overlay(Platform::Linux, false));
    assert!(!creates_overlay(Platform::Windows, false));
    assert!(creates_overlay(Platform::Windows, true));
}

#[test]
fn white_space_is_that_of_unicode() {
    for code in 0..=0x10_ffffu32 {
        if let Some(c) = char::from_u32(code) {
            assert_eq!(is_white_space_char(c), c.is_whitespace(), "{code:#x}");
        }
    }
}

#[test]
fn text_is_cut_as_the_standard_library_cuts_it() {
    for s in ["", " ", "a", " a b ", "\u{3000}é\t", "a//", "///", "x=y=z", "é è"] {
        assert_eq!(trim(s), s.trim());
        assert_eq!(count_words(s), s.split_whitespace().count());
        assert_eq!(trim_trailing(s, '/'), s.trim_end_matches('/'));
        assert_eq!(split_first(s, '='), s.split_once('='));
        assert_eq!(after_prefix(s, "a"), s.strip_prefix("a"));
        for t in ["", "a", "é", "b ", "//"] {
            assert_eq!(has_text(s, t), s.contains(t));
            assert_eq!(is_text_le(s, t), s <= t);
            assert_eq!(
                same_text_ignoring_ascii_case(s, t),
                s.eq_ignore_ascii_case(t)
            );
        }
    }
    assert!(same_text_ignoring_ascii_case("WayLand", "wayland"));
    for n in [0u64, 7, 10, 12345, u64::MAX] {
        assert_eq!(decimal_text(n), n.to_string());
    }
}

#[test]
fn a_map_keeps_one_value_per_key() {
    let mut map: KeyedMap<String, u32> = KeyedMap::new();
    map.insert("a".to_string(), 1);
    map.insert("b".to_string(), 2);
    map.insert("a".to_string(), 3);
    assert_eq!(map.len(), 2);
    assert_eq!(map.get(&"a".to_string()), Some(&3));
    assert_eq!(map.key_at(0), "a");
    assert_eq!(map.value_at(1), &2);
    map.set_value_at(1, 5);
    assert!(map.contains_key(&"b".to_string()));
    assert_eq!(map.remove(&"b".to_string()), Some(5));
    assert_eq!(map.remove(&"b".to_string()), None);
    assert_eq!(map.len(), 1);
}
