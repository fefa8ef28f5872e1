//! Where and whether the recording overlay is shown.

use vstd::prelude::*;

use crate::settings::OverlayPosition;
use crate::shortcut::handy_keys::Platform;
use crate::text::{has_text, same_text_ignoring_ascii_case, uppercase_text};

verus! {

/// A rectangle on the desktop, in pixels.
#[derive(Debug, Clone, Copy, PartialEq, Eq, Structural)]
pub struct Area {
    pub x: i32,
    pub y: i32,
    pub width: u32,
    pub height: u32,
}

/// `n` as a signed number of 32 bits.
pub open spec fn as_signed(n: u32) -> int {
    if n <= i32::MAX {
        n as int
    } else {
        n - 0x1_0000_0000
    }
}

/// The point lies in the rectangle, its right and lower edge excluded.
pub open spec fn holds_point(area: Area, x: int, y: int) -> bool {
    &&& area.x <= x < area.x + as_signed(area.width)
    &&& area.y <= y < area.y + as_signed(area.height)
}

fn signed(n: u32) -> (r: i64)
    ensures
        r == as_signed(n),
{
    if n <= 0x7FFF_FFFF {
        n as i64
    } else {
        n as i64 - 0x1_0000_0000
    }
}

/// Whether a point lies within a monitor.
pub fn is_point_within_monitor(point: (i32, i32), monitor: &Area) -> (r: bool)
    ensures
        r == holds_point(*monitor, point.0 as int, point.1 as int),
        monitor.width <= i32::MAX && monitor.height <= i32::MAX ==> (r <==> monitor.x <= point.0
            && point.0 < monitor.x + monitor.width && monitor.y <= point.1 && point.1 < monitor.y
            + monitor.height),
{
    let (x, y) = point;
    let right: i64 = monitor.x as i64 + signed(monitor.width);
    let bottom: i64 = monitor.y as i64 + signed(monitor.height);
    x >= monitor.x && (x as i64) < right && y >= monitor.y && (y as i64) < bottom
}

/// A monitor: its bounds, and what of them windows may cover.
#[derive(Debug, Clone, Copy)]
pub struct MonitorAreas {
    pub bounds: Area,
    pub work_area: Area,
    /// The bounds and the pointer in the other of the two coordinate spaces, on
    /// systems that mix them.
    pub scaled: Option<ScaledView>,
}

/// What a monitor and the pointer look like in the other coordinate space.
#[derive(Debug, Clone, Copy)]
pub struct ScaledView {
    pub logical_bounds: Area,
    pub scaled_pointer: (i32, i32),
}

/// The number of pixels of the work area.
pub open spec fn work_pixels(monitor: MonitorAreas) -> int {
    monitor.work_area.width * monitor.work_area.height
}

/// Monitor `i` has the largest work area; of several the last.
pub open spec fn is_largest(monitors: Seq<MonitorAreas>, i: int) -> bool {
    &&& 0 <= i < monitors.len()
    &&& forall|j: int|
        0 <= j < monitors.len() ==> work_pixels(#[trigger] monitors[j]) <= work_pixels(monitors[i])
    &&& forall|j: int|
        i < j < monitors.len() ==> work_pixels(#[trigger] monitors[j]) < work_pixels(monitors[i])
}

/// The monitor with the largest work area.
pub fn largest_monitor(monitors: &Vec<MonitorAreas>) -> (r: Option<usize>)
    ensures
        match r {
            Some(i) => is_largest(monitors@, i as int),
            None => monitors@.len() == 0,
        },
        r is None <==> monitors@.len() == 0,
        r matches Some(i) ==> i < monitors@.len() && forall|j: int|
            0 <= j < monitors@.len() ==> {
                let other = (#[trigger] monitors@[j]).work_area;
                let best = monitors@[i as int].work_area;
                &&& other.width * other.height <= best.width * best.height
                &&& j > i ==> other.width * other.height < best.width * best.height
            },
{
    if monitors.len() == 0 {
        return None;
    }
    let mut best: usize = 0;
    let mut i: usize = 1;
    while i < monitors.len()
        invariant
            best < i <= monitors@.len(),
            forall|j: int|
                0 <= j < i ==> work_pixels(#[trigger] monitors@[j]) <= work_pixels(
                    monitors@[best as int],
                ),
            forall|j: int|
                best < j < i ==> work_pixels(#[trigger] monitors@[j]) < work_pixels(
                    monitors@[best as int],
                ),
        decreases monitors@.len() - i,
    {
        if pixels(&monitors[i].work_area) >= pixels(&monitors[best].work_area) {
            best = i;
        }
        i += 1;
    }
    Some(best)
}

fn pixels(area: &Area) -> (r: u64)
    ensures
        r == area.width * area.height,
{
    proof {
        assert(area.width as int * area.height as int <= u32::MAX as int * u32::MAX as int)
            by (nonlinear_arith)
            requires
                area.width as int <= u32::MAX as int,
                area.height as int <= u32::MAX as int,
                0 <= area.width as int,
                0 <= area.height as int,
        ;
    }
    area.width as u64 * area.height as u64
}

/// Which monitor the overlay goes to.
#[derive(Debug, Clone, Copy, PartialEq, Eq, Structural)]
pub enum MonitorChoice {
    /// The one that the system reports at the pointer.
    AtPointer,
    /// The one with this position in the list.
    Listed(usize),
    /// The one of the main window.
    MainWindow,
    /// The one of the overlay window.
    OverlayWindow,
    /// The primary one, if any.
    Primary,
}

/// Monitor `i` is the first one with the pointer in its bounds.
pub open spec fn is_first_hit(monitors: Seq<MonitorAreas>, pointer: (i32, i32), i: int) -> bool {
    &&& 0 <= i < monitors.len()
    &&& holds_point(monitors[i].bounds, pointer.0 as int, pointer.1 as int)
    &&& forall|j: int|
        0 <= j < i ==> !holds_point(
            (#[trigger] monitors[j]).bounds,
            pointer.0 as int,
            pointer.1 as int,
        )
}

/// The pointer lies in the monitor in either of the mixed coordinate spaces.
pub open spec fn is_scaled_hit(monitor: MonitorAreas, pointer: (i32, i32)) -> bool {
    monitor.scaled matches Some(scaled) && (holds_point(
        scaled.logical_bounds,
        pointer.0 as int,
        pointer.1 as int,
    ) || holds_point(
        monitor.bounds,
        scaled.scaled_pointer.0 as int,
        scaled.scaled_pointer.1 as int,
    ))
}

/// Monitor `i` is the first one with the pointer in it by mixed coordinates.
pub open spec fn is_first_scaled_hit(
    monitors: Seq<MonitorAreas>,
    pointer: (i32, i32),
    i: int,
) -> bool {
    &&& 0 <= i < monitors.len()
    &&& is_scaled_hit(monitors[i], pointer)
    &&& forall|j: int| 0 <= j < i ==> !is_scaled_hit(#[trigger] monitors[j], pointer)
}

/// Without a monitor at the pointer: the one of the main window, else of the
/// overlay window, else the one with the largest work area, else the primary.
pub open spec fn is_fallback(
    monitors: Seq<MonitorAreas>,
    main_window: bool,
    overlay_window: bool,
    choice: MonitorChoice,
) -> bool {
    if main_window {
        choice == MonitorChoice::MainWindow
    } else if overlay_window {
        choice == MonitorChoice::OverlayWindow
    } else if monitors.len() > 0 {
        choice matches MonitorChoice::Listed(i) && is_largest(monitors, i as int)
    } else {
        choice == MonitorChoice::Primary
    }
}

/// The monitor to fall back to. The flags say whether the main window and the
/// overlay window are on a monitor.
pub fn get_fallback_monitor(
    monitors: &Vec<MonitorAreas>,
    main_window: bool,
    overlay_window: bool,
) -> (r: MonitorChoice)
    ensures
        is_fallback(monitors@, main_window, overlay_window, r),
        r == MonitorChoice::MainWindow <==> main_window,
        r == MonitorChoice::OverlayWindow <==> !main_window && overlay_window,
        r == MonitorChoice::Primary <==> !main_window && !overlay_window && monitors@.len() == 0,
        r is Listed <==> !main_window && !overlay_window && monitors@.len() > 0,
{
    if main_window {
        return MonitorChoice::MainWindow;
    }
    if overlay_window {
        return MonitorChoice::OverlayWindow;
    }
    match largest_monitor(monitors) {
        Some(i) => MonitorChoice::Listed(i),
        None => MonitorChoice::Primary,
    }
}

/// The monitor that the overlay goes to: the one with the pointer, as the
/// system reports it, else by the bounds, else by mixed coordinates, else the
/// fallback.
pub fn get_monitor_with_cursor(
    pointer: Option<(i32, i32)>,
    reported_at_pointer: bool,
    monitors: &Vec<MonitorAreas>,
    main_window: bool,
    overlay_window: bool,
) -> (r: MonitorChoice)
    ensures
        match pointer {
            None => is_fallback(monitors@, main_window, overlay_window, r),
            Some(p) => if reported_at_pointer {
                r == MonitorChoice::AtPointer
            } else if exists|i: int| #[trigger] is_first_hit(monitors@, p, i) {
                r matches MonitorChoice::Listed(i) && is_first_hit(monitors@, p, i as int)
            } else if exists|i: int| #[trigger] is_first_scaled_hit(monitors@, p, i) {
                r matches MonitorChoice::Listed(i) && is_first_scaled_hit(monitors@, p, i as int)
            } else {
                is_fallback(monitors@, main_window, overlay_window, r)
            },
        },
        r == MonitorChoice::AtPointer <==> pointer is Some && reported_at_pointer,
{
    match pointer {
        Some(p) => {
            if reported_at_pointer {
                return MonitorChoice::AtPointer;
            }
            let mut i: usize = 0;
            while i < monitors.len()
                invariant
                    pointer == Some(p),
                    !reported_at_pointer,
                    i <= monitors@.len(),
                    forall|j: int|
                        0 <= j < i ==> !holds_point(
                            (#[trigger] monitors@[j]).bounds,
                            p.0 as int,
                            p.1 as int,
                        ),
                decreases monitors@.len() - i,
            {
                if is_point_within_monitor(p, &monitors[i].bounds) {
                    proof {
                        assert(is_first_hit(monitors@, p, i as int));
                    }
                    return MonitorChoice::Listed(i);
                }
                i += 1;
            }
            proof {
                assert forall|k: int| !#[trigger] is_first_hit(monitors@, p, k) by {}
            }
            let mut k: usize = 0;
            while k < monitors.len()
                invariant
                    pointer == Some(p),
                    !reported_at_pointer,
                    k <= monitors@.len(),
                    forall|j: int| !#[trigger] is_first_hit(monitors@, p, j),
                    forall|j: int| 0 <= j < k ==> !is_scaled_hit(#[trigger] monitors@[j], p),
                decreases monitors@.len() - k,
            {
                let hit: bool = match monitors[k].scaled {
                    Some(scaled) => is_point_within_monitor(p, &scaled.logical_bounds)
                        || is_point_within_monitor(scaled.scaled_pointer, &monitors[k].bounds),
                    None => false,
                };
                if hit {
                    proof {
                        assert(is_first_scaled_hit(monitors@, p, k as int));
                    }
                    return MonitorChoice::Listed(k);
                }
                k += 1;
            }
            proof {
                assert forall|j: int| !#[trigger] is_first_scaled_hit(monitors@, p, j) by {}
            }
        },
        None => {},
    }
    get_fallback_monitor(monitors, main_window, overlay_window)
}

/// What the environment says of the session on Linux.
#[derive(Debug)]
pub struct LinuxSession {
    /// `WAYLAND_DISPLAY` is set.
    pub has_wayland_display: bool,
    /// `XDG_SESSION_TYPE`.
    pub session_type: Option<String>,
    /// `XDG_CURRENT_DESKTOP`.
    pub current_desktop: Option<String>,
    /// `KDE_SESSION_VERSION` is set.
    pub has_kde_session: bool,
}

/// The session runs on Wayland.
pub open spec fn is_wayland(session: LinuxSession) -> bool {
    session.has_wayland_display || (session.session_type matches Some(kind)
        && crate::text::same_ignoring_ascii_case(kind@, "wayland"@))
}

/// The session runs KDE.
pub open spec fn is_kde(session: LinuxSession) -> bool {
    (session.current_desktop matches Some(desktop) && crate::text::contains_text(
        crate::text::uppercase(desktop@),
        "KDE"@,
    )) || session.has_kde_session
}

/// Whether an upper-case desktop name stands for KDE.
pub fn names_kde(upper_desktop: &str) -> (r: bool)
    ensures
        r == crate::text::contains_text(upper_desktop@, "KDE"@),
{
    has_text(upper_desktop, "KDE")
}

/// Whether the layer shell must not be used: it is unstable on KDE with Wayland.
pub fn skips_layer_shell(session: &LinuxSession) -> (r: bool)
    ensures
        r == (is_wayland(*session) && is_kde(*session)),
        r <==> (session.has_wayland_display || (session.session_type is Some
            && crate::text::same_ignoring_ascii_case(session.session_type->0@, "wayland"@))) && (
        session.has_kde_session || (session.current_desktop is Some && crate::text::contains_text(
            crate::text::uppercase(session.current_desktop->0@),
            "KDE"@,
        ))),
{
    let wayland: bool = session.has_wayland_display || match &session.session_type {
        Some(kind) => same_text_ignoring_ascii_case(kind.as_str(), "wayland"),
        None => false,
    };
    let kde: bool = match &session.current_desktop {
        Some(desktop) => names_kde(uppercase_text(desktop.as_str()).as_str()),
        None => false,
    } || session.has_kde_session;
    wayland && kde
}

/// Whether the overlay is anchored to the upper edge of the screen; otherwise it
/// is anchored to the lower one.
pub fn anchors_to_top(position: OverlayPosition) -> (r: bool)
    ensures
        r == (position == OverlayPosition::Top),
{
    position == OverlayPosition::Top
}

/// Whether the overlay is shown at all.
pub fn shows_overlay(position: OverlayPosition) -> (r: bool)
    ensures
        r == (position != OverlayPosition::Hidden),
{
    position != OverlayPosition::Hidden
}

/// Whether the overlay window is created. Linux anchors it and needs no
/// position; elsewhere a position must be known.
pub fn creates_overlay(platform: Platform, has_position: bool) -> (r: bool)
    ensures
        r == (has_position || platform == Platform::Linux),
{
    has_position || platform == Platform::Linux
}

/// A monitor holds its own upper left corner and nothing beyond its far edges;
/// two monitors side by side never hold the same point.
pub proof fn a_point_lies_on_one_side_of_an_edge(area: Area, x: int, y: int)
    requires
        0 < area.width <= i32::MAX,
        0 < area.height <= i32::MAX,
    ensures
        holds_point(area, x, y) <==> area.x <= x && x < area.x + area.width && area.y <= y && y
            < area.y + area.height,
        holds_point(area, area.x as int, area.y as int),
        holds_point(area, area.x + area.width - 1, area.y + area.height - 1),
        !holds_point(area, area.x + area.width, y),
        !holds_point(area, x, area.y + area.height),
        !holds_point(area, area.x - 1, y),
        !holds_point(area, x, area.y - 1),
{
}

/// The largest monitor has at least as many pixels to work with as every other
/// one, and there is only one that is the largest.
pub proof fn one_monitor_is_the_largest(monitors: Seq<MonitorAreas>, a: int, b: int)
    requires
        is_largest(monitors, a),
        0 <= b < monitors.len(),
    ensures
        monitors[b].work_area.width * monitors[b].work_area.height <= monitors[a].work_area.width
            * monitors[a].work_area.height,
        b > a ==> monitors[b].work_area.width * monitors[b].work_area.height
            < monitors[a].work_area.width * monitors[a].work_area.height,
        is_largest(monitors, b) ==> a == b,
{
    assert(work_pixels(monitors[b]) <= work_pixels(monitors[a]));
    if b > a {
        assert(work_pixels(monitors[b]) < work_pixels(monitors[a]));
    }
    if is_largest(monitors, b) && b < a {
        assert(work_pixels(monitors[a]) < work_pixels(monitors[b]));
    }
}

/// Without a monitor at the pointer, the window of the application goes before
/// that of the overlay, that before the largest monitor, and that before the
/// primary one.
pub proof fn the_main_window_goes_first(
    monitors: Seq<MonitorAreas>,
    main_window: bool,
    overlay_window: bool,
    choice: MonitorChoice,
)
    requires
        is_fallback(monitors, main_window, overlay_window, choice),
    ensures
        choice == MonitorChoice::MainWindow <==> main_window,
        choice == MonitorChoice::OverlayWindow <==> !main_window && overlay_window,
        choice is Listed <==> !main_window && !overlay_window && monitors.len() > 0,
        choice == MonitorChoice::Primary <==> !main_window && !overlay_window && monitors.len()
            == 0,
        choice matches MonitorChoice::Listed(i) ==> is_largest(monitors, i as int),
{
}

/// The first monitor with the pointer in its bounds is the only first one, and
/// the pointer is in none before it.
pub proof fn the_first_hit_counts(
    monitors: Seq<MonitorAreas>,
    pointer: (i32, i32),
    i: int,
    j: int,
)
    requires
        is_first_hit(monitors, pointer, i),
        0 <= j < monitors.len(),
    ensures
        holds_point(monitors[i].bounds, pointer.0 as int, pointer.1 as int),
        j < i ==> !holds_point(monitors[j].bounds, pointer.0 as int, pointer.1 as int),
        is_first_hit(monitors, pointer, j) ==> i == j,
{
}

/// A pointer is looked for in the other coordinate space only where there is
/// one, by either of its two readings.
pub proof fn mixed_coordinates_hit_either_way(monitor: MonitorAreas, pointer: (i32, i32))
    ensures
        monitor.scaled is None ==> !is_scaled_hit(monitor, pointer),
        monitor.scaled matches Some(scaled) ==> {
            &&& holds_point(scaled.logical_bounds, pointer.0 as int, pointer.1 as int)
                ==> is_scaled_hit(monitor, pointer)
            &&& holds_point(
                monitor.bounds,
                scaled.scaled_pointer.0 as int,
                scaled.scaled_pointer.1 as int,
            ) ==> is_scaled_hit(monitor, pointer)
            &&& is_scaled_hit(monitor, pointer) ==> holds_point(
                scaled.logical_bounds,
                pointer.0 as int,
                pointer.1 as int,
            ) || holds_point(
                monitor.bounds,
                scaled.scaled_pointer.0 as int,
                scaled.scaled_pointer.1 as int,
            )
        },
{
}

/// A session is told by its display or its type, and a desktop by its name or
/// its session; one sign is enough for either.
pub proof fn one_sign_is_enough(session: LinuxSession)
    ensures
        is_wayland(session) <==> session.has_wayland_display || (session.session_type is Some
            && crate::text::same_ignoring_ascii_case(session.session_type->0@, "wayland"@)),
        is_kde(session) <==> session.has_kde_session || (session.current_desktop is Some
            && crate::text::contains_text(
            crate::text::uppercase(session.current_desktop->0@),
            "KDE"@,
        )),
{
}

} // verus!
