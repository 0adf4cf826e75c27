//! Window geometry and the actions of the tray menu.

use vstd::prelude::*;
use crate::store::HudMode;
use crate::text::str_equals;

verus! {

/// Gap in pixels kept between a recentred window and the monitor's edges.
pub const RECENTER_PAD: i32 = 24;

/// The area of one monitor in physical pixels: its top-left corner and size.
#[derive(Debug, Clone, Copy, PartialEq, Eq, Structural)]
pub struct MonitorArea {
    pub x: i32,
    pub y: i32,
    pub width: u32,
    pub height: u32,
}

/// Window size (width, height) in pixels for each mode.
pub open spec fn spec_window_size(mode: HudMode) -> (u32, u32) {
    match mode {
        HudMode::Minimal => (220, 130),
        HudMode::Full => (320, 280),
    }
}

/// The window size of a mode.
pub fn window_size(mode: HudMode) -> (r: (u32, u32))
    ensures
        r == spec_window_size(mode),
{
    match mode {
        HudMode::Minimal => (220, 130),
        HudMode::Full => (320, 280),
    }
}

/// A monitor dimension read as a 32-bit signed number (`as i32`): sizes
/// above `i32::MAX` wrap to negative values.
pub open spec fn signed_extent(v: u32) -> int {
    if v <= i32::MAX {
        v as int
    } else {
        v - 0x1_0000_0000
    }
}

/// Whether the point `(cx, cy)` lies inside the monitor (left and top edges
/// included, right and bottom excluded).
pub open spec fn monitor_contains(m: MonitorArea, cx: int, cy: int) -> bool {
    &&& m.x <= cx && cx < m.x + signed_extent(m.width)
    &&& m.y <= cy && cy < m.y + signed_extent(m.height)
}

/// The centre of a window of the given mode placed at `(x, y)`.
pub open spec fn window_center(mode: HudMode, x: i32, y: i32) -> (int, int) {
    (x + spec_window_size(mode).0 / 2, y + spec_window_size(mode).1 / 2)
}

/// Whether the centre of the window lies on one of the monitors.
pub open spec fn spec_position_visible(monitors: Seq<MonitorArea>, mode: HudMode, x: i32, y: i32) -> bool {
    exists|i: int|
        0 <= i < monitors.len() && #[trigger] monitor_contains(
            monitors[i],
            window_center(mode, x, y).0,
            window_center(mode, x, y).1,
        )
}

fn extent_i64(v: u32) -> (r: i64)
    ensures
        r == signed_extent(v),
{
    if v <= 0x7fff_ffff {
        v as i64
    } else {
        v as i64 - 0x1_0000_0000
    }
}

/// Whether a window of the given mode at `(x, y)` would have its centre on
/// one of the connected monitors. `monitors` is `None` when the monitors
/// could not be listed; the position is then taken to be visible, so that
/// the window is not moved.
pub fn position_visible(monitors: Option<&Vec<MonitorArea>>, mode: HudMode, x: i32, y: i32) -> (r: bool)
    ensures
        monitors is None ==> r,
        monitors matches Some(ms) ==> r == spec_position_visible(ms@, mode, x, y),
        monitors is Some ==> (r <==> exists|i: int|
            0 <= i < monitors.unwrap()@.len() && #[trigger] center_inside(
                monitors.unwrap()@[i],
                mode,
                x,
                y,
            )),
{
    let ms = match monitors {
        Some(ms) => ms,
        None => return true,
    };
    let (w, h) = window_size(mode);
    let cx: i64 = x as i64 + (w / 2) as i64;
    let cy: i64 = y as i64 + (h / 2) as i64;
    let mut i: usize = 0;
    while i < ms.len()
        invariant
            i <= ms@.len(),
            monitors == Some(ms),
            cx == window_center(mode, x, y).0,
            cy == window_center(mode, x, y).1,
            forall|j: int|
                0 <= j < i ==> !#[trigger] monitor_contains(ms@[j], cx as int, cy as int),
        decreases ms@.len() - i,
    {
        let m = ms[i];
        let right: i64 = m.x as i64 + extent_i64(m.width);
        let bottom: i64 = m.y as i64 + extent_i64(m.height);
        if cx >= m.x as i64 && cx < right && cy >= m.y as i64 && cy < bottom {
            assert(monitor_contains(
                ms@[i as int],
                window_center(mode, x, y).0,
                window_center(mode, x, y).1,
            ));
            proof {
                assert(spec_position_visible(ms@, mode, x, y));
                law_visible_on_any_monitor(ms@, mode, x, y);
                assert(center_inside(ms@[i as int], mode, x, y));
                assert(monitors.unwrap()@ == ms@);
                assert(center_inside(monitors.unwrap()@[i as int], mode, x, y));
            }
            return true;
        }
        i = i + 1;
    }
    assert(!spec_position_visible(ms@, mode, x, y));
    proof {
        law_visible_on_any_monitor(ms@, mode, x, y);
    }
    false
}

/// The monitor a window is recentred on: the primary monitor when it is
/// known, else the first of the listed monitors, else none.
pub open spec fn spec_pick_monitor(primary: Option<MonitorArea>, listed: Option<Seq<MonitorArea>>) -> Option<MonitorArea> {
    match primary {
        Some(m) => Some(m),
        None => match listed {
            Some(ms) => if ms.len() > 0 {
                Some(ms[0])
            } else {
                None
            },
            None => None,
        },
    }
}

/// Picks the monitor to recentre on. `primary` is the primary monitor when
/// it could be found; `listed` the monitors that could be listed, asked
/// for only when there is no primary monitor.
pub fn pick_monitor(primary: Option<MonitorArea>, listed: Option<Vec<MonitorArea>>) -> (r: Option<MonitorArea>)
    ensures
        r == spec_pick_monitor(primary, match listed {
            Some(v) => Some(v@),
            None => None,
        }),
        primary is Some ==> r == primary,
        primary is None ==> (listed is Some && listed.unwrap()@.len() > 0 ==> r == Some(
            listed.unwrap()@[0],
        )),
        primary is None ==> (listed is None || listed.unwrap()@.len() == 0 ==> r is None),
{
    match primary {
        Some(m) => Some(m),
        None => match listed {
            Some(ms) => if ms.len() > 0 {
                Some(ms[0])
            } else {
                None
            },
            None => None,
        },
    }
}

/// The x coordinate of a recentred window, before it is known to fit.
pub open spec fn recenter_x(m: MonitorArea, mode: HudMode) -> int {
    m.x + signed_extent(m.width) - spec_window_size(mode).0 - RECENTER_PAD
}

/// Whether the recentred position can be computed in 32-bit arithmetic
/// without overflow at any step.
pub open spec fn recenter_fits(m: MonitorArea, mode: HudMode) -> bool {
    &&& i32::MIN <= m.x + signed_extent(m.width) <= i32::MAX
    &&& i32::MIN <= m.x + signed_extent(m.width) - spec_window_size(mode).0 <= i32::MAX
    &&& i32::MIN <= recenter_x(m, mode)
    &&& m.y + RECENTER_PAD <= i32::MAX
}

/// Whether the recentred position of the window on `m` can be computed
/// without overflow.
pub fn recenter_in_range(m: MonitorArea, mode: HudMode) -> (r: bool)
    ensures
        r == recenter_fits(m, mode),
{
    let (w, _h) = window_size(mode);
    let right: i64 = m.x as i64 + extent_i64(m.width);
    let shifted: i64 = right - w as i64;
    let x: i64 = shifted - RECENTER_PAD as i64;
    let lo: i64 = -0x8000_0000;
    let hi: i64 = 0x7fff_ffff;
    lo <= right && right <= hi && lo <= shifted && shifted <= hi && lo <= x
        && (m.y as i64) + (RECENTER_PAD as i64) <= hi
}

/// Where the window goes when recentred: near the top-right corner of the
/// monitor, `RECENTER_PAD` pixels from its top and right edges.
pub fn recenter_position(m: MonitorArea, mode: HudMode) -> (r: (i32, i32))
    requires
        recenter_fits(m, mode),
    ensures
        r.0 == recenter_x(m, mode),
        r.1 == m.y + RECENTER_PAD,
        r.0 + spec_window_size(mode).0 + 24 == m.x + signed_extent(m.width),
        r.1 == m.y + 24,
{
    let (w, _h) = window_size(mode);
    let right: i64 = m.x as i64 + extent_i64(m.width);
    let x: i64 = right - w as i64 - RECENTER_PAD as i64;
    ((x as i32), m.y + RECENTER_PAD)
}

/// Where the window goes when the program starts.
#[derive(Debug, Clone, Copy, PartialEq, Eq, Structural)]
pub enum StartupPlacement {
    /// Leave the window where the window system puts it.
    Keep,
    /// Move it back to the saved position.
    Restore(i32, i32),
    /// The saved position is off every monitor: move the window to this
    /// recentred position, show and focus it, and save the position.
    Recenter(i32, i32),
}

/// The placement at start-up: no saved position keeps the window where it
/// is; a saved position whose window centre lies on a monitor (or whose
/// monitors could not be listed) is restored; an off-screen one falls back
/// to the recentred position on `target` when there is a target and the
/// position can be computed, and otherwise keeps the window where it is.
pub open spec fn spec_startup_placement(
    saved: Option<(i32, i32)>,
    mode: HudMode,
    monitors: Option<Seq<MonitorArea>>,
    target: Option<MonitorArea>,
) -> StartupPlacement {
    match saved {
        None => StartupPlacement::Keep,
        Some((x, y)) => {
            let visible = match monitors {
                None => true,
                Some(ms) => spec_position_visible(ms, mode, x, y),
            };
            if visible {
                StartupPlacement::Restore(x, y)
            } else {
                match target {
                    Some(m) => if recenter_fits(m, mode) {
                        StartupPlacement::Recenter(
                            recenter_x(m, mode) as i32,
                            (m.y + RECENTER_PAD) as i32,
                        )
                    } else {
                        StartupPlacement::Keep
                    },
                    None => StartupPlacement::Keep,
                }
            }
        },
    }
}

/// Decides where the window goes at start-up, from the saved position, the
/// connected monitors (`None` when they could not be listed) and the monitor
/// to recentre on (see `pick_monitor`).
pub fn startup_placement(
    saved: Option<(i32, i32)>,
    mode: HudMode,
    monitors: Option<&Vec<MonitorArea>>,
    target: Option<MonitorArea>,
) -> (r: StartupPlacement)
    ensures
        r == spec_startup_placement(
            saved,
            mode,
            match monitors {
                Some(v) => Some(v@),
                None => None,
            },
            target,
        ),
        saved is None ==> r == StartupPlacement::Keep,
        saved matches Some((x, y)) ==> (monitors is None ==> r == StartupPlacement::Restore(x, y)),
        saved matches Some((x, y)) ==> (monitors matches Some(ms) ==> ((exists|i: int|
            0 <= i < ms@.len() && #[trigger] center_inside(ms@[i], mode, x, y)) ==> r
            == StartupPlacement::Restore(x, y))),
        r matches StartupPlacement::Restore(a, b) ==> saved == Some((a, b)),
{
    proof {
        if let Some((x, y)) = saved {
            if let Some(ms) = monitors {
                law_visible_on_any_monitor(ms@, mode, x, y);
            }
        }
    }
    match saved {
        None => StartupPlacement::Keep,
        Some((x, y)) => {
            if position_visible(monitors, mode, x, y) {
                StartupPlacement::Restore(x, y)
            } else {
                match target {
                    Some(m) => if recenter_in_range(m, mode) {
                        let (rx, ry) = recenter_position(m, mode);
                        StartupPlacement::Recenter(rx, ry)
                    } else {
                        StartupPlacement::Keep
                    },
                    None => StartupPlacement::Keep,
                }
            }
        },
    }
}

/// Whether the centre of a window of the given mode placed at `(x, y)`
/// lies inside the monitor `m`, written out.
pub open spec fn center_inside(m: MonitorArea, mode: HudMode, x: i32, y: i32) -> bool {
    let (w, h) = spec_window_size(mode);
    &&& m.x <= x + w / 2
    &&& x + w / 2 < m.x + signed_extent(m.width)
    &&& m.y <= y + h / 2
    &&& y + h / 2 < m.y + signed_extent(m.height)
}

/// Law: the window sizes are 220 x 130 pixels in the minimal mode and
/// 320 x 280 in the full mode.
pub proof fn law_window_sizes(mode: HudMode)
    ensures
        mode == HudMode::Minimal ==> spec_window_size(mode) == (220u32, 130u32),
        mode == HudMode::Full ==> spec_window_size(mode) == (320u32, 280u32),
{
}

/// Law: a position is visible exactly when the window's centre lies inside
/// one of the monitors, whichever of them it is.
pub proof fn law_visible_on_any_monitor(ms: Seq<MonitorArea>, mode: HudMode, x: i32, y: i32)
    ensures
        spec_position_visible(ms, mode, x, y) <==> exists|i: int|
            0 <= i < ms.len() && #[trigger] center_inside(ms[i], mode, x, y),
{
    if spec_position_visible(ms, mode, x, y) {
        let i = choose|i: int|
            0 <= i < ms.len() && #[trigger] monitor_contains(
                ms[i],
                window_center(mode, x, y).0,
                window_center(mode, x, y).1,
            );
        assert(center_inside(ms[i], mode, x, y));
    }
    if exists|i: int| 0 <= i < ms.len() && #[trigger] center_inside(ms[i], mode, x, y) {
        let i = choose|i: int| 0 <= i < ms.len() && #[trigger] center_inside(ms[i], mode, x, y);
        assert(monitor_contains(ms[i], window_center(mode, x, y).0, window_center(mode, x, y).1));
    }
}

/// Law: at start-up, no saved position keeps the window where it is; a
/// saved position whose window centre lies inside any listed monitor, or
/// whose monitors could not be listed, is restored as saved; the window is
/// recentred only when the saved position is on none of the listed
/// monitors, and then to the point `RECENTER_PAD` pixels inside the top-right
/// corner of the target monitor.
pub proof fn law_startup_placement(
    saved: Option<(i32, i32)>,
    mode: HudMode,
    monitors: Option<Seq<MonitorArea>>,
    target: Option<MonitorArea>,
)
    ensures
        saved is None ==> spec_startup_placement(saved, mode, monitors, target)
            == StartupPlacement::Keep,
        saved matches Some((x, y)) ==> (monitors is None ==> spec_startup_placement(
            saved,
            mode,
            monitors,
            target,
        ) == StartupPlacement::Restore(x, y)),
        saved matches Some((x, y)) ==> (monitors matches Some(ms) ==> ((exists|i: int|
            0 <= i < ms.len() && #[trigger] center_inside(ms[i], mode, x, y))
            ==> spec_startup_placement(saved, mode, monitors, target) == StartupPlacement::Restore(
            x,
            y,
        ))),
        spec_startup_placement(saved, mode, monitors, target) matches StartupPlacement::Restore(
            a,
            b,
        ) ==> saved == Some((a, b)),
        match spec_startup_placement(saved, mode, monitors, target) {
            StartupPlacement::Recenter(a, b) => match (saved, monitors, target) {
                (Some((x, y)), Some(ms), Some(m)) => {
                    &&& forall|i: int| 0 <= i < ms.len() ==> !#[trigger] center_inside(ms[i], mode, x, y)
                    &&& a == m.x + signed_extent(m.width) - spec_window_size(mode).0 - RECENTER_PAD
                    &&& b == m.y + RECENTER_PAD
                },
                _ => false,
            },
            _ => true,
        },
{
    if let Some((x, y)) = saved {
        if let Some(ms) = monitors {
            law_visible_on_any_monitor(ms, mode, x, y);
        }
    }
}

/// What a click on an item of the tray menu does.
#[derive(Debug, Clone, Copy, PartialEq, Eq, Structural)]
pub enum MenuAction {
    SetMode(HudMode),
    ToggleWindow,
    Recenter,
    Refresh,
    Quit,
    Ignore,
}

/// The action of the menu item with the given id.
pub open spec fn spec_menu_action(id: Seq<char>) -> MenuAction {
    if id == "mode_minimal"@ {
        MenuAction::SetMode(HudMode::Minimal)
    } else if id == "mode_full"@ {
        MenuAction::SetMode(HudMode::Full)
    } else if id == "toggle"@ {
        MenuAction::ToggleWindow
    } else if id == "recenter"@ {
        MenuAction::Recenter
    } else if id == "refresh"@ {
        MenuAction::Refresh
    } else if id == "quit"@ {
        MenuAction::Quit
    } else {
        MenuAction::Ignore
    }
}

/// Maps the id of a clicked menu item to its action.
pub fn menu_action(id: &str) -> (r: MenuAction)
    ensures
        r == spec_menu_action(id@),
        id@ == "mode_minimal"@ ==> r == MenuAction::SetMode(HudMode::Minimal),
        id@ == "mode_full"@ ==> r == MenuAction::SetMode(HudMode::Full),
        id@ == "toggle"@ ==> r == MenuAction::ToggleWindow,
        id@ == "recenter"@ ==> r == MenuAction::Recenter,
        id@ == "refresh"@ ==> r == MenuAction::Refresh,
        id@ == "quit"@ ==> r == MenuAction::Quit,
{
    proof {
        reveal_strlit("mode_minimal");
        reveal_strlit("mode_full");
        reveal_strlit("toggle");
        reveal_strlit("recenter");
        reveal_strlit("refresh");
        reveal_strlit("quit");
        assert("mode_minimal"@.len() == 12);
        assert("mode_full"@.len() == 9);
        assert("toggle"@.len() == 6);
        assert("recenter"@.len() == 8);
        assert("refresh"@.len() == 7);
        assert("quit"@.len() == 4);
    }
    if str_equals(id, "mode_minimal") {
        MenuAction::SetMode(HudMode::Minimal)
    } else if str_equals(id, "mode_full") {
        MenuAction::SetMode(HudMode::Full)
    } else if str_equals(id, "toggle") {
        MenuAction::ToggleWindow
    } else if str_equals(id, "recenter") {
        MenuAction::Recenter
    } else if str_equals(id, "refresh") {
        MenuAction::Refresh
    } else if str_equals(id, "quit") {
        MenuAction::Quit
    } else {
        MenuAction::Ignore
    }
}

/// The check marks of the two mode items (minimal, full) when `selected`
/// is the current mode: exactly the selected one is checked.
pub fn mode_checks(selected: HudMode) -> (r: (bool, bool))
    ensures
        r.0 == (selected == HudMode::Minimal),
        r.1 == (selected == HudMode::Full),
        r.0 != r.1,
{
    (selected == HudMode::Minimal, selected == HudMode::Full)
}

/// What toggling the window does.
#[derive(Debug, Clone, Copy, PartialEq, Eq, Structural)]
pub enum WindowToggle {
    Hide,
    ShowAndFocus,
}

/// Toggles the window: a window known to be visible is hidden; otherwise
/// (hidden, or its visibility could not be read) it is shown and focused.
pub fn toggle_window(visible: Option<bool>) -> (r: WindowToggle)
    ensures
        r == (if visible == Some(true) {
            WindowToggle::Hide
        } else {
            WindowToggle::ShowAndFocus
        }),
{
    match visible {
        Some(true) => WindowToggle::Hide,
        _ => WindowToggle::ShowAndFocus,
    }
}

} // verus!
