use claude_hud::commands::{bootstrap_cached, bootstrap_fetched};
use claude_hud::error::HudError;
use claude_hud::poller::FetchStatus;
use claude_hud::store::{HudMode, Store};
use claude_hud::tray::{
    menu_action, mode_checks, pick_monitor, position_visible, recenter_in_range, recenter_position, toggle_window,
    startup_placement, window_size, MenuAction, MonitorArea, StartupPlacement, WindowToggle,
};
use claude_hud::usage_client::UsageSnapshot;

fn monitor(x: i32, y: i32, w: u32, h: u32) -> MonitorArea {
    MonitorArea { x, y, width: w, height: h }
}

#[test]
fn window_sizes() {
    assert_eq!(window_size(HudMode::Minimal), (220, 130));
    assert_eq!(window_size(HudMode::Full), (320, 280));
}

#[test]
fn visibility_by_window_center() {
    let ms = vec![monitor(0, 0, 1920, 1080)];
    assert!(position_visible(Some(&ms), HudMode::Minimal, 100, 100));
    // Center x = 1800 + 110 = 1910 < 1920.
    assert!(position_visible(Some(&ms), HudMode::Minimal, 1800, 100));
    // Center x = 1810 + 110 = 1920: on the right edge, outside.
    assert!(!position_visible(Some(&ms), HudMode::Minimal, 1810, 100));
    // Left edge is inside: center x = -110 + 110 = 0.
    assert!(position_visible(Some(&ms), HudMode::Minimal, -110, 100));
    assert!(!position_visible(Some(&ms), HudMode::Full, 100, 1000));
    assert!(!position_visible(Some(&vec![]), HudMode::Full, 0, 0));
}

#[test]
fn visibility_on_a_second_monitor() {
    let ms = vec![monitor(0, 0, 1920, 1080), monitor(-1280, 0, 1280, 1024)];
    assert!(position_visible(Some(&ms), HudMode::Full, -600, 500));
    assert!(!position_visible(Some(&ms), HudMode::Full, -600, 1000));
}

#[test]
fn unknown_monitors_count_as_visible() {
    assert!(position_visible(None, HudMode::Full, 100000, 100000));
}

#[test]
fn monitor_choice() {
    let p = monitor(0, 0, 10, 10);
    let q = monitor(5, 5, 10, 10);
    assert_eq!(pick_monitor(Some(p), Some(vec![q])), Some(p));
    assert_eq!(pick_monitor(None, Some(vec![q, p])), Some(q));
    assert_eq!(pick_monitor(None, Some(vec![])), None);
    assert_eq!(pick_monitor(None, None), None);
}

#[test]
fn recenter_near_top_right() {
    let m = monitor(0, 0, 1920, 1080);
    assert_eq!(recenter_position(m, HudMode::Minimal), (1920 - 220 - 24, 24));
    assert_eq!(recenter_position(m, HudMode::Full), (1920 - 320 - 24, 24));
    let m = monitor(-1280, 100, 1280, 1024);
    assert_eq!(recenter_position(m, HudMode::Minimal), (-1280 + 1280 - 220 - 24, 124));
}

#[test]
fn menu_ids() {
    assert_eq!(menu_action("mode_minimal"), MenuAction::SetMode(HudMode::Minimal));
    assert_eq!(menu_action("mode_full"), MenuAction::SetMode(HudMode::Full));
    assert_eq!(menu_action("toggle"), MenuAction::ToggleWindow);
    assert_eq!(menu_action("recenter"), MenuAction::Recenter);
    assert_eq!(menu_action("refresh"), MenuAction::Refresh);
    assert_eq!(menu_action("quit"), MenuAction::Quit);
    assert_eq!(menu_action("quit "), MenuAction::Ignore);
    assert_eq!(menu_action(""), MenuAction::Ignore);
}

#[test]
fn check_marks_follow_mode() {
    assert_eq!(mode_checks(HudMode::Minimal), (true, false));
    assert_eq!(mode_checks(HudMode::Full), (false, true));
}

#[test]
fn toggling() {
    assert_eq!(toggle_window(Some(true)), WindowToggle::Hide);
    assert_eq!(toggle_window(Some(false)), WindowToggle::ShowAndFocus);
    assert_eq!(toggle_window(None), WindowToggle::ShowAndFocus);
}

fn snap(at: &str) -> UsageSnapshot {
    UsageSnapshot { five_hour: None, seven_day: None, seven_day_opus: None, seven_day_sonnet: None, fetched_at: at.to_string() }
}

#[test]
fn bootstrap_from_cache_is_stale() {
    let mut store = Store::load(None);
    assert!(bootstrap_cached(&store).is_none());
    store.record(snap("2026-05-15T22:50:00+00:00"), claude_hud::poller::sample_of(&snap("x"), "t".to_string()));
    let b = bootstrap_cached(&store).unwrap();
    match b.status {
        FetchStatus::Stale { at, reason } => {
            assert_eq!(at, "2026-05-15T22:50:00+00:00");
            assert_eq!(reason, "rehydrated");
        }
        _ => panic!(),
    }
    assert_eq!(b.history.len(), 1);
}

#[test]
fn bootstrap_after_fetch() {
    let mut store = Store::load(None);
    let b = bootstrap_fetched(&mut store, Ok(snap("f")), "s".to_string(), "o".to_string());
    assert!(matches!(b.status, FetchStatus::Fetched { ref at } if at == "o"));
    assert_eq!(b.history.len(), 1);
    assert_eq!(b.snapshot.unwrap().fetched_at, "f");

    let mut store = Store::load(None);
    let b = bootstrap_fetched(&mut store, Err(HudError::AuthRequired), "s".to_string(), "o".to_string());
    assert!(matches!(b.status, FetchStatus::AuthRequired));
    assert!(b.snapshot.is_none());
    assert!(b.history.is_empty());

    let b = bootstrap_fetched(&mut store, Err(HudError::Http("down".to_string())), "s".to_string(), "o".to_string());
    match b.status {
        FetchStatus::Error { reason } => assert_eq!(reason, "http error: down"),
        _ => panic!(),
    }
    assert!(store.snapshot().is_none());
}

#[test]
fn recenter_range_check() {
    assert!(recenter_in_range(monitor(0, 0, 1920, 1080), HudMode::Minimal));
    assert!(!recenter_in_range(monitor(i32::MIN, 0, 10, 10), HudMode::Minimal));
    assert!(!recenter_in_range(monitor(0, i32::MAX, 10, 10), HudMode::Full));
    assert!(!recenter_in_range(monitor(i32::MAX, 0, 10, 10), HudMode::Full));
    // A width above i32::MAX reads as negative, as with `as i32`.
    assert!(recenter_in_range(monitor(0, 0, u32::MAX, 10), HudMode::Minimal));
    assert_eq!(recenter_position(monitor(0, 0, u32::MAX, 10), HudMode::Minimal), (-1 - 220 - 24, 24));
}

#[test]
fn startup_without_saved_position_keeps_window() {
    let ms = vec![monitor(0, 0, 1920, 1080)];
    assert_eq!(startup_placement(None, HudMode::Minimal, Some(&ms), Some(ms[0])), StartupPlacement::Keep);
}

#[test]
fn startup_restores_visible_position() {
    let ms = vec![monitor(0, 0, 1920, 1080)];
    assert_eq!(startup_placement(Some((100, 200)), HudMode::Full, Some(&ms), Some(ms[0])), StartupPlacement::Restore(100, 200));
    // Monitors that cannot be listed: the saved position is trusted.
    assert_eq!(startup_placement(Some((5000, 5000)), HudMode::Full, None, None), StartupPlacement::Restore(5000, 5000));
}

#[test]
fn startup_recenters_off_screen_position() {
    let ms = vec![monitor(0, 0, 1920, 1080)];
    assert_eq!(
        startup_placement(Some((-3000, 200)), HudMode::Minimal, Some(&ms), Some(ms[0])),
        StartupPlacement::Recenter(1920 - 220 - 24, 24)
    );
    assert_eq!(startup_placement(Some((-3000, 200)), HudMode::Minimal, Some(&ms), None), StartupPlacement::Keep);
    assert_eq!(
        startup_placement(Some((-3000, 200)), HudMode::Minimal, Some(&ms), Some(monitor(0, i32::MAX, 10, 10))),
        StartupPlacement::Keep
    );
}
