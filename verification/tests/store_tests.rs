use claude_hud::store::{HudMode, Persisted, Sample, Settings, Store, Utilization, HISTORY_CAP};
use claude_hud::usage_client::{UsageSnapshot, WindowUsage};

fn util(x: f64) -> Utilization {
    Utilization { bits: x.to_bits() }
}

fn sample(t: &str, five: f64) -> Sample {
    Sample { t: t.to_string(), five_hour: Some(util(five)), seven_day: None }
}

fn snapshot(at: &str, five: f64) -> UsageSnapshot {
    UsageSnapshot {
        five_hour: Some(WindowUsage { utilization: util(five), resets_at: Some("2026-05-15T22:50:00+00:00".to_string()) }),
        seven_day: None,
        seven_day_opus: None,
        seven_day_sonnet: None,
        fetched_at: at.to_string(),
    }
}

#[test]
fn default_settings_values() {
    let s = Settings::default();
    assert_eq!(s.mode, HudMode::Minimal);
    assert_eq!(s.poll_interval_secs, 90);
    assert_eq!(s.hotkey, "Ctrl+Alt+H");
    assert_eq!(s.window_pos, None);
}

#[test]
fn load_without_saved_state_is_default() {
    let store = Store::load(None);
    assert!(store.snapshot().is_none());
    assert!(store.history().is_empty());
    assert_eq!(store.settings().poll_interval_secs, 90);
}

#[test]
fn load_keeps_saved_state() {
    let mut settings = Settings::default();
    settings.mode = HudMode::Full;
    settings.window_pos = Some((5, 6));
    let saved = Persisted { settings, snapshot: Some(snapshot("a", 0.5)), history: vec![sample("a", 0.5)] };
    let store = Store::load(Some(saved));
    assert_eq!(store.settings().mode, HudMode::Full);
    assert_eq!(store.settings().window_pos, Some((5, 6)));
    assert_eq!(store.snapshot().unwrap().fetched_at, "a");
    assert_eq!(store.history().len(), 1);
}

#[test]
fn mode_names_round_trip() {
    assert_eq!(HudMode::from_name("minimal"), Ok(HudMode::Minimal));
    assert_eq!(HudMode::from_name("full"), Ok(HudMode::Full));
    assert_eq!(HudMode::from_name(HudMode::Minimal.name()), Ok(HudMode::Minimal));
    assert_eq!(HudMode::from_name(HudMode::Full.name()), Ok(HudMode::Full));
}

#[test]
fn old_tray_mode_migrates_to_minimal() {
    assert_eq!(HudMode::from_name("tray"), Ok(HudMode::Minimal));
}

#[test]
fn unknown_mode_is_an_error() {
    assert_eq!(HudMode::from_name("huge"), Err("unknown mode: huge".to_string()));
    assert_eq!(HudMode::from_name(""), Err("unknown mode: ".to_string()));
}

#[test]
fn set_mode_returns_new_settings() {
    let mut store = Store::load(None);
    let s = store.set_mode(HudMode::Full);
    assert_eq!(s.mode, HudMode::Full);
    assert_eq!(s.hotkey, "Ctrl+Alt+H");
    assert_eq!(store.settings().mode, HudMode::Full);
    let s = store.set_mode(HudMode::Minimal);
    assert_eq!(s.mode, HudMode::Minimal);
}

#[test]
fn set_window_pos_reports_change_once() {
    let mut store = Store::load(None);
    assert!(store.set_window_pos(10, -20));
    assert_eq!(store.settings().window_pos, Some((10, -20)));
    assert!(!store.set_window_pos(10, -20));
    assert!(store.set_window_pos(11, -20));
    assert_eq!(store.settings().window_pos, Some((11, -20)));
}

#[test]
fn record_sets_snapshot_and_appends() {
    let mut store = Store::load(None);
    store.record(snapshot("t1", 0.2), sample("t1", 0.2));
    store.record(snapshot("t2", 0.3), sample("t2", 0.3));
    assert_eq!(store.snapshot().unwrap().fetched_at, "t2");
    let h = store.history();
    assert_eq!(h.len(), 2);
    assert_eq!(h[0].t, "t1");
    assert_eq!(h[1].t, "t2");
    assert_eq!(f64::from_bits(h[1].five_hour.unwrap().bits), 0.3);
}

#[test]
fn record_caps_history_and_drops_oldest() {
    let mut store = Store::load(None);
    for i in 0..(HISTORY_CAP + 5) {
        store.record(snapshot(&i.to_string(), 0.1), sample(&i.to_string(), 0.1));
    }
    let h = store.history();
    assert_eq!(h.len(), HISTORY_CAP);
    assert_eq!(h[0].t, "5");
    assert_eq!(h[HISTORY_CAP - 1].t, (HISTORY_CAP + 4).to_string());
}

#[test]
fn record_trims_an_overlong_loaded_history() {
    let mut history = Vec::new();
    for i in 0..(HISTORY_CAP + 10) {
        history.push(sample(&i.to_string(), 0.0));
    }
    let saved = Persisted { settings: Settings::default(), snapshot: None, history };
    let mut store = Store::load(Some(saved));
    assert_eq!(store.history().len(), HISTORY_CAP + 10);
    store.record(snapshot("new", 0.9), sample("new", 0.9));
    let h = store.history();
    assert_eq!(h.len(), HISTORY_CAP);
    assert_eq!(h[HISTORY_CAP - 1].t, "new");
    assert_eq!(h[0].t, "11");
}

#[test]
fn utilization_keeps_float_bits() {
    let mut store = Store::load(None);
    let x = 20.000000000000004_f64;
    store.record(snapshot("t", x), sample("t", x));
    let snap = store.snapshot().unwrap();
    assert_eq!(f64::from_bits(snap.five_hour.unwrap().utilization.bits), x);
}
