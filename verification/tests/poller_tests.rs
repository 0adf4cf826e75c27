use claude_hud::error::HudError;
use claude_hud::poller::{
    base_interval, first_poll_delay, record_fetch, refresh_failure_status, sample_of, warm_delay,
    FetchStatus, PollSchedule, BACKOFF_CEILING_SECS,
};
use claude_hud::store::{Store, Utilization};
use claude_hud::usage_client::{UsageSnapshot, WindowUsage};

fn snapshot_at(at: &str) -> UsageSnapshot {
    UsageSnapshot {
        five_hour: Some(WindowUsage { utilization: Utilization { bits: 20.0f64.to_bits() }, resets_at: None }),
        seven_day: Some(WindowUsage { utilization: Utilization { bits: 3.0f64.to_bits() }, resets_at: None }),
        seven_day_opus: None,
        seven_day_sonnet: Some(WindowUsage { utilization: Utilization { bits: 2.0f64.to_bits() }, resets_at: None }),
        fetched_at: at.to_string(),
    }
}

fn reason(s: &Option<FetchStatus>) -> String {
    match s {
        Some(FetchStatus::Error { reason }) => reason.clone(),
        _ => panic!("not an error status"),
    }
}

#[test]
fn base_interval_is_at_least_a_minute() {
    assert_eq!(base_interval(10), 60);
    assert_eq!(base_interval(60), 60);
    assert_eq!(base_interval(90), 90);
}

#[test]
fn new_schedule_starts_at_base() {
    let s = PollSchedule::new(30);
    assert_eq!(s.base_interval, 60);
    assert_eq!(s.current_interval, 60);
}

#[test]
fn generic_failure_doubles_up_to_ceiling() {
    let mut s = PollSchedule::new(90);
    let st = s.on_poll_result(&Err(HudError::Http("boom".to_string())));
    assert_eq!(s.current_interval, 180);
    assert_eq!(reason(&st), "http error: boom");
    for _ in 0..10 {
        s.on_poll_result(&Err(HudError::Http("boom".to_string())));
    }
    assert_eq!(s.current_interval, BACKOFF_CEILING_SECS);
}

#[test]
fn success_resets_to_base() {
    let mut s = PollSchedule::new(90);
    s.on_poll_result(&Err(HudError::CredsInvalid("x".to_string())));
    assert_eq!(s.current_interval, 180);
    let st = s.on_poll_result(&Ok(()));
    assert!(st.is_none());
    assert_eq!(s.current_interval, 90);
}

#[test]
fn auth_required_resets_and_reports_sign_in() {
    let mut s = PollSchedule::new(90);
    s.on_poll_result(&Err(HudError::Http("x".to_string())));
    let st = s.on_poll_result(&Err(HudError::AuthRequired));
    assert!(matches!(st, Some(FetchStatus::AuthRequired)));
    assert_eq!(s.current_interval, 90);
}

#[test]
fn rate_limit_respects_retry_after() {
    let mut s = PollSchedule::new(90);
    let st = s.on_poll_result(&Err(HudError::RateLimited { retry_after: 1000 }));
    assert_eq!(s.current_interval, 1000);
    assert_eq!(reason(&st), "rate limited (retry in 1000s)");
}

#[test]
fn rate_limit_uses_backoff_when_larger() {
    let mut s = PollSchedule::new(90);
    let st = s.on_poll_result(&Err(HudError::RateLimited { retry_after: 60 }));
    assert_eq!(s.current_interval, 180);
    assert_eq!(reason(&st), "rate limited (retry in 180s)");
}

#[test]
fn rate_limit_with_zero_keeps_base() {
    let mut s = PollSchedule::new(90);
    s.on_poll_result(&Err(HudError::Http("x".to_string())));
    let st = s.on_poll_result(&Err(HudError::RateLimited { retry_after: 0 }));
    assert_eq!(s.current_interval, 90);
    assert_eq!(reason(&st), "rate limited (retry in 90s)");
}

#[test]
fn rate_limit_above_ceiling_is_kept() {
    let mut s = PollSchedule::new(90);
    s.on_poll_result(&Err(HudError::RateLimited { retry_after: 7200 }));
    assert_eq!(s.current_interval, 7200);
}

#[test]
fn large_base_backs_off_to_ceiling() {
    let mut s = PollSchedule::new(u64::MAX);
    s.on_poll_result(&Err(HudError::Http("x".to_string())));
    assert_eq!(s.current_interval, BACKOFF_CEILING_SECS);
}

#[test]
fn manual_refresh_resets_interval() {
    let mut s = PollSchedule::new(120);
    s.on_poll_result(&Err(HudError::Http("x".to_string())));
    assert_eq!(s.current_interval, 240);
    s.on_manual_refresh();
    assert_eq!(s.current_interval, 120);
}

#[test]
fn warm_delay_cases() {
    assert_eq!(warm_delay(90, None), 0);
    assert_eq!(warm_delay(90, Some(30)), 60);
    assert_eq!(warm_delay(90, Some(0)), 90);
    assert_eq!(warm_delay(90, Some(90)), 0);
    assert_eq!(warm_delay(90, Some(-5)), 0);
    assert_eq!(warm_delay(90, Some(i64::MAX)), 0);
}

#[test]
fn first_poll_delay_from_cached_timestamp() {
    let cached = Some(snapshot_at("2026-05-15T22:50:00+00:00"));
    // 30 s after the cached fetch.
    assert_eq!(first_poll_delay(90, &cached, 1778885430, 0), 60);
    // The same instant written with another offset.
    let cached = Some(snapshot_at("2026-05-16T00:50:00+02:00"));
    assert_eq!(first_poll_delay(90, &cached, 1778885400 + 89, 999_999_999), 1);
}

#[test]
fn first_poll_delay_without_usable_cache() {
    assert_eq!(first_poll_delay(90, &None, 1778885430, 0), 0);
    let cached = Some(snapshot_at("yesterday"));
    assert_eq!(first_poll_delay(90, &cached, 1778885430, 0), 0);
    // A cached time in the future gives a negative age: no wait.
    let cached = Some(snapshot_at("2026-05-15T22:50:00+00:00"));
    assert_eq!(first_poll_delay(90, &cached, 1778885400 - 10, 0), 0);
}

#[test]
fn sample_takes_five_hour_and_weekly() {
    let s = sample_of(&snapshot_at("x"), "t".to_string());
    assert_eq!(s.t, "t");
    assert_eq!(f64::from_bits(s.five_hour.unwrap().bits), 20.0);
    assert_eq!(f64::from_bits(s.seven_day.unwrap().bits), 3.0);
}

#[test]
fn record_fetch_updates_store_and_reports() {
    let mut store = Store::load(None);
    let u = record_fetch(&mut store, snapshot_at("f"), "s".to_string(), "o".to_string());
    assert!(matches!(u.status, FetchStatus::Fetched { ref at } if at == "o"));
    assert_eq!(u.sample.t, "s");
    assert_eq!(u.snapshot.fetched_at, "f");
    assert_eq!(store.history().len(), 1);
    assert_eq!(store.snapshot().unwrap().fetched_at, "f");
}

#[test]
fn refresh_failure_statuses() {
    assert!(matches!(refresh_failure_status(&HudError::AuthRequired), FetchStatus::AuthRequired));
    match refresh_failure_status(&HudError::RateLimited { retry_after: 42 }) {
        FetchStatus::Error { reason } => assert_eq!(reason, "rate limited (retry in 42s)"),
        _ => panic!(),
    }
    match refresh_failure_status(&HudError::CredsMissing("/x".to_string())) {
        FetchStatus::Error { reason } => assert_eq!(reason, "credentials file not found at /x"),
        _ => panic!(),
    }
}
