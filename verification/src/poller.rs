//! The poll schedule: when the next fetch happens, how failures back it
//! off, and what each fetch reports to the user interface.

use vstd::prelude::*;
use vstd::string::*;
use crate::error::{HudError, is_message_of};
use crate::store::{Sample, Store, Utilization, appended_history};
use crate::text::{concat3, decimal, u64_to_string};
use crate::usage_client::{UsageSnapshot, WindowUsage};

verus! {

/// Factor by which the interval grows after a failed poll.
pub const BACKOFF_FACTOR: u64 = 2;

/// Longest interval that back-off alone reaches, in seconds.
pub const BACKOFF_CEILING_SECS: u64 = 30 * 60;

/// Shortest interval between regular polls, in seconds.
pub const MIN_POLL_INTERVAL_SECS: u64 = 60;

/// The state of the last fetch, as shown by the user interface.
#[derive(Debug)]
pub enum FetchStatus {
    Fetched { at: String },
    Stale { at: String, reason: String },
    Error { reason: String },
    AuthRequired,
}

/// What a successful poll reports.
#[derive(Debug)]
pub struct UsageUpdate {
    pub snapshot: UsageSnapshot,
    pub status: FetchStatus,
    pub sample: Sample,
}

/// The regular interval for a configured one: at least a minute.
pub open spec fn spec_base_interval(poll_interval_secs: u64) -> u64 {
    if poll_interval_secs < MIN_POLL_INTERVAL_SECS {
        MIN_POLL_INTERVAL_SECS
    } else {
        poll_interval_secs
    }
}

/// The regular interval for a configured one.
pub fn base_interval(poll_interval_secs: u64) -> (r: u64)
    ensures
        r == spec_base_interval(poll_interval_secs),
{
    if poll_interval_secs < MIN_POLL_INTERVAL_SECS {
        MIN_POLL_INTERVAL_SECS
    } else {
        poll_interval_secs
    }
}

/// The interval after one more failure: doubled (saturating at `u64::MAX`)
/// and capped at the ceiling.
pub open spec fn spec_backoff(current: u64) -> u64 {
    let doubled = if current * BACKOFF_FACTOR > u64::MAX {
        u64::MAX
    } else {
        (current * BACKOFF_FACTOR) as u64
    };
    if doubled < BACKOFF_CEILING_SECS {
        doubled
    } else {
        BACKOFF_CEILING_SECS
    }
}

fn backoff(current: u64) -> (r: u64)
    ensures
        r == spec_backoff(current),
{
    let doubled = match current.checked_mul(BACKOFF_FACTOR) {
        Some(d) => d,
        None => u64::MAX,
    };
    if doubled < BACKOFF_CEILING_SECS {
        doubled
    } else {
        BACKOFF_CEILING_SECS
    }
}

/// The interval after a poll with the given outcome: a success or a rejected
/// token returns to the regular interval; a rate limit waits at least as long
/// as the server asks and at least the backed-off interval (or the regular
/// interval when the server asks for no wait); any other failure backs off.
pub open spec fn spec_next_interval(current: u64, base: u64, outcome: Result<(), HudError>) -> u64 {
    match outcome {
        Ok(()) => base,
        Err(HudError::RateLimited { retry_after }) => if retry_after == 0 {
            base
        } else if retry_after < spec_backoff(current) {
            spec_backoff(current)
        } else {
            retry_after
        },
        Err(HudError::AuthRequired) => base,
        Err(_) => spec_backoff(current),
    }
}

/// Twice `current`, but no more than the back-off ceiling.
pub open spec fn doubled_up_to_ceiling(current: u64) -> int {
    if 2 * current < BACKOFF_CEILING_SECS {
        2 * current
    } else {
        BACKOFF_CEILING_SECS as int
    }
}

/// The rule that the interval `next` after a poll obeys, given the interval
/// `current` before it and the regular interval `base`: the regular interval
/// after a success, a rejected token, or a rate limit that asks for no wait;
/// after a rate limit asking for `r > 0` seconds, the larger of `r` and twice
/// the current interval (capped at the ceiling), so that repeated rate
/// limits keep backing off; after any other failure, twice the current
/// interval, capped at the ceiling.
pub open spec fn interval_rule(current: u64, base: u64, outcome: Result<(), HudError>, next: u64) -> bool {
    match outcome {
        Ok(()) => next == base,
        Err(HudError::AuthRequired) => next == base,
        Err(HudError::RateLimited { retry_after }) => if retry_after == 0 {
            next == base
        } else {
            &&& next >= retry_after
            &&& next >= doubled_up_to_ceiling(current)
            &&& (next == retry_after || next == doubled_up_to_ceiling(current))
        },
        Err(_) => next == doubled_up_to_ceiling(current),
    }
}

/// The status reported after a poll with the given outcome, where `next` is
/// the interval until the following poll: nothing for a success (the update
/// itself is reported), the sign-in state for a rejected token, otherwise an
/// error whose reason is `reason`.
pub open spec fn status_after_poll(
    outcome: Result<(), HudError>,
    next: u64,
    status: Option<FetchStatus>,
) -> bool {
    match outcome {
        Ok(()) => status is None,
        Err(HudError::AuthRequired) => status matches Some(FetchStatus::AuthRequired),
        Err(HudError::RateLimited { .. }) => status matches Some(FetchStatus::Error { reason })
            && reason@ == "rate limited (retry in "@ + decimal(next as nat) + "s)"@,
        Err(e) => status matches Some(FetchStatus::Error { reason }) && is_message_of(e, reason@),
    }
}

/// The regular and the current interval between polls, in seconds.
#[derive(Debug)]
pub struct PollSchedule {
    pub base_interval: u64,
    pub current_interval: u64,
}

impl PollSchedule {
    /// Both intervals are at least a minute.
    pub open spec fn wf(&self) -> bool {
        &&& self.base_interval >= MIN_POLL_INTERVAL_SECS
        &&& self.current_interval >= MIN_POLL_INTERVAL_SECS
    }

    /// The schedule for the configured interval, starting at the regular
    /// interval.
    pub fn new(poll_interval_secs: u64) -> (r: PollSchedule)
        ensures
            r.base_interval == spec_base_interval(poll_interval_secs),
            r.current_interval == r.base_interval,
            r.wf(),
    {
        let base = base_interval(poll_interval_secs);
        PollSchedule { base_interval: base, current_interval: base }
    }

    /// Moves the schedule on after a poll and returns the status to report.
    pub fn on_poll_result(&mut self, outcome: &Result<(), HudError>) -> (status: Option<FetchStatus>)
        requires
            old(self).wf(),
        ensures
            final(self).wf(),
            final(self).base_interval == old(self).base_interval,
            final(self).current_interval == spec_next_interval(
                old(self).current_interval,
                old(self).base_interval,
                *outcome,
            ),
            status_after_poll(*outcome, final(self).current_interval, status),
            interval_rule(
                old(self).current_interval,
                old(self).base_interval,
                *outcome,
                final(self).current_interval,
            ),
    {
        match outcome {
            Ok(()) => {
                self.current_interval = self.base_interval;
                None
            },
            Err(HudError::RateLimited { retry_after }) => {
                let next = if *retry_after == 0 {
                    self.base_interval
                } else {
                    let b = backoff(self.current_interval);
                    if *retry_after < b {
                        b
                    } else {
                        *retry_after
                    }
                };
                self.current_interval = next;
                let n = u64_to_string(next);
                Some(FetchStatus::Error { reason: concat3("rate limited (retry in ", n.as_str(), "s)") })
            },
            Err(HudError::AuthRequired) => {
                self.current_interval = self.base_interval;
                Some(FetchStatus::AuthRequired)
            },
            Err(e) => {
                self.current_interval = backoff(self.current_interval);
                Some(FetchStatus::Error { reason: e.message() })
            },
        }
    }

    /// A manual refresh succeeded while waiting: back to the regular interval.
    pub fn on_manual_refresh(&mut self)
        requires
            old(self).wf(),
        ensures
            final(self).wf(),
            final(self).base_interval == old(self).base_interval,
            final(self).current_interval == old(self).base_interval,
    {
        self.current_interval = self.base_interval;
    }
}

/// Law: the back-off never goes past its ceiling, never drops below a
/// minute from an interval of at least a minute, and grows the interval
/// while it is below half the ceiling.
pub proof fn law_backoff_bounded(current: u64)
    ensures
        spec_backoff(current) <= BACKOFF_CEILING_SECS,
        current >= MIN_POLL_INTERVAL_SECS ==> spec_backoff(current) >= MIN_POLL_INTERVAL_SECS,
        current <= BACKOFF_CEILING_SECS / 2 ==> spec_backoff(current) == 2 * current,
        current >= BACKOFF_CEILING_SECS / 2 ==> spec_backoff(current) == BACKOFF_CEILING_SECS,
{
}

/// Law: every poll outcome moves the interval by the rule of
/// `interval_rule`: back to the regular interval after a success or a
/// rejected token, doubled from the current interval (up to the ceiling)
/// after a failure, and for a rate limit at least both the wait the server
/// asks for and that doubled current interval.
pub proof fn law_interval_rule(current: u64, base: u64, outcome: Result<(), HudError>)
    ensures
        interval_rule(current, base, outcome, spec_next_interval(current, base, outcome)),
{
}

/// Law: after a poll the next interval is the regular one after a success
/// or a rejected token; at most the ceiling after another non-rate-limit
/// failure; and after a rate limit asking for `r > 0` seconds, at least `r`
/// and at most the larger of `r` and the ceiling.
pub proof fn law_next_interval(current: u64, base: u64, outcome: Result<(), HudError>)
    ensures
        outcome is Ok ==> spec_next_interval(current, base, outcome) == base,
        outcome matches Err(HudError::AuthRequired) ==> spec_next_interval(current, base, outcome)
            == base,
        outcome matches Err(HudError::RateLimited { retry_after }) ==> (retry_after > 0 ==> (
        spec_next_interval(current, base, outcome) >= retry_after && spec_next_interval(
            current,
            base,
            outcome,
        ) <= if retry_after > BACKOFF_CEILING_SECS {
            retry_after
        } else {
            BACKOFF_CEILING_SECS
        })),
        (outcome matches Err(e) && !(e is AuthRequired) && !(e is RateLimited))
            ==> spec_next_interval(current, base, outcome) <= BACKOFF_CEILING_SECS,
        (outcome matches Err(e) && !(e is AuthRequired) && !(e is RateLimited))
            ==> spec_next_interval(current, base, outcome) == spec_backoff(current),
{
}

/// How long the first poll waits, from the age in seconds of the cached
/// snapshot: until the cached snapshot is a regular interval old; no wait
/// when there is no snapshot or its age is negative or not below the
/// interval.
pub open spec fn spec_warm_delay(base: u64, cached_age: Option<i64>) -> u64 {
    match cached_age {
        Some(age) => if 0 <= age && age < base {
            (base - age) as u64
        } else {
            0
        },
        None => 0,
    }
}

/// The wait before the first poll, given the age of the cached snapshot
/// (`None`: no snapshot was cached).
pub fn warm_delay(base: u64, cached_age: Option<i64>) -> (r: u64)
    ensures
        r == spec_warm_delay(base, cached_age),
{
    match cached_age {
        Some(age) => if age >= 0 && (age as u64) < base {
            base - age as u64
        } else {
            0
        },
        None => 0,
    }
}

/// Law: the first poll never waits longer than the regular interval, and
/// does not wait at all without a cached snapshot.
pub proof fn law_warm_delay_bounded(base: u64, cached_age: Option<i64>)
    ensures
        spec_warm_delay(base, cached_age) <= base,
        cached_age is None ==> spec_warm_delay(base, cached_age) == 0,
        cached_age matches Some(a) ==> (a < 0 || a >= base ==> spec_warm_delay(base, cached_age)
            == 0),
        cached_age matches Some(a) ==> (0 <= a < base ==> spec_warm_delay(base, cached_age) + a
            == base),
{
}

/// The whole seconds from the RFC 3339 instant `stamp` to the instant
/// `now_secs` seconds and `now_nanos` nanoseconds after the Unix epoch,
/// truncated toward zero, as chrono computes it; `None` when `stamp` does
/// not parse or the instant is out of chrono's range.
pub uninterp spec fn rfc3339_age_secs(stamp: Seq<char>, now_secs: i64, now_nanos: u32) -> Option<i64>;

/// Calls `chrono::DateTime::from_timestamp(now_secs, now_nanos)` and
/// `chrono::DateTime::parse_from_rfc3339(stamp)`, then
/// `(now - stamp).num_seconds()`. The result is a function of the three
/// arguments alone and is named, not described.
#[verifier::external_body]
fn age_of_rfc3339(stamp: &str, now_secs: i64, now_nanos: u32) -> (r: Option<i64>)
    ensures
        r == rfc3339_age_secs(stamp@, now_secs, now_nanos),
{
    let now = chrono::DateTime::from_timestamp(now_secs, now_nanos)?;
    let then = chrono::DateTime::parse_from_rfc3339(stamp).ok()?;
    Some((now - then.with_timezone(&chrono::Utc)).num_seconds())
}

/// Law: the regular interval is the configured one, raised to a minute when
/// it is shorter.
pub proof fn law_base_interval(poll_interval_secs: u64)
    ensures
        spec_base_interval(poll_interval_secs) >= 60,
        poll_interval_secs >= 60 ==> spec_base_interval(poll_interval_secs) == poll_interval_secs,
        poll_interval_secs < 60 ==> spec_base_interval(poll_interval_secs) == 60,
{
}

/// The age used for the first poll: that of the cached snapshot, or
/// `i64::MAX` when its time stamp cannot be read.
pub open spec fn cached_age(cached: Option<UsageSnapshot>, now_secs: i64, now_nanos: u32) -> Option<i64> {
    match cached {
        Some(s) => Some(
            match rfc3339_age_secs(s.fetched_at@, now_secs, now_nanos) {
                Some(a) => a,
                None => i64::MAX,
            },
        ),
        None => None,
    }
}

/// Law: a cached snapshot whose time stamp cannot be read does not delay
/// the first poll, for any regular interval up to `i64::MAX` seconds (the
/// unreadable stamp counts as `i64::MAX` seconds old).
pub proof fn law_unreadable_cache_polls_at_once(
    base: u64,
    cached: UsageSnapshot,
    now_secs: i64,
    now_nanos: u32,
)
    requires
        rfc3339_age_secs(cached.fetched_at@, now_secs, now_nanos) is None,
        base <= i64::MAX,
    ensures
        spec_warm_delay(base, cached_age(Some(cached), now_secs, now_nanos)) == 0,
{
}

/// The wait before the first poll of a run, from the snapshot cached by an
/// earlier run and the current time, so that quick restarts do not poll
/// more often than the regular interval.
pub fn first_poll_delay(base: u64, cached: &Option<UsageSnapshot>, now_secs: i64, now_nanos: u32) -> (r: u64)
    ensures
        r == spec_warm_delay(base, cached_age(*cached, now_secs, now_nanos)),
{
    let age = match cached {
        Some(s) => Some(
            match age_of_rfc3339(s.fetched_at.as_str(), now_secs, now_nanos) {
                Some(a) => a,
                None => i64::MAX,
            },
        ),
        None => None,
    };
    warm_delay(base, age)
}

/// The utilization of a window, when there is one.
pub open spec fn utilization_of(w: Option<WindowUsage>) -> Option<Utilization> {
    match w {
        Some(w) => Some(w.utilization),
        None => None,
    }
}

/// The history sample of a snapshot taken at `t`.
pub open spec fn spec_sample_of(snap: UsageSnapshot, t: String) -> Sample {
    Sample { t, five_hour: utilization_of(snap.five_hour), seven_day: utilization_of(snap.seven_day) }
}

/// Whether `s` is the sample of `snap` taken at `t`: its 5-hour value is the
/// utilization of the snapshot's 5-hour window and its weekly value that of
/// the weekly window, each absent when the window is.
pub open spec fn sample_taken_from(snap: UsageSnapshot, t: String, s: Sample) -> bool {
    &&& s.t == t
    &&& match snap.five_hour {
        Some(w) => s.five_hour == Some(w.utilization),
        None => s.five_hour is None,
    }
    &&& match snap.seven_day {
        Some(w) => s.seven_day == Some(w.utilization),
        None => s.seven_day is None,
    }
}

/// Law: a sample takes its 5-hour value from the 5-hour window and its
/// weekly value from the weekly window.
pub proof fn law_sample_by_name(snap: UsageSnapshot, t: String)
    ensures
        sample_taken_from(snap, t, spec_sample_of(snap, t)),
{
}

/// Builds the history sample of a snapshot taken at `t`.
pub fn sample_of(snap: &UsageSnapshot, t: String) -> (r: Sample)
    ensures
        r == spec_sample_of(*snap, t),
        sample_taken_from(*snap, t, r),
{
    let five_hour = match &snap.five_hour {
        Some(w) => Some(w.utilization),
        None => None,
    };
    let seven_day = match &snap.seven_day {
        Some(w) => Some(w.utilization),
        None => None,
    };
    Sample { t, five_hour, seven_day }
}

/// Records a fetched snapshot with its sample taken at `sample_time`, and
/// returns the update to report, marked fetched at `status_time`.
pub fn record_fetch(store: &mut Store, snap: UsageSnapshot, sample_time: String, status_time: String) -> (update: UsageUpdate)
    ensures
        final(store).state.snapshot == Some(snap),
        final(store).state.history@ == appended_history(
            old(store).state.history@,
            spec_sample_of(snap, sample_time),
        ),
        final(store).state.settings == old(store).state.settings,
        update.snapshot == snap,
        update.sample == spec_sample_of(snap, sample_time),
        update.status matches FetchStatus::Fetched { at } && at == status_time,
{
    let sample = sample_of(&snap, sample_time);
    store.record(snap.clone(), sample.clone());
    UsageUpdate { snapshot: snap, status: FetchStatus::Fetched { at: status_time }, sample }
}

/// The status reported when a manual refresh fails: the sign-in state for a
/// rejected token, the wait that the server asked for when rate limited,
/// else the error's message.
pub open spec fn refresh_failure(e: HudError, status: FetchStatus) -> bool {
    match e {
        HudError::AuthRequired => status is AuthRequired,
        HudError::RateLimited { retry_after } => status matches FetchStatus::Error { reason }
            && reason@ == "rate limited (retry in "@ + decimal(retry_after as nat) + "s)"@,
        _ => status matches FetchStatus::Error { reason } && is_message_of(e, reason@),
    }
}

/// The status to report for a failed manual refresh.
pub fn refresh_failure_status(e: &HudError) -> (r: FetchStatus)
    ensures
        refresh_failure(*e, r),
{
    match e {
        HudError::AuthRequired => FetchStatus::AuthRequired,
        HudError::RateLimited { retry_after } => {
            let n = u64_to_string(*retry_after);
            FetchStatus::Error { reason: concat3("rate limited (retry in ", n.as_str(), "s)") }
        },
        _ => FetchStatus::Error { reason: e.message() },
    }
}

} // verus!
