//! The usage data returned by the usage endpoint, and the decisions taken
//! on an HTTP response before its body is read.

use vstd::prelude::*;
use vstd::string::*;
use crate::error::HudError;
use crate::store::Utilization;
use crate::text::{concat3, parse_u64};

verus! {

/// Status code sent back when the access token is rejected.
pub const STATUS_UNAUTHORIZED: u16 = 401;

/// Status code sent back when too many requests were made.
pub const STATUS_TOO_MANY_REQUESTS: u16 = 429;

/// Seconds to wait after a rate-limited response that gives no usable
/// `retry-after` header.
pub const DEFAULT_RETRY_AFTER_SECS: u64 = 60;

/// Usage of one quota window: how much of it is used, and when it resets.
#[derive(Debug)]
pub struct WindowUsage {
    pub utilization: Utilization,
    pub resets_at: Option<String>,
}

impl Clone for WindowUsage {
    fn clone(&self) -> (r: Self)
        ensures
            r == *self,
    {
        WindowUsage { utilization: self.utilization, resets_at: self.resets_at.clone() }
    }
}

/// The usage of every quota window at the time `fetched_at` (RFC 3339).
#[derive(Debug)]
pub struct UsageSnapshot {
    pub five_hour: Option<WindowUsage>,
    pub seven_day: Option<WindowUsage>,
    pub seven_day_opus: Option<WindowUsage>,
    pub seven_day_sonnet: Option<WindowUsage>,
    pub fetched_at: String,
}

impl Clone for UsageSnapshot {
    fn clone(&self) -> (r: Self)
        ensures
            r == *self,
    {
        UsageSnapshot {
            five_hour: self.five_hour.clone(),
            seven_day: self.seven_day.clone(),
            seven_day_opus: self.seven_day_opus.clone(),
            seven_day_sonnet: self.seven_day_sonnet.clone(),
            fetched_at: self.fetched_at.clone(),
        }
    }
}

/// One window as the endpoint sends it: the utilization may be missing.
#[derive(Debug)]
pub struct RawWindow {
    pub utilization: Option<Utilization>,
    pub resets_at: Option<String>,
}

/// The body of the usage endpoint's answer, as sent.
#[derive(Debug)]
pub struct RawUsage {
    pub five_hour: Option<RawWindow>,
    pub seven_day: Option<RawWindow>,
    pub seven_day_opus: Option<RawWindow>,
    pub seven_day_sonnet: Option<RawWindow>,
}

/// A window is kept only when it is present and carries a utilization.
pub open spec fn spec_to_window(raw: Option<RawWindow>) -> Option<WindowUsage> {
    match raw {
        Some(w) => match w.utilization {
            Some(u) => Some(WindowUsage { utilization: u, resets_at: w.resets_at }),
            None => None,
        },
        None => None,
    }
}

/// Whether `w` is what the raw window `raw` of the same name becomes: absent
/// when the raw window is absent or has no utilization, else the raw
/// window's utilization and reset time.
pub open spec fn window_converted(raw: Option<RawWindow>, w: Option<WindowUsage>) -> bool {
    match raw {
        None => w is None,
        Some(rw) => match rw.utilization {
            None => w is None,
            Some(u) => w matches Some(v) && v.utilization == u && v.resets_at == rw.resets_at,
        },
    }
}

/// Converts one window of the raw answer.
pub fn to_window(raw: Option<RawWindow>) -> (r: Option<WindowUsage>)
    ensures
        r == spec_to_window(raw),
        window_converted(raw, r),
{
    match raw {
        Some(w) => match w.utilization {
            Some(u) => Some(WindowUsage { utilization: u, resets_at: w.resets_at }),
            None => None,
        },
        None => None,
    }
}

/// The snapshot made of a raw answer received at `fetched_at`.
pub open spec fn spec_snapshot_from_raw(raw: RawUsage, fetched_at: String) -> UsageSnapshot {
    UsageSnapshot {
        five_hour: spec_to_window(raw.five_hour),
        seven_day: spec_to_window(raw.seven_day),
        seven_day_opus: spec_to_window(raw.seven_day_opus),
        seven_day_sonnet: spec_to_window(raw.seven_day_sonnet),
        fetched_at,
    }
}

/// Builds the snapshot of a successful answer.
pub fn snapshot_from_raw(raw: RawUsage, fetched_at: String) -> (r: UsageSnapshot)
    ensures
        r == spec_snapshot_from_raw(raw, fetched_at),
        window_converted(raw.five_hour, r.five_hour),
        window_converted(raw.seven_day, r.seven_day),
        window_converted(raw.seven_day_opus, r.seven_day_opus),
        window_converted(raw.seven_day_sonnet, r.seven_day_sonnet),
        r.fetched_at == fetched_at,
{
    UsageSnapshot {
        five_hour: to_window(raw.five_hour),
        seven_day: to_window(raw.seven_day),
        seven_day_opus: to_window(raw.seven_day_opus),
        seven_day_sonnet: to_window(raw.seven_day_sonnet),
        fetched_at,
    }
}

/// Law: a converted window keeps the utilization and reset time of the raw
/// window and exists exactly when the raw window carries a utilization.
pub proof fn law_window_conversion(raw: Option<RawWindow>)
    ensures
        window_converted(raw, spec_to_window(raw)),
        spec_to_window(raw) is Some <==> (raw matches Some(rw) && rw.utilization is Some),
{
}

/// Law: each window of the snapshot is made from the raw window of the same
/// name (5-hour from 5-hour, weekly from weekly, weekly Opus from weekly
/// Opus, weekly Sonnet from weekly Sonnet), and the snapshot carries the
/// time it was fetched at.
pub proof fn law_snapshot_windows_by_name(raw: RawUsage, fetched_at: String)
    ensures
        window_converted(raw.five_hour, spec_snapshot_from_raw(raw, fetched_at).five_hour),
        window_converted(raw.seven_day, spec_snapshot_from_raw(raw, fetched_at).seven_day),
        window_converted(raw.seven_day_opus, spec_snapshot_from_raw(raw, fetched_at).seven_day_opus),
        window_converted(
            raw.seven_day_sonnet,
            spec_snapshot_from_raw(raw, fetched_at).seven_day_sonnet,
        ),
        spec_snapshot_from_raw(raw, fetched_at).fetched_at == fetched_at,
{
}

/// What to do with a response, judged from its status line and its
/// `retry-after` header alone.
#[derive(Debug)]
pub enum StatusVerdict {
    /// A 2xx answer: read the body as usage data.
    Proceed,
    /// The request failed with this error; the body is not needed.
    Reject(HudError),
    /// Another failure: read the body and report it with the status.
    ReadBodyAndFail,
}

/// Whether a status code is in the 2xx range.
pub open spec fn is_success(status: u16) -> bool {
    200 <= status && status <= 299
}

/// Seconds that a `retry-after` header asks for: its value when it is a
/// plain unsigned decimal number, else the default.
pub open spec fn spec_retry_after(header: Option<Seq<char>>) -> u64 {
    match header {
        Some(h) => match crate::text::parse_u64_spec(h) {
            Some(n) => n,
            None => DEFAULT_RETRY_AFTER_SECS,
        },
        None => DEFAULT_RETRY_AFTER_SECS,
    }
}

/// Law: without a usable `retry-after` header the wait is 60 seconds; with
/// one, it is the number the header holds.
pub proof fn law_retry_after(header: Option<Seq<char>>)
    ensures
        header is None ==> spec_retry_after(header) == 60,
        header matches Some(h) ==> (crate::text::parse_u64_spec(h) is None ==> spec_retry_after(
            header,
        ) == 60),
        header matches Some(h) ==> (crate::text::parse_u64_spec(h) matches Some(n)
            ==> spec_retry_after(header) == n),
{
}

/// Reads the `retry-after` header (given when present and readable as text).
pub fn retry_after_secs(header: Option<&str>) -> (r: u64)
    ensures
        r == spec_retry_after(match header {
            Some(h) => Some(h@),
            None => None,
        }),
{
    match header {
        Some(h) => match parse_u64(h) {
            Some(n) => n,
            None => DEFAULT_RETRY_AFTER_SECS,
        },
        None => DEFAULT_RETRY_AFTER_SECS,
    }
}

/// Judges a response: 401 means the token was rejected, 429 means rate
/// limited (for the seconds that `retry-after` gives), another non-2xx code
/// is a failure whose body is reported, and a 2xx code lets the body be read.
pub fn classify_status(status: u16, retry_after: Option<&str>) -> (r: StatusVerdict)
    ensures
        status == STATUS_UNAUTHORIZED ==> r matches StatusVerdict::Reject(HudError::AuthRequired),
        status == STATUS_TOO_MANY_REQUESTS ==> (r matches StatusVerdict::Reject(
            HudError::RateLimited { retry_after: n },
        ) && n == spec_retry_after(match retry_after {
            Some(h) => Some(h@),
            None => None,
        })),
        status != STATUS_UNAUTHORIZED && status != STATUS_TOO_MANY_REQUESTS && !is_success(status)
            ==> r is ReadBodyAndFail,
        status != STATUS_UNAUTHORIZED && status != STATUS_TOO_MANY_REQUESTS && is_success(status)
            ==> r is Proceed,
        status == 401 ==> r matches StatusVerdict::Reject(HudError::AuthRequired),
        status == 429 ==> r matches StatusVerdict::Reject(HudError::RateLimited { .. }),
        (200 <= status < 300) ==> r is Proceed,
        (status < 200 || status >= 300) && status != 401 && status != 429 ==> r is ReadBodyAndFail,
{
    if status == STATUS_UNAUTHORIZED {
        StatusVerdict::Reject(HudError::AuthRequired)
    } else if status == STATUS_TOO_MANY_REQUESTS {
        StatusVerdict::Reject(HudError::RateLimited { retry_after: retry_after_secs(retry_after) })
    } else if 200 <= status && status <= 299 {
        StatusVerdict::Proceed
    } else {
        StatusVerdict::ReadBodyAndFail
    }
}

/// The error reported for a non-2xx answer: the status as displayed (code
/// and reason) and the body, as `"status {status}: {body}"`.
pub fn http_status_error(status_text: &str, body: &str) -> (r: HudError)
    ensures
        r matches HudError::Http(m) && m@ == "status "@ + status_text@ + ": "@ + body@,
{
    let head = concat3("status ", status_text, ": ");
    let mut m = head;
    m.append(body);
    HudError::Http(m)
}

} // verus!
