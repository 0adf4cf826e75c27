//! What the user interface receives when it starts.

use vstd::prelude::*;
use vstd::string::*;
use crate::error::{HudError, is_message_of};
use crate::poller::{FetchStatus, record_fetch, spec_sample_of};
use crate::store::{Sample, Settings, Store, appended_history};
use crate::usage_client::UsageSnapshot;

verus! {

/// Everything the user interface needs to draw its first frame.
#[derive(Debug)]
pub struct Bootstrap {
    pub snapshot: Option<UsageSnapshot>,
    pub history: Vec<Sample>,
    pub status: FetchStatus,
    pub settings: Settings,
}

/// The start-up data served from a cached snapshot, when there is one: the
/// snapshot, marked stale since its fetch time with the reason
/// `"rehydrated"`, with the stored history and settings. `None` when no
/// snapshot is cached, in which case a fetch is needed.
pub fn bootstrap_cached(store: &Store) -> (r: Option<Bootstrap>)
    ensures
        store.state.snapshot is None ==> r is None,
        store.state.snapshot matches Some(s) ==> (r matches Some(b) && b.snapshot == Some(s)
            && b.history@ == store.state.history@ && b.settings == store.state.settings
            && (b.status matches FetchStatus::Stale { at, reason } && at == s.fetched_at
            && reason@ == "rehydrated"@)),
{
    match store.snapshot() {
        Some(s) => {
            let at = s.fetched_at.clone();
            Some(
                Bootstrap {
                    status: FetchStatus::Stale { at, reason: "rehydrated".to_owned() },
                    snapshot: Some(s),
                    history: store.history(),
                    settings: store.settings(),
                },
            )
        },
        None => None,
    }
}

/// The start-up data after a fetch made because nothing was cached. A
/// fetched snapshot is recorded (its sample taken at `sample_time`) and
/// reported fresh as of `status_time`; a rejected token reports the sign-in
/// state; any other failure reports the error's message. The history and
/// settings are those of the store after the fetch.
pub fn bootstrap_fetched(
    store: &mut Store,
    fetched: Result<UsageSnapshot, HudError>,
    sample_time: String,
    status_time: String,
) -> (r: Bootstrap)
    ensures
        fetched matches Ok(s) ==> {
            &&& final(store).state.snapshot == Some(s)
            &&& final(store).state.history@ == appended_history(
                old(store).state.history@,
                spec_sample_of(s, sample_time),
            )
            &&& r.snapshot == Some(s)
            &&& r.status matches FetchStatus::Fetched { at } && at == status_time
        },
        fetched is Err ==> final(store).state == old(store).state && r.snapshot is None,
        fetched matches Err(HudError::AuthRequired) ==> r.status is AuthRequired,
        fetched matches Err(e) ==> (!(e is AuthRequired) ==> (r.status matches FetchStatus::Error {
            reason,
        } && is_message_of(e, reason@))),
        final(store).state.settings == old(store).state.settings,
        r.history@ == final(store).state.history@,
        r.settings == final(store).state.settings,
{
    let (snapshot, status) = match fetched {
        Ok(s) => {
            let update = record_fetch(store, s, sample_time, status_time);
            (Some(update.snapshot), update.status)
        },
        Err(HudError::AuthRequired) => (None, FetchStatus::AuthRequired),
        Err(e) => (None, FetchStatus::Error { reason: e.message() }),
    };
    Bootstrap { snapshot, status, history: store.history(), settings: store.settings() }
}

} // verus!
