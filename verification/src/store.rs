//! Settings, the latest usage snapshot and the history of usage samples,
//! with the rules by which each operation changes them.

use vstd::prelude::*;
use vstd::string::*;
use crate::text::{concat2, str_equals};
use crate::usage_client::UsageSnapshot;

verus! {

/// Number of samples kept: a day at one sample a minute.
pub const HISTORY_CAP: usize = 1440;

/// Seconds between polls in the default settings.
pub const DEFAULT_POLL_INTERVAL_SECS: u64 = 90;

/// How much of the HUD is shown.
#[derive(Debug, Clone, Copy, PartialEq, Eq, Structural)]
pub enum HudMode {
    Minimal,
    Full,
}

/// The mode that a saved name stands for. `"tray"` is the name of a mode of
/// earlier versions and now stands for `Minimal`.
pub open spec fn spec_mode_from_name(name: Seq<char>) -> Option<HudMode> {
    if name == "minimal"@ || name == "tray"@ {
        Some(HudMode::Minimal)
    } else if name == "full"@ {
        Some(HudMode::Full)
    } else {
        None
    }
}

impl HudMode {
    /// Reads a saved mode name; an unknown name is an error whose message
    /// is `"unknown mode: "` followed by the name.
    pub fn from_name(name: &str) -> (r: Result<HudMode, String>)
        ensures
            spec_mode_from_name(name@) matches Some(m) ==> r == Ok::<HudMode, String>(m),
            spec_mode_from_name(name@) is None ==> (r matches Err(msg) && msg@ == "unknown mode: "@
                + name@),
    {
        if str_equals(name, "minimal") || str_equals(name, "tray") {
            Ok(HudMode::Minimal)
        } else if str_equals(name, "full") {
            Ok(HudMode::Full)
        } else {
            Err(concat2("unknown mode: ", name))
        }
    }

    /// The name under which the mode is saved.
    pub fn name(&self) -> (r: &'static str)
        ensures
            r@ == spec_mode_name(*self),
            *self == HudMode::Minimal ==> r@ == "minimal"@,
            *self == HudMode::Full ==> r@ == "full"@,
    {
        match self {
            HudMode::Minimal => "minimal",
            HudMode::Full => "full",
        }
    }
}

/// The saved name of a mode.
pub open spec fn spec_mode_name(m: HudMode) -> Seq<char> {
    match m {
        HudMode::Minimal => "minimal"@,
        HudMode::Full => "full"@,
    }
}

/// Law: modes are saved under their current names, `"minimal"` and
/// `"full"`, never under the legacy name `"tray"`; the two names differ; and
/// the legacy name `"tray"` reads back as the minimal mode.
pub proof fn law_mode_names(m: HudMode)
    ensures
        m == HudMode::Minimal ==> spec_mode_name(m) == "minimal"@,
        m == HudMode::Full ==> spec_mode_name(m) == "full"@,
        spec_mode_name(m) != "tray"@,
        spec_mode_name(HudMode::Minimal) != spec_mode_name(HudMode::Full),
        spec_mode_from_name("tray"@) == Some(HudMode::Minimal),
        spec_mode_from_name("minimal"@) == Some(HudMode::Minimal),
        spec_mode_from_name("full"@) == Some(HudMode::Full),
{
    reveal_strlit("minimal");
    reveal_strlit("full");
    reveal_strlit("tray");
    assert("full"@[0] != "tray"@[0]);
    assert("full"@.len() != "minimal"@.len());
    assert("minimal"@.len() != "tray"@.len());
}

/// Law: a mode read back from its saved name is the same mode.
pub proof fn law_mode_name_round_trip(m: HudMode)
    ensures
        spec_mode_from_name(spec_mode_name(m)) == Some(m),
{
    reveal_strlit("minimal");
    reveal_strlit("full");
    reveal_strlit("tray");
    assert("full"@[0] != "tray"@[0]);
    assert("full"@.len() != "minimal"@.len());
}

/// A usage fraction as sent by the server, a 64-bit float, held by its
/// IEEE 754 bit pattern so that it is kept and handed back unchanged.
#[derive(Debug, Clone, Copy, PartialEq, Eq, Structural)]
pub struct Utilization {
    pub bits: u64,
}

/// User settings.
#[derive(Debug)]
pub struct Settings {
    pub mode: HudMode,
    pub poll_interval_secs: u64,
    pub hotkey: String,
    pub window_pos: Option<(i32, i32)>,
}

impl Clone for Settings {
    fn clone(&self) -> (r: Self)
        ensures
            r == *self,
    {
        Settings {
            mode: self.mode,
            poll_interval_secs: self.poll_interval_secs,
            hotkey: self.hotkey.clone(),
            window_pos: self.window_pos,
        }
    }
}

/// The settings used when none were saved.
pub open spec fn is_default_settings(s: Settings) -> bool {
    &&& s.mode == HudMode::Minimal
    &&& s.poll_interval_secs == DEFAULT_POLL_INTERVAL_SECS
    &&& s.hotkey@ == "Ctrl+Alt+H"@
    &&& s.window_pos is None
}

impl Default for Settings {
    fn default() -> (r: Self)
        ensures
            is_default_settings(r),
            r.mode == HudMode::Minimal,
            r.poll_interval_secs == 90,
            r.hotkey@ == "Ctrl+Alt+H"@,
            r.window_pos is None,
    {
        Settings {
            mode: HudMode::Minimal,
            poll_interval_secs: DEFAULT_POLL_INTERVAL_SECS,
            hotkey: "Ctrl+Alt+H".to_owned(),
            window_pos: None,
        }
    }
}

/// One point of the usage history: when it was taken (RFC 3339) and the
/// 5-hour and weekly utilization at that time.
#[derive(Debug)]
pub struct Sample {
    pub t: String,
    pub five_hour: Option<Utilization>,
    pub seven_day: Option<Utilization>,
}

impl Clone for Sample {
    fn clone(&self) -> (r: Self)
        ensures
            r == *self,
    {
        Sample { t: self.t.clone(), five_hour: self.five_hour, seven_day: self.seven_day }
    }
}

/// Everything that is saved between runs.
#[derive(Debug)]
pub struct Persisted {
    pub settings: Settings,
    pub snapshot: Option<UsageSnapshot>,
    pub history: Vec<Sample>,
}

/// The state saved when nothing was saved before.
pub open spec fn is_default_persisted(p: Persisted) -> bool {
    &&& is_default_settings(p.settings)
    &&& p.snapshot is None
    &&& p.history@.len() == 0
}

impl Default for Persisted {
    fn default() -> (r: Self)
        ensures
            is_default_persisted(r),
    {
        Persisted { settings: Settings::default(), snapshot: None, history: Vec::new() }
    }
}

/// The history after `sample` is appended: the newest `HISTORY_CAP`
/// samples of the old history followed by `sample`, oldest first.
pub open spec fn appended_history(history: Seq<Sample>, sample: Sample) -> Seq<Sample> {
    let grown = history.push(sample);
    if grown.len() > HISTORY_CAP {
        grown.skip(grown.len() - HISTORY_CAP)
    } else {
        grown
    }
}

/// Whether moving the window to `(x, y)` changes the saved position.
pub open spec fn moves_window(s: Settings, x: i32, y: i32) -> bool {
    s.window_pos != Some((x, y))
}

/// The settings with the mode replaced.
pub open spec fn with_mode(s: Settings, mode: HudMode) -> Settings {
    Settings { mode, ..s }
}

/// The settings with the window position replaced.
pub open spec fn with_window_pos(s: Settings, x: i32, y: i32) -> Settings {
    Settings { window_pos: Some((x, y)), ..s }
}

/// The in-memory store of the HUD. Each operation that changes it says
/// whether the state must be saved again.
#[derive(Debug)]
pub struct Store {
    pub state: Persisted,
}

impl Store {
    /// The store that starts from a saved state, or from the default state
    /// when nothing could be read.
    pub fn load(saved: Option<Persisted>) -> (r: Store)
        ensures
            saved matches Some(p) ==> r.state == p,
            saved is None ==> is_default_persisted(r.state),
    {
        match saved {
            Some(p) => Store { state: p },
            None => Store { state: Persisted::default() },
        }
    }

    /// The whole state, for saving.
    pub fn persisted(&self) -> (r: &Persisted)
        ensures
            *r == self.state,
    {
        &self.state
    }

    /// A copy of the settings.
    pub fn settings(&self) -> (r: Settings)
        ensures
            r == self.state.settings,
    {
        self.state.settings.clone()
    }

    /// A copy of the latest snapshot.
    pub fn snapshot(&self) -> (r: Option<UsageSnapshot>)
        ensures
            r == self.state.snapshot,
    {
        match &self.state.snapshot {
            Some(s) => Some(s.clone()),
            None => None,
        }
    }

    /// A copy of the sample history, oldest first.
    pub fn history(&self) -> (r: Vec<Sample>)
        ensures
            r@ == self.state.history@,
    {
        let mut out: Vec<Sample> = Vec::new();
        let mut i: usize = 0;
        while i < self.state.history.len()
            invariant
                i <= self.state.history@.len(),
                out@ == self.state.history@.take(i as int),
            decreases self.state.history@.len() - i,
        {
            out.push(self.state.history[i].clone());
            assert(self.state.history@.take(i + 1) =~= self.state.history@.take(i as int).push(
                self.state.history@[i as int],
            ));
            i = i + 1;
        }
        assert(self.state.history@.take(self.state.history@.len() as int)
            =~= self.state.history@);
        out
    }

    /// Switches the mode and returns the new settings. The state is to be
    /// saved afterwards.
    pub fn set_mode(&mut self, mode: HudMode) -> (r: Settings)
        ensures
            final(self).state.settings == with_mode(old(self).state.settings, mode),
            final(self).state.settings.mode == mode,
            final(self).state.settings.poll_interval_secs == old(self).state.settings.poll_interval_secs,
            final(self).state.settings.hotkey == old(self).state.settings.hotkey,
            final(self).state.settings.window_pos == old(self).state.settings.window_pos,
            final(self).state.snapshot == old(self).state.snapshot,
            final(self).state.history == old(self).state.history,
            r == final(self).state.settings,
    {
        self.state.settings.mode = mode;
        self.state.settings.clone()
    }

    /// Records the window position. Returns whether it changed; only then
    /// is the state to be saved.
    pub fn set_window_pos(&mut self, x: i32, y: i32) -> (changed: bool)
        ensures
            changed == moves_window(old(self).state.settings, x, y),
            final(self).state.settings == with_window_pos(old(self).state.settings, x, y),
            changed <==> old(self).state.settings.window_pos != Some((x, y)),
            final(self).state.settings.window_pos == Some((x, y)),
            final(self).state.settings.mode == old(self).state.settings.mode,
            final(self).state.settings.poll_interval_secs == old(self).state.settings.poll_interval_secs,
            final(self).state.settings.hotkey == old(self).state.settings.hotkey,
            final(self).state.snapshot == old(self).state.snapshot,
            final(self).state.history == old(self).state.history,
    {
        let same = match self.state.settings.window_pos {
            Some((px, py)) => px == x && py == y,
            None => false,
        };
        if same {
            return false;
        }
        self.state.settings.window_pos = Some((x, y));
        true
    }

    /// Records a fresh snapshot and appends its sample to the history,
    /// dropping the oldest samples beyond `HISTORY_CAP`. The state is to be
    /// saved afterwards.
    pub fn record(&mut self, snap: UsageSnapshot, sample: Sample)
        ensures
            final(self).state.snapshot == Some(snap),
            final(self).state.history@ == appended_history(old(self).state.history@, sample),
            final(self).state.settings == old(self).state.settings,
    {
        self.state.snapshot = Some(snap);
        self.state.history.push(sample);
        let len = self.state.history.len();
        if len > HISTORY_CAP {
            let drop_n = len - HISTORY_CAP;
            let kept = self.state.history.split_off(drop_n);
            self.state.history = kept;
        }
        assert(self.state.history@ =~= appended_history(old(self).state.history@, sample));
    }
}

/// Law: after a sample is recorded, the history holds at most
/// `HISTORY_CAP` samples, ends with that sample, and keeps the samples
/// before it in their order (it is a suffix of the old history followed by
/// the sample); it holds exactly `min(old length + 1, HISTORY_CAP)` samples.
pub proof fn law_record_keeps_newest(history: Seq<Sample>, sample: Sample)
    ensures
        appended_history(history, sample).len() <= HISTORY_CAP,
        appended_history(history, sample).len() == if history.len() + 1 > HISTORY_CAP {
            HISTORY_CAP as int
        } else {
            (history.len() + 1) as int
        },
        appended_history(history, sample).last() == sample,
        history.push(sample).skip(
            history.len() + 1 - appended_history(history, sample).len(),
        ) == appended_history(history, sample),
{
    let grown = history.push(sample);
    if grown.len() <= HISTORY_CAP {
        assert(grown.skip(0) =~= grown);
    }
}

/// Law: moving the window to where it already is changes nothing, so a
/// second move to the same place asks for no save.
pub proof fn law_window_pos_idempotent(s: Settings, x: i32, y: i32)
    ensures
        !moves_window(with_window_pos(s, x, y), x, y),
        with_window_pos(with_window_pos(s, x, y), x, y) == with_window_pos(s, x, y),
        !moves_window(s, x, y) ==> with_window_pos(s, x, y) == s,
{
}

/// Law: setting a mode twice is the same as setting it once, and the last
/// mode set wins.
pub proof fn law_last_mode_wins(s: Settings, a: HudMode, b: HudMode)
    ensures
        with_mode(with_mode(s, a), b) == with_mode(s, b),
        with_mode(s, a).mode == a,
{
}

} // verus!
