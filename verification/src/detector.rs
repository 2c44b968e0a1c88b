//! The state machine that turns raw signals into confirmed meetings.
//!
//! State machine (per poll):
//!
//! ```text
//!   Idle --signal--> Pending --signal held >= start_confirm_secs--> Active
//!    ^                 | signal gone                                  |
//!    +-----------------+                                              |
//!    ^                                                                v
//!    +---------- signal absent >= stop_grace_secs <-- Active(lost_since=Some)
//! ```

use crate::clock::{
    minute_stamp, minute_text, on_calendar, read_clock, second_stamp, second_text, supported_year,
    LocalTime,
};
use crate::settings::{MeetingDetectionSettings, SettingsModel};
use crate::signals::{app_name, has_app, present, MeetingApp, Signal, SignalModel};
use crate::text::join;
use crate::time::{lasted, Moment};
use vstd::prelude::*;

verus! {

/// Event names emitted to the webview.
pub const EVENT_STATUS: &'static str = "meeting-detector://status";

pub const EVENT_MEETING_DETECTED: &'static str = "meeting-detector://meeting-detected";

pub const EVENT_MEETING_ENDED: &'static str = "meeting-detector://meeting-ended";

/// Where the detector stands between two polls.
#[derive(Debug, Clone, Copy, PartialEq, Eq)]
pub enum Phase {
    /// No meeting.
    Idle,
    /// A signal is seen, but not yet for long enough.
    Pending { app: MeetingApp, since: Moment },
    /// A meeting is confirmed. `lost_since` is set while its signal is absent.
    Active { app: MeetingApp, lost_since: Option<Moment> },
}

/// Side effect requested by [`step`].
#[derive(Debug, Clone, Copy, PartialEq, Eq, Structural)]
pub enum Action {
    Nothing,
    Start(MeetingApp),
    End(MeetingApp),
}

/// The most important app among `signals` that the settings ask for.
pub open spec fn detected(signals: Seq<SignalModel>, s: SettingsModel) -> Option<MeetingApp> {
    if present(signals, MeetingApp::MicrosoftTeams) && s.detect_teams {
        Some(MeetingApp::MicrosoftTeams)
    } else if present(signals, MeetingApp::Zoom) && s.detect_zoom {
        Some(MeetingApp::Zoom)
    } else if present(signals, MeetingApp::GoogleMeet) && s.detect_google_meet {
        Some(MeetingApp::GoogleMeet)
    } else {
        None
    }
}

/// The phase and the action that a poll at `now` leads to.
pub open spec fn next_phase(
    phase: Phase,
    signals: Seq<SignalModel>,
    now: Moment,
    s: SettingsModel,
) -> (Phase, Action) {
    match phase {
        Phase::Idle => match detected(signals, s) {
            None => (Phase::Idle, Action::Nothing),
            Some(app) => if s.start_confirm_secs == 0 {
                (Phase::Active { app, lost_since: None }, Action::Start(app))
            } else {
                (Phase::Pending { app, since: now }, Action::Nothing)
            },
        },
        Phase::Pending { app, since } => if !present(signals, app) {
            (Phase::Idle, Action::Nothing)
        } else if lasted(now, since, s.start_confirm_secs) {
            (Phase::Active { app, lost_since: None }, Action::Start(app))
        } else {
            (phase, Action::Nothing)
        },
        Phase::Active { app, lost_since } => if present(signals, app) {
            (Phase::Active { app, lost_since: None }, Action::Nothing)
        } else {
            match lost_since {
                None => if s.stop_grace_secs == 0 {
                    (Phase::Idle, Action::End(app))
                } else {
                    (Phase::Active { app, lost_since: Some(now) }, Action::Nothing)
                },
                Some(t) => if lasted(now, t, s.stop_grace_secs) {
                    (Phase::Idle, Action::End(app))
                } else {
                    (phase, Action::Nothing)
                },
            }
        },
    }
}

/// The most important app among `signals` that the settings ask for.
pub fn pick_enabled_app(signals: &[Signal], settings: &MeetingDetectionSettings) -> (r: Option<
    MeetingApp,
>)
    ensures
        r == detected(signals.deep_view(), settings.deep_view()),
{
    let mut i: usize = 0;
    while i < 3
        invariant
            i <= 3,
            i > 0 ==> !(present(signals.deep_view(), MeetingApp::MicrosoftTeams)
                && settings.detect_teams),
            i > 1 ==> !(present(signals.deep_view(), MeetingApp::Zoom) && settings.detect_zoom),
            i > 2 ==> !(present(signals.deep_view(), MeetingApp::GoogleMeet)
                && settings.detect_google_meet),
        decreases 3 - i,
    {
        let app: MeetingApp = MeetingApp::PRIORITY[i];
        if has_app(signals, app) && app.is_enabled(settings) {
            return Some(app);
        }
        i += 1;
    }
    None
}

/// Pure state transition for one poll. A meeting is looked for in the
/// highest-priority enabled app among `signals` (see [`pick_enabled_app`]).
pub fn step(
    phase: Phase,
    signals: &[Signal],
    now: Moment,
    settings: &MeetingDetectionSettings,
) -> (r: (Phase, Action))
    ensures
        r == next_phase(phase, signals.deep_view(), now, settings.deep_view()),
{
    match phase {
        Phase::Idle => match pick_enabled_app(signals, settings) {
            Some(app) => if settings.start_confirm_secs == 0 {
                (Phase::Active { app, lost_since: None }, Action::Start(app))
            } else {
                (Phase::Pending { app, since: now }, Action::Nothing)
            },
            None => (Phase::Idle, Action::Nothing),
        },
        Phase::Pending { app, since } => {
            if !has_app(signals, app) {
                (Phase::Idle, Action::Nothing)
            } else if now.is_past(since, settings.start_confirm_secs) {
                (Phase::Active { app, lost_since: None }, Action::Start(app))
            } else {
                (Phase::Pending { app, since }, Action::Nothing)
            }
        },
        Phase::Active { app, lost_since } => {
            if has_app(signals, app) {
                (Phase::Active { app, lost_since: None }, Action::Nothing)
            } else {
                match lost_since {
                    None => if settings.stop_grace_secs == 0 {
                        (Phase::Idle, Action::End(app))
                    } else {
                        (Phase::Active { app, lost_since: Some(now) }, Action::Nothing)
                    },
                    Some(t) => if now.is_past(t, settings.stop_grace_secs) {
                        (Phase::Idle, Action::End(app))
                    } else {
                        (Phase::Active { app, lost_since: Some(t) }, Action::Nothing)
                    },
                }
            }
        },
    }
}

/// The name of a meeting of `app` that begins at `t`: `<App> YYYY-MM-DD HH-mm`.
pub open spec fn meeting_name(app: MeetingApp, t: LocalTime) -> Seq<char> {
    app_name(app) + seq![' '] + minute_text(t)
}

/// The name of the file that a recording stopped at `t` is saved to.
pub open spec fn recording_file(t: LocalTime) -> Seq<char> {
    "recording-"@ + second_text(t) + ".wav"@
}

/// The name of a meeting of `app` that begins at `t`.
pub fn meeting_name_at(app: MeetingApp, t: LocalTime) -> (r: String)
    requires
        on_calendar(t),
        supported_year(t.year as int),
    ensures
        r@ == meeting_name(app, t),
{
    let named: String = join(app.display_name(), " ");
    proof {
        reveal_strlit(" ");
        assert(" "@ =~= seq![' ']);
    }
    join(named.as_str(), minute_stamp(t).as_str())
}

/// The name of a meeting of `app` that begins now: `<App> YYYY-MM-DD HH-mm`.
pub fn build_meeting_name(app: MeetingApp) -> (r: String)
    ensures
        exists|t: LocalTime|
            on_calendar(t) && supported_year(t.year as int) && r@ == #[trigger] meeting_name(app, t),
{
    meeting_name_at(app, read_clock())
}

/// The name of the file that a recording stopped at `t` is saved to.
pub fn recording_file_at(t: LocalTime) -> (r: String)
    requires
        on_calendar(t),
        supported_year(t.year as int),
    ensures
        r@ == recording_file(t),
{
    let stem: String = join("recording-", second_stamp(t).as_str());
    join(stem.as_str(), ".wav")
}

/// A confirmed meeting.
#[derive(Debug, PartialEq, Eq)]
pub struct CurrentMeeting {
    pub app: MeetingApp,
    pub display_name: String,
    /// RFC 3339 local time when the meeting was confirmed.
    pub detected_at: String,
    /// Meeting name passed to the recorder, if the detector started one.
    pub meeting_name: Option<String>,
    /// True when the detector started the recording (and therefore may stop it).
    pub recording_started_by_detector: bool,
}

/// What a [`CurrentMeeting`] holds, with texts as character sequences.
pub struct MeetingModel {
    pub app: MeetingApp,
    pub display_name: Seq<char>,
    pub detected_at: Seq<char>,
    pub meeting_name: Option<Seq<char>>,
    pub recording_started_by_detector: bool,
}

impl DeepView for CurrentMeeting {
    type V = MeetingModel;

    open spec fn deep_view(&self) -> MeetingModel {
        MeetingModel {
            app: self.app,
            display_name: self.display_name@,
            detected_at: self.detected_at@,
            meeting_name: self.meeting_name.deep_view(),
            recording_started_by_detector: self.recording_started_by_detector,
        }
    }
}

/// A copy of `text`.
pub(crate) fn clone_text(text: &Option<String>) -> (r: Option<String>)
    ensures
        r.deep_view() == text.deep_view(),
{
    match text {
        Some(s) => Some(s.clone()),
        None => None,
    }
}

impl Clone for CurrentMeeting {
    fn clone(&self) -> (r: Self)
        ensures
            r.deep_view() == self.deep_view(),
    {
        CurrentMeeting {
            app: self.app,
            display_name: self.display_name.clone(),
            detected_at: self.detected_at.clone(),
            meeting_name: clone_text(&self.meeting_name),
            recording_started_by_detector: self.recording_started_by_detector,
        }
    }
}

/// What the detector tells of itself.
#[derive(Debug, PartialEq, Eq)]
pub struct DetectionStatus {
    pub monitoring: bool,
    pub current_meeting: Option<CurrentMeeting>,
    /// Set while a signal is seen but not yet confirmed.
    pub pending_app: Option<MeetingApp>,
    /// Seconds the current signal has been held (pending) or absent (grace).
    pub pending_secs: Option<u64>,
    pub signal_lost_secs: Option<u64>,
    pub last_signals: Vec<Signal>,
    pub last_probe_at: Option<String>,
    /// Error from the most recent probe (cleared as soon as a probe succeeds).
    pub probe_error: Option<String>,
    /// Error from the last auto start/stop (cleared when the next one succeeds
    /// or a new meeting is confirmed).
    pub last_error: Option<String>,
}

/// What a [`DetectionStatus`] holds, with texts as character sequences.
pub struct StatusModel {
    pub monitoring: bool,
    pub current_meeting: Option<MeetingModel>,
    pub pending_app: Option<MeetingApp>,
    pub pending_secs: Option<u64>,
    pub signal_lost_secs: Option<u64>,
    pub last_signals: Seq<SignalModel>,
    pub last_probe_at: Option<Seq<char>>,
    pub probe_error: Option<Seq<char>>,
    pub last_error: Option<Seq<char>>,
}

impl DeepView for DetectionStatus {
    type V = StatusModel;

    open spec fn deep_view(&self) -> StatusModel {
        StatusModel {
            monitoring: self.monitoring,
            current_meeting: self.current_meeting.deep_view(),
            pending_app: self.pending_app,
            pending_secs: self.pending_secs,
            signal_lost_secs: self.signal_lost_secs,
            last_signals: self.last_signals.deep_view(),
            last_probe_at: self.last_probe_at.deep_view(),
            probe_error: self.probe_error.deep_view(),
            last_error: self.last_error.deep_view(),
        }
    }
}

/// The status of a detector that does not monitor and knows of no meeting.
pub open spec fn blank_status() -> StatusModel {
    StatusModel {
        monitoring: false,
        current_meeting: None,
        pending_app: None,
        pending_secs: None,
        signal_lost_secs: None,
        last_signals: Seq::empty(),
        last_probe_at: None,
        probe_error: None,
        last_error: None,
    }
}

impl Default for DetectionStatus {
    fn default() -> (r: Self)
        ensures
            r.deep_view() == blank_status(),
    {
        let r = DetectionStatus {
            monitoring: false,
            current_meeting: None,
            pending_app: None,
            pending_secs: None,
            signal_lost_secs: None,
            last_signals: Vec::new(),
            last_probe_at: None,
            probe_error: None,
            last_error: None,
        };
        assert(r.last_signals.deep_view() =~= Seq::empty());
        r
    }
}

/// A copy of `signals`.
pub(crate) fn clone_signals(signals: &Vec<Signal>) -> (r: Vec<Signal>)
    ensures
        r.deep_view() == signals.deep_view(),
{
    let mut r: Vec<Signal> = Vec::new();
    let mut i: usize = 0;
    while i < signals.len()
        invariant
            i <= signals.len(),
            r.len() == i,
            forall|j: int| 0 <= j < i ==> (#[trigger] r@[j]).deep_view() == signals@[j].deep_view(),
        decreases signals.len() - i,
    {
        r.push(signals[i].clone());
        i += 1;
    }
    assert(r.deep_view() =~= signals.deep_view());
    r
}

impl Clone for DetectionStatus {
    fn clone(&self) -> (r: Self)
        ensures
            r.deep_view() == self.deep_view(),
    {
        DetectionStatus {
            monitoring: self.monitoring,
            current_meeting: match &self.current_meeting {
                Some(m) => Some(m.clone()),
                None => None,
            },
            pending_app: self.pending_app,
            pending_secs: self.pending_secs,
            signal_lost_secs: self.signal_lost_secs,
            last_signals: clone_signals(&self.last_signals),
            last_probe_at: clone_text(&self.last_probe_at),
            probe_error: clone_text(&self.probe_error),
            last_error: clone_text(&self.last_error),
        }
    }
}

} // verus!
