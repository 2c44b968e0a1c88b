//! The monitor: what follows from each poll, from each reply of the recorder and
//! from each change of the settings.
//!
//! The monitor waits for one thing at a time ([`Pending`]). Whoever runs it gets
//! that thing and hands it to the function that goes on from there, which returns
//! the effects to perform, in order, and the next thing to wait for ([`Turn`]).
//!
//! ```text
//!   ReadSettings --off--> WaitForWake --> ReadSettings
//!        |
//!        +--on--> Probe --(meeting confirmed)--> AskRecording --> StartRecording
//!                   |                                 |                |
//!                   +--(meeting ended)--> AskStillRecording --> AskMeetingName
//!                   |                          |     --> LocateDirectory --> StopRecording
//!                   v                          v                               |
//!                 Pause <-------- every round ends here <----------------------+
//! ```

use crate::clock::{is_rfc3339, now_rfc3339, on_calendar, read_clock, supported_year, LocalTime};
use crate::detector::{
    blank_status, clone_text, meeting_name, meeting_name_at, next_phase, recording_file,
    recording_file_at, step, Action, CurrentMeeting, DetectionStatus, MeetingModel, Phase,
    StatusModel,
};
use crate::settings::{MeetingDetectionSettings, SettingsModel};
use crate::signals::{app_name, MeetingApp, OutcomeModel, ProbeOutcome};
use crate::text::{join, same_text};
use crate::time::{elapsed, Moment, NANOS_PER_SEC};
use vstd::prelude::*;

verus! {

/// A reading of the local clock: once in RFC 3339, once in its parts.
#[derive(Debug)]
pub struct ClockReading {
    pub at: String,
    pub local: LocalTime,
}

/// What a [`ClockReading`] holds, with its text as a character sequence.
pub struct ClockModel {
    pub at: Seq<char>,
    pub local: LocalTime,
}

impl DeepView for ClockReading {
    type V = ClockModel;

    open spec fn deep_view(&self) -> ClockModel {
        ClockModel { at: self.at@, local: self.local }
    }
}

/// The parts of `c` are those of a date that can be written.
pub open spec fn readable(c: ClockModel) -> bool {
    &&& on_calendar(c.local)
    &&& supported_year(c.local.year as int)
}

impl ClockReading {
    /// Reads the local clock.
    pub fn take() -> (r: Self)
        ensures
            readable(r.deep_view()),
            is_rfc3339(r.deep_view().at),
    {
        ClockReading { at: now_rfc3339(), local: read_clock() }
    }
}

/// What the monitor knows between two replies.
#[derive(Debug)]
pub struct Monitor {
    pub phase: Phase,
    pub status: DetectionStatus,
}

/// What a [`Monitor`] holds, with texts as character sequences.
pub struct MonitorModel {
    pub phase: Phase,
    pub status: StatusModel,
}

impl DeepView for Monitor {
    type V = MonitorModel;

    open spec fn deep_view(&self) -> MonitorModel {
        MonitorModel { phase: self.phase, status: self.status.deep_view() }
    }
}

/// One poll: the settings it was made with, what it found, and when.
#[derive(Debug)]
pub struct Round {
    pub settings: MeetingDetectionSettings,
    pub outcome: ProbeOutcome,
    pub now: Moment,
}

/// What a [`Round`] holds, with texts as character sequences.
pub struct RoundModel {
    pub settings: SettingsModel,
    pub outcome: OutcomeModel,
    pub now: Moment,
}

impl DeepView for Round {
    type V = RoundModel;

    open spec fn deep_view(&self) -> RoundModel {
        RoundModel {
            settings: self.settings.deep_view(),
            outcome: self.outcome.deep_view(),
            now: self.now,
        }
    }
}

/// What the monitor waits for.
#[derive(Debug)]
pub enum Pending {
    /// The settings in force. Goes on with [`after_settings`].
    ReadSettings { monitor: Monitor },
    /// A change of the settings. Goes on with [`after_wake`].
    WaitForWake { monitor: Monitor },
    /// A probe with these settings. Goes on with [`after_probe`].
    Probe { monitor: Monitor, settings: MeetingDetectionSettings },
    /// Whether a recording is running, before one is started. Goes on with
    /// [`after_recording_known`].
    AskRecording { monitor: Monitor, round: Round, meeting: CurrentMeeting },
    /// A recording under this name to be started. Goes on with [`after_start`].
    StartRecording { monitor: Monitor, round: Round, meeting: CurrentMeeting, name: String },
    /// Whether a recording is running, before one is stopped. Goes on with
    /// [`after_still_recording_known`].
    AskStillRecording { monitor: Monitor, round: Round, app: MeetingApp, name: String },
    /// The name of the running recording. Goes on with [`after_meeting_name`].
    AskMeetingName { monitor: Monitor, round: Round, app: MeetingApp, name: String },
    /// The app data directory. Goes on with [`after_directory`].
    LocateDirectory { monitor: Monitor, round: Round, app: MeetingApp },
    /// The recording to be stopped and saved to this file of the app data
    /// directory. Goes on with [`after_stop`].
    StopRecording { monitor: Monitor, round: Round, app: MeetingApp, file_name: String },
    /// This many seconds, or a change of the settings. Goes on with [`after_pause`].
    Pause { monitor: Monitor, secs: u64 },
}

/// What a [`Pending`] holds, with texts as character sequences.
pub enum PendingModel {
    ReadSettings { monitor: MonitorModel },
    WaitForWake { monitor: MonitorModel },
    Probe { monitor: MonitorModel, settings: SettingsModel },
    AskRecording { monitor: MonitorModel, round: RoundModel, meeting: MeetingModel },
    StartRecording {
        monitor: MonitorModel,
        round: RoundModel,
        meeting: MeetingModel,
        name: Seq<char>,
    },
    AskStillRecording {
        monitor: MonitorModel,
        round: RoundModel,
        app: MeetingApp,
        name: Seq<char>,
    },
    AskMeetingName { monitor: MonitorModel, round: RoundModel, app: MeetingApp, name: Seq<char> },
    LocateDirectory { monitor: MonitorModel, round: RoundModel, app: MeetingApp },
    StopRecording {
        monitor: MonitorModel,
        round: RoundModel,
        app: MeetingApp,
        file_name: Seq<char>,
    },
    Pause { monitor: MonitorModel, secs: u64 },
}

impl DeepView for Pending {
    type V = PendingModel;

    open spec fn deep_view(&self) -> PendingModel {
        match *self {
            Pending::ReadSettings { monitor } => PendingModel::ReadSettings {
                monitor: monitor.deep_view(),
            },
            Pending::WaitForWake { monitor } => PendingModel::WaitForWake {
                monitor: monitor.deep_view(),
            },
            Pending::Probe { monitor, settings } => PendingModel::Probe {
                monitor: monitor.deep_view(),
                settings: settings.deep_view(),
            },
            Pending::AskRecording { monitor, round, meeting } => PendingModel::AskRecording {
                monitor: monitor.deep_view(),
                round: round.deep_view(),
                meeting: meeting.deep_view(),
            },
            Pending::StartRecording { monitor, round, meeting, name } =>
                PendingModel::StartRecording {
                monitor: monitor.deep_view(),
                round: round.deep_view(),
                meeting: meeting.deep_view(),
                name: name@,
            },
            Pending::AskStillRecording { monitor, round, app, name } =>
                PendingModel::AskStillRecording {
                monitor: monitor.deep_view(),
                round: round.deep_view(),
                app,
                name: name@,
            },
            Pending::AskMeetingName { monitor, round, app, name } => PendingModel::AskMeetingName {
                monitor: monitor.deep_view(),
                round: round.deep_view(),
                app,
                name: name@,
            },
            Pending::LocateDirectory { monitor, round, app } => PendingModel::LocateDirectory {
                monitor: monitor.deep_view(),
                round: round.deep_view(),
                app,
            },
            Pending::StopRecording { monitor, round, app, file_name } =>
                PendingModel::StopRecording {
                monitor: monitor.deep_view(),
                round: round.deep_view(),
                app,
                file_name: file_name@,
            },
            Pending::Pause { monitor, secs } => PendingModel::Pause {
                monitor: monitor.deep_view(),
                secs,
            },
        }
    }
}

/// What the monitor knows while it waits for `p`.
pub open spec fn monitor_of(p: PendingModel) -> MonitorModel {
    match p {
        PendingModel::ReadSettings { monitor } => monitor,
        PendingModel::WaitForWake { monitor } => monitor,
        PendingModel::Probe { monitor, settings } => monitor,
        PendingModel::AskRecording { monitor, round, meeting } => monitor,
        PendingModel::StartRecording { monitor, round, meeting, name } => monitor,
        PendingModel::AskStillRecording { monitor, round, app, name } => monitor,
        PendingModel::AskMeetingName { monitor, round, app, name } => monitor,
        PendingModel::LocateDirectory { monitor, round, app } => monitor,
        PendingModel::StopRecording { monitor, round, app, file_name } => monitor,
        PendingModel::Pause { monitor, secs } => monitor,
    }
}

impl Pending {
    /// What the monitor knows while it waits.
    pub fn monitor(&self) -> (r: &Monitor)
        ensures
            r.deep_view() == monitor_of(self.deep_view()),
    {
        match self {
            Pending::ReadSettings { monitor } => monitor,
            Pending::WaitForWake { monitor } => monitor,
            Pending::Probe { monitor, settings: _ } => monitor,
            Pending::AskRecording { monitor, round: _, meeting: _ } => monitor,
            Pending::StartRecording { monitor, round: _, meeting: _, name: _ } => monitor,
            Pending::AskStillRecording { monitor, round: _, app: _, name: _ } => monitor,
            Pending::AskMeetingName { monitor, round: _, app: _, name: _ } => monitor,
            Pending::LocateDirectory { monitor, round: _, app: _ } => monitor,
            Pending::StopRecording { monitor, round: _, app: _, file_name: _ } => monitor,
            Pending::Pause { monitor, secs: _ } => monitor,
        }
    }
}

/// Something to be done that the monitor does not wait for.
#[derive(Debug, PartialEq, Eq)]
pub enum Effect {
    /// Tell the webview the status.
    PublishStatus,
    /// Tell the webview that this meeting was confirmed.
    MeetingDetected(CurrentMeeting),
    /// Tell the webview that the meeting of this app ended.
    MeetingEnded(MeetingApp),
    /// Show an OS notification with this text.
    Notify(String),
    /// Show in the tray that the recording is being stopped.
    TrayStopping,
    /// Bring the tray in line with the recorder.
    TrayRefresh,
    /// Tell the webview that the recorder stopped, so that it saves.
    StopComplete,
}

/// What an [`Effect`] holds, with texts as character sequences.
pub enum EffectModel {
    PublishStatus,
    MeetingDetected(MeetingModel),
    MeetingEnded(MeetingApp),
    Notify(Seq<char>),
    TrayStopping,
    TrayRefresh,
    StopComplete,
}

impl DeepView for Effect {
    type V = EffectModel;

    open spec fn deep_view(&self) -> EffectModel {
        match *self {
            Effect::PublishStatus => EffectModel::PublishStatus,
            Effect::MeetingDetected(meeting) => EffectModel::MeetingDetected(meeting.deep_view()),
            Effect::MeetingEnded(app) => EffectModel::MeetingEnded(app),
            Effect::Notify(body) => EffectModel::Notify(body@),
            Effect::TrayStopping => EffectModel::TrayStopping,
            Effect::TrayRefresh => EffectModel::TrayRefresh,
            Effect::StopComplete => EffectModel::StopComplete,
        }
    }
}

/// What follows from a reply: effects to perform, in order, then the next wait.
#[derive(Debug)]
pub struct Turn {
    pub effects: Vec<Effect>,
    pub next: Pending,
}

/// What a [`Turn`] holds, with texts as character sequences.
pub struct TurnModel {
    pub effects: Seq<EffectModel>,
    pub next: PendingModel,
}

impl DeepView for Turn {
    type V = TurnModel;

    open spec fn deep_view(&self) -> TurnModel {
        TurnModel { effects: self.effects.deep_view(), next: self.next.deep_view() }
    }
}

/// The meeting of `status`, if the detector started its recording.
pub open spec fn owned_meeting(status: StatusModel) -> Option<MeetingModel> {
    match status.current_meeting {
        Some(meeting) if meeting.recording_started_by_detector => Some(meeting),
        _ => None,
    }
}

/// The name of the recording of `status` that the detector started.
pub open spec fn owned_name(status: StatusModel) -> Option<Seq<char>> {
    match owned_meeting(status) {
        Some(meeting) => meeting.meeting_name,
        None => None,
    }
}

/// A notification, unless the settings ask for none.
pub open spec fn notice(s: SettingsModel, body: Seq<char>) -> Seq<EffectModel> {
    if s.notify_on_detection {
        seq![EffectModel::Notify(body)]
    } else {
        Seq::empty()
    }
}

/// Whole seconds from `since` to `now`.
pub open spec fn whole_secs(now: Moment, since: Moment) -> u64 {
    (elapsed(now, since) / (NANOS_PER_SEC as int)) as u64
}

/// The status after a round that left the detector in `phase`.
pub open spec fn round_status(
    status: StatusModel,
    phase: Phase,
    round: RoundModel,
    at: Seq<char>,
) -> StatusModel {
    StatusModel {
        monitoring: true,
        last_probe_at: Some(at),
        last_signals: if round.outcome.error is None {
            round.outcome.signals
        } else {
            status.last_signals
        },
        probe_error: round.outcome.error,
        pending_app: match phase {
            Phase::Pending { app, since } => Some(app),
            _ => None,
        },
        pending_secs: match phase {
            Phase::Pending { app, since } => Some(whole_secs(round.now, since)),
            _ => None,
        },
        signal_lost_secs: match phase {
            Phase::Active { app, lost_since: Some(t) } => Some(whole_secs(round.now, t)),
            _ => None,
        },
        ..status
    }
}

/// The end of a round: the status is published, and the monitor pauses.
pub open spec fn round_over(
    m: MonitorModel,
    round: RoundModel,
    effects: Seq<EffectModel>,
    at: Seq<char>,
) -> TurnModel {
    TurnModel {
        effects: effects.push(EffectModel::PublishStatus),
        next: PendingModel::Pause {
            monitor: MonitorModel {
                phase: m.phase,
                status: round_status(m.status, m.phase, round, at),
            },
            secs: round.settings.poll_interval_secs,
        },
    }
}

/// The end of a round in which `meeting` was confirmed.
pub open spec fn start_over(
    m: MonitorModel,
    round: RoundModel,
    meeting: MeetingModel,
    error: Option<Seq<char>>,
    effects: Seq<EffectModel>,
    at: Seq<char>,
) -> TurnModel {
    let status = StatusModel {
        current_meeting: Some(meeting),
        last_error: error,
        ..m.status
    };
    round_over(MonitorModel { phase: m.phase, status }, round, effects, at)
}

/// The end of a round in which a meeting ended. `error` is the error to show.
pub open spec fn end_over(
    m: MonitorModel,
    round: RoundModel,
    error: Option<Seq<char>>,
    effects: Seq<EffectModel>,
    at: Seq<char>,
) -> TurnModel {
    let status = StatusModel {
        current_meeting: None,
        last_error: error,
        ..m.status
    };
    round_over(MonitorModel { phase: m.phase, status }, round, effects, at)
}

/// The end of a round in which the meeting of `app` ended and no recording was to be
/// stopped. The error shown stays.
pub open spec fn left_alone_turn(
    m: MonitorModel,
    round: RoundModel,
    app: MeetingApp,
    effects: Seq<EffectModel>,
    c: ClockModel,
) -> TurnModel {
    end_over(
        m,
        round,
        m.status.last_error,
        effects + notice(round.settings, app_name(app) + " meeting ended."@),
        c.at,
    )
}

/// The status while the master switch is off: only an owned meeting is kept.
pub open spec fn disabled_status(status: StatusModel) -> StatusModel {
    StatusModel { current_meeting: owned_meeting(status), ..blank_status() }
}

/// What follows from the settings being `s`.
pub open spec fn settings_turn(m: MonitorModel, s: SettingsModel) -> TurnModel {
    if s.enabled {
        TurnModel {
            effects: Seq::empty(),
            next: PendingModel::Probe { monitor: m, settings: s },
        }
    } else {
        TurnModel {
            effects: seq![EffectModel::PublishStatus],
            next: PendingModel::WaitForWake {
                monitor: MonitorModel { phase: Phase::Idle, status: disabled_status(m.status) },
            },
        }
    }
}

/// What follows from a change of the settings while the master switch was off:
/// a meeting that is still owned is active again.
pub open spec fn wake_turn(m: MonitorModel) -> TurnModel {
    TurnModel {
        effects: Seq::empty(),
        next: PendingModel::ReadSettings {
            monitor: MonitorModel {
                phase: match owned_meeting(m.status) {
                    Some(meeting) => Phase::Active { app: meeting.app, lost_since: None },
                    None => m.phase,
                },
                status: m.status,
            },
        },
    }
}

/// What a probe found, where the probe itself can fail.
pub open spec fn outcome_of_task(result: Result<OutcomeModel, Seq<char>>) -> OutcomeModel {
    match result {
        Ok(outcome) => outcome,
        Err(e) => OutcomeModel {
            signals: Seq::empty(),
            error: Some("probe task failed: "@ + e),
        },
    }
}

/// The phase and the action that a round leads to. A failed probe says nothing
/// about the meeting, so it leads nowhere.
pub open spec fn polled(phase: Phase, round: RoundModel) -> (Phase, Action) {
    if round.outcome.error is None {
        next_phase(phase, round.outcome.signals, round.now, round.settings)
    } else {
        (phase, Action::Nothing)
    }
}

/// What follows from a probe.
pub open spec fn probe_turn(m: MonitorModel, round: RoundModel, c: ClockModel) -> TurnModel {
    let (phase, action) = polled(m.phase, round);
    let m = MonitorModel { phase, status: m.status };
    match action {
        Action::Nothing => round_over(m, round, Seq::empty(), c.at),
        Action::Start(app) => started_turn(m, round, app, c),
        Action::End(app) => ended_turn(m, round, app, c),
    }
}

/// A meeting of `app` confirmed at `at` whose recording the detector did not start.
pub open spec fn new_meeting(app: MeetingApp, at: Seq<char>) -> MeetingModel {
    MeetingModel {
        app,
        display_name: app_name(app),
        detected_at: at,
        meeting_name: None,
        recording_started_by_detector: false,
    }
}

/// What follows from a meeting of `app` being confirmed.
pub open spec fn started_turn(
    m: MonitorModel,
    round: RoundModel,
    app: MeetingApp,
    c: ClockModel,
) -> TurnModel {
    let meeting = new_meeting(app, c.at);
    let told = seq![EffectModel::MeetingDetected(meeting)];
    if round.settings.auto_start_recording {
        TurnModel { effects: told, next: PendingModel::AskRecording { monitor: m, round, meeting } }
    } else {
        start_over(
            m,
            round,
            meeting,
            None,
            told + notice(round.settings, app_name(app) + " meeting detected."@),
            c.at,
        )
    }
}

/// What follows from the recorder telling whether it records, before a start.
pub open spec fn recording_known_turn(
    m: MonitorModel,
    round: RoundModel,
    meeting: MeetingModel,
    recording: bool,
    c: ClockModel,
) -> TurnModel {
    if recording {
        let body = app_name(meeting.app) + " meeting detected. Recording already in progress."@;
        start_over(m, round, meeting, None, notice(round.settings, body), c.at)
    } else {
        TurnModel {
            effects: Seq::empty(),
            next: PendingModel::StartRecording {
                monitor: m,
                round,
                meeting,
                name: meeting_name(meeting.app, c.local),
            },
        }
    }
}

/// What follows from an attempt to start a recording called `name`.
pub open spec fn start_turn(
    m: MonitorModel,
    round: RoundModel,
    meeting: MeetingModel,
    name: Seq<char>,
    result: Result<(), Seq<char>>,
    c: ClockModel,
) -> TurnModel {
    match result {
        Ok(_) => start_over(
            m,
            round,
            MeetingModel {
                meeting_name: Some(name),
                recording_started_by_detector: true,
                ..meeting
            },
            None,
            notice(round.settings, "Recording started: "@ + name),
            c.at,
        ),
        Err(e) => start_over(
            m,
            round,
            meeting,
            Some("auto-start failed: "@ + e),
            notice(
                round.settings,
                app_name(meeting.app) + " meeting detected, but recording could not start: "@ + e,
            ),
            c.at,
        ),
    }
}

/// What follows from the meeting of `app` having ended.
pub open spec fn ended_turn(
    m: MonitorModel,
    round: RoundModel,
    app: MeetingApp,
    c: ClockModel,
) -> TurnModel {
    let told = seq![EffectModel::MeetingEnded(app)];
    match owned_name(m.status) {
        Some(name) if round.settings.auto_stop_recording => TurnModel {
            effects: told,
            next: PendingModel::AskStillRecording { monitor: m, round, app, name },
        },
        _ => left_alone_turn(m, round, app, told, c),
    }
}

/// What follows from the recorder telling whether it records, before a stop.
pub open spec fn still_recording_known_turn(
    m: MonitorModel,
    round: RoundModel,
    app: MeetingApp,
    name: Seq<char>,
    recording: bool,
    c: ClockModel,
) -> TurnModel {
    if recording {
        TurnModel {
            effects: Seq::empty(),
            next: PendingModel::AskMeetingName { monitor: m, round, app, name },
        }
    } else {
        left_alone_turn(m, round, app, Seq::empty(), c)
    }
}

/// What follows from the recorder telling the name of its recording.
pub open spec fn meeting_name_turn(
    m: MonitorModel,
    round: RoundModel,
    app: MeetingApp,
    name: Seq<char>,
    current: Result<Option<Seq<char>>, Seq<char>>,
    c: ClockModel,
) -> TurnModel {
    if current == Ok::<Option<Seq<char>>, Seq<char>>(Some(name)) {
        TurnModel {
            effects: Seq::empty(),
            next: PendingModel::LocateDirectory { monitor: m, round, app },
        }
    } else {
        left_alone_turn(m, round, app, Seq::empty(), c)
    }
}

/// What follows from a recording that could not be stopped.
pub open spec fn stop_failed_turn(
    m: MonitorModel,
    round: RoundModel,
    app: MeetingApp,
    e: Seq<char>,
    effects: Seq<EffectModel>,
    c: ClockModel,
) -> TurnModel {
    let body = app_name(app) + " meeting ended, but recording could not be stopped: "@ + e;
    end_over(
        m,
        round,
        Some("auto-stop failed: "@ + e),
        effects + notice(round.settings, body),
        c.at,
    )
}

/// What follows from the search for the app data directory.
pub open spec fn directory_turn(
    m: MonitorModel,
    round: RoundModel,
    app: MeetingApp,
    found: Result<(), Seq<char>>,
    c: ClockModel,
) -> TurnModel {
    match found {
        Ok(_) => TurnModel {
            effects: seq![EffectModel::TrayStopping],
            next: PendingModel::StopRecording {
                monitor: m,
                round,
                app,
                file_name: recording_file(c.local),
            },
        },
        Err(e) => stop_failed_turn(
            m,
            round,
            app,
            "Failed to get app data dir: "@ + e,
            Seq::empty(),
            c,
        ),
    }
}

/// What follows from an attempt to stop the recording.
pub open spec fn stop_turn(
    m: MonitorModel,
    round: RoundModel,
    app: MeetingApp,
    result: Result<(), Seq<char>>,
    c: ClockModel,
) -> TurnModel {
    match result {
        Ok(_) => end_over(
            m,
            round,
            None,
            seq![EffectModel::StopComplete] + notice(
                round.settings,
                app_name(app) + " meeting ended. Recording saved."@,
            ),
            c.at,
        ),
        Err(e) => stop_failed_turn(m, round, app, e, seq![EffectModel::TrayRefresh], c),
    }
}

/// What follows from a pause.
pub open spec fn pause_turn(m: MonitorModel) -> TurnModel {
    TurnModel { effects: Seq::empty(), next: PendingModel::ReadSettings { monitor: m } }
}

/// `r` with its error as a character sequence.
pub open spec fn reply(r: Result<(), String>) -> Result<(), Seq<char>> {
    match r {
        Ok(_) => Ok(()),
        Err(e) => Err(e@),
    }
}

/// `r` with its texts as character sequences.
pub open spec fn name_reply(r: Result<Option<String>, String>) -> Result<
    Option<Seq<char>>,
    Seq<char>,
> {
    match r {
        Ok(name) => Ok(name.deep_view()),
        Err(e) => Err(e@),
    }
}

/// `r` with its texts as character sequences.
pub open spec fn probe_reply(r: Result<ProbeOutcome, String>) -> Result<OutcomeModel, Seq<char>> {
    match r {
        Ok(outcome) => Ok(outcome.deep_view()),
        Err(e) => Err(e@),
    }
}

impl Monitor {
    /// A monitor that knows of no meeting.
    pub fn new() -> (r: Self)
        ensures
            r.deep_view() == (MonitorModel { phase: Phase::Idle, status: blank_status() }),
    {
        Monitor { phase: Phase::Idle, status: DetectionStatus::default() }
    }
}

/// Adds `effect`.
fn push_effect(effects: &mut Vec<Effect>, effect: Effect)
    ensures
        final(effects).deep_view() == old(effects).deep_view().push(effect.deep_view()),
{
    let ghost model = effect.deep_view();
    effects.push(effect);
    assert(effects.deep_view() =~= old(effects).deep_view().push(model));
}

/// No effects.
fn no_effects() -> (r: Vec<Effect>)
    ensures
        r.deep_view() == Seq::<EffectModel>::empty(),
{
    let r: Vec<Effect> = Vec::new();
    assert(r.deep_view() =~= Seq::<EffectModel>::empty());
    r
}

/// This effect and no other.
fn one_effect(effect: Effect) -> (r: Vec<Effect>)
    ensures
        r.deep_view() == seq![effect.deep_view()],
{
    let mut r: Vec<Effect> = no_effects();
    push_effect(&mut r, effect);
    r
}

/// Adds a notification, unless the settings ask for none.
fn notify(effects: &mut Vec<Effect>, settings: &MeetingDetectionSettings, body: String)
    ensures
        final(effects).deep_view() == old(effects).deep_view() + notice(
            settings.deep_view(),
            body@,
        ),
{
    let ghost text = body@;
    if settings.notify_on_detection {
        push_effect(effects, Effect::Notify(body));
    }
    assert(effects.deep_view() =~= old(effects).deep_view() + notice(settings.deep_view(), text));
}

/// The end of a round: the status is brought up to date and published, and the
/// monitor pauses.
fn finish_round(m: Monitor, round: Round, effects: Vec<Effect>, at: String) -> (r: Turn)
    ensures
        r.deep_view() == round_over(
            m.deep_view(),
            round.deep_view(),
            effects.deep_view(),
            at@,
        ),
{
    let Round { settings, outcome, now } = round;
    let Monitor { phase, mut status } = m;
    let mut effects = effects;
    status.monitoring = true;
    status.last_probe_at = Some(at);
    if outcome.error.is_none() {
        status.last_signals = outcome.signals;
    }
    status.probe_error = outcome.error;
    match phase {
        Phase::Idle => {
            status.pending_app = None;
            status.pending_secs = None;
            status.signal_lost_secs = None;
        },
        Phase::Pending { app, since } => {
            status.pending_app = Some(app);
            status.pending_secs = Some(now.secs_since(since));
            status.signal_lost_secs = None;
        },
        Phase::Active { app: _, lost_since } => {
            status.pending_app = None;
            status.pending_secs = None;
            status.signal_lost_secs = match lost_since {
                Some(t) => Some(now.secs_since(t)),
                None => None,
            };
        },
    }
    push_effect(&mut effects, Effect::PublishStatus);
    Turn {
        effects,
        next: Pending::Pause {
            monitor: Monitor { phase, status },
            secs: settings.poll_interval_secs,
        },
    }
}

/// The end of a round in which `meeting` was confirmed.
fn finish_start(
    m: Monitor,
    round: Round,
    meeting: CurrentMeeting,
    error: Option<String>,
    effects: Vec<Effect>,
    at: String,
) -> (r: Turn)
    ensures
        r.deep_view() == start_over(
            m.deep_view(),
            round.deep_view(),
            meeting.deep_view(),
            error.deep_view(),
            effects.deep_view(),
            at@,
        ),
{
    let Monitor { phase, mut status } = m;
    status.current_meeting = Some(meeting);
    status.last_error = error;
    finish_round(Monitor { phase, status }, round, effects, at)
}

/// The end of a round in which a meeting ended. `error` is the error to show.
fn finish_end(
    m: Monitor,
    round: Round,
    error: Option<String>,
    effects: Vec<Effect>,
    at: String,
) -> (r: Turn)
    ensures
        r.deep_view() == end_over(
            m.deep_view(),
            round.deep_view(),
            error.deep_view(),
            effects.deep_view(),
            at@,
        ),
{
    let Monitor { phase, mut status } = m;
    status.current_meeting = None;
    status.last_error = error;
    finish_round(Monitor { phase, status }, round, effects, at)
}

/// The end of a round in which the meeting of `app` ended and no recording was to be
/// stopped.
fn leave_alone(
    m: Monitor,
    round: Round,
    app: MeetingApp,
    effects: Vec<Effect>,
    clock: ClockReading,
) -> (r: Turn)
    ensures
        r.deep_view() == left_alone_turn(
            m.deep_view(),
            round.deep_view(),
            app,
            effects.deep_view(),
            clock.deep_view(),
        ),
{
    let mut effects = effects;
    notify(&mut effects, &round.settings, join(app.display_name(), " meeting ended."));
    let error: Option<String> = clone_text(&m.status.last_error);
    finish_end(m, round, error, effects, clock.at)
}

/// Goes on with the settings in force. With the master switch off, the monitor
/// forgets all but an owned meeting and waits to be woken.
pub fn after_settings(m: Monitor, settings: MeetingDetectionSettings) -> (r: Turn)
    ensures
        r.deep_view() == settings_turn(m.deep_view(), settings.deep_view()),
{
    if settings.enabled {
        return Turn { effects: no_effects(), next: Pending::Probe { monitor: m, settings } };
    }
    // Keep an owned meeting so that re-enabling during the same call
    // restores ownership and the recording is still auto-stopped.
    let mut status: DetectionStatus = DetectionStatus::default();
    match m.status.current_meeting {
        Some(meeting) => {
            if meeting.recording_started_by_detector {
                status.current_meeting = Some(meeting);
            }
        },
        None => {},
    }
    Turn {
        effects: one_effect(Effect::PublishStatus),
        next: Pending::WaitForWake { monitor: Monitor { phase: Phase::Idle, status } },
    }
}

/// Goes on after the settings changed while the master switch was off.
pub fn after_wake(m: Monitor) -> (r: Turn)
    ensures
        r.deep_view() == wake_turn(m.deep_view()),
{
    // Restore the active phase for a meeting we still own.
    let phase: Phase = match &m.status.current_meeting {
        Some(meeting) => if meeting.recording_started_by_detector {
            Phase::Active { app: meeting.app, lost_since: None }
        } else {
            m.phase
        },
        None => m.phase,
    };
    Turn {
        effects: no_effects(),
        next: Pending::ReadSettings { monitor: Monitor { phase, status: m.status } },
    }
}

/// Goes on with what a probe found at `now`, or why it could not be made.
pub fn after_probe(
    m: Monitor,
    settings: MeetingDetectionSettings,
    result: Result<ProbeOutcome, String>,
    now: Moment,
    clock: ClockReading,
) -> (r: Turn)
    ensures
        r.deep_view() == probe_turn(
            m.deep_view(),
            RoundModel {
                settings: settings.deep_view(),
                outcome: outcome_of_task(probe_reply(result)),
                now,
            },
            clock.deep_view(),
        ),
{
    let outcome: ProbeOutcome = match result {
        Ok(o) => o,
        Err(e) => {
            let failed = ProbeOutcome {
                signals: Vec::new(),
                error: Some(join("probe task failed: ", e.as_str())),
            };
            assert(failed.signals.deep_view() =~= Seq::empty());
            failed
        },
    };
    // A failed probe says nothing about the meeting: do not advance the
    // state machine (in particular, do not start or extend the grace timer).
    let (phase, action) = if outcome.error.is_none() {
        step(m.phase, outcome.signals.as_slice(), now, &settings)
    } else {
        (m.phase, Action::Nothing)
    };
    let m = Monitor { phase, status: m.status };
    let round = Round { settings, outcome, now };
    match action {
        Action::Nothing => finish_round(m, round, no_effects(), clock.at),
        Action::Start(app) => on_meeting_started(m, round, app, clock),
        Action::End(app) => on_meeting_ended(m, round, app, clock),
    }
}

/// Goes on after the meeting of `app` was confirmed.
pub fn on_meeting_started(m: Monitor, round: Round, app: MeetingApp, clock: ClockReading) -> (r:
    Turn)
    ensures
        r.deep_view() == started_turn(m.deep_view(), round.deep_view(), app, clock.deep_view()),
{
    let meeting = CurrentMeeting {
        app,
        display_name: app.display_name().to_owned(),
        detected_at: clock.at.clone(),
        meeting_name: None,
        recording_started_by_detector: false,
    };
    let mut effects: Vec<Effect> = one_effect(Effect::MeetingDetected(meeting.clone()));
    if round.settings.auto_start_recording {
        Turn { effects, next: Pending::AskRecording { monitor: m, round, meeting } }
    } else {
        notify(
            &mut effects,
            &round.settings,
            join(app.display_name(), " meeting detected."),
        );
        finish_start(m, round, meeting, None, effects, clock.at)
    }
}

/// Goes on with whether a recording is running. One that is running is left
/// alone and not owned.
pub fn after_recording_known(
    m: Monitor,
    round: Round,
    meeting: CurrentMeeting,
    recording: bool,
    clock: ClockReading,
) -> (r: Turn)
    requires
        readable(clock.deep_view()),
    ensures
        r.deep_view() == recording_known_turn(
            m.deep_view(),
            round.deep_view(),
            meeting.deep_view(),
            recording,
            clock.deep_view(),
        ),
{
    if recording {
        let mut effects: Vec<Effect> = no_effects();
        notify(
            &mut effects,
            &round.settings,
            join(
                meeting.app.display_name(),
                " meeting detected. Recording already in progress.",
            ),
        );
        assert(effects.deep_view() =~= notice(
            round.settings.deep_view(),
            app_name(meeting.app) + " meeting detected. Recording already in progress."@,
        ));
        finish_start(m, round, meeting, None, effects, clock.at)
    } else {
        let name: String = meeting_name_at(meeting.app, clock.local);
        Turn {
            effects: no_effects(),
            next: Pending::StartRecording { monitor: m, round, meeting, name },
        }
    }
}

/// Goes on with how the start of the recording called `name` went. A start that
/// failed is not tried again: the meeting stays confirmed but unowned.
pub fn after_start(
    m: Monitor,
    round: Round,
    meeting: CurrentMeeting,
    name: String,
    result: Result<(), String>,
    clock: ClockReading,
) -> (r: Turn)
    ensures
        r.deep_view() == start_turn(
            m.deep_view(),
            round.deep_view(),
            meeting.deep_view(),
            name@,
            reply(result),
            clock.deep_view(),
        ),
{
    let mut effects: Vec<Effect> = no_effects();
    match result {
        Ok(_) => {
            notify(&mut effects, &round.settings, join("Recording started: ", name.as_str()));
            assert(effects.deep_view() =~= notice(
                round.settings.deep_view(),
                "Recording started: "@ + name@,
            ));
            let mut meeting = meeting;
            meeting.meeting_name = Some(name);
            meeting.recording_started_by_detector = true;
            finish_start(m, round, meeting, None, effects, clock.at)
        },
        Err(e) => {
            let told: String = join(
                meeting.app.display_name(),
                " meeting detected, but recording could not start: ",
            );
            notify(&mut effects, &round.settings, join(told.as_str(), e.as_str()));
            assert(effects.deep_view() =~= notice(
                round.settings.deep_view(),
                app_name(meeting.app) + " meeting detected, but recording could not start: "@ + e@,
            ));
            let error: String = join("auto-start failed: ", e.as_str());
            finish_start(m, round, meeting, Some(error), effects, clock.at)
        },
    }
}

/// Goes on after the meeting of `app` ended. Only a recording that the detector
/// started is stopped.
pub fn on_meeting_ended(m: Monitor, round: Round, app: MeetingApp, clock: ClockReading) -> (r: Turn)
    ensures
        r.deep_view() == ended_turn(m.deep_view(), round.deep_view(), app, clock.deep_view()),
{
    let effects: Vec<Effect> = one_effect(Effect::MeetingEnded(app));
    let owned: Option<String> = match &m.status.current_meeting {
        Some(meeting) => if meeting.recording_started_by_detector {
            clone_text(&meeting.meeting_name)
        } else {
            None
        },
        None => None,
    };
    match owned {
        Some(name) => if round.settings.auto_stop_recording {
            Turn { effects, next: Pending::AskStillRecording { monitor: m, round, app, name } }
        } else {
            leave_alone(m, round, app, effects, clock)
        },
        None => leave_alone(m, round, app, effects, clock),
    }
}

/// Goes on with whether a recording is still running.
pub fn after_still_recording_known(
    m: Monitor,
    round: Round,
    app: MeetingApp,
    name: String,
    recording: bool,
    clock: ClockReading,
) -> (r: Turn)
    ensures
        r.deep_view() == still_recording_known_turn(
            m.deep_view(),
            round.deep_view(),
            app,
            name@,
            recording,
            clock.deep_view(),
        ),
{
    if recording {
        Turn {
            effects: no_effects(),
            next: Pending::AskMeetingName { monitor: m, round, app, name },
        }
    } else {
        leave_alone(m, round, app, no_effects(), clock)
    }
}

/// Whether the recorder's current meeting name, as far as it could be read,
/// equals `name`.
pub fn current_recording_is(current: &Result<Option<String>, String>, name: &str) -> (r: bool)
    ensures
        r == (name_reply(*current) == Ok::<Option<Seq<char>>, Seq<char>>(Some(name@))),
{
    match current {
        Ok(Some(running)) => same_text(running.as_str(), name),
        Ok(None) => false,
        Err(_) => false,
    }
}

/// Goes on with the name of the running recording. Another recording than the
/// one called `name` is left alone.
pub fn after_meeting_name(
    m: Monitor,
    round: Round,
    app: MeetingApp,
    name: String,
    current: Result<Option<String>, String>,
    clock: ClockReading,
) -> (r: Turn)
    ensures
        r.deep_view() == meeting_name_turn(
            m.deep_view(),
            round.deep_view(),
            app,
            name@,
            name_reply(current),
            clock.deep_view(),
        ),
{
    if current_recording_is(&current, name.as_str()) {
        Turn {
            effects: no_effects(),
            next: Pending::LocateDirectory { monitor: m, round, app },
        }
    } else {
        leave_alone(m, round, app, no_effects(), clock)
    }
}

/// Goes on after the recording could not be stopped.
fn stop_failed(
    m: Monitor,
    round: Round,
    app: MeetingApp,
    e: String,
    effects: Vec<Effect>,
    clock: ClockReading,
) -> (r: Turn)
    ensures
        r.deep_view() == stop_failed_turn(
            m.deep_view(),
            round.deep_view(),
            app,
            e@,
            effects.deep_view(),
            clock.deep_view(),
        ),
{
    let mut effects = effects;
    let told: String = join(
        app.display_name(),
        " meeting ended, but recording could not be stopped: ",
    );
    notify(&mut effects, &round.settings, join(told.as_str(), e.as_str()));
    let error: String = join("auto-stop failed: ", e.as_str());
    finish_end(m, round, Some(error), effects, clock.at)
}

/// Goes on with whether the app data directory was found.
pub fn after_directory(
    m: Monitor,
    round: Round,
    app: MeetingApp,
    found: Result<(), String>,
    clock: ClockReading,
) -> (r: Turn)
    requires
        readable(clock.deep_view()),
    ensures
        r.deep_view() == directory_turn(
            m.deep_view(),
            round.deep_view(),
            app,
            reply(found),
            clock.deep_view(),
        ),
{
    match found {
        Ok(_) => Turn {
            effects: one_effect(Effect::TrayStopping),
            next: Pending::StopRecording {
                monitor: m,
                round,
                app,
                file_name: recording_file_at(clock.local),
            },
        },
        Err(e) => {
            let failure: String = join("Failed to get app data dir: ", e.as_str());
            stop_failed(m, round, app, failure, no_effects(), clock)
        },
    }
}

/// Goes on with how the stop of the recording went.
pub fn after_stop(
    m: Monitor,
    round: Round,
    app: MeetingApp,
    result: Result<(), String>,
    clock: ClockReading,
) -> (r: Turn)
    ensures
        r.deep_view() == stop_turn(
            m.deep_view(),
            round.deep_view(),
            app,
            reply(result),
            clock.deep_view(),
        ),
{
    match result {
        Ok(_) => {
            let mut effects: Vec<Effect> = one_effect(Effect::StopComplete);
            notify(
                &mut effects,
                &round.settings,
                join(app.display_name(), " meeting ended. Recording saved."),
            );
            finish_end(m, round, None, effects, clock.at)
        },
        Err(e) => stop_failed(m, round, app, e, one_effect(Effect::TrayRefresh), clock),
    }
}

/// Goes on after a pause.
pub fn after_pause(m: Monitor) -> (r: Turn)
    ensures
        r.deep_view() == pause_turn(m.deep_view()),
{
    Turn { effects: no_effects(), next: Pending::ReadSettings { monitor: m } }
}

} // verus!
