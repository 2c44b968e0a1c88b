use meeting_detector::clock::LocalTime;
use meeting_detector::detector::{CurrentMeeting, DetectionStatus, Phase};
use meeting_detector::monitor::{
    after_directory, after_meeting_name, after_pause, after_probe, after_recording_known,
    after_settings, after_start, after_still_recording_known, after_stop, after_wake,
    current_recording_is, ClockReading, Effect, Monitor, Pending, Turn,
};
use meeting_detector::settings::MeetingDetectionSettings;
use meeting_detector::signals::{MeetingApp, ProbeOutcome, Signal, SignalSource};
use meeting_detector::time::Moment;

const AT: &str = "2026-03-09T07:05:09+09:00";
const NAME: &str = "Zoom 2026-03-09 07-05";

fn clock() -> ClockReading {
    ClockReading {
        at: AT.into(),
        local: LocalTime { year: 2026, month: 3, day: 9, hour: 7, minute: 5, second: 9 },
    }
}

fn on() -> MeetingDetectionSettings {
    MeetingDetectionSettings {
        enabled: true,
        start_confirm_secs: 0,
        stop_grace_secs: 0,
        ..Default::default()
    }
}

fn zoom() -> Signal {
    Signal { app: MeetingApp::Zoom, source: SignalSource::ProcessRunning, detail: "CptHost".into() }
}

fn at(secs: u64) -> Moment {
    Moment { nanos: secs * 1_000_000_000 }
}

fn found(signals: Vec<Signal>) -> Result<ProbeOutcome, String> {
    Ok(ProbeOutcome { signals, error: None })
}

fn meeting(name: Option<&str>) -> CurrentMeeting {
    CurrentMeeting {
        app: MeetingApp::Zoom,
        display_name: "Zoom".into(),
        detected_at: AT.into(),
        meeting_name: name.map(|n| n.to_string()),
        recording_started_by_detector: name.is_some(),
    }
}

fn in_call(m: CurrentMeeting) -> Monitor {
    Monitor {
        phase: Phase::Active { app: MeetingApp::Zoom, lost_since: None },
        status: DetectionStatus { current_meeting: Some(m), ..Default::default() },
    }
}

fn notice(text: &str) -> Effect {
    Effect::Notify(text.into())
}

/// The monitor, if the round is over.
fn rested(turn: Turn) -> (Vec<Effect>, Monitor) {
    match turn.next {
        Pending::Pause { monitor, secs } => {
            assert_eq!(secs, 3);
            (turn.effects, monitor)
        }
        other => panic!("the round goes on: {:?}", other),
    }
}

/// A confirmed meeting, up to the start of its recording.
fn starting(settings: MeetingDetectionSettings) -> Turn {
    let turn = after_probe(Monitor::new(), settings, found(vec![zoom()]), at(1), clock());
    assert_eq!(turn.effects, vec![Effect::MeetingDetected(meeting(None))]);
    match turn.next {
        Pending::AskRecording { monitor, round, meeting } => {
            after_recording_known(monitor, round, meeting, false, clock())
        }
        other => panic!("the recorder is not asked: {:?}", other),
    }
}

/// A meeting with a recording of the detector that has ended, up to the question
/// for the name of the running recording.
fn ending(settings: MeetingDetectionSettings, recording: bool) -> Turn {
    let turn = after_probe(in_call(meeting(Some(NAME))), settings, found(vec![]), at(9), clock());
    assert_eq!(turn.effects, vec![Effect::MeetingEnded(MeetingApp::Zoom)]);
    match turn.next {
        Pending::AskStillRecording { monitor, round, app, name } => {
            assert_eq!(name, NAME);
            after_still_recording_known(monitor, round, app, name, recording, clock())
        }
        other => panic!("the recorder is not asked: {:?}", other),
    }
}

/// As [`ending`], up to the search for the app data directory.
fn locating(current: Result<Option<String>, String>) -> Turn {
    let turn = ending(on(), true);
    assert!(turn.effects.is_empty());
    match turn.next {
        Pending::AskMeetingName { monitor, round, app, name } => {
            after_meeting_name(monitor, round, app, name, current, clock())
        }
        other => panic!("the name is not asked: {:?}", other),
    }
}

/// As [`locating`], up to the stop of the recording.
fn stopping(directory: Result<(), String>) -> Turn {
    let turn = locating(Ok(Some(NAME.to_string())));
    assert!(turn.effects.is_empty());
    match turn.next {
        Pending::LocateDirectory { monitor, round, app } => {
            after_directory(monitor, round, app, directory, clock())
        }
        other => panic!("the directory is not asked: {:?}", other),
    }
}

fn stopped(result: Result<(), String>) -> (Vec<Effect>, Monitor) {
    let turn = stopping(Ok(()));
    assert_eq!(turn.effects, vec![Effect::TrayStopping]);
    match turn.next {
        Pending::StopRecording { monitor, round, app, file_name } => {
            assert_eq!(file_name, "recording-2026-03-09T07-05-09.wav");
            rested(after_stop(monitor, round, app, result, clock()))
        }
        other => panic!("the recording is not stopped: {:?}", other),
    }
}

#[test]
fn a_confirmed_meeting_is_recorded_and_owned() {
    let turn = starting(on());
    assert!(turn.effects.is_empty());
    let turn = match turn.next {
        Pending::StartRecording { monitor, round, meeting, name } => {
            assert_eq!(name, NAME);
            after_start(monitor, round, meeting, name, Ok(()), clock())
        }
        other => panic!("no recording is started: {:?}", other),
    };
    let (effects, m) = rested(turn);
    assert_eq!(
        effects,
        vec![notice("Recording started: Zoom 2026-03-09 07-05"), Effect::PublishStatus]
    );
    assert_eq!(m.phase, Phase::Active { app: MeetingApp::Zoom, lost_since: None });
    assert_eq!(
        m.status,
        DetectionStatus {
            monitoring: true,
            current_meeting: Some(meeting(Some(NAME))),
            pending_app: None,
            pending_secs: None,
            signal_lost_secs: None,
            last_signals: vec![zoom()],
            last_probe_at: Some(AT.into()),
            probe_error: None,
            last_error: None,
        }
    );
}

#[test]
fn a_start_that_fails_leaves_the_meeting_unowned_and_is_not_retried() {
    let turn = match starting(on()).next {
        Pending::StartRecording { monitor, round, meeting, name } => {
            after_start(monitor, round, meeting, name, Err("no microphone".into()), clock())
        }
        other => panic!("no recording is started: {:?}", other),
    };
    let (effects, m) = rested(turn);
    assert_eq!(
        effects,
        vec![
            notice("Zoom meeting detected, but recording could not start: no microphone"),
            Effect::PublishStatus,
        ]
    );
    assert_eq!(m.status.current_meeting, Some(meeting(None)));
    assert_eq!(m.status.last_error, Some("auto-start failed: no microphone".to_string()));

    let (effects, m) = rested(after_probe(m, on(), found(vec![zoom()]), at(4), clock()));
    assert_eq!(effects, vec![Effect::PublishStatus]);
    assert_eq!(m.status.last_error, Some("auto-start failed: no microphone".to_string()));

    // The end of a meeting that is not owned does not touch the recorder or the error.
    let (effects, m) = rested(after_probe(m, on(), found(vec![]), at(7), clock()));
    assert_eq!(
        effects,
        vec![
            Effect::MeetingEnded(MeetingApp::Zoom),
            notice("Zoom meeting ended."),
            Effect::PublishStatus,
        ]
    );
    assert_eq!(m.status.current_meeting, None);
    assert_eq!(m.status.last_error, Some("auto-start failed: no microphone".to_string()));
}

#[test]
fn a_running_recording_is_left_alone() {
    let turn = after_probe(Monitor::new(), on(), found(vec![zoom()]), at(1), clock());
    let turn = match turn.next {
        Pending::AskRecording { monitor, round, meeting } => {
            after_recording_known(monitor, round, meeting, true, clock())
        }
        other => panic!("the recorder is not asked: {:?}", other),
    };
    let (effects, m) = rested(turn);
    assert_eq!(
        effects,
        vec![
            notice("Zoom meeting detected. Recording already in progress."),
            Effect::PublishStatus,
        ]
    );
    assert_eq!(m.status.current_meeting, Some(meeting(None)));
}

#[test]
fn without_auto_start_the_meeting_is_only_told() {
    let s = MeetingDetectionSettings { auto_start_recording: false, ..on() };
    let (effects, m) = rested(after_probe(Monitor::new(), s, found(vec![zoom()]), at(1), clock()));
    assert_eq!(
        effects,
        vec![
            Effect::MeetingDetected(meeting(None)),
            notice("Zoom meeting detected."),
            Effect::PublishStatus,
        ]
    );
    assert_eq!(m.status.current_meeting, Some(meeting(None)));
}

#[test]
fn notifications_can_be_turned_off() {
    let s = MeetingDetectionSettings {
        auto_start_recording: false,
        notify_on_detection: false,
        ..on()
    };
    let (effects, _) = rested(after_probe(Monitor::new(), s, found(vec![zoom()]), at(1), clock()));
    assert_eq!(effects, vec![Effect::MeetingDetected(meeting(None)), Effect::PublishStatus]);
}

#[test]
fn an_owned_recording_is_stopped_when_its_meeting_ends() {
    let (effects, m) = stopped(Ok(()));
    assert_eq!(
        effects,
        vec![
            Effect::StopComplete,
            notice("Zoom meeting ended. Recording saved."),
            Effect::PublishStatus,
        ]
    );
    assert_eq!(m.phase, Phase::Idle);
    assert_eq!(m.status.current_meeting, None);
    assert_eq!(m.status.last_error, None);
}

#[test]
fn a_stop_that_fails_is_shown_until_a_start_or_a_stop_succeeds() {
    let (effects, m) = stopped(Err("device lost".into()));
    assert_eq!(
        effects,
        vec![
            Effect::TrayRefresh,
            notice("Zoom meeting ended, but recording could not be stopped: device lost"),
            Effect::PublishStatus,
        ]
    );
    assert_eq!(m.status.current_meeting, None);
    assert_eq!(m.status.last_error, Some("auto-stop failed: device lost".to_string()));

    let again = Monitor {
        phase: Phase::Active { app: MeetingApp::Zoom, lost_since: None },
        status: DetectionStatus { current_meeting: Some(meeting(None)), ..m.status },
    };
    let (_, m) = rested(after_probe(again, on(), found(vec![]), at(20), clock()));
    assert_eq!(m.status.last_error, Some("auto-stop failed: device lost".to_string()));

    let s = MeetingDetectionSettings { auto_start_recording: false, ..on() };
    let (_, m) = rested(after_probe(m, s, found(vec![zoom()]), at(30), clock()));
    assert_eq!(m.status.last_error, None);
}

#[test]
fn a_stop_that_succeeds_clears_any_error() {
    let mut m = in_call(meeting(Some(NAME)));
    m.status.last_error = Some("auto-start failed: x".to_string());
    let turn = after_probe(m, on(), found(vec![]), at(9), clock());
    let turn = match turn.next {
        Pending::AskStillRecording { monitor, round, app, name } => {
            after_still_recording_known(monitor, round, app, name, true, clock())
        }
        other => panic!("the recorder is not asked: {:?}", other),
    };
    let turn = match turn.next {
        Pending::AskMeetingName { monitor, round, app, name } => {
            let current = Ok(Some(name.clone()));
            after_meeting_name(monitor, round, app, name, current, clock())
        }
        other => panic!("the name is not asked: {:?}", other),
    };
    let turn = match turn.next {
        Pending::LocateDirectory { monitor, round, app } => {
            after_directory(monitor, round, app, Ok(()), clock())
        }
        other => panic!("the directory is not asked: {:?}", other),
    };
    let (_, m) = match turn.next {
        Pending::StopRecording { monitor, round, app, .. } => {
            rested(after_stop(monitor, round, app, Ok(()), clock()))
        }
        other => panic!("the recording is not stopped: {:?}", other),
    };
    assert_eq!(m.status.last_error, None);
}

#[test]
fn an_end_is_not_notified_where_the_settings_ask_for_none() {
    let s = MeetingDetectionSettings { notify_on_detection: false, ..on() };
    let m = in_call(meeting(None));
    let (effects, _) = rested(after_probe(m, s, found(vec![]), at(9), clock()));
    assert_eq!(effects, vec![Effect::MeetingEnded(MeetingApp::Zoom), Effect::PublishStatus]);
}

#[test]
fn a_missing_directory_is_a_stop_that_fails() {
    let (effects, m) = rested(stopping(Err("no home".into())));
    assert_eq!(
        effects,
        vec![
            notice(
                "Zoom meeting ended, but recording could not be stopped: Failed to get app data dir: no home"
            ),
            Effect::PublishStatus,
        ]
    );
    assert_eq!(
        m.status.last_error,
        Some("auto-stop failed: Failed to get app data dir: no home".to_string())
    );
}

#[test]
fn a_recording_of_the_user_is_never_stopped() {
    for current in [Ok(Some("Standup".to_string())), Ok(None), Err("recorder gone".to_string())] {
        let (effects, m) = rested(locating(current));
        assert_eq!(effects, vec![notice("Zoom meeting ended."), Effect::PublishStatus]);
        assert_eq!(m.status.current_meeting, None);
    }
    let (effects, _) = rested(ending(on(), false));
    assert_eq!(effects, vec![notice("Zoom meeting ended."), Effect::PublishStatus]);
}

#[test]
fn the_running_recording_is_told_by_its_name() {
    assert!(current_recording_is(&Ok(Some(NAME.to_string())), NAME));
    assert!(!current_recording_is(&Ok(Some("zoom 2026-03-09 07-05".to_string())), NAME));
    assert!(!current_recording_is(&Ok(None), NAME));
    assert!(!current_recording_is(&Err(NAME.to_string()), NAME));
}

#[test]
fn without_auto_stop_the_recording_goes_on() {
    let s = MeetingDetectionSettings { auto_stop_recording: false, ..on() };
    let m = in_call(meeting(Some(NAME)));
    let (effects, m) = rested(after_probe(m, s, found(vec![]), at(9), clock()));
    assert_eq!(
        effects,
        vec![
            Effect::MeetingEnded(MeetingApp::Zoom),
            notice("Zoom meeting ended."),
            Effect::PublishStatus,
        ]
    );
    assert_eq!(m.status.current_meeting, None);
}

#[test]
fn failed_probes_do_not_end_a_meeting() {
    let mut m = in_call(meeting(Some(NAME)));
    m.status.last_signals = vec![zoom()];
    let failed = ProbeOutcome { signals: vec![], error: Some("no list".into()) };
    let (effects, m) = rested(after_probe(m, on(), Ok(failed), at(5), clock()));
    assert_eq!(effects, vec![Effect::PublishStatus]);
    assert_eq!(m.phase, Phase::Active { app: MeetingApp::Zoom, lost_since: None });
    assert_eq!(m.status.current_meeting, Some(meeting(Some(NAME))));
    assert_eq!(m.status.last_signals, vec![zoom()]);
    assert_eq!(m.status.probe_error, Some("no list".to_string()));

    let (_, m) = rested(after_probe(m, on(), Err("panicked".into()), at(8), clock()));
    assert_eq!(m.phase, Phase::Active { app: MeetingApp::Zoom, lost_since: None });
    assert_eq!(m.status.probe_error, Some("probe task failed: panicked".to_string()));

    let (_, m) = rested(after_probe(m, on(), found(vec![zoom()]), at(11), clock()));
    assert_eq!(m.status.probe_error, None);
}

#[test]
fn switching_off_and_on_keeps_an_owned_meeting() {
    let off = MeetingDetectionSettings { enabled: false, ..on() };
    let mut m = in_call(meeting(Some(NAME)));
    m.status.monitoring = true;
    m.status.last_signals = vec![zoom()];
    let turn = after_settings(m, off.clone());
    assert_eq!(turn.effects, vec![Effect::PublishStatus]);
    let asleep = match turn.next {
        Pending::WaitForWake { monitor } => monitor,
        other => panic!("still awake: {:?}", other),
    };
    assert_eq!(asleep.phase, Phase::Idle);
    assert_eq!(
        asleep.status,
        DetectionStatus { current_meeting: Some(meeting(Some(NAME))), ..Default::default() }
    );
    let turn = after_wake(asleep);
    assert!(turn.effects.is_empty());
    match turn.next {
        Pending::ReadSettings { monitor } => {
            assert_eq!(monitor.phase, Phase::Active { app: MeetingApp::Zoom, lost_since: None });
        }
        other => panic!("the settings are not read: {:?}", other),
    }

    // What is not owned is forgotten.
    let turn = after_settings(in_call(meeting(None)), off);
    match turn.next {
        Pending::WaitForWake { monitor } => {
            assert_eq!(monitor.status, DetectionStatus::default());
            match after_wake(monitor).next {
                Pending::ReadSettings { monitor } => assert_eq!(monitor.phase, Phase::Idle),
                other => panic!("the settings are not read: {:?}", other),
            }
        }
        other => panic!("still awake: {:?}", other),
    }
}

#[test]
fn a_resumed_meeting_ends_after_its_grace() {
    let s = MeetingDetectionSettings { stop_grace_secs: 45, ..on() };
    let mut m = in_call(meeting(Some(NAME)));
    // The grace that ran before the switch does not count.
    m.phase = Phase::Active { app: MeetingApp::Zoom, lost_since: Some(at(1)) };
    let off = MeetingDetectionSettings { enabled: false, ..s.clone() };
    let asleep = match after_settings(m, off).next {
        Pending::WaitForWake { monitor } => monitor,
        other => panic!("still awake: {:?}", other),
    };
    let awake = match after_wake(asleep).next {
        Pending::ReadSettings { monitor } => monitor,
        other => panic!("the settings are not read: {:?}", other),
    };
    let (effects, m) = rested(after_probe(awake, s.clone(), found(vec![zoom()]), at(90), clock()));
    assert_eq!(effects, vec![Effect::PublishStatus]);
    let (effects, m) = rested(after_probe(m, s.clone(), found(vec![]), at(100), clock()));
    assert_eq!(effects, vec![Effect::PublishStatus]);
    let (effects, m) = rested(after_probe(m, s.clone(), found(vec![]), at(144), clock()));
    assert_eq!(effects, vec![Effect::PublishStatus]);
    assert_eq!(m.status.current_meeting, Some(meeting(Some(NAME))));
    let turn = after_probe(m, s, found(vec![]), at(145), clock());
    assert_eq!(turn.effects, vec![Effect::MeetingEnded(MeetingApp::Zoom)]);
    match turn.next {
        Pending::AskStillRecording { name, .. } => assert_eq!(name, NAME),
        other => panic!("the recorder is not asked: {:?}", other),
    }
}

#[test]
fn while_on_the_settings_lead_to_a_probe() {
    let turn = after_settings(Monitor::new(), on());
    assert!(turn.effects.is_empty());
    match turn.next {
        Pending::Probe { monitor, settings } => {
            assert_eq!(monitor.phase, Phase::Idle);
            assert_eq!(settings, on());
        }
        other => panic!("no probe: {:?}", other),
    }
    match after_pause(Monitor::new()).next {
        Pending::ReadSettings { monitor } => assert_eq!(monitor.status, DetectionStatus::default()),
        other => panic!("the settings are not read: {:?}", other),
    }
}

#[test]
fn the_status_shows_the_timers() {
    let s = MeetingDetectionSettings { start_confirm_secs: 5, stop_grace_secs: 45, ..on() };
    let (effects, m) =
        rested(after_probe(Monitor::new(), s.clone(), found(vec![zoom()]), at(10), clock()));
    assert_eq!(effects, vec![Effect::PublishStatus]);
    assert_eq!(m.status.pending_app, Some(MeetingApp::Zoom));
    assert_eq!(m.status.pending_secs, Some(0));
    let later = Moment { nanos: 13_900_000_000 };
    let (_, m) = rested(after_probe(m, s.clone(), found(vec![zoom()]), later, clock()));
    assert_eq!(m.status.pending_secs, Some(3));
    assert_eq!(m.status.signal_lost_secs, None);

    let m = in_call(meeting(Some(NAME)));
    let (_, m) = rested(after_probe(m, s.clone(), found(vec![]), at(100), clock()));
    assert_eq!(m.status.signal_lost_secs, Some(0));
    let (_, m) = rested(after_probe(m, s.clone(), found(vec![]), at(144), clock()));
    assert_eq!(m.status.signal_lost_secs, Some(44));
    let (_, m) = rested(after_probe(m, s, found(vec![zoom()]), at(144), clock()));
    assert_eq!(m.status.signal_lost_secs, None);
    assert_eq!(m.status.pending_app, None);
}
