use meeting_detector::commands::{probe_settings, probe_signals, set_settings};
use meeting_detector::settings::MeetingDetectionSettings;
use meeting_detector::signals::{MeetingApp, ProbeOutcome, Signal, SignalSource};

fn zoom() -> Signal {
    Signal { app: MeetingApp::Zoom, source: SignalSource::ProcessRunning, detail: "CptHost".into() }
}

#[test]
fn saved_settings_come_into_force() {
    let mut current = MeetingDetectionSettings::default();
    let wanted = MeetingDetectionSettings { enabled: true, ..Default::default() }.sanitized();
    let reply = set_settings(&mut current, wanted.clone(), Ok(()));
    assert_eq!(reply, Ok(wanted.clone()));
    assert_eq!(current, wanted);
}

#[test]
fn settings_are_sanitized_before_they_come_into_force() {
    let mut current = MeetingDetectionSettings::default();
    let wanted = MeetingDetectionSettings { poll_interval_secs: 0, ..Default::default() };
    let reply = set_settings(&mut current, wanted.clone(), Ok(()));
    assert_ne!(current, wanted);
    assert_eq!(current, wanted.sanitized());
    assert_eq!(reply, Ok(current));
}

#[test]
fn settings_that_were_not_saved_do_not() {
    let mut current = MeetingDetectionSettings::default();
    let wanted = MeetingDetectionSettings { enabled: true, ..Default::default() };
    let reply = set_settings(&mut current, wanted, Err("disk full".into()));
    assert_eq!(reply, Err("disk full".to_string()));
    assert_eq!(current, MeetingDetectionSettings::default());
}

#[test]
fn one_shot_probes_ignore_the_toggles() {
    let s = MeetingDetectionSettings {
        detect_teams: false,
        detect_google_meet: false,
        detect_zoom: false,
        stop_grace_secs: 7,
        ..Default::default()
    };
    let p = probe_settings(&s);
    assert!(p.detect_teams && p.detect_google_meet && p.detect_zoom);
    assert_eq!(p.stop_grace_secs, 7);
    assert!(!p.enabled);
}

#[test]
fn one_shot_probes_reply_with_signals_or_the_failure() {
    let found = ProbeOutcome { signals: vec![zoom()], error: None };
    assert_eq!(probe_signals(Ok(found)), Ok(vec![zoom()]));
    let failed = ProbeOutcome { signals: vec![zoom()], error: Some("no list".into()) };
    assert_eq!(probe_signals(Ok(failed)), Err("no list".to_string()));
    assert_eq!(probe_signals(Err("cancelled".into())), Err("probe failed: cancelled".to_string()));
}
