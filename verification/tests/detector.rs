use meeting_detector::clock::LocalTime;
use meeting_detector::detector::{
    build_meeting_name, meeting_name_at, pick_enabled_app, recording_file_at, step, Action,
    CurrentMeeting, DetectionStatus, Phase,
};
use meeting_detector::settings::MeetingDetectionSettings;
use meeting_detector::signals::{MeetingApp, Signal, SignalSource};
use meeting_detector::time::Moment;

fn settings(confirm: u64, grace: u64) -> MeetingDetectionSettings {
    MeetingDetectionSettings {
        start_confirm_secs: confirm,
        stop_grace_secs: grace,
        ..Default::default()
    }
}

fn sig(app: MeetingApp) -> Signal {
    Signal { app, source: SignalSource::MicrophoneInUse, detail: "test".into() }
}

fn start() -> Moment {
    Moment { nanos: 7_000_000_123 }
}

fn after(t: Moment, secs: u64) -> Moment {
    Moment { nanos: t.nanos + secs * 1_000_000_000 }
}

#[test]
fn idle_to_pending_on_first_signal() {
    let now = start();
    let (phase, action) = step(Phase::Idle, &[sig(MeetingApp::Zoom)], now, &settings(5, 45));
    assert_eq!(phase, Phase::Pending { app: MeetingApp::Zoom, since: now });
    assert_eq!(action, Action::Nothing);
}

#[test]
fn idle_stays_idle_without_signal() {
    let (phase, action) = step(Phase::Idle, &[], start(), &settings(5, 45));
    assert_eq!(phase, Phase::Idle);
    assert_eq!(action, Action::Nothing);
}

#[test]
fn idle_to_active_immediately_when_confirm_is_zero() {
    let now = start();
    let (phase, action) = step(Phase::Idle, &[sig(MeetingApp::Zoom)], now, &settings(0, 45));
    assert_eq!(phase, Phase::Active { app: MeetingApp::Zoom, lost_since: None });
    assert_eq!(action, Action::Start(MeetingApp::Zoom));
}

#[test]
fn idle_ignores_disabled_app() {
    let s = MeetingDetectionSettings { detect_zoom: false, ..settings(5, 45) };
    let (phase, _) = step(Phase::Idle, &[sig(MeetingApp::Zoom)], start(), &s);
    assert_eq!(phase, Phase::Idle);
}

#[test]
fn pending_returns_to_idle_when_signal_vanishes() {
    let t0 = start();
    let pending = Phase::Pending { app: MeetingApp::GoogleMeet, since: t0 };
    let (phase, action) = step(pending, &[], after(t0, 2), &settings(5, 45));
    assert_eq!(phase, Phase::Idle);
    assert_eq!(action, Action::Nothing);
}

#[test]
fn pending_ignores_other_app() {
    let t0 = start();
    let pending = Phase::Pending { app: MeetingApp::GoogleMeet, since: t0 };
    let (phase, _) = step(pending, &[sig(MeetingApp::Zoom)], after(t0, 2), &settings(5, 45));
    assert_eq!(phase, Phase::Idle, "no switch mid-pending; the next poll starts over");
}

#[test]
fn pending_confirms_after_confirm_window() {
    let t0 = start();
    let pending = Phase::Pending { app: MeetingApp::MicrosoftTeams, since: t0 };
    let s = settings(5, 45);

    let (phase, action) = step(pending, &[sig(MeetingApp::MicrosoftTeams)], after(t0, 4), &s);
    assert_eq!(phase, pending);
    assert_eq!(action, Action::Nothing);

    let (phase, action) = step(pending, &[sig(MeetingApp::MicrosoftTeams)], after(t0, 5), &s);
    assert_eq!(phase, Phase::Active { app: MeetingApp::MicrosoftTeams, lost_since: None });
    assert_eq!(action, Action::Start(MeetingApp::MicrosoftTeams));
}

#[test]
fn active_starts_grace_when_signal_lost() {
    let now = start();
    let active = Phase::Active { app: MeetingApp::Zoom, lost_since: None };
    let (phase, action) = step(active, &[], now, &settings(5, 45));
    assert_eq!(phase, Phase::Active { app: MeetingApp::Zoom, lost_since: Some(now) });
    assert_eq!(action, Action::Nothing);
}

#[test]
fn active_recovers_within_grace() {
    let t0 = start();
    let active = Phase::Active { app: MeetingApp::Zoom, lost_since: Some(t0) };
    let (phase, action) = step(active, &[sig(MeetingApp::Zoom)], after(t0, 10), &settings(5, 45));
    assert_eq!(phase, Phase::Active { app: MeetingApp::Zoom, lost_since: None });
    assert_eq!(action, Action::Nothing);
}

#[test]
fn active_ends_after_grace() {
    let t0 = start();
    let active = Phase::Active { app: MeetingApp::Zoom, lost_since: Some(t0) };
    let s = settings(5, 45);

    let (phase, action) = step(active, &[], after(t0, 44), &s);
    assert_eq!(phase, active);
    assert_eq!(action, Action::Nothing);

    let (phase, action) = step(active, &[], after(t0, 45), &s);
    assert_eq!(phase, Phase::Idle);
    assert_eq!(action, Action::End(MeetingApp::Zoom));
}

#[test]
fn active_ignores_signals_from_other_apps_for_grace() {
    let now = start();
    let active = Phase::Active { app: MeetingApp::Zoom, lost_since: None };
    let (phase, _) = step(active, &[sig(MeetingApp::GoogleMeet)], now, &settings(5, 45));
    assert_eq!(phase, Phase::Active { app: MeetingApp::Zoom, lost_since: Some(now) });
}

#[test]
fn stop_grace_zero_ends_on_first_absence() {
    let active = Phase::Active { app: MeetingApp::Zoom, lost_since: None };
    let (phase, action) = step(active, &[], start(), &settings(5, 0));
    assert_eq!(phase, Phase::Idle);
    assert_eq!(action, Action::End(MeetingApp::Zoom));
}

#[test]
fn build_meeting_name_format() {
    let name = build_meeting_name(MeetingApp::GoogleMeet);
    let re = regex::Regex::new(r"^Google Meet \d{4}-\d{2}-\d{2} \d{2}-\d{2}$").unwrap();
    assert!(re.is_match(&name), "unexpected name: {}", name);
}

#[test]
fn meeting_names_hold_app_date_and_minute() {
    let t = LocalTime { year: 2026, month: 3, day: 9, hour: 7, minute: 5, second: 59 };
    assert_eq!(meeting_name_at(MeetingApp::MicrosoftTeams, t), "Microsoft Teams 2026-03-09 07-05");
    assert_eq!(meeting_name_at(MeetingApp::Zoom, t), "Zoom 2026-03-09 07-05");
}

#[test]
fn recording_files_hold_the_second() {
    let t = LocalTime { year: 2026, month: 12, day: 31, hour: 23, minute: 59, second: 8 };
    assert_eq!(recording_file_at(t), "recording-2026-12-31T23-59-08.wav");
}

#[test]
fn a_clock_that_goes_back_counts_as_no_time() {
    let t0 = start();
    let pending = Phase::Pending { app: MeetingApp::Zoom, since: after(t0, 60) };
    let (phase, action) = step(pending, &[sig(MeetingApp::Zoom)], t0, &settings(5, 45));
    assert_eq!(phase, pending);
    assert_eq!(action, Action::Nothing);
}

#[test]
fn the_confirm_window_counts_nanoseconds() {
    let t0 = start();
    let pending = Phase::Pending { app: MeetingApp::Zoom, since: t0 };
    let almost = Moment { nanos: t0.nanos + 4_999_999_999 };
    assert_eq!(step(pending, &[sig(MeetingApp::Zoom)], almost, &settings(5, 45)).1, Action::Nothing);
}

#[test]
fn confirm_times_beyond_the_clock_are_never_reached() {
    let pending = Phase::Pending { app: MeetingApp::Zoom, since: Moment { nanos: 0 } };
    let late = Moment { nanos: u64::MAX };
    let (phase, _) = step(pending, &[sig(MeetingApp::Zoom)], late, &settings(u64::MAX, 45));
    assert_eq!(phase, pending);
}

#[test]
fn a_disabled_app_does_not_hide_an_enabled_one() {
    let s = MeetingDetectionSettings { detect_teams: false, ..settings(0, 45) };
    let signals = [sig(MeetingApp::MicrosoftTeams), sig(MeetingApp::Zoom)];
    assert_eq!(pick_enabled_app(&signals, &s), Some(MeetingApp::Zoom));
    assert_eq!(step(Phase::Idle, &signals, start(), &s).1, Action::Start(MeetingApp::Zoom));
}

#[test]
fn a_call_runs_from_first_signal_to_end() {
    let s = settings(5, 45);
    let t0 = start();
    let call = [sig(MeetingApp::GoogleMeet)];
    let mut phase = Phase::Idle;
    let mut actions = Vec::new();
    // Seen from 0 s to 12 s with a short gap, then gone.
    for (secs, present) in [
        (0, true), (3, true), (6, true), (9, false), (12, true), (15, false), (57, false), (60, false), (63, false),
    ] {
        let signals: &[Signal] = if present { &call } else { &[] };
        let (next, action) = step(phase, signals, after(t0, secs), &s);
        phase = next;
        if action != Action::Nothing {
            actions.push((secs, action));
        }
    }
    assert_eq!(
        actions,
        vec![(6, Action::Start(MeetingApp::GoogleMeet)), (60, Action::End(MeetingApp::GoogleMeet))]
    );
    assert_eq!(phase, Phase::Idle);
}

#[test]
fn the_blank_status_knows_of_nothing() {
    let status = DetectionStatus::default();
    assert!(!status.monitoring);
    assert_eq!(status.current_meeting, None);
    assert!(status.last_signals.is_empty());
    assert_eq!(status.last_error, None);
}

#[test]
fn copies_of_a_status_are_equal() {
    let status = DetectionStatus {
        monitoring: true,
        current_meeting: Some(CurrentMeeting {
            app: MeetingApp::Zoom,
            display_name: "Zoom".into(),
            detected_at: "2026-03-09T07:05:00+09:00".into(),
            meeting_name: Some("Zoom 2026-03-09 07-05".into()),
            recording_started_by_detector: true,
        }),
        pending_app: None,
        pending_secs: None,
        signal_lost_secs: Some(3),
        last_signals: vec![sig(MeetingApp::Zoom)],
        last_probe_at: Some("2026-03-09T07:06:00+09:00".into()),
        probe_error: None,
        last_error: Some("auto-stop failed: busy".into()),
    };
    assert_eq!(status.clone(), status);
}
