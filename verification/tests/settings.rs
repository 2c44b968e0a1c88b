use meeting_detector::settings::{
    MeetingDetectionSettings, SaveFailure, StoredSettings, DEFAULT_MEET_BROWSER_BUNDLE_IDS,
    SETTINGS_FILE_NAME,
};

#[test]
fn sanitized_clamps_trims_and_dedupes() {
    let s = MeetingDetectionSettings {
        poll_interval_secs: 0,
        start_confirm_secs: 999,
        stop_grace_secs: 10_000,
        meet_browser_bundle_ids: vec!["  a ".into(), "".into(), "b".into(), "A".into()],
        ..Default::default()
    }
    .sanitized();
    assert_eq!(s.poll_interval_secs, 1);
    assert_eq!(s.start_confirm_secs, 120);
    assert_eq!(s.stop_grace_secs, 600);
    assert_eq!(s.meet_browser_bundle_ids, vec!["a".to_string(), "b".to_string()]);
}

#[test]
fn sanitized_keeps_what_is_in_range() {
    let s = MeetingDetectionSettings {
        enabled: true,
        notify_on_detection: false,
        poll_interval_secs: 60,
        start_confirm_secs: 0,
        stop_grace_secs: 0,
        ..Default::default()
    };
    assert_eq!(s.clone().sanitized(), s);
    let high = MeetingDetectionSettings { poll_interval_secs: 61, ..s };
    assert_eq!(high.sanitized().poll_interval_secs, 60);
}

#[test]
fn sanitizing_twice_changes_nothing_more() {
    let s = MeetingDetectionSettings {
        poll_interval_secs: 500,
        meet_browser_bundle_ids: vec![
            "\u{3000}org.Example\u{a0}".into(),
            "ORG.EXAMPLE".into(),
            " \t\n".into(),
            "\u{c4}".into(),
            "\u{e4}".into(),
        ],
        ..Default::default()
    };
    let once = s.sanitized();
    assert_eq!(once.meet_browser_bundle_ids, vec!["org.Example", "\u{c4}", "\u{e4}"]);
    assert_eq!(once.clone().sanitized(), once);
}

#[test]
fn defaults_are_opt_in_and_safe() {
    let d = MeetingDetectionSettings::default();
    assert!(!d.enabled);
    assert!(d.auto_start_recording && d.auto_stop_recording && d.notify_on_detection);
    assert!(d.detect_teams && d.detect_google_meet && d.detect_zoom);
    assert_eq!((d.poll_interval_secs, d.start_confirm_secs, d.stop_grace_secs), (3, 5, 45));
    assert_eq!(d.meet_browser_bundle_ids, DEFAULT_MEET_BROWSER_BUNDLE_IDS);
    assert_eq!(d.clone().sanitized(), d);
    assert_eq!(SETTINGS_FILE_NAME, "meeting_detection.json");
}

#[test]
fn stored_settings_are_sanitized_on_load() {
    let stored = MeetingDetectionSettings {
        enabled: true,
        poll_interval_secs: 0,
        ..Default::default()
    };
    let loaded = MeetingDetectionSettings::load(StoredSettings::Parsed(stored));
    assert!(loaded.enabled);
    assert_eq!(loaded.poll_interval_secs, 1);
}

#[test]
fn without_stored_settings_the_defaults_are_loaded() {
    let d = MeetingDetectionSettings::default();
    assert_eq!(MeetingDetectionSettings::load(StoredSettings::NoPath), d);
    assert_eq!(MeetingDetectionSettings::load(StoredSettings::Missing), d);
    assert_eq!(MeetingDetectionSettings::load(StoredSettings::Unreadable), d);
    assert_eq!(MeetingDetectionSettings::load(StoredSettings::Malformed), d);
}

#[test]
fn save_failures_say_what_failed() {
    assert_eq!(SaveFailure::NoPath.message(), "Could not determine settings path");
    assert_eq!(
        SaveFailure::Directory("denied".into()).message(),
        "Failed to create settings directory: denied"
    );
    assert_eq!(
        SaveFailure::Serialize("odd".into()).message(),
        "Failed to serialize settings: odd"
    );
    assert_eq!(SaveFailure::Write("full".into()).message(), "Failed to write settings: full");
}
