use meeting_detector::settings::MeetingDetectionSettings;
use meeting_detector::signals::{
    bundle_id_matches, classify_bundle_id, outcome_of, pick_app, probe_all,
    probe_microphone_users, push_unique, scan_process_names, sort_by_priority, AudioClient,
    MeetingApp, ProbeOutcome, ProcessProbe, Signal, SignalSource,
};

fn mk(app: MeetingApp, source: SignalSource, detail: &str) -> Signal {
    Signal { app, source, detail: detail.into() }
}

fn capturing(pid: i32, bundle_id: &str) -> AudioClient {
    AudioClient { running_input: Some(true), pid: Some(pid), bundle_id: Some(bundle_id.into()) }
}

#[test]
fn classify_known_bundle_ids() {
    let s = MeetingDetectionSettings::default();
    assert_eq!(classify_bundle_id("com.microsoft.teams2", &s), Some(MeetingApp::MicrosoftTeams));
    assert_eq!(classify_bundle_id("us.zoom.xos", &s), Some(MeetingApp::Zoom));
    assert_eq!(classify_bundle_id("com.google.Chrome", &s), Some(MeetingApp::GoogleMeet));
    // Browsers and Teams capture audio in helper processes.
    assert_eq!(classify_bundle_id("com.google.Chrome.helper", &s), Some(MeetingApp::GoogleMeet));
    assert_eq!(classify_bundle_id("company.thebrowser.browser.helper", &s), Some(MeetingApp::GoogleMeet));
    assert_eq!(classify_bundle_id("com.microsoft.teams2.helper", &s), Some(MeetingApp::MicrosoftTeams));
    assert_eq!(classify_bundle_id("com.apple.FaceTime", &s), None);
    // No accidental prefix match on unrelated ids.
    assert_eq!(classify_bundle_id("com.google.Chromecast", &s), None);
}

#[test]
fn toggles_disable_classification() {
    let s = MeetingDetectionSettings {
        detect_google_meet: false,
        ..Default::default()
    };
    assert_eq!(classify_bundle_id("com.google.Chrome", &s), None);
}

#[test]
fn bundle_id_matches_is_case_insensitive_and_dot_bounded() {
    assert!(bundle_id_matches("COM.GOOGLE.CHROME.HELPER", "com.google.Chrome"));
    assert!(bundle_id_matches("com.google.chrome", "com.google.Chrome"));
    assert!(!bundle_id_matches("com.google.Chromecast", "com.google.Chrome"));
    assert!(!bundle_id_matches("com.google", "com.google.Chrome"));
}

#[test]
fn push_unique_dedupes_per_app_and_source_and_sort_orders_by_priority() {
    let mut out = Vec::new();
    let mk = |app, source| Signal { app, source, detail: "x".into() };
    push_unique(&mut out, mk(MeetingApp::GoogleMeet, SignalSource::MicrophoneInUse));
    push_unique(&mut out, mk(MeetingApp::Zoom, SignalSource::ProcessRunning));
    push_unique(&mut out, mk(MeetingApp::Zoom, SignalSource::MicrophoneInUse));
    push_unique(&mut out, mk(MeetingApp::Zoom, SignalSource::MicrophoneInUse));
    sort_by_priority(&mut out);
    assert_eq!(out.len(), 3);
    assert_eq!(out[0].app, MeetingApp::Zoom);
    assert_eq!(out[1].app, MeetingApp::Zoom);
    assert_eq!(out[2].app, MeetingApp::GoogleMeet);
}

#[test]
fn pick_app_none_on_empty() {
    assert_eq!(pick_app(&[]), None);
}

#[test]
fn process_probe_skipped_when_zoom_disabled() {
    let s = MeetingDetectionSettings { detect_zoom: false, ..Default::default() };
    let mut probe = ProcessProbe::default();
    let mut out = Vec::new();
    probe.probe(&s, &mut out);
    assert!(out.is_empty());
}

#[test]
fn pick_prefers_dedicated_apps() {
    let signals = vec![
        Signal { app: MeetingApp::GoogleMeet, source: SignalSource::MicrophoneInUse, detail: "chrome".into() },
        Signal { app: MeetingApp::Zoom, source: SignalSource::ProcessRunning, detail: "CptHost".into() },
    ];
    assert_eq!(pick_app(&signals), Some(MeetingApp::Zoom));
}

#[test]
fn priority_and_names_of_the_apps() {
    assert_eq!(
        MeetingApp::PRIORITY,
        [MeetingApp::MicrosoftTeams, MeetingApp::Zoom, MeetingApp::GoogleMeet]
    );
    assert_eq!(MeetingApp::MicrosoftTeams.display_name(), "Microsoft Teams");
    assert_eq!(MeetingApp::Zoom.display_name(), "Zoom");
    assert_eq!(MeetingApp::GoogleMeet.display_name(), "Google Meet");
}

#[test]
fn each_toggle_belongs_to_its_app() {
    let s = MeetingDetectionSettings { detect_teams: false, ..Default::default() };
    assert!(!MeetingApp::MicrosoftTeams.is_enabled(&s));
    assert!(MeetingApp::Zoom.is_enabled(&s));
    let s = MeetingDetectionSettings { detect_zoom: false, ..Default::default() };
    assert!(!MeetingApp::Zoom.is_enabled(&s));
    assert!(MeetingApp::GoogleMeet.is_enabled(&s));
    let s = MeetingDetectionSettings { detect_google_meet: false, ..Default::default() };
    assert!(!MeetingApp::GoogleMeet.is_enabled(&s));
    assert!(MeetingApp::MicrosoftTeams.is_enabled(&s));
}

#[test]
fn teams_and_zoom_ids_count_case() {
    let s = MeetingDetectionSettings::default();
    assert_eq!(classify_bundle_id("COM.MICROSOFT.TEAMS", &s), None);
    assert_eq!(classify_bundle_id("us.zoom", &s), None);
}

#[test]
fn sorting_keeps_the_order_within_an_app() {
    let mut out = vec![
        mk(MeetingApp::GoogleMeet, SignalSource::MicrophoneInUse, "1"),
        mk(MeetingApp::Zoom, SignalSource::ProcessRunning, "2"),
        mk(MeetingApp::MicrosoftTeams, SignalSource::MicrophoneInUse, "3"),
        mk(MeetingApp::Zoom, SignalSource::MicrophoneInUse, "4"),
        mk(MeetingApp::GoogleMeet, SignalSource::MicrophoneInUse, "5"),
    ];
    sort_by_priority(&mut out);
    let order: Vec<&str> = out.iter().map(|s| s.detail.as_str()).collect();
    assert_eq!(order, vec!["3", "2", "4", "1", "5"]);
}

#[test]
fn only_foreign_capturing_clients_count() {
    let s = MeetingDetectionSettings::default();
    let clients = vec![
        capturing(42, "us.zoom.xos"),
        AudioClient { running_input: Some(false), pid: Some(7), bundle_id: Some("us.zoom.xos".into()) },
        AudioClient { running_input: None, pid: Some(7), bundle_id: Some("us.zoom.xos".into()) },
        AudioClient { running_input: Some(true), pid: Some(7), bundle_id: None },
        capturing(8, "com.apple.FaceTime"),
        AudioClient { running_input: Some(true), pid: None, bundle_id: Some("com.google.Chrome.helper".into()) },
        capturing(9, "com.google.Chrome"),
    ];
    let mut out = Vec::new();
    assert_eq!(probe_microphone_users(&s, &mut out, &Ok(clients), 42), Ok(()));
    assert_eq!(
        out,
        vec![mk(MeetingApp::GoogleMeet, SignalSource::MicrophoneInUse, "com.google.Chrome.helper")]
    );
}

#[test]
fn a_missing_client_list_is_a_failure() {
    let s = MeetingDetectionSettings::default();
    let mut out = Vec::new();
    let reply = probe_microphone_users(&s, &mut out, &Err("Error(-4)".into()), 1);
    assert_eq!(reply, Err("Core Audio process list unavailable: Error(-4)".to_string()));
    assert!(out.is_empty());
}

#[test]
fn the_first_meeting_helper_gives_the_signal() {
    let s = MeetingDetectionSettings::default();
    let names = vec!["bash".into(), "zoom CptHost.exe".into(), "CPTHOST".into()];
    let mut out = Vec::new();
    scan_process_names(&names, &s, &mut out);
    assert_eq!(out, vec![mk(MeetingApp::Zoom, SignalSource::ProcessRunning, "zoom CptHost.exe")]);

    let off = MeetingDetectionSettings { detect_zoom: false, ..Default::default() };
    let mut out = Vec::new();
    scan_process_names(&names, &off, &mut out);
    assert!(out.is_empty());
}

#[test]
fn an_outcome_combines_both_sources_in_order() {
    let s = MeetingDetectionSettings::default();
    let clients = vec![capturing(3, "org.mozilla.firefox"), capturing(4, "com.microsoft.teams2")];
    let names = vec!["CptHost".to_string()];
    let outcome = outcome_of(&Ok(clients), 1, &names, &s);
    assert_eq!(
        outcome,
        ProbeOutcome {
            signals: vec![
                mk(MeetingApp::MicrosoftTeams, SignalSource::MicrophoneInUse, "com.microsoft.teams2"),
                mk(MeetingApp::Zoom, SignalSource::ProcessRunning, "CptHost"),
                mk(MeetingApp::GoogleMeet, SignalSource::MicrophoneInUse, "org.mozilla.firefox"),
            ],
            error: None,
        }
    );
    let failed = outcome_of(&Err("gone".into()), 1, &names, &s);
    assert_eq!(failed.error, Some("Core Audio process list unavailable: gone".to_string()));
    assert_eq!(failed.signals.len(), 1);
    assert_eq!(ProbeOutcome::default(), ProbeOutcome { signals: vec![], error: None });
}

#[test]
fn a_live_probe_only_ever_finds_the_zoom_helper() {
    let s = MeetingDetectionSettings::default();
    let mut probe = ProcessProbe::default();
    for _ in 0..2 {
        let outcome = probe_all(&mut probe, &s, &Ok(Vec::new()), 1);
        assert_eq!(outcome.error, None);
        assert!(outcome.signals.len() <= 1);
        for signal in &outcome.signals {
            assert_eq!(signal.app, MeetingApp::Zoom);
            assert_eq!(signal.source, SignalSource::ProcessRunning);
            assert!(signal.detail.to_ascii_lowercase().contains("cpthost"));
        }
    }
    let mut out = vec![mk(MeetingApp::Zoom, SignalSource::ProcessRunning, "seen before")];
    probe.probe(&s, &mut out);
    assert_eq!(out, vec![mk(MeetingApp::Zoom, SignalSource::ProcessRunning, "seen before")]);
}

#[test]
fn outcomes_can_be_copied() {
    let outcome = ProbeOutcome {
        signals: vec![Signal {
            app: MeetingApp::Zoom,
            source: SignalSource::ProcessRunning,
            detail: "CptHost".into(),
        }],
        error: Some("no list".into()),
    };
    assert_eq!(outcome.clone(), outcome);
}
