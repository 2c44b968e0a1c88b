//! What the models of the types hold: every field, as it is.

use crate::detector::{
    blank_status, CurrentMeeting, DetectionStatus, EVENT_MEETING_DETECTED, EVENT_MEETING_ENDED,
    EVENT_STATUS,
};
use crate::monitor::{
    monitor_of, name_reply, outcome_of_task, probe_reply, reply, ClockReading, Effect, EffectModel,
    Monitor, Pending, PendingModel, Round, Turn,
};
use crate::settings::{MeetingDetectionSettings, SETTINGS_FILE_NAME};
use crate::signals::{AudioClient, OutcomeModel, ProbeOutcome, Signal};
use vstd::prelude::*;

verus! {

/// `model` holds the characters of `text`, if there is one.
pub open spec fn same_text_or_none(model: Option<Seq<char>>, text: Option<String>) -> bool {
    match text {
        Some(t) => model == Some(t@),
        None => model is None,
    }
}

/// The model of settings holds each of them.
pub proof fn settings_are_shown_in_full(s: MeetingDetectionSettings)
    ensures
        ({
            let m = s.deep_view();
            &&& m.enabled == s.enabled
            &&& m.auto_start_recording == s.auto_start_recording
            &&& m.auto_stop_recording == s.auto_stop_recording
            &&& m.detect_teams == s.detect_teams
            &&& m.detect_google_meet == s.detect_google_meet
            &&& m.detect_zoom == s.detect_zoom
            &&& m.notify_on_detection == s.notify_on_detection
            &&& m.poll_interval_secs == s.poll_interval_secs
            &&& m.start_confirm_secs == s.start_confirm_secs
            &&& m.stop_grace_secs == s.stop_grace_secs
            &&& m.meet_browser_bundle_ids.len() == s.meet_browser_bundle_ids@.len()
            &&& forall|i: int|
                0 <= i < s.meet_browser_bundle_ids@.len() ==> #[trigger]
                m.meet_browser_bundle_ids[i] == s.meet_browser_bundle_ids@[i]@
        }),
{
}

/// The model of a signal holds its app, its source and its detail.
pub proof fn signals_are_shown_in_full(s: Signal)
    ensures
        s.deep_view().app == s.app,
        s.deep_view().source == s.source,
        s.deep_view().detail == s.detail@,
{
}

/// The model of a Core Audio client holds what could be read of it.
pub proof fn clients_are_shown_in_full(c: AudioClient)
    ensures
        c.deep_view().running_input == c.running_input,
        c.deep_view().pid == c.pid,
        same_text_or_none(c.deep_view().bundle_id, c.bundle_id),
{
}

/// The model of an outcome holds its signals in order, and its error.
pub proof fn outcomes_are_shown_in_full(o: ProbeOutcome)
    ensures
        o.deep_view().signals.len() == o.signals@.len(),
        forall|i: int|
            0 <= i < o.signals@.len() ==> #[trigger] o.deep_view().signals[i]
                == o.signals@[i].deep_view(),
        same_text_or_none(o.deep_view().error, o.error),
{
}

/// The model of a meeting holds all that is known of it.
pub proof fn meetings_are_shown_in_full(m: CurrentMeeting)
    ensures
        m.deep_view().app == m.app,
        m.deep_view().display_name == m.display_name@,
        m.deep_view().detected_at == m.detected_at@,
        same_text_or_none(m.deep_view().meeting_name, m.meeting_name),
        m.deep_view().recording_started_by_detector == m.recording_started_by_detector,
{
}

/// The model of a status holds all that it tells.
pub proof fn statuses_are_shown_in_full(s: DetectionStatus)
    ensures
        ({
            let m = s.deep_view();
            &&& m.monitoring == s.monitoring
            &&& m.current_meeting is Some <==> s.current_meeting is Some
            &&& s.current_meeting is Some ==> m.current_meeting->0
                == s.current_meeting->0.deep_view()
            &&& m.pending_app == s.pending_app
            &&& m.pending_secs == s.pending_secs
            &&& m.signal_lost_secs == s.signal_lost_secs
            &&& m.last_signals.len() == s.last_signals@.len()
            &&& forall|i: int|
                0 <= i < s.last_signals@.len() ==> #[trigger] m.last_signals[i]
                    == s.last_signals@[i].deep_view()
            &&& same_text_or_none(m.last_probe_at, s.last_probe_at)
            &&& same_text_or_none(m.probe_error, s.probe_error)
            &&& same_text_or_none(m.last_error, s.last_error)
        }),
{
}

/// A blank status tells of nothing.
pub proof fn a_blank_status_tells_nothing()
    ensures
        ({
            let b = blank_status();
            &&& !b.monitoring
            &&& b.current_meeting is None && b.pending_app is None && b.pending_secs is None
            &&& b.signal_lost_secs is None && b.last_probe_at is None
            &&& b.probe_error is None && b.last_error is None
            &&& b.last_signals.len() == 0
        }),
{
}

/// The models of a clock reading, of the monitor and of a round hold their parts.
pub proof fn rounds_are_shown_in_full(c: ClockReading, m: Monitor, r: Round)
    ensures
        c.deep_view().at == c.at@,
        c.deep_view().local == c.local,
        m.deep_view().phase == m.phase,
        m.deep_view().status == m.status.deep_view(),
        r.deep_view().settings == r.settings.deep_view(),
        r.deep_view().outcome == r.outcome.deep_view(),
        r.deep_view().now == r.now,
{
}

/// The model of an effect is of the same kind and holds the same.
pub proof fn effects_are_shown_as_they_are(e: Effect)
    ensures
        match e {
            Effect::PublishStatus => e.deep_view() == EffectModel::PublishStatus,
            Effect::MeetingDetected(meeting) => e.deep_view() == EffectModel::MeetingDetected(
                meeting.deep_view(),
            ),
            Effect::MeetingEnded(app) => e.deep_view() == EffectModel::MeetingEnded(app),
            Effect::Notify(body) => e.deep_view() == EffectModel::Notify(body@),
            Effect::TrayStopping => e.deep_view() == EffectModel::TrayStopping,
            Effect::TrayRefresh => e.deep_view() == EffectModel::TrayRefresh,
            Effect::StopComplete => e.deep_view() == EffectModel::StopComplete,
        },
{
}

/// The model of what the monitor waits for is of the same kind and holds the same.
pub proof fn waits_are_shown_as_they_are(p: Pending)
    ensures
        match p {
            Pending::ReadSettings { monitor } => p.deep_view() == (PendingModel::ReadSettings {
                monitor: monitor.deep_view(),
            }),
            Pending::WaitForWake { monitor } => p.deep_view() == (PendingModel::WaitForWake {
                monitor: monitor.deep_view(),
            }),
            Pending::Probe { monitor, settings } => p.deep_view() == (PendingModel::Probe {
                monitor: monitor.deep_view(),
                settings: settings.deep_view(),
            }),
            Pending::AskRecording { monitor, round, meeting } => p.deep_view()
                == (PendingModel::AskRecording {
                monitor: monitor.deep_view(),
                round: round.deep_view(),
                meeting: meeting.deep_view(),
            }),
            Pending::StartRecording { monitor, round, meeting, name } => p.deep_view()
                == (PendingModel::StartRecording {
                monitor: monitor.deep_view(),
                round: round.deep_view(),
                meeting: meeting.deep_view(),
                name: name@,
            }),
            Pending::AskStillRecording { monitor, round, app, name } => p.deep_view()
                == (PendingModel::AskStillRecording {
                monitor: monitor.deep_view(),
                round: round.deep_view(),
                app,
                name: name@,
            }),
            Pending::AskMeetingName { monitor, round, app, name } => p.deep_view()
                == (PendingModel::AskMeetingName {
                monitor: monitor.deep_view(),
                round: round.deep_view(),
                app,
                name: name@,
            }),
            Pending::LocateDirectory { monitor, round, app } => p.deep_view()
                == (PendingModel::LocateDirectory {
                monitor: monitor.deep_view(),
                round: round.deep_view(),
                app,
            }),
            Pending::StopRecording { monitor, round, app, file_name } => p.deep_view()
                == (PendingModel::StopRecording {
                monitor: monitor.deep_view(),
                round: round.deep_view(),
                app,
                file_name: file_name@,
            }),
            Pending::Pause { monitor, secs } => p.deep_view() == (PendingModel::Pause {
                monitor: monitor.deep_view(),
                secs,
            }),
        },
{
}

/// Whatever the monitor waits for, what it knows is what that state holds.
pub proof fn what_is_known_is_what_is_held(p: PendingModel)
    ensures
        match p {
            PendingModel::ReadSettings { monitor } => monitor_of(p) == monitor,
            PendingModel::WaitForWake { monitor } => monitor_of(p) == monitor,
            PendingModel::Probe { monitor, settings } => monitor_of(p) == monitor,
            PendingModel::AskRecording { monitor, round, meeting } => monitor_of(p) == monitor,
            PendingModel::StartRecording { monitor, round, meeting, name } => monitor_of(p)
                == monitor,
            PendingModel::AskStillRecording { monitor, round, app, name } => monitor_of(p)
                == monitor,
            PendingModel::AskMeetingName { monitor, round, app, name } => monitor_of(p) == monitor,
            PendingModel::LocateDirectory { monitor, round, app } => monitor_of(p) == monitor,
            PendingModel::StopRecording { monitor, round, app, file_name } => monitor_of(p)
                == monitor,
            PendingModel::Pause { monitor, secs } => monitor_of(p) == monitor,
        },
{
}

/// The webview listens to these events, and the settings are kept in this file.
pub proof fn the_webview_knows_the_names()
    ensures
        EVENT_STATUS@ == "meeting-detector://status"@,
        EVENT_MEETING_DETECTED@ == "meeting-detector://meeting-detected"@,
        EVENT_MEETING_ENDED@ == "meeting-detector://meeting-ended"@,
        SETTINGS_FILE_NAME@ == "meeting_detection.json"@,
{
}

/// The model of a turn holds its effects in order, and what is waited for next.
pub proof fn turns_are_shown_in_full(t: Turn)
    ensures
        t.deep_view().effects.len() == t.effects@.len(),
        forall|i: int|
            0 <= i < t.effects@.len() ==> #[trigger] t.deep_view().effects[i]
                == t.effects@[i].deep_view(),
        t.deep_view().next == t.next.deep_view(),
{
}

/// A reply of the host is read as it is: success as success, and a failure with its
/// cause.
pub proof fn replies_are_read_as_they_are(e: String, name: Option<String>, o: ProbeOutcome)
    ensures
        reply(Ok(())) is Ok,
        reply(Err(e)) is Err && reply(Err(e))->Err_0 == e@,
        name_reply(Ok(name)) is Ok && same_text_or_none(name_reply(Ok(name))->Ok_0, name),
        name_reply(Err(e)) is Err && name_reply(Err(e))->Err_0 == e@,
        probe_reply(Ok(o)) is Ok && probe_reply(Ok(o))->Ok_0 == o.deep_view(),
        probe_reply(Err(e)) is Err && probe_reply(Err(e))->Err_0 == e@,
{
}

/// A probe that was made counts as what it found. One that could not be made counts as
/// one that failed, with the cause and without signals.
pub proof fn probes_that_cannot_be_made_have_failed(o: OutcomeModel, e: Seq<char>)
    ensures
        outcome_of_task(Ok(o)) == o,
        outcome_of_task(Err(e)).signals.len() == 0,
        ({
            let error = outcome_of_task(Err(e)).error;
            &&& error is Some
            &&& error->0.len() == e.len() + 19
            &&& error->0.take(19) == "probe task failed: "@
            &&& error->0.skip(19) == e
        }),
{
    reveal_strlit("probe task failed: ");
    let error = outcome_of_task(Err(e)).error->0;
    assert(error.take(19) =~= "probe task failed: "@);
    assert(error.skip(19) =~= e);
}

} // verus!
