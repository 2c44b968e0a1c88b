//! What follows from each reply: what is told and shown, what is asked next, and what
//! is known after it.

use crate::detector::{meeting_name, next_phase, recording_file, Action, MeetingModel, Phase, StatusModel};
use crate::laws::monitor::{answers, respond, settings_of, within_round, EventModel};
use crate::laws::time::{full_secs, shown_seconds_are_full_seconds};
use crate::monitor::{
    directory_turn, ended_turn, meeting_name_turn, monitor_of, outcome_of_task, pause_turn,
    probe_turn, recording_known_turn, settings_turn, start_turn, started_turn,
    still_recording_known_turn, stop_turn, wake_turn, whole_secs, ClockModel, EffectModel, MonitorModel,
    PendingModel, RoundModel, TurnModel,
};
use crate::settings::SettingsModel;
use crate::signals::{app_name, MeetingApp};
use crate::time::Moment;
use vstd::prelude::*;

verus! {

/// The effects `first`, a notification with `body` where the settings ask for
/// notifications, and at last the status.
pub open spec fn announced(first: Seq<EffectModel>, s: SettingsModel, body: Seq<char>) -> Seq<
    EffectModel,
> {
    if s.notify_on_detection {
        first.push(EffectModel::Notify(body)).push(EffectModel::PublishStatus)
    } else {
        first.push(EffectModel::PublishStatus)
    }
}

/// The status shows the timer of `phase` at `now` in full seconds, and no other timer.
pub open spec fn shows_timer(status: StatusModel, phase: Phase, now: Moment) -> bool {
    match phase {
        Phase::Idle => {
            &&& status.pending_app is None
            &&& status.pending_secs is None
            &&& status.signal_lost_secs is None
        },
        Phase::Pending { app, since } => {
            &&& status.pending_app == Some(app)
            &&& status.pending_secs is Some
            &&& full_secs(status.pending_secs->0, now, since)
            &&& status.signal_lost_secs is None
        },
        Phase::Active { app, lost_since: None } => {
            &&& status.pending_app is None
            &&& status.pending_secs is None
            &&& status.signal_lost_secs is None
        },
        Phase::Active { app, lost_since: Some(t) } => {
            &&& status.pending_app is None
            &&& status.pending_secs is None
            &&& status.signal_lost_secs is Some
            &&& full_secs(status.signal_lost_secs->0, now, t)
        },
    }
}

/// The round is over: the monitor pauses for the poll interval, and the status shows
/// `meeting`, `error`, the timer of `phase` and what the round found. After a failed
/// probe it still shows the signals of the last one that did not fail.
pub open spec fn round_ends(
    turn: TurnModel,
    before: StatusModel,
    phase: Phase,
    round: RoundModel,
    c: ClockModel,
    meeting: Option<MeetingModel>,
    error: Option<Seq<char>>,
) -> bool {
    let after = monitor_of(turn.next);
    &&& turn.next is Pause
    &&& turn.next->Pause_secs == round.settings.poll_interval_secs
    &&& after.phase == phase
    &&& after.status.monitoring
    &&& after.status.current_meeting == meeting
    &&& after.status.last_error == error
    &&& after.status.last_probe_at == Some(c.at)
    &&& after.status.probe_error == round.outcome.error
    &&& round.outcome.error is None ==> after.status.last_signals == round.outcome.signals
    &&& round.outcome.error is Some ==> after.status.last_signals == before.last_signals
    &&& shows_timer(after.status, phase, round.now)
}

/// The detector started the recording of the meeting that `status` shows.
pub open spec fn owns(status: StatusModel) -> bool {
    &&& status.current_meeting is Some
    &&& status.current_meeting->0.recording_started_by_detector
}

proof fn lemma_timer_shown(phase: Phase, now: Moment)
    ensures
        match phase {
            Phase::Pending { app, since } => full_secs(
                whole_secs(now, since),
                now,
                since,
            ),
            Phase::Active { app, lost_since: Some(t) } => full_secs(
                whole_secs(now, t),
                now,
                t,
            ),
            _ => true,
        },
{
    match phase {
        Phase::Pending { app, since } => {
            shown_seconds_are_full_seconds(now, since);
        },
        Phase::Active { app, lost_since: Some(t) } => {
            shown_seconds_are_full_seconds(now, t);
        },
        _ => {},
    }
}

/// While the master switch is on, a probe is made with the settings in force, and nothing
/// else changes. When it is off, the status is published, shows nothing but a meeting
/// whose recording the detector started, and the monitor waits to be woken.
pub proof fn the_master_switch_decides(m: MonitorModel, s: SettingsModel)
    ensures
        s.enabled ==> {
            &&& settings_turn(m, s).effects.len() == 0
            &&& settings_turn(m, s).next == (PendingModel::Probe { monitor: m, settings: s })
        },
        !s.enabled ==> {
            let turn = settings_turn(m, s);
            let after = monitor_of(turn.next);
            &&& turn.effects == seq![EffectModel::PublishStatus]
            &&& turn.next is WaitForWake
            &&& after.phase == Phase::Idle
            &&& owns(m.status) ==> after.status.current_meeting == m.status.current_meeting
            &&& !owns(m.status) ==> after.status.current_meeting is None
            &&& !after.status.monitoring
            &&& after.status.pending_app is None
            &&& after.status.pending_secs is None
            &&& after.status.signal_lost_secs is None
            &&& after.status.last_signals.len() == 0
            &&& after.status.last_probe_at is None
            &&& after.status.probe_error is None
            &&& after.status.last_error is None
        },
{
}

/// Woken, the monitor reads the settings again. A meeting whose recording the detector
/// started is then active, with its whole grace. Nothing else changes, nor does anything
/// after a pause.
pub proof fn waking_makes_an_owned_meeting_active(m: MonitorModel)
    ensures
        ({
            let turn = wake_turn(m);
            let after = monitor_of(turn.next);
            &&& turn.effects.len() == 0
            &&& turn.next is ReadSettings
            &&& after.status == m.status
            &&& owns(m.status) ==> after.phase == (Phase::Active {
                app: m.status.current_meeting->0.app,
                lost_since: None,
            })
            &&& !owns(m.status) ==> after.phase == m.phase
        }),
        pause_turn(m).effects.len() == 0,
        pause_turn(m).next == (PendingModel::ReadSettings { monitor: m }),
{
}

/// `meeting` is one of `app` that was confirmed at `at` and is not being recorded by the
/// detector.
pub open spec fn just_confirmed(meeting: MeetingModel, app: MeetingApp, at: Seq<char>) -> bool {
    &&& meeting.app == app
    &&& meeting.display_name == app_name(app)
    &&& meeting.detected_at == at
    &&& meeting.meeting_name is None
    &&& !meeting.recording_started_by_detector
}

/// A meeting that is confirmed is told to the webview first. With automatic start on, the
/// recorder is then asked whether it is free. Else the round is over, and the meeting is
/// shown and notified.
pub proof fn confirmed_meetings_are_told(
    m: MonitorModel,
    round: RoundModel,
    app: MeetingApp,
    c: ClockModel,
)
    ensures
        ({
            let turn = started_turn(m, round, app, c);
            let meeting = turn.effects[0]->MeetingDetected_0;
            &&& turn.effects.len() > 0
            &&& turn.effects[0] == EffectModel::MeetingDetected(meeting)
            &&& just_confirmed(meeting, app, c.at)
            &&& round.settings.auto_start_recording ==> {
                &&& turn.effects.len() == 1
                &&& turn.next == (PendingModel::AskRecording { monitor: m, round, meeting })
            }
            &&& !round.settings.auto_start_recording ==> {
                &&& turn.effects == announced(
                    seq![EffectModel::MeetingDetected(meeting)],
                    round.settings,
                    app_name(app) + " meeting detected."@,
                )
                &&& round_ends(turn, m.status, m.phase, round, c, Some(meeting), None)
            }
        }),
{
    lemma_timer_shown(m.phase, round.now);
    let turn = started_turn(m, round, app, c);
    let meeting = turn.effects[0]->MeetingDetected_0;
    if !round.settings.auto_start_recording {
        assert(turn.effects =~= announced(
            seq![EffectModel::MeetingDetected(meeting)],
            round.settings,
            app_name(app) + " meeting detected."@,
        ));
    }
}

/// A meeting that ended is told to the webview first. Where the detector started its
/// recording and automatic stop is on, the recorder is then asked whether it still
/// records. Else the round is over: the meeting is forgotten, its end is notified, and
/// the error that was shown stays.
pub proof fn ended_meetings_are_told(
    m: MonitorModel,
    round: RoundModel,
    app: MeetingApp,
    c: ClockModel,
)
    ensures
        ({
            let turn = ended_turn(m, round, app, c);
            let told = seq![EffectModel::MeetingEnded(app)];
            if owns(m.status) && m.status.current_meeting->0.meeting_name is Some
                && round.settings.auto_stop_recording {
                &&& turn.effects == told
                &&& turn.next == (PendingModel::AskStillRecording {
                    monitor: m,
                    round,
                    app,
                    name: m.status.current_meeting->0.meeting_name->0,
                })
            } else {
                &&& turn.effects == announced(
                    told,
                    round.settings,
                    app_name(app) + " meeting ended."@,
                )
                &&& round_ends(turn, m.status, m.phase, round, c, None, m.status.last_error)
            }
        }),
{
    lemma_timer_shown(m.phase, round.now);
    let turn = ended_turn(m, round, app, c);
    let told = seq![EffectModel::MeetingEnded(app)];
    if turn.next is Pause {
        assert(turn.effects =~= announced(
            told,
            round.settings,
            app_name(app) + " meeting ended."@,
        ));
    }
}

/// A probe that did not fail moves the detector on, and a meeting that is thereby
/// confirmed or ended is dealt with. Any other probe only brings the status up to date,
/// and one that failed leaves the detector where it was.
pub proof fn probes_move_the_detector_on(m: MonitorModel, round: RoundModel, c: ClockModel)
    ensures
        ({
            let turn = probe_turn(m, round, c);
            let (phase, action) = next_phase(
                m.phase,
                round.outcome.signals,
                round.now,
                round.settings,
            );
            let moved = MonitorModel { phase, status: m.status };
            if round.outcome.error is Some {
                &&& turn.effects == seq![EffectModel::PublishStatus]
                &&& round_ends(
                    turn,
                    m.status,
                    m.phase,
                    round,
                    c,
                    m.status.current_meeting,
                    m.status.last_error,
                )
            } else {
                match action {
                    Action::Start(app) => turn == started_turn(moved, round, app, c),
                    Action::End(app) => turn == ended_turn(moved, round, app, c),
                    Action::Nothing => {
                        &&& turn.effects == seq![EffectModel::PublishStatus]
                        &&& round_ends(
                            turn,
                            m.status,
                            phase,
                            round,
                            c,
                            m.status.current_meeting,
                            m.status.last_error,
                        )
                    },
                }
            }
        }),
{
    let (phase, action) = next_phase(m.phase, round.outcome.signals, round.now, round.settings);
    lemma_timer_shown(m.phase, round.now);
    lemma_timer_shown(phase, round.now);
    assert(Seq::<EffectModel>::empty().push(EffectModel::PublishStatus) =~= seq![
        EffectModel::PublishStatus,
    ]);
}

/// A recorder that is free is asked to record under the name of the meeting. One that
/// records already is left alone: the meeting is shown as not owned, and notified.
pub proof fn a_free_recorder_is_started(
    m: MonitorModel,
    round: RoundModel,
    meeting: MeetingModel,
    c: ClockModel,
)
    ensures
        ({
            let turn = recording_known_turn(m, round, meeting, false, c);
            &&& turn.effects.len() == 0
            &&& turn.next == (PendingModel::StartRecording {
                monitor: m,
                round,
                meeting,
                name: meeting_name(meeting.app, c.local),
            })
        }),
        ({
            let turn = recording_known_turn(m, round, meeting, true, c);
            &&& turn.effects == announced(
                Seq::empty(),
                round.settings,
                app_name(meeting.app) + " meeting detected. Recording already in progress."@,
            )
            &&& round_ends(turn, m.status, m.phase, round, c, Some(meeting), None)
        }),
{
    lemma_timer_shown(m.phase, round.now);
    let turn = recording_known_turn(m, round, meeting, true, c);
    assert(turn.effects =~= announced(
        Seq::empty(),
        round.settings,
        app_name(meeting.app) + " meeting detected. Recording already in progress."@,
    ));
}

/// A recording that started makes the meeting owned under its name. One that did not
/// leaves the meeting as it was, and the cause is shown and notified.
pub proof fn starts_are_owned_if_they_succeed(
    m: MonitorModel,
    round: RoundModel,
    meeting: MeetingModel,
    name: Seq<char>,
    e: Seq<char>,
    c: ClockModel,
)
    ensures
        ({
            let turn = start_turn(m, round, meeting, name, Ok(()), c);
            let owned = MeetingModel {
                app: meeting.app,
                display_name: meeting.display_name,
                detected_at: meeting.detected_at,
                meeting_name: Some(name),
                recording_started_by_detector: true,
            };
            &&& turn.effects == announced(
                Seq::empty(),
                round.settings,
                "Recording started: "@ + name,
            )
            &&& round_ends(turn, m.status, m.phase, round, c, Some(owned), None)
        }),
        ({
            let turn = start_turn(m, round, meeting, name, Err(e), c);
            &&& turn.effects == announced(
                Seq::empty(),
                round.settings,
                app_name(meeting.app) + " meeting detected, but recording could not start: "@ + e,
            )
            &&& round_ends(
                turn,
                m.status,
                m.phase,
                round,
                c,
                Some(meeting),
                Some("auto-start failed: "@ + e),
            )
        }),
{
    lemma_timer_shown(m.phase, round.now);
    assert(start_turn(m, round, meeting, name, Ok(()), c).effects =~= announced(
        Seq::empty(),
        round.settings,
        "Recording started: "@ + name,
    ));
    assert(start_turn(m, round, meeting, name, Err(e), c).effects =~= announced(
        Seq::empty(),
        round.settings,
        app_name(meeting.app) + " meeting detected, but recording could not start: "@ + e,
    ));
}

/// Before a recording is stopped, the recorder has to be recording, and under the very
/// name that the detector gave. Else it is left alone: the meeting is forgotten, its end
/// is notified, and the error that was shown stays.
pub proof fn only_the_named_recording_is_stopped(
    m: MonitorModel,
    round: RoundModel,
    app: MeetingApp,
    name: Seq<char>,
    current: Result<Option<Seq<char>>, Seq<char>>,
    c: ClockModel,
)
    ensures
        ({
            let turn = still_recording_known_turn(m, round, app, name, true, c);
            &&& turn.effects.len() == 0
            &&& turn.next == (PendingModel::AskMeetingName { monitor: m, round, app, name })
        }),
        ({
            let turn = still_recording_known_turn(m, round, app, name, false, c);
            &&& turn.effects == announced(
                Seq::empty(),
                round.settings,
                app_name(app) + " meeting ended."@,
            )
            &&& round_ends(turn, m.status, m.phase, round, c, None, m.status.last_error)
        }),
        ({
            let turn = meeting_name_turn(m, round, app, name, current, c);
            if current is Ok && current->Ok_0 is Some && current->Ok_0->0 == name {
                &&& turn.effects.len() == 0
                &&& turn.next == (PendingModel::LocateDirectory { monitor: m, round, app })
            } else {
                &&& turn.effects == announced(
                    Seq::empty(),
                    round.settings,
                    app_name(app) + " meeting ended."@,
                )
                &&& round_ends(turn, m.status, m.phase, round, c, None, m.status.last_error)
            }
        }),
{
    lemma_timer_shown(m.phase, round.now);
    let body = app_name(app) + " meeting ended."@;
    let told = announced(Seq::empty(), round.settings, body);
    assert(still_recording_known_turn(m, round, app, name, false, c).effects =~= told);
    let turn = meeting_name_turn(m, round, app, name, current, c);
    if turn.next is Pause {
        assert(turn.effects =~= told);
    }
}

/// A recording that is to be stopped is saved to a file named after the second, and the
/// tray shows that it is being stopped. Without a directory to save to, it is not
/// stopped, and the cause is shown and notified.
pub proof fn recordings_are_saved_where_there_is_a_place(
    m: MonitorModel,
    round: RoundModel,
    app: MeetingApp,
    e: Seq<char>,
    c: ClockModel,
)
    ensures
        ({
            let turn = directory_turn(m, round, app, Ok(()), c);
            &&& turn.effects == seq![EffectModel::TrayStopping]
            &&& turn.next == (PendingModel::StopRecording {
                monitor: m,
                round,
                app,
                file_name: recording_file(c.local),
            })
        }),
        ({
            let turn = directory_turn(m, round, app, Err(e), c);
            let cause = "Failed to get app data dir: "@ + e;
            &&& turn.effects == announced(
                Seq::empty(),
                round.settings,
                app_name(app) + " meeting ended, but recording could not be stopped: "@ + cause,
            )
            &&& round_ends(
                turn,
                m.status,
                m.phase,
                round,
                c,
                None,
                Some("auto-stop failed: "@ + cause),
            )
        }),
{
    lemma_timer_shown(m.phase, round.now);
    assert(directory_turn(m, round, app, Err(e), c).effects =~= announced(
        Seq::empty(),
        round.settings,
        app_name(app) + " meeting ended, but recording could not be stopped: "@ + (
        "Failed to get app data dir: "@ + e),
    ));
}

/// After a recording was stopped, the webview is told so that it saves, whatever the
/// settings. After one that could not be stopped, the tray is brought back in line, and
/// the cause is shown and notified. Either way the meeting is forgotten.
pub proof fn stopped_recordings_are_saved(
    m: MonitorModel,
    round: RoundModel,
    app: MeetingApp,
    e: Seq<char>,
    c: ClockModel,
)
    ensures
        ({
            let turn = stop_turn(m, round, app, Ok(()), c);
            &&& turn.effects == announced(
                seq![EffectModel::StopComplete],
                round.settings,
                app_name(app) + " meeting ended. Recording saved."@,
            )
            &&& round_ends(turn, m.status, m.phase, round, c, None, None)
        }),
        ({
            let turn = stop_turn(m, round, app, Err(e), c);
            &&& turn.effects == announced(
                seq![EffectModel::TrayRefresh],
                round.settings,
                app_name(app) + " meeting ended, but recording could not be stopped: "@ + e,
            )
            &&& round_ends(
                turn,
                m.status,
                m.phase,
                round,
                c,
                None,
                Some("auto-stop failed: "@ + e),
            )
        }),
{
    lemma_timer_shown(m.phase, round.now);
    assert(stop_turn(m, round, app, Ok(()), c).effects =~= announced(
        seq![EffectModel::StopComplete],
        round.settings,
        app_name(app) + " meeting ended. Recording saved."@,
    ));
    assert(stop_turn(m, round, app, Err(e), c).effects =~= announced(
        seq![EffectModel::TrayRefresh],
        round.settings,
        app_name(app) + " meeting ended, but recording could not be stopped: "@ + e,
    ));
}

/// `effects` hold `effect` at one place and no other.
pub open spec fn once(effects: Seq<EffectModel>, effect: EffectModel) -> bool {
    exists|i: int|
        0 <= i < effects.len() && #[trigger] effects[i] == effect && forall|j: int|
            0 <= j < effects.len() && j != i ==> #[trigger] effects[j] != effect
}

/// `effect` is a notification or the status.
pub open spec fn for_the_user(effect: EffectModel) -> bool {
    effect is Notify || effect is PublishStatus
}

proof fn lemma_announced(first: Seq<EffectModel>, s: SettingsModel, body: Seq<char>)
    requires
        first.len() <= 1,
    ensures
        announced(first, s, body).len() > 0,
        first.len() == 1 ==> announced(first, s, body)[0] == first[0],
        first.len() == 0 ==> for_the_user(announced(first, s, body)[0]),
        forall|i: int|
            1 <= i < announced(first, s, body).len() ==> for_the_user(
                #[trigger] announced(first, s, body)[i],
            ),
{
}

/// What is done first on the reply `e`, if anything but telling the user is done.
pub open spec fn first_deed(p: PendingModel, e: EventModel, effect: EffectModel) -> bool {
    match (p, e) {
        (PendingModel::Probe { monitor, settings }, EventModel::Probed { result, now }) => effect is
            MeetingDetected || effect is MeetingEnded || for_the_user(effect),
        (PendingModel::LocateDirectory { monitor, round, app }, EventModel::Directory(Ok(_))) =>
            effect == EffectModel::TrayStopping,
        (
            PendingModel::StopRecording { monitor, round, app, file_name },
            EventModel::Stopped(Ok(_)),
        ) => effect == EffectModel::StopComplete,
        (
            PendingModel::StopRecording { monitor, round, app, file_name },
            EventModel::Stopped(Err(_)),
        ) => effect == EffectModel::TrayRefresh,
        _ => for_the_user(effect),
    }
}

/// Nothing that is done on a reply but the first is other than for the user.
#[verifier::spinoff_prover]
#[verifier::rlimit(40)]
proof fn lemma_deeds(p: PendingModel, e: EventModel, c: ClockModel)
    requires
        answers(p, e),
    ensures
        ({
            let told = respond(p, e, c).effects;
            &&& told.len() > 0 ==> first_deed(p, e, told[0])
            &&& p is StopRecording ==> told.len() > 0
            &&& respond(p, e, c).next is StopRecording ==> told.len() > 0
            &&& forall|i: int| 1 <= i < told.len() ==> for_the_user(#[trigger] told[i])
        }),
{
    let none = Seq::<EffectModel>::empty();
    match (p, e) {
        (PendingModel::ReadSettings { monitor }, EventModel::Settings(s)) => {
            the_master_switch_decides(monitor, s);
        },
        (PendingModel::WaitForWake { monitor }, EventModel::Woken) => {
            waking_makes_an_owned_meeting_active(monitor);
        },
        (PendingModel::Pause { monitor, secs }, EventModel::PauseOver) => {
            waking_makes_an_owned_meeting_active(monitor);
        },
        (PendingModel::Probe { monitor, settings }, EventModel::Probed { result, now }) => {
            let round = RoundModel { settings, outcome: outcome_of_task(result), now };
            lemma_probe_deeds(monitor, round, c);
        },
        (PendingModel::AskRecording { monitor, round, meeting }, EventModel::Recording(b)) => {
            a_free_recorder_is_started(monitor, round, meeting, c);
            lemma_announced(
                none,
                round.settings,
                app_name(meeting.app) + " meeting detected. Recording already in progress."@,
            );
        },
        (
            PendingModel::StartRecording { monitor, round, meeting, name },
            EventModel::Started(result),
        ) => {
            match result {
                Ok(_) => {
                    starts_are_owned_if_they_succeed(monitor, round, meeting, name, name, c);
                    lemma_announced(none, round.settings, "Recording started: "@ + name);
                },
                Err(cause) => {
                    starts_are_owned_if_they_succeed(monitor, round, meeting, name, cause, c);
                    lemma_announced(
                        none,
                        round.settings,
                        app_name(meeting.app)
                            + " meeting detected, but recording could not start: "@ + cause,
                    );
                },
            }
        },
        (
            PendingModel::AskStillRecording { monitor, round, app, name },
            EventModel::Recording(b),
        ) => {
            only_the_named_recording_is_stopped(monitor, round, app, name, Ok(None), c);
            lemma_announced(none, round.settings, app_name(app) + " meeting ended."@);
        },
        (
            PendingModel::AskMeetingName { monitor, round, app, name },
            EventModel::MeetingName(current),
        ) => {
            only_the_named_recording_is_stopped(monitor, round, app, name, current, c);
            lemma_announced(none, round.settings, app_name(app) + " meeting ended."@);
        },
        (PendingModel::LocateDirectory { monitor, round, app }, EventModel::Directory(found)) => {
            match found {
                Ok(_) => {
                    recordings_are_saved_where_there_is_a_place(monitor, round, app, app_name(app), c);
                },
                Err(cause) => {
                    recordings_are_saved_where_there_is_a_place(monitor, round, app, cause, c);
                    lemma_announced(
                        none,
                        round.settings,
                        app_name(app) + " meeting ended, but recording could not be stopped: "@ + (
                        "Failed to get app data dir: "@ + cause),
                    );
                },
            }
        },
        (
            PendingModel::StopRecording { monitor, round, app, file_name },
            EventModel::Stopped(result),
        ) => {
            match result {
                Ok(_) => {
                    stopped_recordings_are_saved(monitor, round, app, file_name, c);
                    lemma_announced(
                        seq![EffectModel::StopComplete],
                        round.settings,
                        app_name(app) + " meeting ended. Recording saved."@,
                    );
                },
                Err(cause) => {
                    stopped_recordings_are_saved(monitor, round, app, cause, c);
                    lemma_announced(
                        seq![EffectModel::TrayRefresh],
                        round.settings,
                        app_name(app) + " meeting ended, but recording could not be stopped: "@
                            + cause,
                    );
                },
            }
        },
        _ => {},
    }
}

proof fn lemma_probe_deeds(m: MonitorModel, round: RoundModel, c: ClockModel)
    ensures
        ({
            let told = probe_turn(m, round, c).effects;
            &&& !(probe_turn(m, round, c).next is StopRecording)
            &&& told.len() > 0 ==> told[0] is MeetingDetected || told[0] is MeetingEnded
                || for_the_user(told[0])
            &&& forall|i: int| 1 <= i < told.len() ==> for_the_user(#[trigger] told[i])
        }),
{
    let (phase, action) = next_phase(m.phase, round.outcome.signals, round.now, round.settings);
    let moved = MonitorModel { phase, status: m.status };
    probes_move_the_detector_on(m, round, c);
    if round.outcome.error is None {
        match action {
            Action::Nothing => {},
            Action::Start(app) => {
                confirmed_meetings_are_told(moved, round, app, c);
                let meeting = started_turn(moved, round, app, c).effects[0]->MeetingDetected_0;
                lemma_announced(
                    seq![EffectModel::MeetingDetected(meeting)],
                    round.settings,
                    app_name(app) + " meeting detected."@,
                );
            },
            Action::End(app) => {
                ended_meetings_are_told(moved, round, app, c);
                lemma_announced(
                    seq![EffectModel::MeetingEnded(app)],
                    round.settings,
                    app_name(app) + " meeting ended."@,
                );
            },
        }
    }
}

/// The webview is told that the recorder stopped, once, after each stop that succeeded,
/// and after no other reply.
pub proof fn the_webview_saves_after_each_stop(p: PendingModel, e: EventModel, c: ClockModel)
    requires
        answers(p, e),
    ensures
        ({
            let told = respond(p, e, c).effects;
            let stopped = p is StopRecording && (e matches EventModel::Stopped(Ok(_)));
            &&& stopped ==> once(told, EffectModel::StopComplete)
            &&& !stopped ==> !told.contains(EffectModel::StopComplete)
        }),
{
    lemma_deeds(p, e, c);
    lemma_once(p, e, respond(p, e, c).effects, EffectModel::StopComplete);
}

/// The tray shows that a recording is being stopped, once, just before that is asked for,
/// and is brought back in line, once, where it could not be stopped.
pub proof fn the_tray_follows_the_stop(p: PendingModel, e: EventModel, c: ClockModel)
    requires
        answers(p, e),
    ensures
        ({
            let told = respond(p, e, c).effects;
            let found = p is LocateDirectory && (e matches EventModel::Directory(Ok(_)));
            let failed = p is StopRecording && (e matches EventModel::Stopped(Err(_)));
            &&& found ==> once(told, EffectModel::TrayStopping)
            &&& !found ==> !told.contains(EffectModel::TrayStopping)
            &&& failed ==> once(told, EffectModel::TrayRefresh)
            &&& !failed ==> !told.contains(EffectModel::TrayRefresh)
        }),
{
    lemma_deeds(p, e, c);
    match (p, e) {
        (PendingModel::LocateDirectory { monitor, round, app }, EventModel::Directory(Ok(_))) => {
            recordings_are_saved_where_there_is_a_place(monitor, round, app, app_name(app), c);
        },
        _ => {},
    }
    lemma_once(p, e, respond(p, e, c).effects, EffectModel::TrayStopping);
    lemma_once(p, e, respond(p, e, c).effects, EffectModel::TrayRefresh);
}

proof fn lemma_once(p: PendingModel, e: EventModel, told: Seq<EffectModel>, effect: EffectModel)
    requires
        !for_the_user(effect),
        told.len() > 0 ==> first_deed(p, e, told[0]),
        forall|i: int| 1 <= i < told.len() ==> for_the_user(#[trigger] told[i]),
    ensures
        told.len() > 0 && told[0] == effect ==> once(told, effect),
        told.len() == 0 || told[0] != effect ==> !told.contains(effect),
{
    if told.len() > 0 && told[0] == effect {
        assert forall|j: int| 0 <= j < told.len() && j != 0 implies #[trigger] told[j] != effect by {
            assert(for_the_user(told[j]));
        }
        assert(told[0] == effect);
    } else if told.contains(effect) {
        let k = choose|k: int| 0 <= k < told.len() && told[k] == effect;
        assert(k == 0 || for_the_user(told[k]));
    }
}

/// Between two rounds the monitor pauses for the interval of the settings that the round
/// was made with.
#[verifier::spinoff_prover]
#[verifier::rlimit(40)]
pub proof fn the_poll_interval_is_kept(p: PendingModel, e: EventModel, c: ClockModel)
    requires
        answers(p, e),
        respond(p, e, c).next is Pause,
    ensures
        settings_of(p) is Some,
        respond(p, e, c).next->Pause_secs == settings_of(p)->0.poll_interval_secs,
{
}

/// Until a round is over, the status stays as it was, and so do the settings, the finding
/// and the time of the round. After the probe, the phase stays too.
#[verifier::spinoff_prover]
#[verifier::rlimit(40)]
pub proof fn a_round_is_of_one_piece(p: PendingModel, e: EventModel, c: ClockModel)
    requires
        answers(p, e),
    ensures
        ({
            let next = respond(p, e, c).next;
            &&& within_round(next) ==> monitor_of(next).status == monitor_of(p).status
            &&& within_round(next) ==> round_of(p, e) is Some && round_of(next, e) == round_of(p, e)
            &&& within_round(p) ==> monitor_of(next).phase == monitor_of(p).phase
        }),
{
}

/// The round that the state `p` with the reply `e` belongs to, if any.
pub open spec fn round_of(p: PendingModel, e: EventModel) -> Option<RoundModel> {
    match p {
        PendingModel::Probe { monitor, settings } => match e {
            EventModel::Probed { result, now } => Some(
                RoundModel { settings, outcome: outcome_of_task(result), now },
            ),
            _ => None,
        },
        PendingModel::AskRecording { monitor, round, meeting } => Some(round),
        PendingModel::StartRecording { monitor, round, meeting, name } => Some(round),
        PendingModel::AskStillRecording { monitor, round, app, name } => Some(round),
        PendingModel::AskMeetingName { monitor, round, app, name } => Some(round),
        PendingModel::LocateDirectory { monitor, round, app } => Some(round),
        PendingModel::StopRecording { monitor, round, app, file_name } => Some(round),
        _ => None,
    }
}

} // verus!
