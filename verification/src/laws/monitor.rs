//! What holds of every run of the monitor.

use crate::detector::{
    blank_status, meeting_name, recording_file, Action, MeetingModel, Phase, StatusModel,
};
use crate::laws::detector::active;
use crate::monitor::{
    directory_turn, ended_turn, meeting_name_turn, monitor_of, new_meeting, notice,
    outcome_of_task,
    owned_meeting, owned_name, pause_turn, polled, probe_turn, recording_known_turn, settings_turn,
    start_turn, started_turn, still_recording_known_turn, stop_turn, wake_turn, ClockModel, EffectModel,
    MonitorModel, PendingModel, RoundModel, TurnModel,
};
use crate::settings::SettingsModel;
use crate::signals::{app_name, enabled, present, MeetingApp, OutcomeModel};
use crate::time::{lasted, Moment};
use vstd::prelude::*;

verus! {

/// What the monitor can get in reply.
pub enum EventModel {
    Settings(SettingsModel),
    Woken,
    Probed { result: Result<OutcomeModel, Seq<char>>, now: Moment },
    Recording(bool),
    Started(Result<(), Seq<char>>),
    MeetingName(Result<Option<Seq<char>>, Seq<char>>),
    Directory(Result<(), Seq<char>>),
    Stopped(Result<(), Seq<char>>),
    PauseOver,
}

/// `e` is a reply to what the monitor waits for.
pub open spec fn answers(p: PendingModel, e: EventModel) -> bool {
    match p {
        PendingModel::ReadSettings { monitor } => e is Settings,
        PendingModel::WaitForWake { monitor } => e is Woken,
        PendingModel::Probe { monitor, settings } => e is Probed,
        PendingModel::AskRecording { monitor, round, meeting } => e is Recording,
        PendingModel::StartRecording { monitor, round, meeting, name } => e is Started,
        PendingModel::AskStillRecording { monitor, round, app, name } => e is Recording,
        PendingModel::AskMeetingName { monitor, round, app, name } => e is MeetingName,
        PendingModel::LocateDirectory { monitor, round, app } => e is Directory,
        PendingModel::StopRecording { monitor, round, app, file_name } => e is Stopped,
        PendingModel::Pause { monitor, secs } => e is PauseOver,
    }
}

/// What follows from the reply `e` when the clock shows `c`.
pub open spec fn respond(p: PendingModel, e: EventModel, c: ClockModel) -> TurnModel {
    match (p, e) {
        (PendingModel::ReadSettings { monitor }, EventModel::Settings(s)) => settings_turn(
            monitor,
            s,
        ),
        (PendingModel::WaitForWake { monitor }, EventModel::Woken) => wake_turn(monitor),
        (PendingModel::Probe { monitor, settings }, EventModel::Probed { result, now }) =>
            probe_turn(
            monitor,
            RoundModel { settings, outcome: outcome_of_task(result), now },
            c,
        ),
        (
            PendingModel::AskRecording { monitor, round, meeting },
            EventModel::Recording(recording),
        ) => recording_known_turn(monitor, round, meeting, recording, c),
        (
            PendingModel::StartRecording { monitor, round, meeting, name },
            EventModel::Started(result),
        ) => start_turn(monitor, round, meeting, name, result, c),
        (
            PendingModel::AskStillRecording { monitor, round, app, name },
            EventModel::Recording(recording),
        ) => still_recording_known_turn(monitor, round, app, name, recording, c),
        (
            PendingModel::AskMeetingName { monitor, round, app, name },
            EventModel::MeetingName(current),
        ) => meeting_name_turn(monitor, round, app, name, current, c),
        (PendingModel::LocateDirectory { monitor, round, app }, EventModel::Directory(found)) =>
            directory_turn(monitor, round, app, found, c),
        (
            PendingModel::StopRecording { monitor, round, app, file_name },
            EventModel::Stopped(result),
        ) => stop_turn(monitor, round, app, result, c),
        (PendingModel::Pause { monitor, secs }, EventModel::PauseOver) => pause_turn(monitor),
        _ => TurnModel { effects: Seq::empty(), next: p },
    }
}

/// A run of the monitor: what it waited for, what it got, and what the clock showed.
pub struct Run {
    pub states: Seq<PendingModel>,
    pub events: Seq<EventModel>,
    pub clocks: Seq<ClockModel>,
}

/// The monitor before it has read the settings for the first time.
pub open spec fn first_state() -> PendingModel {
    PendingModel::ReadSettings {
        monitor: MonitorModel { phase: Phase::Idle, status: blank_status() },
    }
}

/// The step `i` of `r` is a reply and what follows from it.
pub open spec fn step_of(r: Run, i: int) -> bool {
    &&& answers(r.states[i], r.events[i])
    &&& r.states[i + 1] == respond(r.states[i], r.events[i], r.clocks[i]).next
}

/// `r` begins with the first state, and each state follows from the one before.
pub open spec fn is_run(r: Run) -> bool {
    &&& r.states.len() == r.events.len() + 1
    &&& r.clocks.len() == r.events.len()
    &&& r.states[0] == first_state()
    &&& forall|i: int| 0 <= i < r.events.len() ==> #[trigger] step_of(r, i)
}

/// The status shows a meeting if and only if one is confirmed, and it is that one.
pub open spec fn in_step(m: MonitorModel) -> bool {
    match m.phase {
        Phase::Active { app, lost_since } => m.status.current_meeting is Some
            && m.status.current_meeting->0.app == app,
        _ => m.status.current_meeting is None,
    }
}

/// No error is shown beside an owned meeting, and a meeting is owned if and only if it
/// has a name.
pub open spec fn owned_in_order(status: StatusModel) -> bool {
    &&& owned_meeting(status) is Some ==> status.last_error is None
    &&& status.current_meeting is Some ==> (status.current_meeting->0.recording_started_by_detector
        <==> status.current_meeting->0.meeting_name is Some)
}

/// A pending app is shown with its seconds, and beside neither a meeting nor the
/// seconds of a lost signal. Those are shown beside a meeting only.
pub open spec fn timers_in_order(status: StatusModel) -> bool {
    &&& status.pending_app is Some <==> status.pending_secs is Some
    &&& status.pending_app is Some ==> status.current_meeting is None && status.signal_lost_secs is
        None
    &&& status.signal_lost_secs is Some ==> status.current_meeting is Some
}

/// The meeting of `app` has just ended, and its recording was started by the detector.
pub open spec fn ending_owned(m: MonitorModel, round: RoundModel, app: MeetingApp) -> bool {
    &&& m.phase == Phase::Idle
    &&& owned_name(m.status) is Some
    &&& m.status.current_meeting->0.app == app
    &&& round.settings.auto_stop_recording
}

/// The meeting `meeting` has just been confirmed, and its recording is not started.
pub open spec fn beginning(m: MonitorModel, round: RoundModel, meeting: MeetingModel) -> bool {
    &&& m.phase == (Phase::Active { app: meeting.app, lost_since: None })
    &&& m.status.current_meeting is None
    &&& !meeting.recording_started_by_detector
    &&& meeting.meeting_name is None
    &&& round.settings.auto_start_recording
}

/// What holds of each state of a run.
pub open spec fn sound(p: PendingModel) -> bool {
    &&& owned_in_order(monitor_of(p).status)
    &&& timers_in_order(monitor_of(p).status)
    &&& match p {
        PendingModel::ReadSettings { monitor } => in_step(monitor),
        PendingModel::WaitForWake { monitor } => monitor.phase == Phase::Idle && (
        monitor.status.current_meeting is Some ==> owned_meeting(monitor.status) is Some),
        PendingModel::Probe { monitor, settings } => in_step(monitor) && settings.enabled,
        PendingModel::AskRecording { monitor, round, meeting } => beginning(
            monitor,
            round,
            meeting,
        ),
        PendingModel::StartRecording { monitor, round, meeting, name } => beginning(
            monitor,
            round,
            meeting,
        ),
        PendingModel::AskStillRecording { monitor, round, app, name } => ending_owned(
            monitor,
            round,
            app,
        ) && owned_name(monitor.status) == Some(name),
        PendingModel::AskMeetingName { monitor, round, app, name } => ending_owned(
            monitor,
            round,
            app,
        ) && owned_name(monitor.status) == Some(name),
        PendingModel::LocateDirectory { monitor, round, app } => ending_owned(monitor, round, app),
        PendingModel::StopRecording { monitor, round, app, file_name } => ending_owned(
            monitor,
            round,
            app,
        ),
        PendingModel::Pause { monitor, secs } => in_step(monitor) && monitor.status.monitoring,
    }
}

#[verifier::spinoff_prover]
#[verifier::rlimit(40)]
proof fn lemma_sound_step(p: PendingModel, e: EventModel, c: ClockModel)
    requires
        sound(p),
        answers(p, e),
    ensures
        sound(respond(p, e, c).next),
{
}

/// Every state of every run is sound, and with it every status that is published: it
/// shows the confirmed meeting and no other, owned if and only if named, with no error
/// beside an owned one, and either a pending app with its seconds, or a meeting, which
/// alone can have a lost signal.
pub proof fn every_state_is_sound(r: Run, i: int)
    requires
        is_run(r),
        0 <= i < r.states.len(),
    ensures
        sound(r.states[i]),
    decreases i,
{
    if i > 0 {
        every_state_is_sound(r, i - 1);
        assert(step_of(r, i - 1));
        lemma_sound_step(r.states[i - 1], r.events[i - 1], r.clocks[i - 1]);
    }
}

/// The detector started a recording called `name` before the step `i` of `r`.
pub open spec fn started_before(r: Run, i: int, name: Seq<char>) -> bool {
    exists|j: int| 0 <= j < i && #[trigger] started_at(r, j, name)
}

/// At the step `j` of `r`, a recording called `name` was started.
pub open spec fn started_at(r: Run, j: int, name: Seq<char>) -> bool {
    match r.states[j] {
        PendingModel::StartRecording { monitor, round, meeting, name: n } => n == name
            && (r.events[j] matches EventModel::Started(Ok(_))),
        _ => false,
    }
}

#[verifier::spinoff_prover]
#[verifier::rlimit(40)]
proof fn lemma_owned_name_step(p: PendingModel, e: EventModel, c: ClockModel)
    requires
        sound(p),
        answers(p, e),
        owned_name(monitor_of(respond(p, e, c).next).status) is Some,
    ensures
        ({
            let name = owned_name(monitor_of(respond(p, e, c).next).status)->0;
            ||| owned_name(monitor_of(p).status) == Some(name)
            ||| match p {
                PendingModel::StartRecording { monitor, round, meeting, name: n } => n == name && (e
                    matches EventModel::Started(Ok(_))),
                _ => false,
            }
        }),
{
}

/// Whatever recording the detector counts as its own, it has started itself.
pub proof fn what_is_owned_was_started(r: Run, i: int)
    requires
        is_run(r),
        0 <= i < r.states.len(),
        owned_name(monitor_of(r.states[i]).status) is Some,
    ensures
        started_before(r, i, owned_name(monitor_of(r.states[i]).status)->0),
    decreases i,
{
    let name = owned_name(monitor_of(r.states[i]).status)->0;
    if i > 0 {
        every_state_is_sound(r, i - 1);
        assert(step_of(r, i - 1));
        lemma_owned_name_step(r.states[i - 1], r.events[i - 1], r.clocks[i - 1]);
        if owned_name(monitor_of(r.states[i - 1]).status) == Some(name) {
            what_is_owned_was_started(r, i - 1);
            let j = choose|j: int| 0 <= j < i - 1 && #[trigger] started_at(r, j, name);
            assert(started_at(r, j, name));
        } else {
            assert(started_at(r, i - 1, name));
        }
    }
}

/// A recording is stopped only where the recorder has just told that it records,
/// and under the very name under which the detector has started a recording. So
/// one that the user started is never stopped. Nor is any unless the settings ask
/// for it.
#[verifier::spinoff_prover]
#[verifier::rlimit(40)]
pub proof fn only_own_recordings_are_stopped(r: Run, i: int)
    requires
        is_run(r),
        0 <= i < r.states.len(),
        r.states[i] is StopRecording,
    ensures
        i >= 3,
        r.events[i - 3] == EventModel::Recording(true),
        exists|name: Seq<char>|
            r.events[i - 2] == EventModel::MeetingName(Ok(Some(name))) && #[trigger] started_before(
                r,
                i,
                name,
            ),
        r.events[i - 1] matches EventModel::Directory(Ok(_)),
        r.states[i]->StopRecording_round.settings.auto_stop_recording,
{
    every_state_is_sound(r, i);
    assert(step_of(r, i - 1));
    every_state_is_sound(r, i - 1);
    assert(r.states[i - 1] is LocateDirectory);
    assert(step_of(r, i - 2));
    every_state_is_sound(r, i - 2);
    assert(r.states[i - 2] is AskMeetingName);
    assert(step_of(r, i - 3));
    every_state_is_sound(r, i - 3);
    assert(r.states[i - 3] is AskStillRecording);
    let name = owned_name(monitor_of(r.states[i - 2]).status)->0;
    what_is_owned_was_started(r, i - 2);
    let j = choose|j: int| 0 <= j < i - 2 && #[trigger] started_at(r, j, name);
    assert(started_at(r, j, name));
    assert(started_before(r, i, name));
}

/// A recording is started only where the recorder has just told that it does not
/// record. So one that is already running is left alone.
pub proof fn running_recordings_are_left_alone(r: Run, i: int)
    requires
        is_run(r),
        0 <= i < r.states.len(),
        r.states[i] is StartRecording,
    ensures
        i >= 1,
        r.events[i - 1] == EventModel::Recording(false),
        r.states[i]->StartRecording_round.settings.auto_start_recording,
{
    every_state_is_sound(r, i);
    assert(step_of(r, i - 1));
    every_state_is_sound(r, i - 1);
    assert(r.states[i - 1] is AskRecording);
}

/// With automatic start on and the recorder free, a confirmed meeting is recorded
/// under its name, and the recording is owned once it has started.
pub proof fn confirmed_meetings_are_recorded(
    m: MonitorModel,
    round: RoundModel,
    app: MeetingApp,
    c: ClockModel,
    asked: ClockModel,
    started: ClockModel,
)
    requires
        round.settings.auto_start_recording,
    ensures
        ({
            let name = meeting_name(app, asked.local);
            let told = started_turn(m, round, app, c).next;
            let free = respond(told, EventModel::Recording(false), asked).next;
            let after = monitor_of(respond(free, EventModel::Started(Ok(())), started).next);
            &&& told is AskRecording
            &&& free is StartRecording
            &&& free->StartRecording_name == name
            &&& owned_name(after.status) == Some(name)
            &&& owned_meeting(after.status)->0.app == app
            &&& after.status.last_error is None
        }),
{
}

/// With automatic stop on, the recording of a meeting that ended is stopped, if the
/// detector owns it, the recorder still runs it and there is a place to save it to.
/// The meeting is then forgotten.
pub proof fn owned_recordings_are_stopped(
    m: MonitorModel,
    round: RoundModel,
    app: MeetingApp,
    name: Seq<char>,
    c: ClockModel,
    found: ClockModel,
)
    requires
        owned_name(m.status) == Some(name),
        round.settings.auto_stop_recording,
    ensures
        ({
            let told = ended_turn(m, round, app, c).next;
            let running = respond(told, EventModel::Recording(true), c).next;
            let ours = respond(running, EventModel::MeetingName(Ok(Some(name))), c).next;
            let stop = respond(ours, EventModel::Directory(Ok(())), found).next;
            let after = monitor_of(respond(stop, EventModel::Stopped(Ok(())), c).next);
            &&& told is AskStillRecording
            &&& running is AskMeetingName
            &&& ours is LocateDirectory
            &&& stop is StopRecording
            &&& stop->StopRecording_file_name == recording_file(found.local)
            &&& after.status.current_meeting is None
        }),
{
}

/// A failed probe is not read as "no meeting": the phase and its timers, the
/// meeting and the last signals stay as they were, and nothing is asked of the
/// recorder. The failure is shown.
pub proof fn failed_probes_change_nothing(
    m: MonitorModel,
    settings: SettingsModel,
    result: Result<OutcomeModel, Seq<char>>,
    now: Moment,
    c: ClockModel,
)
    requires
        outcome_of_task(result).error is Some,
    ensures
        ({
            let turn = respond(
                PendingModel::Probe { monitor: m, settings },
                EventModel::Probed { result, now },
                c,
            );
            let after = monitor_of(turn.next);
            &&& turn.next is Pause
            &&& turn.effects == seq![EffectModel::PublishStatus]
            &&& after.phase == m.phase
            &&& after.status.current_meeting == m.status.current_meeting
            &&& after.status.last_error == m.status.last_error
            &&& after.status.last_signals == m.status.last_signals
            &&& after.status.probe_error == outcome_of_task(result).error
        }),
{
    assert(Seq::<EffectModel>::empty().push(EffectModel::PublishStatus) =~= seq![
        EffectModel::PublishStatus,
    ]);
}

/// Switching the detector off and on again during a call keeps a recording owned:
/// the meeting is active again, and when it ends the recorder is asked about it.
/// What is not owned is forgotten.
pub proof fn switching_off_keeps_what_is_owned(
    m: MonitorModel,
    off: SettingsModel,
    round: RoundModel,
    c: ClockModel,
)
    requires
        !off.enabled,
    ensures
        ({
            let asleep = monitor_of(settings_turn(m, off).next);
            let awake = monitor_of(wake_turn(asleep).next);
            match owned_meeting(m.status) {
                Some(meeting) => {
                    &&& awake.phase == (Phase::Active { app: meeting.app, lost_since: None })
                    &&& awake.status.current_meeting == Some(meeting)
                    &&& meeting.meeting_name is Some && round.settings.auto_stop_recording
                        ==> ended_turn(awake, round, meeting.app, c).next
                        == (PendingModel::AskStillRecording {
                        monitor: awake,
                        round,
                        app: meeting.app,
                        name: meeting.meeting_name->0,
                    })
                },
                None => awake.phase == Phase::Idle && awake.status == blank_status(),
            }
        }),
{
}

/// While a meeting is confirmed, no probe leads to another start, whatever became
/// of the first. So a recording that failed to start is not tried again.
pub proof fn failed_starts_are_not_retried(
    m: MonitorModel,
    settings: SettingsModel,
    result: Result<OutcomeModel, Seq<char>>,
    now: Moment,
    c: ClockModel,
)
    requires
        m.phase is Active,
    ensures
        !(respond(
            PendingModel::Probe { monitor: m, settings },
            EventModel::Probed { result, now },
            c,
        ).next is AskRecording),
{
}

/// A start that failed leaves the meeting confirmed but unowned, and the error shown.
pub proof fn failed_starts_leave_the_meeting_unowned(
    p: PendingModel,
    e: Seq<char>,
    c: ClockModel,
)
    requires
        sound(p),
        p is StartRecording,
    ensures
        ({
            let after = monitor_of(respond(p, EventModel::Started(Err(e)), c).next);
            &&& after.phase is Active
            &&& after.status.current_meeting == Some(p->StartRecording_meeting)
            &&& owned_meeting(after.status) is None
            &&& after.status.last_error == Some("auto-start failed: "@ + e)
        }),
{
}

/// The settings that decide on notifications in the state `p`.
pub open spec fn settings_of(p: PendingModel) -> Option<SettingsModel> {
    match p {
        PendingModel::Probe { monitor, settings } => Some(settings),
        PendingModel::AskRecording { monitor, round, meeting } => Some(round.settings),
        PendingModel::StartRecording { monitor, round, meeting, name } => Some(round.settings),
        PendingModel::AskStillRecording { monitor, round, app, name } => Some(round.settings),
        PendingModel::AskMeetingName { monitor, round, app, name } => Some(round.settings),
        PendingModel::LocateDirectory { monitor, round, app } => Some(round.settings),
        PendingModel::StopRecording { monitor, round, app, file_name } => Some(round.settings),
        _ => None,
    }
}

/// No notification is shown unless the settings ask for notifications.
pub proof fn notifications_can_be_turned_off(p: PendingModel, e: EventModel, c: ClockModel, i: int)
    requires
        answers(p, e),
        0 <= i < respond(p, e, c).effects.len(),
        respond(p, e, c).effects[i] is Notify,
    ensures
        settings_of(p) is Some,
        settings_of(p)->0.notify_on_detection,
{
}

/// The status is published at the end of each round and when the detector is
/// switched off, as the last effect, and at no other time.
#[verifier::spinoff_prover]
#[verifier::rlimit(40)]
pub proof fn the_status_is_published_last(p: PendingModel, e: EventModel, c: ClockModel)
    requires
        answers(p, e),
    ensures
        ({
            let turn = respond(p, e, c);
            let told = turn.effects;
            &&& turn.next is Pause || turn.next is WaitForWake ==> told.len() > 0 && told.last()
                == EffectModel::PublishStatus
            &&& forall|i: int|
                0 <= i < told.len() && (#[trigger] told[i]) == EffectModel::PublishStatus ==> i
                    == told.len() - 1 && (turn.next is Pause || turn.next is WaitForWake)
        }),
{
}

/// What was found in the round that the state `p` belongs to, if it has one.
pub open spec fn outcome_in(p: PendingModel, e: EventModel) -> Option<OutcomeModel> {
    match p {
        PendingModel::Probe { monitor, settings } => match e {
            EventModel::Probed { result, now } => Some(outcome_of_task(result)),
            _ => None,
        },
        PendingModel::AskRecording { monitor, round, meeting } => Some(round.outcome),
        PendingModel::StartRecording { monitor, round, meeting, name } => Some(round.outcome),
        PendingModel::AskStillRecording { monitor, round, app, name } => Some(round.outcome),
        PendingModel::AskMeetingName { monitor, round, app, name } => Some(round.outcome),
        PendingModel::LocateDirectory { monitor, round, app } => Some(round.outcome),
        PendingModel::StopRecording { monitor, round, app, file_name } => Some(round.outcome),
        _ => None,
    }
}

/// After a round, the status shows the error of its probe and no older one: a probe
/// that succeeds clears it.
#[verifier::spinoff_prover]
#[verifier::rlimit(40)]
pub proof fn the_probe_error_is_of_the_last_probe(p: PendingModel, e: EventModel, c: ClockModel)
    requires
        answers(p, e),
        respond(p, e, c).next is Pause,
    ensures
        outcome_in(p, e) is Some,
        monitor_of(respond(p, e, c).next).status.probe_error == outcome_in(p, e)->0.error,
{
}

/// After a recording was started or stopped without failure, no error is shown.
pub proof fn success_clears_the_last_error(p: PendingModel, c: ClockModel)
    ensures
        p is StartRecording ==> monitor_of(
            respond(p, EventModel::Started(Ok(())), c).next,
        ).status.last_error is None,
        p is StopRecording ==> monitor_of(
            respond(p, EventModel::Stopped(Ok(())), c).next,
        ).status.last_error is None,
{
}

/// With the reply `e`, a meeting is confirmed whose recording is not to be started.
pub open spec fn confirms_without_start(p: PendingModel, e: EventModel) -> bool {
    match (p, e) {
        (PendingModel::Probe { monitor, settings }, EventModel::Probed { result, now }) => {
            let round = RoundModel { settings, outcome: outcome_of_task(result), now };
            polled(monitor.phase, round).1 is Start && !settings.auto_start_recording
        },
        (PendingModel::AskRecording { monitor, round, meeting }, EventModel::Recording(b)) => b,
        _ => false,
    }
}

/// The error shown is that of the last attempt to start or to stop a recording. It is
/// cleared by an attempt that succeeds, by a meeting confirmed without one and by
/// switching off, and by nothing else: a meeting that ends without an attempt to stop
/// a recording keeps it.
#[verifier::spinoff_prover]
#[verifier::rlimit(40)]
pub proof fn the_last_error_is_of_the_last_attempt(p: PendingModel, e: EventModel, c: ClockModel)
    requires
        answers(p, e),
    ensures
        monitor_of(respond(p, e, c).next).status.last_error == match e {
            EventModel::Started(Ok(_)) => None,
            EventModel::Started(Err(cause)) => Some("auto-start failed: "@ + cause),
            EventModel::Stopped(Ok(_)) => None,
            EventModel::Stopped(Err(cause)) => Some("auto-stop failed: "@ + cause),
            EventModel::Directory(Err(cause)) => Some(
                "auto-stop failed: "@ + ("Failed to get app data dir: "@ + cause),
            ),
            EventModel::Settings(s) if !s.enabled => None,
            _ => if confirms_without_start(p, e) {
                None
            } else {
                monitor_of(p).status.last_error
            },
        },
{
}

/// A meeting that is confirmed replaces the error shown by that of its own start,
/// if any.
pub proof fn a_new_meeting_clears_the_last_error(p: PendingModel, e: EventModel, c: ClockModel)
    requires
        sound(p),
        answers(p, e),
        monitor_of(p).status.current_meeting is None,
        monitor_of(respond(p, e, c).next).status.current_meeting is Some,
    ensures
        monitor_of(respond(p, e, c).next).status.last_error == match e {
            EventModel::Started(Err(cause)) => Some("auto-start failed: "@ + cause),
            _ => None,
        },
{
}

/// After a round, the status shows the pending app while a signal is not yet
/// confirmed, how long a signal has been seen or missed, and nothing else.
#[verifier::spinoff_prover]
#[verifier::rlimit(40)]
pub proof fn the_status_shows_the_timers(p: PendingModel, e: EventModel, c: ClockModel)
    requires
        answers(p, e),
        respond(p, e, c).next is Pause,
    ensures
        ({
            let after = monitor_of(respond(p, e, c).next);
            &&& after.status.monitoring
            &&& after.status.last_probe_at == Some(c.at)
            &&& after.status.pending_app is Some <==> after.phase is Pending
            &&& after.status.pending_secs is Some <==> after.phase is Pending
            &&& after.phase is Pending ==> after.status.pending_app == Some(
                after.phase->Pending_app,
            )
            &&& after.status.signal_lost_secs is Some <==> after.phase is Active
                && after.phase->Active_lost_since is Some
        }),
{
}

/// The round of the probe at the step `i` of `r`.
pub open spec fn round_at(r: Run, i: int) -> RoundModel {
    RoundModel {
        settings: r.states[i]->Probe_settings,
        outcome: outcome_of_task(r.events[i]->Probed_result),
        now: r.events[i]->Probed_now,
    }
}

/// At the step `i` of `r`, a probe was made and did not fail.
pub open spec fn probed_at(r: Run, i: int) -> bool {
    &&& r.states[i] is Probe
    &&& r.events[i] is Probed
    &&& round_at(r, i).outcome.error is None
}

/// The action that the step `i` of `r` led to.
pub open spec fn acted_at(r: Run, i: int) -> Action {
    if probed_at(r, i) {
        polled(monitor_of(r.states[i]).phase, round_at(r, i)).1
    } else {
        Action::Nothing
    }
}

/// Each probe from the step `k` to the step `n` that did not fail saw `app`.
pub open spec fn seen_throughout(r: Run, k: int, n: int, app: MeetingApp) -> bool {
    forall|i: int|
        k <= i <= n && #[trigger] probed_at(r, i) ==> present(
            round_at(r, i).outcome.signals,
            app,
        )
}

/// No probe from the step `k` to the step `n` that did not fail saw `app`.
pub open spec fn missed_throughout(r: Run, k: int, n: int, app: MeetingApp) -> bool {
    forall|i: int|
        k <= i <= n && #[trigger] probed_at(r, i) ==> !present(
            round_at(r, i).outcome.signals,
            app,
        )
}

/// A step other than a probe that did not fail leaves the phase as it is, makes it
/// idle, or makes it that of a meeting whose signal is not missed.
#[verifier::spinoff_prover]
#[verifier::rlimit(40)]
proof fn lemma_phase_step(r: Run, i: int)
    requires
        is_run(r),
        0 <= i < r.events.len(),
    ensures
        probed_at(r, i) ==> monitor_of(r.states[i + 1]).phase == polled(
            monitor_of(r.states[i]).phase,
            round_at(r, i),
        ).0,
        !probed_at(r, i) ==> {
            ||| monitor_of(r.states[i + 1]).phase == monitor_of(r.states[i]).phase
            ||| monitor_of(r.states[i + 1]).phase == Phase::Idle
            ||| (monitor_of(r.states[i + 1]).phase matches Phase::Active { app, lost_since }
                && lost_since is None)
        },
{
    assert(step_of(r, i));
}

#[verifier::spinoff_prover]
#[verifier::rlimit(40)]
proof fn lemma_pending_in_run(r: Run, n: int, app: MeetingApp, since: Moment)
    requires
        is_run(r),
        0 <= n < r.states.len(),
        monitor_of(r.states[n]).phase == (Phase::Pending { app, since }),
    ensures
        exists|k: int|
            0 <= k < n && probed_at(r, k) && round_at(r, k).now == since && enabled(
                app,
                round_at(r, k).settings,
            ) && #[trigger] seen_throughout(r, k, n - 1, app),
    decreases n,
{
    if n > 0 {
        lemma_phase_step(r, n - 1);
        let before = monitor_of(r.states[n - 1]).phase;
        if before == (Phase::Pending { app, since }) {
            lemma_pending_in_run(r, n - 1, app, since);
            let k = choose|k: int|
                0 <= k < n - 1 && probed_at(r, k) && round_at(r, k).now == since && enabled(
                    app,
                    round_at(r, k).settings,
                ) && #[trigger] seen_throughout(r, k, n - 2, app);
            assert(seen_throughout(r, k, n - 1, app));
        } else {
            assert(probed_at(r, n - 1));
            assert(before == Phase::Idle);
            assert(present(round_at(r, n - 1).outcome.signals, app));
            assert(seen_throughout(r, n - 1, n - 1, app));
        }
    }
}

proof fn lemma_lost_in_run(r: Run, n: int, app: MeetingApp, since: Moment)
    requires
        is_run(r),
        0 <= n < r.states.len(),
        monitor_of(r.states[n]).phase == (Phase::Active { app, lost_since: Some(since) }),
    ensures
        exists|k: int|
            0 <= k < n && probed_at(r, k) && round_at(r, k).now == since
                && #[trigger] missed_throughout(r, k, n - 1, app),
    decreases n,
{
    if n > 0 {
        lemma_phase_step(r, n - 1);
        let before = monitor_of(r.states[n - 1]).phase;
        if before == (Phase::Active { app, lost_since: Some(since) }) {
            lemma_lost_in_run(r, n - 1, app, since);
            let k = choose|k: int|
                0 <= k < n - 1 && probed_at(r, k) && round_at(r, k).now == since
                    && #[trigger] missed_throughout(r, k, n - 2, app);
            assert(missed_throughout(r, k, n - 1, app));
        } else {
            assert(probed_at(r, n - 1));
            assert(!present(round_at(r, n - 1).outcome.signals, app));
            assert(missed_throughout(r, n - 1, n - 1, app));
        }
    }
}

/// In a run, whatever replies come between: a meeting is confirmed only where every
/// probe that did not fail saw its signal for `start_confirm_secs` at least, and its
/// app was enabled when it was first seen.
pub proof fn a_signal_persists_before_a_start(r: Run, n: int, app: MeetingApp)
    requires
        is_run(r),
        0 <= n < r.events.len(),
        acted_at(r, n) == Action::Start(app),
    ensures
        probed_at(r, n),
        exists|k: int|
            0 <= k <= n && probed_at(r, k) && enabled(app, round_at(r, k).settings)
                && #[trigger] seen_throughout(r, k, n, app) && lasted(
                round_at(r, n).now,
                round_at(r, k).now,
                round_at(r, n).settings.start_confirm_secs,
            ),
{
    assert(present(round_at(r, n).outcome.signals, app));
    match monitor_of(r.states[n]).phase {
        Phase::Pending { app: a, since } => {
            lemma_pending_in_run(r, n, app, since);
            let k = choose|k: int|
                0 <= k < n && probed_at(r, k) && round_at(r, k).now == since && enabled(
                    app,
                    round_at(r, k).settings,
                ) && #[trigger] seen_throughout(r, k, n - 1, app);
            assert(seen_throughout(r, k, n, app));
        },
        _ => {
            assert(seen_throughout(r, n, n, app));
        },
    }
}

/// In a run, whatever replies come between: a meeting ends only where no probe that
/// did not fail saw its signal for `stop_grace_secs` at least. A failed probe neither
/// ends a meeting nor begins its grace.
pub proof fn a_signal_is_gone_before_an_end(r: Run, n: int, app: MeetingApp)
    requires
        is_run(r),
        0 <= n < r.events.len(),
        acted_at(r, n) == Action::End(app),
    ensures
        probed_at(r, n),
        exists|k: int|
            0 <= k <= n && probed_at(r, k) && #[trigger] missed_throughout(r, k, n, app) && lasted(
                round_at(r, n).now,
                round_at(r, k).now,
                round_at(r, n).settings.stop_grace_secs,
            ),
{
    assert(!present(round_at(r, n).outcome.signals, app));
    match monitor_of(r.states[n]).phase {
        Phase::Active { app: a, lost_since: Some(t) } => {
            lemma_lost_in_run(r, n, app, t);
            let k = choose|k: int|
                0 <= k < n && probed_at(r, k) && round_at(r, k).now == t
                    && #[trigger] missed_throughout(r, k, n - 1, app);
            assert(missed_throughout(r, k, n, app));
        },
        _ => {
            assert(missed_throughout(r, n, n, app));
        },
    }
}

/// Only a probe leads to the webview being told of a meeting or of its end.
#[verifier::spinoff_prover]
#[verifier::rlimit(40)]
proof fn lemma_only_probes_tell(p: PendingModel, e: EventModel, c: ClockModel)
    requires
        answers(p, e),
        !(p is Probe),
    ensures
        forall|i: int|
            0 <= i < respond(p, e, c).effects.len() ==> !(#[trigger] respond(p, e, c).effects[i] is
                MeetingDetected) && !(respond(p, e, c).effects[i] is MeetingEnded),
{
}

/// A probe leads to the webview being told of what was confirmed or ended, first of
/// all, and of nothing more.
proof fn lemma_probes_tell(m: MonitorModel, round: RoundModel, c: ClockModel)
    ensures
        ({
            let told = probe_turn(m, round, c).effects;
            &&& told.len() > 0
            &&& match polled(m.phase, round).1 {
                Action::Nothing => told[0] == EffectModel::PublishStatus,
                Action::Start(app) => told[0] == EffectModel::MeetingDetected(
                    new_meeting(app, c.at),
                ),
                Action::End(app) => told[0] == EffectModel::MeetingEnded(app),
            }
            &&& forall|i: int|
                0 < i < told.len() ==> !(#[trigger] told[i] is MeetingDetected) && !(told[i] is
                    MeetingEnded)
        }),
{
}

/// In a run, the webview is told of a meeting if and only if it was confirmed, and
/// of its end if and only if it ended.
pub proof fn the_webview_is_told(r: Run, n: int, app: MeetingApp)
    requires
        is_run(r),
        0 <= n < r.events.len(),
    ensures
        ({
            let told = respond(r.states[n], r.events[n], r.clocks[n]).effects;
            &&& acted_at(r, n) == Action::Start(app) <==> told.contains(
                EffectModel::MeetingDetected(new_meeting(app, r.clocks[n].at)),
            )
            &&& acted_at(r, n) == Action::End(app) <==> told.contains(
                EffectModel::MeetingEnded(app),
            )
        }),
{
    assert(step_of(r, n));
    let p = r.states[n];
    let e = r.events[n];
    let c = r.clocks[n];
    let told = respond(p, e, c).effects;
    match p {
        PendingModel::Probe { monitor, settings } => {
            let round = round_at(r, n);
            lemma_probes_tell(monitor, round, c);
            assert(told == probe_turn(monitor, round, c).effects);
            assert(told.contains(told[0]));
            assert(acted_at(r, n) == polled(monitor.phase, round).1);
        },
        _ => {
            lemma_only_probes_tell(p, e, c);
        },
    }
}

/// How many notifications `effects` hold.
pub open spec fn notices(effects: Seq<EffectModel>) -> nat
    decreases effects.len(),
{
    if effects.len() == 0 {
        0
    } else {
        notices(effects.drop_last()) + if effects.last() is Notify {
            1nat
        } else {
            0
        }
    }
}

/// How many notifications are shown from the step `n` of `r` up to the step `k`.
pub open spec fn notices_between(r: Run, n: int, k: int) -> nat
    decreases k - n,
{
    if k <= n {
        0
    } else {
        notices_between(r, n, k - 1) + notices(
            respond(r.states[k - 1], r.events[k - 1], r.clocks[k - 1]).effects,
        )
    }
}

/// The state `p` lies within a round that began with a confirmed meeting or an end.
pub open spec fn within_round(p: PendingModel) -> bool {
    ||| p is AskRecording
    ||| p is StartRecording
    ||| p is AskStillRecording
    ||| p is AskMeetingName
    ||| p is LocateDirectory
    ||| p is StopRecording
}

/// One notification where the settings ask for notifications, and none otherwise.
pub open spec fn due(s: SettingsModel) -> nat {
    if s.notify_on_detection {
        1
    } else {
        0
    }
}

proof fn lemma_notices_push(effects: Seq<EffectModel>, effect: EffectModel)
    ensures
        notices(effects.push(effect)) == notices(effects) + if effect is Notify {
            1nat
        } else {
            0
        },
{
    assert(effects.push(effect).drop_last() =~= effects);
}

/// The effects of a round's end: at most one other effect, a notice and the status.
proof fn lemma_notices_at_the_end(told: Seq<EffectModel>, s: SettingsModel, body: Seq<char>)
    requires
        told.len() <= 1,
        told.len() == 1 ==> !(told[0] is Notify),
    ensures
        notices(told) == 0,
        notices(told.push(EffectModel::PublishStatus)) == 0,
        notices((told + notice(s, body)).push(EffectModel::PublishStatus)) == due(s),
        notices(notice(s, body).push(EffectModel::PublishStatus)) == due(s),
{
    let last = EffectModel::PublishStatus;
    let none = Seq::<EffectModel>::empty();
    if told.len() == 1 {
        assert(told =~= none.push(told[0]));
        lemma_notices_push(none, told[0]);
    }
    lemma_notices_push(told, last);
    lemma_notices_push(told + notice(s, body), last);
    lemma_notices_push(notice(s, body), last);
    if s.notify_on_detection {
        assert(told + notice(s, body) =~= told.push(EffectModel::Notify(body)));
        lemma_notices_push(told, EffectModel::Notify(body));
        assert(notice(s, body) =~= none.push(EffectModel::Notify(body)));
        lemma_notices_push(none, EffectModel::Notify(body));
    } else {
        assert(told + notice(s, body) =~= told);
        assert(notice(s, body) =~= none);
    }
}

/// Within a round, a reply ends it with the notification that is due, or leads on
/// without one.
#[verifier::spinoff_prover]
#[verifier::rlimit(40)]
proof fn lemma_notices_within_round(p: PendingModel, e: EventModel, c: ClockModel)
    requires
        within_round(p),
        answers(p, e),
    ensures
        ({
            let turn = respond(p, e, c);
            ||| turn.next is Pause && notices(turn.effects) == due(settings_of(p)->0)
            ||| within_round(turn.next) && settings_of(turn.next) == settings_of(p) && notices(
                turn.effects,
            ) == 0
        }),
{
    let s = settings_of(p)->0;
    let none = Seq::<EffectModel>::empty();
    match (p, e) {
        (PendingModel::AskRecording { monitor, round, meeting }, EventModel::Recording(b)) => {
            let body = app_name(meeting.app) + " meeting detected. Recording already in progress."@;
            lemma_notices_at_the_end(none, s, body);
        },
        (
            PendingModel::StartRecording { monitor, round, meeting, name },
            EventModel::Started(result),
        ) => {
            match result {
                Ok(_) => {
                    lemma_notices_at_the_end(none, s, "Recording started: "@ + name);
                },
                Err(cause) => {
                    lemma_notices_at_the_end(
                        none,
                        s,
                        app_name(meeting.app)
                            + " meeting detected, but recording could not start: "@ + cause,
                    );
                },
            }
        },
        (
            PendingModel::AskStillRecording { monitor, round, app, name },
            EventModel::Recording(b),
        ) => {
            lemma_notices_at_the_end(none, s, app_name(app) + " meeting ended."@);
        },
        (
            PendingModel::AskMeetingName { monitor, round, app, name },
            EventModel::MeetingName(current),
        ) => {
            lemma_notices_at_the_end(none, s, app_name(app) + " meeting ended."@);
        },
        (PendingModel::LocateDirectory { monitor, round, app }, EventModel::Directory(found)) => {
            match found {
                Ok(_) => {
                    lemma_notices_at_the_end(seq![EffectModel::TrayStopping], s, Seq::empty());
                },
                Err(cause) => {
                    lemma_notices_at_the_end(
                        none,
                        s,
                        app_name(app) + " meeting ended, but recording could not be stopped: "@ + (
                        "Failed to get app data dir: "@ + cause),
                    );
                },
            }
        },
        (
            PendingModel::StopRecording { monitor, round, app, file_name },
            EventModel::Stopped(result),
        ) => {
            match result {
                Ok(_) => {
                    lemma_notices_at_the_end(
                        seq![EffectModel::StopComplete],
                        s,
                        app_name(app) + " meeting ended. Recording saved."@,
                    );
                },
                Err(cause) => {
                    lemma_notices_at_the_end(
                        seq![EffectModel::TrayRefresh],
                        s,
                        app_name(app) + " meeting ended, but recording could not be stopped: "@
                            + cause,
                    );
                },
            }
        },
        _ => {},
    }
}

/// A probe that leads to no action shows no notification. One that does ends the round
/// with the notification that is due, or leads on without one.
#[verifier::spinoff_prover]
#[verifier::rlimit(40)]
proof fn lemma_notices_of_probe(m: MonitorModel, round: RoundModel, c: ClockModel)
    ensures
        ({
            let turn = probe_turn(m, round, c);
            match polled(m.phase, round).1 {
                Action::Nothing => turn.next is Pause && notices(turn.effects) == 0,
                _ => {
                    ||| turn.next is Pause && notices(turn.effects) == due(round.settings)
                    ||| within_round(turn.next) && settings_of(turn.next) == Some(round.settings)
                        && notices(turn.effects) == 0
                },
            }
        }),
{
    let s = round.settings;
    match polled(m.phase, round).1 {
        Action::Nothing => {
            lemma_notices_at_the_end(Seq::empty(), s, Seq::empty());
        },
        Action::Start(app) => {
            lemma_notices_at_the_end(
                seq![EffectModel::MeetingDetected(new_meeting(app, c.at))],
                s,
                app_name(app) + " meeting detected."@,
            );
        },
        Action::End(app) => {
            lemma_notices_at_the_end(
                seq![EffectModel::MeetingEnded(app)],
                s,
                app_name(app) + " meeting ended."@,
            );
        },
    }
}

/// The steps of `r` from `n` up to `k` are one round: a probe and what follows from it,
/// up to the pause.
pub open spec fn is_round(r: Run, n: int, k: int) -> bool {
    &&& 0 <= n < k < r.states.len()
    &&& r.states[n] is Probe
    &&& r.states[k] is Pause
    &&& forall|i: int| n < i < k ==> !(#[trigger] r.states[i] is Pause)
}

proof fn lemma_notices_in_round(r: Run, n: int, k: int, i: int)
    requires
        is_run(r),
        is_round(r, n, k),
        n < i <= k,
    ensures
        ({
            let all = if acted_at(r, n) is Nothing {
                0
            } else {
                due(round_at(r, n).settings)
            };
            ||| i == k && notices_between(r, n, i) == all
            ||| i < k && within_round(r.states[i]) && settings_of(r.states[i]) == Some(
                round_at(r, n).settings,
            ) && notices_between(r, n, i) == 0 && !(acted_at(r, n) is Nothing)
        }),
    decreases i,
{
    assert(step_of(r, i - 1));
    reveal_with_fuel(notices_between, 2);
    if i == n + 1 {
        lemma_notices_of_probe(monitor_of(r.states[n]), round_at(r, n), r.clocks[n]);
    } else {
        lemma_notices_in_round(r, n, k, i - 1);
        lemma_notices_within_round(r.states[i - 1], r.events[i - 1], r.clocks[i - 1]);
    }
}

/// Each meeting that is confirmed and each meeting that ends, whoever started its
/// recording and whatever becomes of it, is told by exactly one notification before the
/// round is over, if and only if the settings ask for notifications. A round in which
/// neither happens shows none.
pub proof fn starts_and_ends_are_notified_once(r: Run, n: int, k: int)
    requires
        is_run(r),
        is_round(r, n, k),
    ensures
        notices_between(r, n, k) == match acted_at(r, n) {
            Action::Nothing => 0,
            _ => if round_at(r, n).settings.notify_on_detection {
                1nat
            } else {
                0
            },
        },
{
    lemma_notices_in_round(r, n, k, k);
}

/// `body` tells that the meeting of `app` ended.
pub open spec fn tells_end(body: Seq<char>, app: MeetingApp) -> bool {
    (app_name(app) + " meeting ended"@).is_prefix_of(body)
}

/// In the state `p`, the meeting of `app` has ended and the round is not over.
pub open spec fn ending(p: PendingModel, app: MeetingApp) -> bool {
    match p {
        PendingModel::AskStillRecording { monitor, round, app: a, name } => a == app,
        PendingModel::AskMeetingName { monitor, round, app: a, name } => a == app,
        PendingModel::LocateDirectory { monitor, round, app: a } => a == app,
        PendingModel::StopRecording { monitor, round, app: a, file_name } => a == app,
        _ => false,
    }
}

/// Each notification among `effects` tells that the meeting of `app` ended.
pub open spec fn all_tell_end(effects: Seq<EffectModel>, app: MeetingApp) -> bool {
    forall|j: int|
        0 <= j < effects.len() ==> ((#[trigger] effects[j]) matches EffectModel::Notify(body)
            ==> tells_end(body, app))
}

proof fn lemma_end_texts(app: MeetingApp, e: Seq<char>)
    ensures
        tells_end(app_name(app) + " meeting ended."@, app),
        tells_end(app_name(app) + " meeting ended. Recording saved."@, app),
        tells_end(
            app_name(app) + " meeting ended, but recording could not be stopped: "@ + e,
            app,
        ),
{
    reveal_strlit(" meeting ended");
    reveal_strlit(" meeting ended.");
    reveal_strlit(" meeting ended. Recording saved.");
    reveal_strlit(" meeting ended, but recording could not be stopped: ");
    let name = app_name(app);
    let n = name.len() as int;
    let told = name + " meeting ended"@;
    let short = name + " meeting ended."@;
    let saved = name + " meeting ended. Recording saved."@;
    let failed = name + " meeting ended, but recording could not be stopped: "@ + e;
    assert(told =~= short.subrange(0, n + 14));
    assert(told =~= saved.subrange(0, n + 14));
    assert(told =~= failed.subrange(0, n + 14));
}

#[verifier::spinoff_prover]
#[verifier::rlimit(40)]
proof fn lemma_ending_step(p: PendingModel, e: EventModel, c: ClockModel, app: MeetingApp)
    requires
        ending(p, app),
        answers(p, e),
    ensures
        ending(respond(p, e, c).next, app) || respond(p, e, c).next is Pause,
        all_tell_end(respond(p, e, c).effects, app),
{
    let cause = match e {
        EventModel::Stopped(Err(x)) => x,
        EventModel::Directory(Err(x)) => "Failed to get app data dir: "@ + x,
        _ => Seq::empty(),
    };
    lemma_end_texts(app, cause);
}

proof fn lemma_ended_by_probe(m: MonitorModel, round: RoundModel, c: ClockModel, app: MeetingApp)
    requires
        polled(m.phase, round).1 == Action::End(app),
    ensures
        ending(probe_turn(m, round, c).next, app) || probe_turn(m, round, c).next is Pause,
        all_tell_end(probe_turn(m, round, c).effects, app),
{
    lemma_end_texts(app, Seq::empty());
}

/// In a round in which the meeting of `app` ended, each notification tells so, and that
/// meeting is dealt with until the round is over.
pub proof fn notifications_of_an_end_tell_it(r: Run, n: int, k: int, app: MeetingApp, i: int)
    requires
        is_run(r),
        is_round(r, n, k),
        acted_at(r, n) == Action::End(app),
        n <= i < k,
    ensures
        all_tell_end(respond(r.states[i], r.events[i], r.clocks[i]).effects, app),
        ending(r.states[i + 1], app) || i + 1 == k,
    decreases i,
{
    assert(step_of(r, i));
    if i == n {
        lemma_ended_by_probe(monitor_of(r.states[n]), round_at(r, n), r.clocks[n], app);
    } else {
        notifications_of_an_end_tell_it(r, n, k, app, i - 1);
        lemma_ending_step(r.states[i], r.events[i], r.clocks[i], app);
    }
}

/// The meeting `meeting` is owned in the state `p`, and it is confirmed, or will be on
/// waking.
pub open spec fn keeps(p: PendingModel, meeting: MeetingModel) -> bool {
    &&& !within_round(p)
    &&& owned_meeting(monitor_of(p).status) == Some(meeting)
    &&& p is WaitForWake || active(monitor_of(p).phase, meeting.app)
}

/// No step of `r` from `k` up to `n` led to the end of the meeting of `app`.
pub open spec fn not_ended(r: Run, k: int, n: int, app: MeetingApp) -> bool {
    forall|i: int| k <= i < n ==> #[trigger] acted_at(r, i) != Action::End(app)
}

#[verifier::spinoff_prover]
#[verifier::rlimit(40)]
proof fn lemma_keeps_step(r: Run, i: int, meeting: MeetingModel)
    requires
        is_run(r),
        0 <= i < r.events.len(),
        keeps(r.states[i], meeting),
    ensures
        !(acted_at(r, i) is Start),
        acted_at(r, i) != Action::End(meeting.app) ==> keeps(r.states[i + 1], meeting)
            && acted_at(r, i) is Nothing,
        r.states[i] is WaitForWake ==> monitor_of(r.states[i + 1]).phase == (Phase::Active {
            app: meeting.app,
            lost_since: None,
        }),
        !(r.states[i] is WaitForWake) && !(r.states[i + 1] is WaitForWake) && !probed_at(r, i)
            ==> monitor_of(r.states[i + 1]).phase == monitor_of(r.states[i]).phase,
        probed_at(r, i) ==> monitor_of(r.states[i + 1]).phase == polled(
            monitor_of(r.states[i]).phase,
            round_at(r, i),
        ).0,
{
    assert(step_of(r, i));
}

/// A meeting that is owned stays owned until it ends, also while the detector is
/// switched off and on again, and no meeting is confirmed meanwhile.
pub proof fn an_owned_meeting_is_kept_until_it_ends(r: Run, k: int, n: int, meeting: MeetingModel)
    requires
        is_run(r),
        0 <= k <= n < r.states.len(),
        !within_round(r.states[k]),
        owned_meeting(monitor_of(r.states[k]).status) == Some(meeting),
        not_ended(r, k, n, meeting.app),
    ensures
        keeps(r.states[n], meeting),
        n < r.events.len() ==> !(acted_at(r, n) is Start),
    decreases n,
{
    if k < n {
        an_owned_meeting_is_kept_until_it_ends(r, k, n - 1, meeting);
        lemma_keeps_step(r, n - 1, meeting);
        assert(acted_at(r, n - 1) != Action::End(meeting.app));
    } else {
        every_state_is_sound(r, n);
    }
    if n < r.events.len() {
        lemma_keeps_step(r, n, meeting);
    }
}

/// After the detector was switched off and on again with an owned meeting, and for as
/// long as each probe that does not fail sees its app, the meeting is active and owned,
/// and nothing is started or ended.
pub proof fn an_owned_meeting_resumes(r: Run, w: int, n: int, meeting: MeetingModel)
    requires
        is_run(r),
        0 <= w < n < r.states.len(),
        r.states[w] is WaitForWake,
        owned_meeting(monitor_of(r.states[w]).status) == Some(meeting),
        seen_throughout(r, w, n - 1, meeting.app),
    ensures
        keeps(r.states[n], meeting),
        !(r.states[n] is WaitForWake) ==> monitor_of(r.states[n]).phase == (Phase::Active {
            app: meeting.app,
            lost_since: None,
        }),
        acted_at(r, n - 1) is Nothing,
    decreases n,
{
    if w + 1 < n {
        an_owned_meeting_resumes(r, w, n - 1, meeting);
    }
    lemma_keeps_step(r, n - 1, meeting);
    assert(probed_at(r, n - 1) ==> present(round_at(r, n - 1).outcome.signals, meeting.app));
}

proof fn lemma_waiting_in_run(r: Run, k: int, n: int, meeting: MeetingModel)
    requires
        is_run(r),
        0 <= k < n < r.states.len(),
        keeps(r.states[k], meeting),
        monitor_of(r.states[k]).phase == (Phase::Active { app: meeting.app, lost_since: None }),
        probed_at(r, k),
        missed_throughout(r, k, n - 1, meeting.app),
        not_ended(r, k, n, meeting.app),
        forall|i: int| k < i <= n ==> !(#[trigger] r.states[i] is WaitForWake),
    ensures
        keeps(r.states[n], meeting),
        monitor_of(r.states[n]).phase == (Phase::Active {
            app: meeting.app,
            lost_since: Some(round_at(r, k).now),
        }),
    decreases n,
{
    if k + 1 < n {
        lemma_waiting_in_run(r, k, n - 1, meeting);
    }
    lemma_keeps_step(r, n - 1, meeting);
    assert(acted_at(r, n - 1) != Action::End(meeting.app));
    assert(probed_at(r, n - 1) ==> !present(round_at(r, n - 1).outcome.signals, meeting.app));
}

/// After the detector was switched off and on again with an owned meeting, the grace of
/// that meeting counts from the first probe since then that misses its app (the step
/// `k`): a later probe that misses it too ends the meeting if and only if
/// `stop_grace_secs` have passed since that first one. The meeting is owned until then,
/// so with automatic stop on, the recorder is then asked about its recording.
pub proof fn a_resumed_meeting_ends_after_its_grace(
    r: Run,
    w: int,
    k: int,
    n: int,
    meeting: MeetingModel,
)
    requires
        is_run(r),
        0 <= w < k <= n < r.events.len(),
        r.states[w] is WaitForWake,
        owned_meeting(monitor_of(r.states[w]).status) == Some(meeting),
        forall|i: int| w < i <= n ==> !(#[trigger] r.states[i] is WaitForWake),
        seen_throughout(r, w, k - 1, meeting.app),
        probed_at(r, k),
        missed_throughout(r, k, n, meeting.app),
        probed_at(r, n),
        not_ended(r, k, n, meeting.app),
    ensures
        owned_meeting(monitor_of(r.states[n]).status) == Some(meeting),
        acted_at(r, n) == if lasted(
            round_at(r, n).now,
            round_at(r, k).now,
            round_at(r, n).settings.stop_grace_secs,
        ) {
            Action::End(meeting.app)
        } else {
            Action::Nothing
        },
        acted_at(r, n) is End && round_at(r, n).settings.auto_stop_recording ==> {
            &&& r.states[n + 1] is AskStillRecording
            &&& meeting.meeting_name == Some(r.states[n + 1]->AskStillRecording_name)
        },
{
    an_owned_meeting_resumes(r, w, k, meeting);
    if k < n {
        lemma_waiting_in_run(r, k, n, meeting);
    }
    every_state_is_sound(r, n);
    assert(!present(round_at(r, n).outcome.signals, meeting.app));
    assert(step_of(r, n));
}

} // verus!
