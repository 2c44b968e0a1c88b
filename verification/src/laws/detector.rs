//! What holds over many polls.

use crate::detector::{detected, next_phase, Action, Phase};
use crate::settings::SettingsModel;
use crate::signals::{enabled, present, MeetingApp, SignalModel};
use crate::time::{lasted, Moment};
use vstd::prelude::*;

verus! {

/// One poll: what was found, when, and under which settings.
pub struct Poll {
    pub signals: Seq<SignalModel>,
    pub now: Moment,
    pub settings: SettingsModel,
}

/// The phase before the poll `n`, where the detector began idle.
pub open spec fn phase_at(polls: Seq<Poll>, n: int) -> Phase
    decreases n,
{
    if n <= 0 {
        Phase::Idle
    } else {
        let poll = polls[n - 1];
        next_phase(phase_at(polls, n - 1), poll.signals, poll.now, poll.settings).0
    }
}

/// The action that the poll `n` led to.
pub open spec fn action_at(polls: Seq<Poll>, n: int) -> Action {
    let poll = polls[n];
    next_phase(phase_at(polls, n), poll.signals, poll.now, poll.settings).1
}

/// Each poll from `k` to `n` saw a signal of `app`.
pub open spec fn held(polls: Seq<Poll>, k: int, n: int, app: MeetingApp) -> bool {
    forall|i: int| k <= i <= n ==> present((#[trigger] polls[i]).signals, app)
}

/// No poll from `k` to `n` saw a signal of `app`.
pub open spec fn gone(polls: Seq<Poll>, k: int, n: int, app: MeetingApp) -> bool {
    forall|i: int| k <= i <= n ==> !present((#[trigger] polls[i]).signals, app)
}

/// A meeting of `app` is confirmed.
pub open spec fn active(phase: Phase, app: MeetingApp) -> bool {
    match phase {
        Phase::Active { app: a, lost_since } => a == app,
        _ => false,
    }
}

proof fn lemma_pending_since(polls: Seq<Poll>, n: int, app: MeetingApp, since: Moment)
    requires
        0 <= n <= polls.len(),
        phase_at(polls, n) == (Phase::Pending { app, since }),
    ensures
        exists|k: int|
            0 <= k < n && polls[k].now == since && enabled(app, polls[k].settings)
                && #[trigger] held(polls, k, n - 1, app),
    decreases n,
{
    let poll = polls[n - 1];
    let before = phase_at(polls, n - 1);
    match before {
        Phase::Idle => {
            assert(held(polls, n - 1, n - 1, app));
        },
        Phase::Pending { app: a, since: t } => {
            lemma_pending_since(polls, n - 1, app, since);
            let k = choose|k: int|
                0 <= k < n - 1 && polls[k].now == since && enabled(app, polls[k].settings)
                    && #[trigger] held(polls, k, n - 2, app);
            assert(held(polls, k, n - 1, app));
        },
        Phase::Active { app: a, lost_since } => {},
    }
}

proof fn lemma_lost_since(polls: Seq<Poll>, n: int, app: MeetingApp, since: Moment)
    requires
        0 <= n <= polls.len(),
        phase_at(polls, n) == (Phase::Active { app, lost_since: Some(since) }),
    ensures
        exists|k: int| 0 <= k < n && polls[k].now == since && #[trigger] gone(polls, k, n - 1, app),
    decreases n,
{
    let before = phase_at(polls, n - 1);
    match before {
        Phase::Active { app: a, lost_since: Some(t) } => {
            lemma_lost_since(polls, n - 1, app, since);
            let k = choose|k: int|
                0 <= k < n - 1 && polls[k].now == since && #[trigger] gone(polls, k, n - 2, app);
            assert(gone(polls, k, n - 1, app));
        },
        _ => {
            assert(gone(polls, n - 1, n - 1, app));
        },
    }
}

/// A meeting is confirmed only where its signal was seen by every poll for
/// `start_confirm_secs` at least, and its app was enabled when it was first seen.
pub proof fn a_signal_persists_before_a_start(polls: Seq<Poll>, n: int, app: MeetingApp)
    requires
        0 <= n < polls.len(),
        action_at(polls, n) == Action::Start(app),
    ensures
        exists|k: int|
            0 <= k <= n && #[trigger] held(polls, k, n, app) && enabled(app, polls[k].settings)
                && lasted(polls[n].now, polls[k].now, polls[n].settings.start_confirm_secs),
{
    match phase_at(polls, n) {
        Phase::Pending { app: a, since } => {
            lemma_pending_since(polls, n, app, since);
            let k = choose|k: int|
                0 <= k < n && polls[k].now == since && enabled(app, polls[k].settings)
                    && #[trigger] held(polls, k, n - 1, app);
            assert(held(polls, k, n, app));
        },
        _ => {
            assert(held(polls, n, n, app));
        },
    }
}

/// A signal that the idle detector acts on, and that every poll sees for
/// `start_confirm_secs`, leads to a confirmed meeting.
pub proof fn a_signal_that_persists_is_confirmed(polls: Seq<Poll>, k: int, n: int, app: MeetingApp)
    requires
        0 <= k <= n < polls.len(),
        phase_at(polls, k) == Phase::Idle,
        detected(polls[k].signals, polls[k].settings) == Some(app),
        held(polls, k, n, app),
        lasted(polls[n].now, polls[k].now, polls[n].settings.start_confirm_secs),
    ensures
        phase_at(polls, n + 1) == (Phase::Active { app, lost_since: None }),
{
    if k < n {
        lemma_pending_or_active(polls, k, n, app);
    }
}

proof fn lemma_pending_or_active(polls: Seq<Poll>, k: int, n: int, app: MeetingApp)
    requires
        0 <= k < n < polls.len(),
        phase_at(polls, k) == Phase::Idle,
        detected(polls[k].signals, polls[k].settings) == Some(app),
        held(polls, k, n, app),
    ensures
        phase_at(polls, n) == (Phase::Pending { app, since: polls[k].now }) || phase_at(polls, n)
            == (Phase::Active { app, lost_since: None }),
    decreases n,
{
    if k + 1 < n {
        lemma_pending_or_active(polls, k, n - 1, app);
    }
    assert(present(polls[n - 1].signals, app));
}

/// A meeting ends only where no poll saw its signal for `stop_grace_secs` at least.
pub proof fn a_signal_is_gone_before_an_end(polls: Seq<Poll>, n: int, app: MeetingApp)
    requires
        0 <= n < polls.len(),
        action_at(polls, n) == Action::End(app),
    ensures
        exists|k: int|
            0 <= k <= n && #[trigger] gone(polls, k, n, app) && lasted(
                polls[n].now,
                polls[k].now,
                polls[n].settings.stop_grace_secs,
            ),
{
    match phase_at(polls, n) {
        Phase::Active { app: a, lost_since: Some(t) } => {
            lemma_lost_since(polls, n, app, t);
            let k = choose|k: int|
                0 <= k < n && polls[k].now == t && #[trigger] gone(polls, k, n - 1, app);
            assert(gone(polls, k, n, app));
        },
        _ => {
            assert(gone(polls, n, n, app));
        },
    }
}

/// A confirmed meeting whose signal no poll sees for `stop_grace_secs` has ended by then.
pub proof fn a_meeting_whose_signal_is_gone_ends(polls: Seq<Poll>, k: int, n: int, app: MeetingApp)
    requires
        0 <= k <= n < polls.len(),
        phase_at(polls, k) == (Phase::Active { app, lost_since: None }),
        gone(polls, k, n, app),
        lasted(polls[n].now, polls[k].now, polls[n].settings.stop_grace_secs),
    ensures
        exists|i: int| k <= i <= n && #[trigger] action_at(polls, i) == Action::End(app),
{
    if k < n {
        lemma_waiting_or_ended(polls, k, n, app);
    }
    if forall|i: int| k <= i < n ==> #[trigger] action_at(polls, i) != Action::End(app) {
        assert(!present(polls[n].signals, app));
        assert(action_at(polls, n) == Action::End(app));
    }
}

proof fn lemma_waiting_or_ended(polls: Seq<Poll>, k: int, n: int, app: MeetingApp)
    requires
        0 <= k < n < polls.len(),
        phase_at(polls, k) == (Phase::Active { app, lost_since: None }),
        gone(polls, k, n, app),
    ensures
        (exists|i: int| k <= i < n && #[trigger] action_at(polls, i) == Action::End(app))
            || phase_at(polls, n) == (Phase::Active { app, lost_since: Some(polls[k].now) }),
    decreases n,
{
    assert(!present(polls[n - 1].signals, app));
    if k + 1 < n {
        lemma_waiting_or_ended(polls, k, n - 1, app);
        if phase_at(polls, n - 1) == (Phase::Active { app, lost_since: Some(polls[k].now) }) {
            if phase_at(polls, n) != (Phase::Active { app, lost_since: Some(polls[k].now) }) {
                assert(action_at(polls, n - 1) == Action::End(app));
            }
        }
    } else if phase_at(polls, n) != (Phase::Active { app, lost_since: Some(polls[k].now) }) {
        assert(action_at(polls, n - 1) == Action::End(app));
    }
}

/// A meeting stays confirmed from its start until it ends.
pub proof fn a_meeting_lasts_until_it_ends(polls: Seq<Poll>, k: int, n: int, app: MeetingApp)
    requires
        0 <= k < n <= polls.len(),
        action_at(polls, k) == Action::Start(app),
        forall|i: int| k < i < n ==> #[trigger] action_at(polls, i) != Action::End(app),
    ensures
        active(phase_at(polls, n), app),
    decreases n,
{
    if k + 1 < n {
        a_meeting_lasts_until_it_ends(polls, k, n - 1, app);
        assert(action_at(polls, n - 1) != Action::End(app));
    }
}

/// No meeting is confirmed while another is: between two starts, the first
/// meeting ended. So a recording that failed to start is not tried again.
pub proof fn starts_are_apart(polls: Seq<Poll>, k: int, n: int, app: MeetingApp, other: MeetingApp)
    requires
        0 <= k < n < polls.len(),
        action_at(polls, k) == Action::Start(app),
        action_at(polls, n) == Action::Start(other),
    ensures
        exists|i: int| k < i < n && #[trigger] action_at(polls, i) == Action::End(app),
{
    if forall|i: int| k < i < n ==> #[trigger] action_at(polls, i) != Action::End(app) {
        a_meeting_lasts_until_it_ends(polls, k, n, app);
    }
}

/// No poll between `k` and `n` led to an action.
pub open spec fn quiet(polls: Seq<Poll>, k: int, n: int) -> bool {
    forall|i: int| k < i < n ==> #[trigger] action_at(polls, i) == Action::Nothing
}

proof fn lemma_active_since(polls: Seq<Poll>, n: int, app: MeetingApp)
    requires
        0 <= n <= polls.len(),
        active(phase_at(polls, n), app),
    ensures
        exists|k: int|
            0 <= k < n && #[trigger] quiet(polls, k, n) && action_at(polls, k) == Action::Start(
                app,
            ),
    decreases n,
{
    if active(phase_at(polls, n - 1), app) {
        lemma_active_since(polls, n - 1, app);
        let k = choose|k: int|
            0 <= k < n - 1 && #[trigger] quiet(polls, k, n - 1) && action_at(polls, k)
                == Action::Start(app);
        assert(action_at(polls, n - 1) == Action::Nothing);
        assert(quiet(polls, k, n));
    } else {
        assert(action_at(polls, n - 1) == Action::Start(app));
        assert(quiet(polls, n - 1, n));
    }
}

/// Only a meeting that was confirmed ends, and nothing happens in between.
pub proof fn an_end_follows_its_start(polls: Seq<Poll>, n: int, app: MeetingApp)
    requires
        0 <= n < polls.len(),
        action_at(polls, n) == Action::End(app),
    ensures
        exists|k: int|
            0 <= k < n && #[trigger] quiet(polls, k, n) && action_at(polls, k) == Action::Start(
                app,
            ),
{
    lemma_active_since(polls, n, app);
}

/// Once a signal is being followed, those of other apps do not matter.
pub proof fn other_apps_do_not_matter(
    phase: Phase,
    signals: Seq<SignalModel>,
    others: Seq<SignalModel>,
    now: Moment,
    s: SettingsModel,
)
    requires
        match phase {
            Phase::Idle => false,
            Phase::Pending { app, since } => present(signals, app) == present(others, app),
            Phase::Active { app, lost_since } => present(signals, app) == present(others, app),
        },
    ensures
        next_phase(phase, signals, now, s) == next_phase(phase, others, now, s),
{
}

/// Some of `signals` comes from `app`.
pub open spec fn seen(signals: Seq<SignalModel>, app: MeetingApp) -> bool {
    exists|i: int| 0 <= i < signals.len() && (#[trigger] signals[i]).app == app
}

/// The app to look into: Teams before Zoom before Google Meet, among those that are seen
/// and that the settings ask for.
pub open spec fn first_choice(signals: Seq<SignalModel>, s: SettingsModel, app: MeetingApp) -> bool {
    let teams = s.detect_teams && seen(signals, MeetingApp::MicrosoftTeams);
    let zoom = s.detect_zoom && seen(signals, MeetingApp::Zoom);
    let meet = s.detect_google_meet && seen(signals, MeetingApp::GoogleMeet);
    match app {
        MeetingApp::MicrosoftTeams => teams,
        MeetingApp::Zoom => zoom && !teams,
        MeetingApp::GoogleMeet => meet && !zoom && !teams,
    }
}

/// An idle detector follows the first choice from `now` on, and confirms it at once
/// where no time to confirm is set. It stays idle where there is no first choice.
pub proof fn an_idle_detector_follows_the_first_choice(
    signals: Seq<SignalModel>,
    now: Moment,
    s: SettingsModel,
    app: MeetingApp,
)
    ensures
        ({
            let (phase, action) = next_phase(Phase::Idle, signals, now, s);
            &&& first_choice(signals, s, app) && s.start_confirm_secs > 0 ==> phase
                == (Phase::Pending { app, since: now }) && action == Action::Nothing
            &&& first_choice(signals, s, app) && s.start_confirm_secs == 0 ==> phase
                == (Phase::Active { app, lost_since: None }) && action == Action::Start(app)
            &&& (forall|a: MeetingApp| !(#[trigger] first_choice(signals, s, a))) ==> phase
                == Phase::Idle && action == Action::Nothing
        }),
{
    assert(seen(signals, MeetingApp::MicrosoftTeams) == present(
        signals,
        MeetingApp::MicrosoftTeams,
    ));
    assert(seen(signals, MeetingApp::Zoom) == present(signals, MeetingApp::Zoom));
    assert(seen(signals, MeetingApp::GoogleMeet) == present(signals, MeetingApp::GoogleMeet));
    assert(first_choice(signals, s, MeetingApp::MicrosoftTeams) || first_choice(
        signals,
        s,
        MeetingApp::Zoom,
    ) || first_choice(signals, s, MeetingApp::GoogleMeet) || detected(signals, s) is None);
}

/// A signal that is followed since some moment is given up as soon as it is not seen. It
/// is confirmed by the first poll at which it has been followed for `start_confirm_secs`
/// seconds by the clock, and followed further until then.
pub proof fn a_followed_signal_is_confirmed_in_time(
    app: MeetingApp,
    since: Moment,
    signals: Seq<SignalModel>,
    now: Moment,
    s: SettingsModel,
)
    ensures
        ({
            let followed = Phase::Pending { app, since };
            let (phase, action) = next_phase(followed, signals, now, s);
            if !seen(signals, app) {
                phase == Phase::Idle && action == Action::Nothing
            } else if now.nanos >= since.nanos + s.start_confirm_secs * 1_000_000_000
                || s.start_confirm_secs == 0 {
                phase == (Phase::Active { app, lost_since: None }) && action == Action::Start(app)
            } else {
                phase == followed && action == Action::Nothing
            }
        }),
{
}

/// A meeting goes on while its app is seen, and its grace begins anew each time. It ends
/// at the first poll at which its app has been missed for `stop_grace_secs` seconds by
/// the clock, counted from the first poll that missed it, and goes on until then.
pub proof fn a_meeting_ends_in_time(
    app: MeetingApp,
    lost_since: Option<Moment>,
    signals: Seq<SignalModel>,
    now: Moment,
    s: SettingsModel,
)
    ensures
        ({
            let (phase, action) = next_phase(Phase::Active { app, lost_since }, signals, now, s);
            let first_missed = match lost_since {
                Some(t) => t,
                None => now,
            };
            if seen(signals, app) {
                phase == (Phase::Active { app, lost_since: None }) && action == Action::Nothing
            } else if now.nanos >= first_missed.nanos + s.stop_grace_secs * 1_000_000_000
                || s.stop_grace_secs == 0 {
                phase == Phase::Idle && action == Action::End(app)
            } else {
                phase == (Phase::Active { app, lost_since: Some(first_missed) }) && action
                    == Action::Nothing
            }
        }),
{
}

} // verus!
