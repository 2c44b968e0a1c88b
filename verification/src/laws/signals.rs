//! What a probe finds, and how bundle ids are told apart.

use crate::detector::detected;
use crate::laws::text::{folded_texts_differ_in_case_only, folding_is_of_ascii_letters, same_letters};
use crate::settings::{default_browser_ids, default_settings, SettingsModel};
use crate::signals::{
    by_priority, classified, client_signal, enabled, first_helper, holds_pair, id_matches,
    is_browser, is_meeting_helper, of_app, picked, present, probed, rank, with_clients, with_processes,
    with_unique, AudioClient, AudioClientModel, MeetingApp, SignalModel, SignalSource,
};
use crate::text::{ascii_lower, lower, occurs_at};
use vstd::prelude::*;

verus! {

/// A bundle id is only ever taken for an app that the settings ask for.
pub proof fn toggles_are_honored(bundle_id: Seq<char>, s: SettingsModel)
    ensures
        match classified(bundle_id, s) {
            Some(app) => enabled(app, s),
            None => true,
        },
{
}

/// The case of ASCII letters does not matter for a browser.
pub proof fn browsers_match_in_any_case(
    bundle_id: Seq<char>,
    other_id: Seq<char>,
    configured: Seq<char>,
    other_configured: Seq<char>,
)
    requires
        lower(bundle_id) == lower(other_id),
        lower(configured) == lower(other_configured),
    ensures
        id_matches(bundle_id, configured) == id_matches(other_id, other_configured),
{
}

/// A browser and each of its helper processes match the configured id.
pub proof fn helpers_match_their_browser(configured: Seq<char>, helper: Seq<char>)
    ensures
        id_matches(configured, configured),
        id_matches(configured + seq!['.'] + helper, configured),
{
    let id = configured + seq!['.'] + helper;
    let prefix = lower(configured).push('.');
    assert(prefix =~= lower(id).subrange(0, prefix.len() as int));
}

/// What only begins with a configured id, without a dot behind it, does not match.
pub proof fn matches_end_at_a_dot(bundle_id: Seq<char>, configured: Seq<char>)
    requires
        id_matches(bundle_id, configured),
    ensures
        bundle_id.len() >= configured.len(),
        bundle_id.len() > configured.len() ==> bundle_id[configured.len() as int] == '.',
{
    assert(lower(bundle_id).len() == bundle_id.len());
    assert(lower(configured).len() == configured.len());
    if bundle_id.len() > configured.len() {
        let n = configured.len() as int;
        let prefix = lower(configured).push('.');
        assert(prefix[n] == '.');
        assert(lower(bundle_id).subrange(0, n + 1)[n] == lower(bundle_id)[n]);
        assert(lower(bundle_id)[n] == ascii_lower(bundle_id[n]));
    }
}

/// Our own capture never counts as a meeting, whatever else the process tells.
pub proof fn own_capture_never_counts(client: AudioClientModel, own_pid: i32, s: SettingsModel)
    requires
        client.pid == Some(own_pid),
    ensures
        client_signal(client, own_pid, s) is None,
{
}

/// A process that does not capture input gives no signal.
pub proof fn silent_processes_do_not_count(client: AudioClientModel, own_pid: i32, s: SettingsModel)
    requires
        client.running_input != Some(true),
    ensures
        client_signal(client, own_pid, s) is None,
{
}

/// `signals` holds no two of the same app and source.
pub open spec fn unique_pairs(signals: Seq<SignalModel>) -> bool {
    forall|i: int, j: int|
        0 <= i < j < signals.len() ==> !((#[trigger] signals[i]).app == (#[trigger] signals[j]).app
            && signals[i].source == signals[j].source)
}

/// `signals` are in order of priority.
pub open spec fn prioritized(signals: Seq<SignalModel>) -> bool {
    forall|i: int, j: int|
        0 <= i <= j < signals.len() ==> rank((#[trigger] signals[i]).app) <= rank(
            (#[trigger] signals[j]).app,
        )
}

/// All of `signals` come from apps that the settings ask for.
pub open spec fn all_enabled(signals: Seq<SignalModel>, s: SettingsModel) -> bool {
    forall|i: int| 0 <= i < signals.len() ==> enabled((#[trigger] signals[i]).app, s)
}

proof fn lemma_with_unique(out: Seq<SignalModel>, signal: SignalModel, s: SettingsModel)
    requires
        unique_pairs(out),
        all_enabled(out, s),
        enabled(signal.app, s),
    ensures
        unique_pairs(with_unique(out, signal)),
        all_enabled(with_unique(out, signal), s),
{
    if !holds_pair(out, signal) {
        let all = with_unique(out, signal);
        assert forall|i: int, j: int| 0 <= i < j < all.len() implies !((#[trigger] all[i]).app == (
        #[trigger] all[j]).app && all[i].source == all[j].source) by {
            assert(all[i] == out[i]);
        }
    }
}

proof fn lemma_with_clients(
    out: Seq<SignalModel>,
    clients: Seq<AudioClientModel>,
    own_pid: i32,
    s: SettingsModel,
)
    requires
        unique_pairs(out),
        all_enabled(out, s),
    ensures
        unique_pairs(with_clients(out, clients, own_pid, s)),
        all_enabled(with_clients(out, clients, own_pid, s), s),
    decreases clients.len(),
{
    if clients.len() > 0 {
        lemma_with_clients(out, clients.drop_last(), own_pid, s);
        match client_signal(clients.last(), own_pid, s) {
            Some(signal) => {
                lemma_with_unique(
                    with_clients(out, clients.drop_last(), own_pid, s),
                    signal,
                    s,
                );
            },
            None => {},
        }
    }
}

proof fn lemma_of_app(signals: Seq<SignalModel>, app: MeetingApp)
    ensures
        forall|i: int|
            0 <= i < of_app(signals, app).len() ==> (#[trigger] of_app(signals, app)[i]).app == app,
        forall|x: SignalModel|
            of_app(signals, app).to_multiset().count(x) == if x.app == app {
                signals.to_multiset().count(x)
            } else {
                0
            },
    decreases signals.len(),
{
    broadcast use vstd::seq_lib::group_to_multiset_ensures;

    reveal(Seq::filter);
    if signals.len() > 0 {
        let before = signals.drop_last();
        lemma_of_app(before, app);
        assert(signals =~= before.push(signals.last()));
        assert(signals.to_multiset() =~= before.to_multiset().insert(signals.last()));
        if signals.last().app == app {
            assert(of_app(signals, app) =~= of_app(before, app).push(signals.last()));
            assert(of_app(signals, app).to_multiset() =~= of_app(before, app).to_multiset().insert(
                signals.last(),
            ));
        }
    }
}

/// The sort puts the signals in order of priority and keeps each of them.
pub proof fn sorting_orders_and_keeps(signals: Seq<SignalModel>)
    ensures
        prioritized(by_priority(signals)),
        by_priority(signals).to_multiset() == signals.to_multiset(),
{
    let teams = of_app(signals, MeetingApp::MicrosoftTeams);
    let zoom = of_app(signals, MeetingApp::Zoom);
    let meet = of_app(signals, MeetingApp::GoogleMeet);
    lemma_of_app(signals, MeetingApp::MicrosoftTeams);
    lemma_of_app(signals, MeetingApp::Zoom);
    lemma_of_app(signals, MeetingApp::GoogleMeet);
    let all = by_priority(signals);
    assert forall|i: int, j: int| 0 <= i <= j < all.len() implies rank((#[trigger] all[i]).app)
        <= rank((#[trigger] all[j]).app) by {
        assert forall|k: int| 0 <= k < all.len() implies rank((#[trigger] all[k]).app) == if k
            < teams.len() {
            0
        } else if k < teams.len() + zoom.len() {
            1
        } else {
            2int
        } by {
            if k < teams.len() {
                assert(all[k] == teams[k]);
            } else if k < teams.len() + zoom.len() {
                assert(all[k] == zoom[k - teams.len()]);
            } else {
                assert(all[k] == meet[k - teams.len() - zoom.len()]);
            }
        }
    }
    vstd::seq_lib::lemma_multiset_commutative(teams, zoom);
    vstd::seq_lib::lemma_multiset_commutative(teams + zoom, meet);
    assert(all.to_multiset() =~= signals.to_multiset());
}

proof fn lemma_of_app_of_app(signals: Seq<SignalModel>, app: MeetingApp, other: MeetingApp)
    ensures
        of_app(of_app(signals, app), other) == if app == other {
            of_app(signals, app)
        } else {
            Seq::empty()
        },
    decreases signals.len(),
{
    reveal(Seq::filter);
    if signals.len() > 0 {
        let before = signals.drop_last();
        lemma_of_app_of_app(before, app, other);
        if signals.last().app == app {
            assert(of_app(signals, app).drop_last() =~= of_app(before, app));
        }
    }
}

/// The sort is stable: the signals of one app stay in the order they had.
pub proof fn sorting_is_stable(signals: Seq<SignalModel>, app: MeetingApp)
    ensures
        of_app(by_priority(signals), app) == of_app(signals, app),
{
    let teams = of_app(signals, MeetingApp::MicrosoftTeams);
    let zoom = of_app(signals, MeetingApp::Zoom);
    let meet = of_app(signals, MeetingApp::GoogleMeet);
    let pred = |s: SignalModel| s.app == app;
    lemma_of_app_of_app(signals, MeetingApp::MicrosoftTeams, app);
    lemma_of_app_of_app(signals, MeetingApp::Zoom, app);
    lemma_of_app_of_app(signals, MeetingApp::GoogleMeet, app);
    Seq::filter_distributes_over_add(teams, zoom, pred);
    Seq::filter_distributes_over_add(teams + zoom, meet, pred);
    assert(of_app(by_priority(signals), app) =~= of_app(signals, app));
}

proof fn lemma_of_app_unique(signals: Seq<SignalModel>, app: MeetingApp, s: SettingsModel)
    requires
        unique_pairs(signals),
        all_enabled(signals, s),
    ensures
        unique_pairs(of_app(signals, app)),
        all_enabled(of_app(signals, app), s),
        forall|i: int|
            0 <= i < of_app(signals, app).len() ==> signals.contains(
                #[trigger] of_app(signals, app)[i],
            ),
    decreases signals.len(),
{
    reveal(Seq::filter);
    if signals.len() > 0 {
        let before = signals.drop_last();
        let last = signals.last();
        assert forall|i: int, j: int| 0 <= i < j < before.len() implies !((#[trigger] before[i]).app
            == (#[trigger] before[j]).app && before[i].source == before[j].source) by {
            assert(before[i] == signals[i] && before[j] == signals[j]);
        }
        assert forall|i: int| 0 <= i < before.len() implies enabled((#[trigger] before[i]).app, s) by {
            assert(before[i] == signals[i]);
        }
        lemma_of_app_unique(before, app, s);
        let kept = of_app(before, app);
        let all = of_app(signals, app);
        assert(signals[signals.len() - 1] == last);
        assert forall|i: int| 0 <= i < kept.len() implies signals.contains(#[trigger] kept[i])
            && !(kept[i].app == last.app && kept[i].source == last.source) by {
            let k = choose|k: int| 0 <= k < before.len() && before[k] == kept[i];
            assert(signals[k] == kept[i]);
        }
        assert forall|i: int, j: int| 0 <= i < j < all.len() implies !((#[trigger] all[i]).app == (
        #[trigger] all[j]).app && all[i].source == all[j].source) by {
            assert(all[i] == kept[i]);
            if j < kept.len() {
                assert(all[j] == kept[j]);
            }
        }
        assert forall|i: int| 0 <= i < all.len() implies enabled((#[trigger] all[i]).app, s)
            && signals.contains(all[i]) by {
            if i < kept.len() {
                assert(all[i] == kept[i]);
            }
        }
    }
}

proof fn lemma_by_priority_unique(signals: Seq<SignalModel>, s: SettingsModel)
    requires
        unique_pairs(signals),
        all_enabled(signals, s),
    ensures
        unique_pairs(by_priority(signals)),
        all_enabled(by_priority(signals), s),
{
    let teams = of_app(signals, MeetingApp::MicrosoftTeams);
    let zoom = of_app(signals, MeetingApp::Zoom);
    let meet = of_app(signals, MeetingApp::GoogleMeet);
    lemma_of_app_unique(signals, MeetingApp::MicrosoftTeams, s);
    lemma_of_app_unique(signals, MeetingApp::Zoom, s);
    lemma_of_app_unique(signals, MeetingApp::GoogleMeet, s);
    lemma_of_app(signals, MeetingApp::MicrosoftTeams);
    lemma_of_app(signals, MeetingApp::Zoom);
    lemma_of_app(signals, MeetingApp::GoogleMeet);
    let all = by_priority(signals);
    let a = teams.len() as int;
    let b = a + zoom.len();
    assert forall|i: int| 0 <= i < all.len() implies #[trigger] all[i] == if i < a {
        teams[i]
    } else if i < b {
        zoom[i - a]
    } else {
        meet[i - b]
    } by {}
}

/// What a probe finds is in order of priority, without two signals of the same
/// app and source, and only from apps that the settings ask for.
pub proof fn probes_are_ordered_and_unique(
    listing: Result<Vec<AudioClient>, String>,
    own_pid: i32,
    names: Seq<Seq<char>>,
    s: SettingsModel,
)
    ensures
        prioritized(probed(listing, own_pid, names, s).signals),
        unique_pairs(probed(listing, own_pid, names, s).signals),
        all_enabled(probed(listing, own_pid, names, s).signals, s),
{
    let none = Seq::<SignalModel>::empty();
    let heard = match listing {
        Ok(clients) => with_clients(none, clients.deep_view(), own_pid, s),
        Err(_) => none,
    };
    match listing {
        Ok(clients) => {
            lemma_with_clients(none, clients.deep_view(), own_pid, s);
        },
        Err(_) => {},
    }
    let all = with_processes(heard, names, s);
    match first_helper(names) {
        Some(name) => {
            if s.detect_zoom {
                lemma_with_unique(
                    heard,
                    SignalModel {
                        app: MeetingApp::Zoom,
                        source: SignalSource::ProcessRunning,
                        detail: name,
                    },
                    s,
                );
            }
        },
        None => {},
    }
    lemma_by_priority_unique(all, s);
    sorting_orders_and_keeps(all);
}

/// A probe fails if and only if the platform did not give the Core Audio clients.
pub proof fn platform_failures_are_reported(
    listing: Result<Vec<AudioClient>, String>,
    own_pid: i32,
    names: Seq<Seq<char>>,
    s: SettingsModel,
)
    ensures
        probed(listing, own_pid, names, s).error is Some <==> listing is Err,
{
}

/// The app picked among signals has one, and none of the others is more important.
/// Some app is picked unless there are no signals.
pub proof fn the_most_important_app_is_picked(signals: Seq<SignalModel>)
    ensures
        picked(signals) is None <==> signals.len() == 0,
        match picked(signals) {
            Some(app) => {
                &&& present(signals, app)
                &&& forall|i: int|
                    0 <= i < signals.len() ==> rank(app) <= rank((#[trigger] signals[i]).app)
            },
            None => true,
        },
{
    if signals.len() > 0 {
        let app = signals[0].app;
        assert(present(signals, app));
    }
    assert forall|i: int| 0 <= i < signals.len() implies present(
        signals,
        (#[trigger] signals[i]).app,
    ) by {}
}

/// Where the probes honored the toggles, the app that the detector acts on is the
/// most important one of all.
pub proof fn probed_apps_need_no_filter(signals: Seq<SignalModel>, s: SettingsModel)
    requires
        all_enabled(signals, s),
    ensures
        detected(signals, s) == picked(signals),
{
}

/// The app that the detector acts on is enabled and has a signal, and none of the
/// enabled ones with a signal is more important. There is one unless no enabled
/// app has a signal.
pub proof fn the_most_important_enabled_app_is_detected(signals: Seq<SignalModel>, s: SettingsModel)
    ensures
        match detected(signals, s) {
            Some(app) => {
                &&& enabled(app, s)
                &&& present(signals, app)
                &&& forall|other: MeetingApp|
                    #[trigger] present(signals, other) && enabled(other, s) ==> rank(app) <= rank(
                        other,
                    )
            },
            None => forall|app: MeetingApp| #[trigger] present(signals, app) ==> !enabled(app, s),
        },
{
}

proof fn lemma_present_pushed(out: Seq<SignalModel>, signal: SignalModel, app: MeetingApp)
    ensures
        present(with_unique(out, signal), app) <==> present(out, app) || signal.app == app,
{
    let all = with_unique(out, signal);
    if present(out, app) {
        let i = choose|i: int| 0 <= i < out.len() && (#[trigger] out[i]).app == app;
        assert(all[i] == out[i]);
    }
    if signal.app == app {
        if holds_pair(out, signal) {
            let i = choose|i: int|
                0 <= i < out.len() && (#[trigger] out[i]).app == signal.app && out[i].source
                    == signal.source;
            assert(out[i].app == app);
        } else {
            assert(all[out.len() as int].app == app);
        }
    }
    if present(all, app) && signal.app != app {
        let i = choose|i: int| 0 <= i < all.len() && (#[trigger] all[i]).app == app;
        assert(out[i].app == app);
    }
}

/// The client gives a signal of `app`.
pub open spec fn uses_app(
    client: AudioClientModel,
    own_pid: i32,
    s: SettingsModel,
    app: MeetingApp,
) -> bool {
    match client_signal(client, own_pid, s) {
        Some(signal) => signal.app == app,
        None => false,
    }
}

/// One of the clients gives a signal of `app`.
pub open spec fn some_client_uses(
    clients: Seq<AudioClientModel>,
    own_pid: i32,
    s: SettingsModel,
    app: MeetingApp,
) -> bool {
    exists|i: int| 0 <= i < clients.len() && #[trigger] uses_app(clients[i], own_pid, s, app)
}

/// One of the names is that of a meeting-only process.
pub open spec fn some_helper_runs(names: Seq<Seq<char>>) -> bool {
    exists|i: int| 0 <= i < names.len() && #[trigger] is_meeting_helper(names[i])
}

proof fn lemma_clients_found(
    clients: Seq<AudioClientModel>,
    own_pid: i32,
    s: SettingsModel,
    app: MeetingApp,
)
    ensures
        present(with_clients(Seq::empty(), clients, own_pid, s), app) <==> some_client_uses(
            clients,
            own_pid,
            s,
            app,
        ),
    decreases clients.len(),
{
    if clients.len() > 0 {
        let before = clients.drop_last();
        let last = clients.last();
        lemma_clients_found(before, own_pid, s, app);
        match client_signal(last, own_pid, s) {
            Some(signal) => {
                lemma_present_pushed(
                    with_clients(Seq::empty(), before, own_pid, s),
                    signal,
                    app,
                );
            },
            None => {},
        }
        if some_client_uses(before, own_pid, s, app) {
            let i = choose|i: int|
                0 <= i < before.len() && #[trigger] uses_app(before[i], own_pid, s, app);
            assert(uses_app(clients[i], own_pid, s, app));
        }
        if uses_app(last, own_pid, s, app) {
            assert(uses_app(clients[clients.len() - 1], own_pid, s, app));
        }
        if some_client_uses(clients, own_pid, s, app) && !uses_app(last, own_pid, s, app) {
            let i = choose|i: int|
                0 <= i < clients.len() && #[trigger] uses_app(clients[i], own_pid, s, app);
            assert(uses_app(before[i], own_pid, s, app));
        }
    }
}

proof fn lemma_first_helper(names: Seq<Seq<char>>)
    ensures
        first_helper(names) is Some <==> some_helper_runs(names),
        first_helper(names) is Some ==> is_meeting_helper(first_helper(names)->0),
    decreases names.len(),
{
    if names.len() > 0 {
        let rest = names.drop_first();
        lemma_first_helper(rest);
        if is_meeting_helper(names[0]) {
            assert(some_helper_runs(names));
        } else if some_helper_runs(rest) {
            let i = choose|i: int| 0 <= i < rest.len() && #[trigger] is_meeting_helper(rest[i]);
            assert(is_meeting_helper(names[i + 1]));
        } else if some_helper_runs(names) {
            let i = choose|i: int| 0 <= i < names.len() && #[trigger] is_meeting_helper(names[i]);
            assert(is_meeting_helper(rest[i - 1]));
        }
    }
}

proof fn lemma_present_sorted(signals: Seq<SignalModel>, app: MeetingApp)
    ensures
        present(by_priority(signals), app) <==> present(signals, app),
{
    broadcast use vstd::seq_lib::group_to_multiset_ensures;

    let sorted = by_priority(signals);
    sorting_orders_and_keeps(signals);
    if present(signals, app) {
        let i = choose|i: int| 0 <= i < signals.len() && (#[trigger] signals[i]).app == app;
        assert(signals.to_multiset().count(signals[i]) > 0);
        assert(sorted.contains(signals[i]));
        let j = choose|j: int| 0 <= j < sorted.len() && sorted[j] == signals[i];
        assert(sorted[j].app == app);
    }
    if present(sorted, app) {
        let i = choose|i: int| 0 <= i < sorted.len() && (#[trigger] sorted[i]).app == app;
        assert(sorted.to_multiset().count(sorted[i]) > 0);
        assert(signals.contains(sorted[i]));
        let j = choose|j: int| 0 <= j < signals.len() && signals[j] == sorted[i];
        assert(signals[j].app == app);
    }
}

/// A probe finds exactly the apps that a capturing process or, for Zoom, a
/// meeting-only process speaks for. The order in which the platform lists the
/// processes does not matter.
pub proof fn a_probe_finds_each_app_in_a_call(
    clients: Vec<AudioClient>,
    own_pid: i32,
    names: Seq<Seq<char>>,
    s: SettingsModel,
    app: MeetingApp,
)
    ensures
        present(probed(Ok(clients), own_pid, names, s).signals, app) <==> some_client_uses(
            clients.deep_view(),
            own_pid,
            s,
            app,
        ) || (app == MeetingApp::Zoom && s.detect_zoom && some_helper_runs(names)),
{
    let heard = with_clients(Seq::empty(), clients.deep_view(), own_pid, s);
    lemma_clients_found(clients.deep_view(), own_pid, s, app);
    lemma_first_helper(names);
    if s.detect_zoom && first_helper(names) is Some {
        lemma_present_pushed(
            heard,
            SignalModel {
                app: MeetingApp::Zoom,
                source: SignalSource::ProcessRunning,
                detail: first_helper(names)->0,
            },
            app,
        );
    }
    lemma_present_sorted(with_processes(heard, names, s), app);
}

/// `id` begins with `com.microsoft.teams`.
pub open spec fn teams_id(id: Seq<char>) -> bool {
    &&& id.len() >= 19
    &&& id.take(19) == seq![
        'c', 'o', 'm', '.', 'm', 'i', 'c', 'r', 'o', 's', 'o', 'f', 't', '.', 't', 'e', 'a', 'm', 's',
    ]
}

/// `id` begins with `us.zoom.`.
pub open spec fn zoom_id(id: Seq<char>) -> bool {
    &&& id.len() >= 8
    &&& id.take(8) == seq!['u', 's', '.', 'z', 'o', 'o', 'm', '.']
}

/// `id` is `configured`, or that and more behind a dot, where the case of the letters A
/// to Z does not count.
pub open spec fn belongs_to(id: Seq<char>, configured: Seq<char>) -> bool {
    let n = configured.len() as int;
    &&& id.len() >= n
    &&& same_letters(id.take(n), configured)
    &&& id.len() > n ==> id[n] == '.'
}

proof fn lemma_teams_literal(id: Seq<char>)
    ensures
        "com.microsoft.teams"@.is_prefix_of(id) <==> teams_id(id),
{
    reveal_strlit("com.microsoft.teams");
    let t = seq![
        'c', 'o', 'm', '.', 'm', 'i', 'c', 'r', 'o', 's', 'o', 'f', 't', '.', 't', 'e', 'a', 'm', 's',
    ];
    assert("com.microsoft.teams"@ =~= t);
    if id.len() >= 19 {
        assert(id.take(19) =~= id.subrange(0, 19));
    }
}

proof fn lemma_zoom_literal(id: Seq<char>)
    ensures
        "us.zoom."@.is_prefix_of(id) <==> zoom_id(id),
{
    reveal_strlit("us.zoom.");
    assert("us.zoom."@ =~= seq!['u', 's', '.', 'z', 'o', 'o', 'm', '.']);
    if id.len() >= 8 {
        assert(id.take(8) =~= id.subrange(0, 8));
    }
}

/// A bundle id matches a configured one if and only if it is that id or one of a helper,
/// which goes on behind a dot. Only the case of the letters A to Z does not count.
pub proof fn ids_match_up_to_a_dot(id: Seq<char>, configured: Seq<char>)
    ensures
        id_matches(id, configured) <==> belongs_to(id, configured),
{
    let n = configured.len() as int;
    let prefix = lower(configured).push('.');
    assert(lower(id).len() == id.len() && lower(configured).len() == n);
    folded_texts_differ_in_case_only(id, configured);
    if id.len() >= n {
        folded_texts_differ_in_case_only(id.take(n), configured);
        assert(lower(id.take(n)) =~= lower(id).take(n));
        if id.len() == n {
            assert(id.take(n) =~= id);
        } else {
            folding_is_of_ascii_letters(id[n], '.');
            assert(lower(id)[n] == ascii_lower(id[n]));
            if prefix.is_prefix_of(lower(id)) {
                assert(lower(id).subrange(0, n + 1) == prefix);
                assert(lower(id).take(n) =~= prefix.take(n));
                assert(prefix.take(n) =~= lower(configured));
                assert(prefix[n] == lower(id).subrange(0, n + 1)[n]);
            }
            if belongs_to(id, configured) {
                assert(lower(id).subrange(0, n + 1) =~= prefix);
            }
        }
    }
}

/// Which bundle ids stand for which app: those that begin with `com.microsoft.teams` for
/// Teams, those that begin with `us.zoom.` for Zoom, and else those of the configured
/// browsers for Google Meet, as far as the settings ask for the app. No other bundle id
/// stands for an app.
pub proof fn bundle_ids_stand_for_apps(id: Seq<char>, s: SettingsModel)
    ensures
        classified(id, s) == Some(MeetingApp::MicrosoftTeams) <==> s.detect_teams && teams_id(id),
        classified(id, s) == Some(MeetingApp::Zoom) <==> s.detect_zoom && zoom_id(id),
        classified(id, s) == Some(MeetingApp::GoogleMeet) <==> {
            &&& s.detect_google_meet
            &&& exists|k: int|
                0 <= k < s.meet_browser_bundle_ids.len() && belongs_to(
                    id,
                    #[trigger] s.meet_browser_bundle_ids[k],
                )
            &&& !(s.detect_teams && teams_id(id))
            &&& !(s.detect_zoom && zoom_id(id))
        },
{
    let ids = s.meet_browser_bundle_ids;
    lemma_teams_literal(id);
    lemma_zoom_literal(id);
    if teams_id(id) && zoom_id(id) {
        assert(id.take(19)[0] == id[0]);
        assert(id.take(8)[0] == id[0]);
    }
    assert forall|k: int| 0 <= k < ids.len() implies id_matches(id, #[trigger] ids[k])
        == belongs_to(id, ids[k]) by {
        ids_match_up_to_a_dot(id, ids[k]);
    }
    if is_browser(id, ids) {
        let k = choose|k: int| 0 <= k < ids.len() && id_matches(id, #[trigger] ids[k]);
        assert(belongs_to(id, ids[k]));
    }
    if exists|k: int| 0 <= k < ids.len() && belongs_to(id, #[trigger] ids[k]) {
        let k = choose|k: int| 0 <= k < ids.len() && belongs_to(id, #[trigger] ids[k]);
        assert(id_matches(id, ids[k]));
    }
}

/// `id` is one of the browsers that are looked for unless the user says otherwise.
pub open spec fn usual_browser(id: Seq<char>) -> bool {
    ||| id == "com.google.Chrome"@
    ||| id == "com.google.Chrome.beta"@
    ||| id == "com.google.Chrome.canary"@
    ||| id == "com.microsoft.edgemac"@
    ||| id == "com.brave.Browser"@
    ||| id == "company.thebrowser.Browser"@
    ||| id == "org.chromium.Chromium"@
    ||| id == "org.mozilla.firefox"@
}

proof fn lemma_usual_browsers_are_listed(id: Seq<char>)
    requires
        usual_browser(id),
    ensures
        exists|k: int| 0 <= k < default_browser_ids().len() && #[trigger] default_browser_ids()[k]
            == id,
{
    let ids = default_browser_ids();
    assert(ids[0] == "com.google.Chrome"@);
    assert(ids[1] == "com.google.Chrome.beta"@);
    assert(ids[2] == "com.google.Chrome.canary"@);
    assert(ids[3] == "com.microsoft.edgemac"@);
    assert(ids[4] == "com.brave.Browser"@);
    assert(ids[5] == "company.thebrowser.Browser"@);
    assert(ids[6] == "org.chromium.Chromium"@);
    assert(ids[7] == "org.mozilla.firefox"@);
}

/// The browsers that are looked for by default are the usual ones and no others.
pub proof fn the_usual_browsers_are_the_default(id: Seq<char>)
    ensures
        default_settings().meet_browser_bundle_ids.contains(id) <==> usual_browser(id),
{
    let ids = default_browser_ids();
    if usual_browser(id) {
        lemma_usual_browsers_are_listed(id);
    }
    if ids.contains(id) {
        let k = choose|k: int| 0 <= k < ids.len() && ids[k] == id;
        assert(ids.len() == 8);
        assert(k == 0 || k == 1 || k == 2 || k == 3 || k == 4 || k == 5 || k == 6 || k == 7);
    }
}

/// With the browsers that are looked for by default, microphone use in each of them and
/// in each of their helpers counts as Google Meet, whatever the other settings. So does
/// Edge, though its id begins as that of Teams does.
pub proof fn the_usual_browsers_count_as_google_meet(
    id: Seq<char>,
    helper: Seq<char>,
    s: SettingsModel,
)
    requires
        usual_browser(id),
        s.detect_google_meet,
        s.meet_browser_bundle_ids == default_browser_ids(),
    ensures
        classified(id, s) == Some(MeetingApp::GoogleMeet),
        classified(id + seq!['.'] + helper, s) == Some(MeetingApp::GoogleMeet),
{
    reveal_strlit("com.google.Chrome");
    reveal_strlit("com.google.Chrome.beta");
    reveal_strlit("com.google.Chrome.canary");
    reveal_strlit("com.microsoft.edgemac");
    reveal_strlit("com.brave.Browser");
    reveal_strlit("company.thebrowser.Browser");
    reveal_strlit("org.chromium.Chromium");
    reveal_strlit("org.mozilla.firefox");
    let longer = id + seq!['.'] + helper;
    let n = id.len() as int;
    lemma_usual_browsers_are_listed(id);
    let k = choose|k: int|
        0 <= k < default_browser_ids().len() && #[trigger] default_browser_ids()[k] == id;
    assert(id.take(n) =~= id);
    assert(longer.take(n) =~= id);
    assert(belongs_to(id, s.meet_browser_bundle_ids[k]));
    assert(belongs_to(longer, s.meet_browser_bundle_ids[k]));
    assert(n >= 17);
    assert(longer[0] == id[0] && longer[3] == id[3] && longer[4] == id[4] && longer[14] == id[14]);
    if teams_id(id) {
        assert(id.take(19)[0] == id[0] && id.take(19)[3] == id[3]);
        assert(id.take(19)[4] == id[4] && id.take(19)[14] == id[14]);
    }
    if teams_id(longer) {
        assert(longer.take(19)[0] == id[0] && longer.take(19)[3] == id[3]);
        assert(longer.take(19)[4] == id[4] && longer.take(19)[14] == id[14]);
    }
    if zoom_id(id) {
        assert(id.take(8)[0] == id[0]);
    }
    if zoom_id(longer) {
        assert(longer.take(8)[0] == id[0]);
    }
    bundle_ids_stand_for_apps(id, s);
    bundle_ids_stand_for_apps(longer, s);
}

/// From position `i` on, `name` reads `cpthost`, in small or capital letters.
pub open spec fn reads_cpthost(name: Seq<char>, i: int) -> bool {
    &&& 0 <= i
    &&& i + 7 <= name.len()
    &&& name[i] == 'c' || name[i] == 'C'
    &&& name[i + 1] == 'p' || name[i + 1] == 'P'
    &&& name[i + 2] == 't' || name[i + 2] == 'T'
    &&& name[i + 3] == 'h' || name[i + 3] == 'H'
    &&& name[i + 4] == 'o' || name[i + 4] == 'O'
    &&& name[i + 5] == 's' || name[i + 5] == 'S'
    &&& name[i + 6] == 't' || name[i + 6] == 'T'
}

/// `name` is that of a process that Zoom runs only during a meeting.
pub open spec fn runs_in_meetings(name: Seq<char>) -> bool {
    exists|i: int| #[trigger] reads_cpthost(name, i)
}

proof fn lemma_reads_cpthost(name: Seq<char>, i: int)
    ensures
        occurs_at(lower(name), "cpthost"@, i) <==> reads_cpthost(name, i),
{
    reveal_strlit("cpthost");
    let needle = seq!['c', 'p', 't', 'h', 'o', 's', 't'];
    assert("cpthost"@ =~= needle);
    assert(lower(name).len() == name.len());
    if 0 <= i && i + 7 <= name.len() {
        let part = lower(name).subrange(i, i + 7);
        assert forall|j: int| 0 <= j < 7 implies #[trigger] part[j] == ascii_lower(name[i + j]) by {}
        assert(part[0] == ascii_lower(name[i]));
        assert(part[1] == ascii_lower(name[i + 1]));
        assert(part[2] == ascii_lower(name[i + 2]));
        assert(part[3] == ascii_lower(name[i + 3]));
        assert(part[4] == ascii_lower(name[i + 4]));
        assert(part[5] == ascii_lower(name[i + 5]));
        assert(part[6] == ascii_lower(name[i + 6]));
        if reads_cpthost(name, i) {
            assert(part =~= needle);
        }
    }
}

/// Only a process whose name holds `cpthost`, in small or capital letters, tells of a
/// Zoom meeting. That Zoom is open does not.
pub proof fn meeting_processes_are_told_by_name(name: Seq<char>)
    ensures
        is_meeting_helper(name) <==> runs_in_meetings(name),
{
    if is_meeting_helper(name) {
        let i = choose|i: int| #[trigger] occurs_at(lower(name), "cpthost"@, i);
        lemma_reads_cpthost(name, i);
    }
    if runs_in_meetings(name) {
        let i = choose|i: int| #[trigger] reads_cpthost(name, i);
        lemma_reads_cpthost(name, i);
    }
}

/// `name` is the first of `names` whose process runs only in meetings, at position `i`.
pub open spec fn first_meeting_process(names: Seq<Seq<char>>, i: int, name: Seq<char>) -> bool {
    &&& 0 <= i < names.len()
    &&& names[i] == name
    &&& runs_in_meetings(name)
    &&& forall|j: int| 0 <= j < i ==> !runs_in_meetings(#[trigger] names[j])
}

/// None of `names` is that of a process that runs only in meetings.
pub open spec fn no_meeting_process(names: Seq<Seq<char>>) -> bool {
    forall|i: int| 0 <= i < names.len() ==> !runs_in_meetings(#[trigger] names[i])
}

proof fn lemma_first_meeting_process(names: Seq<Seq<char>>)
    ensures
        match first_helper(names) {
            Some(name) => exists|i: int| #[trigger] first_meeting_process(names, i, name),
            None => no_meeting_process(names),
        },
    decreases names.len(),
{
    if names.len() == 0 {
        assert(no_meeting_process(names));
    } else {
        meeting_processes_are_told_by_name(names[0]);
        let rest = names.drop_first();
        if is_meeting_helper(names[0]) {
            assert(first_meeting_process(names, 0, first_helper(names)->0));
        } else {
            lemma_first_meeting_process(rest);
            assert(first_helper(names) == first_helper(rest));
            match first_helper(rest) {
                Some(name) => {
                    let i = choose|i: int| #[trigger] first_meeting_process(rest, i, name);
                    assert forall|j: int| 0 <= j < i + 1 implies !runs_in_meetings(
                        #[trigger] names[j],
                    ) by {
                        if j > 0 {
                            assert(rest[j - 1] == names[j]);
                        }
                    }
                    assert(first_meeting_process(names, i + 1, name));
                },
                None => {
                    assert forall|i: int| 0 <= i < names.len() implies !runs_in_meetings(
                        #[trigger] names[i],
                    ) by {
                        if i > 0 {
                            assert(rest[i - 1] == names[i]);
                        }
                    }
                },
            }
        }
    }
}

/// What a process list adds: a Zoom signal with the name of the first process that runs
/// only in meetings, if there is one, the settings ask for Zoom and no such signal is
/// there yet. Else nothing. What was found before stays.
pub proof fn a_process_list_tells_of_zoom_meetings(
    out: Seq<SignalModel>,
    names: Seq<Seq<char>>,
    s: SettingsModel,
)
    ensures
        ({
            let all = with_processes(out, names, s);
            let running = !no_meeting_process(names);
            let known = exists|i: int|
                0 <= i < out.len() && (#[trigger] out[i]).app == MeetingApp::Zoom && out[i].source
                    == SignalSource::ProcessRunning;
            if s.detect_zoom && running && !known {
                &&& all.len() == out.len() + 1
                &&& all.drop_last() == out
                &&& all.last().app == MeetingApp::Zoom
                &&& all.last().source == SignalSource::ProcessRunning
                &&& exists|i: int| #[trigger] first_meeting_process(names, i, all.last().detail)
            } else {
                all == out
            }
        }),
{
    lemma_first_meeting_process(names);
    let all = with_processes(out, names, s);
    match first_helper(names) {
        Some(name) => {
            let i = choose|i: int| #[trigger] first_meeting_process(names, i, name);
            assert(runs_in_meetings(names[i]));
            if s.detect_zoom {
                let signal = SignalModel {
                    app: MeetingApp::Zoom,
                    source: SignalSource::ProcessRunning,
                    detail: name,
                };
                if !holds_pair(out, signal) {
                    assert(all.drop_last() =~= out);
                    assert(all.last() == signal);
                    assert(first_meeting_process(names, i, all.last().detail));
                }
            }
        },
        None => {},
    }
}

/// A Core Audio client that speaks for `app`: it captures input, is not this process,
/// and has a bundle id that stands for `app`.
pub open spec fn in_call(
    client: AudioClientModel,
    own_pid: i32,
    s: SettingsModel,
    app: MeetingApp,
) -> bool {
    &&& client.running_input == Some(true)
    &&& client.pid != Some(own_pid)
    &&& client.bundle_id is Some
    &&& classified(client.bundle_id->0, s) == Some(app)
}

/// `id` is the bundle id of the first of `clients` that speaks for `app`, at position `i`.
pub open spec fn first_in_call(
    clients: Seq<AudioClientModel>,
    own_pid: i32,
    s: SettingsModel,
    app: MeetingApp,
    id: Seq<char>,
    i: int,
) -> bool {
    &&& 0 <= i < clients.len()
    &&& in_call(clients[i], own_pid, s, app)
    &&& clients[i].bundle_id == Some(id)
    &&& forall|j: int| 0 <= j < i ==> !in_call(#[trigger] clients[j], own_pid, s, app)
}

/// A client gives a microphone signal with its bundle id, of the app that it speaks for,
/// and none if it speaks for no app.
pub proof fn clients_speak_for_apps(client: AudioClientModel, own_pid: i32, s: SettingsModel)
    ensures
        match client_signal(client, own_pid, s) {
            Some(signal) => {
                &&& in_call(client, own_pid, s, signal.app)
                &&& signal.source == SignalSource::MicrophoneInUse
                &&& client.bundle_id == Some(signal.detail)
            },
            None => forall|app: MeetingApp| !(#[trigger] in_call(client, own_pid, s, app)),
        },
{
}

/// Each signal among `found` tells of the first client that speaks for its app.
pub open spec fn tells_first_clients(
    found: Seq<SignalModel>,
    clients: Seq<AudioClientModel>,
    own_pid: i32,
    s: SettingsModel,
) -> bool {
    forall|k: int|
        0 <= k < found.len() ==> {
            &&& (#[trigger] found[k]).source == SignalSource::MicrophoneInUse
            &&& exists|i: int|
                #[trigger] first_in_call(clients, own_pid, s, found[k].app, found[k].detail, i)
        }
}

proof fn lemma_first_clients(clients: Seq<AudioClientModel>, own_pid: i32, s: SettingsModel)
    ensures
        tells_first_clients(with_clients(Seq::empty(), clients, own_pid, s), clients, own_pid, s),
    decreases clients.len(),
{
    let found = with_clients(Seq::empty(), clients, own_pid, s);
    if clients.len() > 0 {
        let before = clients.drop_last();
        let last = clients.last();
        let n = before.len() as int;
        let earlier = with_clients(Seq::empty(), before, own_pid, s);
        lemma_first_clients(before, own_pid, s);
        clients_speak_for_apps(last, own_pid, s);
        assert forall|k: int| 0 <= k < found.len() implies (#[trigger] found[k]).source
            == SignalSource::MicrophoneInUse && exists|i: int|
            #[trigger] first_in_call(clients, own_pid, s, found[k].app, found[k].detail, i) by {
            let app = found[k].app;
            let id = found[k].detail;
            if k < earlier.len() {
                assert(found[k] == earlier[k]);
                let i = choose|i: int| #[trigger] first_in_call(before, own_pid, s, app, id, i);
                assert forall|j: int| 0 <= j < i implies !in_call(
                    #[trigger] clients[j],
                    own_pid,
                    s,
                    app,
                ) by {
                    assert(before[j] == clients[j]);
                }
                assert(clients[i] == before[i]);
                assert(first_in_call(clients, own_pid, s, app, id, i));
            } else {
                lemma_clients_found(before, own_pid, s, app);
                let signal = client_signal(last, own_pid, s)->0;
                assert(found[k] == signal);
                assert(!holds_pair(earlier, signal));
                assert forall|j: int| 0 <= j < n implies !in_call(
                    #[trigger] clients[j],
                    own_pid,
                    s,
                    app,
                ) by {
                    if in_call(clients[j], own_pid, s, app) {
                        assert(before[j] == clients[j]);
                        assert(uses_app(before[j], own_pid, s, app));
                        assert(present(earlier, app));
                        let m = choose|m: int|
                            0 <= m < earlier.len() && (#[trigger] earlier[m]).app == app;
                        assert(earlier[m].source == SignalSource::MicrophoneInUse);
                        assert(holds_pair(earlier, signal));
                    }
                }
                assert(clients[n] == last);
                assert(first_in_call(clients, own_pid, s, app, id, n));
            }
        }
    }
}

/// What a signal that a probe found tells: microphone use of the first client that
/// speaks for the app, with its bundle id, or, for Zoom and where the settings ask for
/// it, the first process that runs only in meetings, with its name.
pub open spec fn has_ground(
    signal: SignalModel,
    clients: Seq<AudioClientModel>,
    own_pid: i32,
    names: Seq<Seq<char>>,
    s: SettingsModel,
) -> bool {
    match signal.source {
        SignalSource::MicrophoneInUse => exists|i: int|
            #[trigger] first_in_call(clients, own_pid, s, signal.app, signal.detail, i),
        SignalSource::ProcessRunning => {
            &&& signal.app == MeetingApp::Zoom
            &&& s.detect_zoom
            &&& exists|i: int| #[trigger] first_meeting_process(names, i, signal.detail)
        },
    }
}

proof fn lemma_sorted_are_found(signals: Seq<SignalModel>, x: SignalModel)
    ensures
        by_priority(signals).contains(x) <==> signals.contains(x),
{
    broadcast use vstd::seq_lib::group_to_multiset_ensures;

    sorting_orders_and_keeps(signals);
    assert(by_priority(signals).to_multiset().count(x) == signals.to_multiset().count(x));
}

/// The clients that the platform listed, if it did.
pub open spec fn listed_clients(listing: Result<Vec<AudioClient>, String>) -> Seq<AudioClientModel> {
    match listing {
        Ok(clients) => clients.deep_view(),
        Err(_) => Seq::empty(),
    }
}

/// Every signal that a probe finds has a ground in what the platform reported, and every
/// such ground gives a signal: each app that a client speaks for has one from the
/// microphone, and a process that runs only in meetings gives one of Zoom where the
/// settings ask for it. Where the platform listed no clients, the processes still count.
pub proof fn probes_report_what_the_platform_tells(
    listing: Result<Vec<AudioClient>, String>,
    own_pid: i32,
    names: Seq<Seq<char>>,
    s: SettingsModel,
)
    ensures
        ({
            let found = probed(listing, own_pid, names, s).signals;
            let clients = listed_clients(listing);
            &&& forall|x: SignalModel| #[trigger]
                found.contains(x) ==> has_ground(x, clients, own_pid, names, s)
            &&& forall|i: int, app: MeetingApp|
                0 <= i < clients.len() && #[trigger] in_call(clients[i], own_pid, s, app)
                    ==> exists|x: SignalModel| #[trigger]
                    found.contains(x) && x.app == app && x.source == SignalSource::MicrophoneInUse
            &&& forall|i: int|
                0 <= i < names.len() && s.detect_zoom && runs_in_meetings(#[trigger] names[i])
                    ==> exists|x: SignalModel| #[trigger]
                    found.contains(x) && x.app == MeetingApp::Zoom && x.source
                        == SignalSource::ProcessRunning
        }),
{
    let clients = listed_clients(listing);
    let heard = with_clients(Seq::empty(), clients, own_pid, s);
    let all = with_processes(heard, names, s);
    let found = probed(listing, own_pid, names, s).signals;
    assert(found == by_priority(all));
    lemma_first_clients(clients, own_pid, s);
    a_process_list_tells_of_zoom_meetings(heard, names, s);
    assert forall|x: SignalModel| #[trigger] found.contains(x) implies has_ground(
        x,
        clients,
        own_pid,
        names,
        s,
    ) by {
        lemma_sorted_are_found(all, x);
        let k = choose|k: int| 0 <= k < all.len() && all[k] == x;
        if k < heard.len() {
            if all.len() > heard.len() {
                assert(all.drop_last()[k] == all[k]);
            }
            assert(heard[k] == x);
        } else {
            assert(all.last() == x);
        }
    }
    assert forall|i: int, app: MeetingApp|
        0 <= i < clients.len() && #[trigger] in_call(clients[i], own_pid, s, app) implies exists|
        x: SignalModel,
    | #[trigger] found.contains(x) && x.app == app && x.source == SignalSource::MicrophoneInUse by {
        lemma_clients_found(clients, own_pid, s, app);
        assert(uses_app(clients[i], own_pid, s, app));
        let k = choose|k: int| 0 <= k < heard.len() && (#[trigger] heard[k]).app == app;
        if all.len() > heard.len() {
            assert(all.drop_last()[k] == all[k]);
        }
        assert(all[k] == heard[k]);
        lemma_sorted_are_found(all, heard[k]);
        assert(found.contains(heard[k]));
    }
    assert forall|i: int|
        0 <= i < names.len() && s.detect_zoom && runs_in_meetings(#[trigger] names[i]) implies exists|
        x: SignalModel,
    | #[trigger] found.contains(x) && x.app == MeetingApp::Zoom && x.source
        == SignalSource::ProcessRunning by {
        assert forall|k: int| 0 <= k < heard.len() implies (#[trigger] heard[k]).source
            != SignalSource::ProcessRunning by {}
        assert(all.len() == heard.len() + 1);
        lemma_sorted_are_found(all, all.last());
        assert(all[all.len() - 1] == all.last());
        assert(found.contains(all.last()));
    }
}

/// Without clients and without a process that runs only in meetings, a probe finds
/// nothing, whatever else runs.
pub proof fn other_processes_do_not_count(
    clients: Vec<AudioClient>,
    own_pid: i32,
    names: Seq<Seq<char>>,
    s: SettingsModel,
)
    requires
        forall|i: int, app: MeetingApp|
            0 <= i < clients.deep_view().len() ==> !(#[trigger] in_call(
                clients.deep_view()[i],
                own_pid,
                s,
                app,
            )),
        forall|i: int| 0 <= i < names.len() ==> !runs_in_meetings(#[trigger] names[i]),
    ensures
        probed(Ok(clients), own_pid, names, s).signals.len() == 0,
{
    let found = probed(Ok(clients), own_pid, names, s).signals;
    probes_report_what_the_platform_tells(Ok(clients), own_pid, names, s);
    if found.len() > 0 {
        let x = found[0];
        assert(found.contains(x));
        match x.source {
            SignalSource::MicrophoneInUse => {
                let i = choose|i: int|
                    #[trigger] first_in_call(
                        clients.deep_view(),
                        own_pid,
                        s,
                        x.app,
                        x.detail,
                        i,
                    );
                assert(in_call(clients.deep_view()[i], own_pid, s, x.app));
            },
            SignalSource::ProcessRunning => {
                let i = choose|i: int| #[trigger] first_meeting_process(names, i, x.detail);
                assert(runs_in_meetings(names[i]));
            },
        }
    }
}

/// A probe that the platform failed tells why, behind what failed.
pub proof fn platform_failures_tell_the_cause(
    e: String,
    own_pid: i32,
    names: Seq<Seq<char>>,
    s: SettingsModel,
)
    ensures
        ({
            let error = probed(Err(e), own_pid, names, s).error;
            &&& error is Some
            &&& error->0.len() == e@.len() + 37
            &&& error->0.take(37) == "Core Audio process list unavailable: "@
            &&& error->0.skip(37) == e@
        }),
{
    reveal_strlit("Core Audio process list unavailable: ");
    let error = probed(Err(e), own_pid, names, s).error->0;
    assert(error.take(37) =~= "Core Audio process list unavailable: "@);
    assert(error.skip(37) =~= e@);
}

/// Teams comes before Zoom, and Zoom before the browsers. Each app is asked for by its
/// own setting.
pub proof fn apps_have_their_place_and_setting(s: SettingsModel)
    ensures
        rank(MeetingApp::MicrosoftTeams) < rank(MeetingApp::Zoom) < rank(MeetingApp::GoogleMeet),
        enabled(MeetingApp::MicrosoftTeams, s) == s.detect_teams,
        enabled(MeetingApp::Zoom, s) == s.detect_zoom,
        enabled(MeetingApp::GoogleMeet, s) == s.detect_google_meet,
{
}

/// An app is present among signals if and only if one of them comes from it.
pub proof fn one_signal_makes_an_app_present(
    before: Seq<SignalModel>,
    signal: SignalModel,
    after: Seq<SignalModel>,
    app: MeetingApp,
)
    ensures
        present(before + seq![signal] + after, app) <==> signal.app == app || present(before, app)
            || present(after, app),
        !present(Seq::empty(), app),
{
    let all = before + seq![signal] + after;
    let n = before.len() as int;
    assert(all[n] == signal);
    assert forall|i: int| 0 <= i < before.len() implies #[trigger] before[i] == all[i] by {}
    assert forall|i: int| 0 <= i < after.len() implies #[trigger] after[i] == all[n + 1 + i] by {}
    if present(all, app) {
        let i = choose|i: int| 0 <= i < all.len() && (#[trigger] all[i]).app == app;
        if i < n {
            assert(before[i].app == app);
        } else if i > n {
            assert(after[i - n - 1].app == app);
        }
    }
}

/// The app to act on is Teams if it has a signal, else Zoom, else Google Meet.
pub proof fn dedicated_apps_come_first(signals: Seq<SignalModel>)
    ensures
        ({
            let has = |app: MeetingApp|
                exists|i: int| 0 <= i < signals.len() && (#[trigger] signals[i]).app == app;
            picked(signals) == if has(MeetingApp::MicrosoftTeams) {
                Some(MeetingApp::MicrosoftTeams)
            } else if has(MeetingApp::Zoom) {
                Some(MeetingApp::Zoom)
            } else if has(MeetingApp::GoogleMeet) {
                Some(MeetingApp::GoogleMeet)
            } else {
                None
            }
        }),
{
}

/// A signal is added behind the others unless one of the same app and source is there,
/// and what is there stays.
pub proof fn signals_are_added_once(out: Seq<SignalModel>, signal: SignalModel)
    ensures
        ({
            let all = with_unique(out, signal);
            let known = exists|i: int|
                0 <= i < out.len() && (#[trigger] out[i]).app == signal.app && out[i].source
                    == signal.source;
            if known {
                all == out
            } else {
                all.len() == out.len() + 1 && all.drop_last() == out && all.last() == signal
            }
        }),
{
    if !holds_pair(out, signal) {
        assert(out.push(signal).drop_last() =~= out);
    }
}

/// Sorting puts no signal of the browsers before one of an app, and none of Zoom before
/// one of Teams. It loses and adds none, and those of one app keep their order.
pub proof fn sorting_is_by_app_alone(signals: Seq<SignalModel>, app: MeetingApp)
    ensures
        ({
            let sorted = by_priority(signals);
            &&& forall|i: int, j: int|
                0 <= i < j < sorted.len() ==> !((#[trigger] sorted[i]).app == MeetingApp::GoogleMeet
                    && (#[trigger] sorted[j]).app != MeetingApp::GoogleMeet) && !(sorted[i].app
                    == MeetingApp::Zoom && sorted[j].app == MeetingApp::MicrosoftTeams)
            &&& sorted.to_multiset() == signals.to_multiset()
            &&& sorted.filter(|x: SignalModel| x.app == app) == signals.filter(
                |x: SignalModel| x.app == app,
            )
        }),
{
    sorting_orders_and_keeps(signals);
    sorting_is_stable(signals, app);
    let sorted = by_priority(signals);
    assert forall|i: int, j: int| 0 <= i < j < sorted.len() implies !((#[trigger] sorted[i]).app
        == MeetingApp::GoogleMeet && (#[trigger] sorted[j]).app != MeetingApp::GoogleMeet) && !(
    sorted[i].app == MeetingApp::Zoom && sorted[j].app == MeetingApp::MicrosoftTeams) by {
        assert(rank(sorted[i].app) <= rank(sorted[j].app));
    }
}

} // verus!
