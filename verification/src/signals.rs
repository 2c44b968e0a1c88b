//! Signal probes: "which meeting app looks like it is in a call right now?"
//!
//! Two independent sources are combined:
//! - macOS Core Audio: processes currently capturing microphone input, mapped by
//!   bundle id. This is the primary signal for Teams and browser-based Google Meet.
//! - Process list (all platforms): Zoom spawns `CptHost` only while a meeting
//!   window is open.

use crate::detector::{clone_signals, clone_text};
use crate::settings::{MeetingDetectionSettings, SettingsModel};
use crate::text::{contains, has_prefix, has_substring, join, lower, lower_chars_of, starts_with};
use vstd::multiset::Multiset;
use vstd::prelude::*;

verus! {

#[derive(Debug, Clone, Copy, PartialEq, Eq, Hash, Structural)]
pub enum MeetingApp {
    MicrosoftTeams,
    Zoom,
    GoogleMeet,
}

#[derive(Debug, Clone, Copy, PartialEq, Eq, Structural)]
pub enum SignalSource {
    /// The process is capturing microphone input (macOS Core Audio).
    MicrophoneInUse,
    /// A meeting-only helper process exists (such as Zoom's `CptHost`).
    ProcessRunning,
}

/// A hint that a meeting app is in a call.
#[derive(Debug, PartialEq, Eq)]
pub struct Signal {
    pub app: MeetingApp,
    pub source: SignalSource,
    /// Bundle id or process name that produced the signal.
    pub detail: String,
}

/// What a [`Signal`] holds, with its text as a character sequence.
pub struct SignalModel {
    pub app: MeetingApp,
    pub source: SignalSource,
    pub detail: Seq<char>,
}

impl DeepView for Signal {
    type V = SignalModel;

    open spec fn deep_view(&self) -> SignalModel {
        SignalModel { app: self.app, source: self.source, detail: self.detail@ }
    }
}

impl Clone for Signal {
    fn clone(&self) -> (r: Self)
        ensures
            r.deep_view() == self.deep_view(),
    {
        Signal { app: self.app, source: self.source, detail: self.detail.clone() }
    }
}

/// The name of an app as users know it.
pub open spec fn app_name(app: MeetingApp) -> Seq<char> {
    match app {
        MeetingApp::MicrosoftTeams => "Microsoft Teams"@,
        MeetingApp::Zoom => "Zoom"@,
        MeetingApp::GoogleMeet => "Google Meet"@,
    }
}

/// Detection priority, the most important app first: dedicated apps, then the
/// browser heuristic.
pub open spec fn rank(app: MeetingApp) -> int {
    match app {
        MeetingApp::MicrosoftTeams => 0,
        MeetingApp::Zoom => 1,
        MeetingApp::GoogleMeet => 2,
    }
}

/// The settings ask for `app` to be detected.
pub open spec fn enabled(app: MeetingApp, s: SettingsModel) -> bool {
    match app {
        MeetingApp::MicrosoftTeams => s.detect_teams,
        MeetingApp::Zoom => s.detect_zoom,
        MeetingApp::GoogleMeet => s.detect_google_meet,
    }
}

impl MeetingApp {
    /// Detection priority: dedicated apps first, browser heuristic last.
    pub const PRIORITY: [MeetingApp; 3] = [
        MeetingApp::MicrosoftTeams,
        MeetingApp::Zoom,
        MeetingApp::GoogleMeet,
    ];

    pub fn display_name(&self) -> (r: &'static str)
        ensures
            r@ == app_name(*self),
    {
        match self {
            MeetingApp::MicrosoftTeams => "Microsoft Teams",
            MeetingApp::Zoom => "Zoom",
            MeetingApp::GoogleMeet => "Google Meet",
        }
    }

    pub fn is_enabled(&self, settings: &MeetingDetectionSettings) -> (r: bool)
        ensures
            r == enabled(*self, settings.deep_view()),
    {
        match self {
            MeetingApp::MicrosoftTeams => settings.detect_teams,
            MeetingApp::Zoom => settings.detect_zoom,
            MeetingApp::GoogleMeet => settings.detect_google_meet,
        }
    }
}

/// Some signal comes from `app`.
pub open spec fn present(signals: Seq<SignalModel>, app: MeetingApp) -> bool {
    exists|i: int| 0 <= i < signals.len() && (#[trigger] signals[i]).app == app
}

/// The most important app among `signals`.
pub open spec fn picked(signals: Seq<SignalModel>) -> Option<MeetingApp> {
    if present(signals, MeetingApp::MicrosoftTeams) {
        Some(MeetingApp::MicrosoftTeams)
    } else if present(signals, MeetingApp::Zoom) {
        Some(MeetingApp::Zoom)
    } else if present(signals, MeetingApp::GoogleMeet) {
        Some(MeetingApp::GoogleMeet)
    } else {
        None
    }
}

/// Whether some signal comes from `app`.
pub fn has_app(signals: &[Signal], app: MeetingApp) -> (r: bool)
    ensures
        r == present(signals.deep_view(), app),
{
    let mut i: usize = 0;
    while i < signals.len()
        invariant
            i <= signals.len(),
            forall|j: int| 0 <= j < i ==> (#[trigger] signals.deep_view()[j]).app != app,
        decreases signals.len() - i,
    {
        if signals[i].app == app {
            assert(signals.deep_view()[i as int].app == app);
            return true;
        }
        i += 1;
    }
    false
}

/// Pick the app to act on from a set of signals (highest priority first).
pub fn pick_app(signals: &[Signal]) -> (r: Option<MeetingApp>)
    ensures
        r == picked(signals.deep_view()),
{
    let mut i: usize = 0;
    while i < 3
        invariant
            i <= 3,
            i > 0 ==> !present(signals.deep_view(), MeetingApp::MicrosoftTeams),
            i > 1 ==> !present(signals.deep_view(), MeetingApp::Zoom),
            i > 2 ==> !present(signals.deep_view(), MeetingApp::GoogleMeet),
        decreases 3 - i,
    {
        let app: MeetingApp = MeetingApp::PRIORITY[i];
        if has_app(signals, app) {
            return Some(app);
        }
        i += 1;
    }
    None
}

/// `out` holds a signal of the same app and source as `signal`.
pub open spec fn holds_pair(out: Seq<SignalModel>, signal: SignalModel) -> bool {
    exists|i: int|
        0 <= i < out.len() && (#[trigger] out[i]).app == signal.app && out[i].source
            == signal.source
}

/// `out` with `signal` behind it, unless it has one of the same app and source.
pub open spec fn with_unique(out: Seq<SignalModel>, signal: SignalModel) -> Seq<SignalModel> {
    if holds_pair(out, signal) {
        out
    } else {
        out.push(signal)
    }
}

/// Adds `signal` unless `out` has one of the same app and source.
pub fn push_unique(out: &mut Vec<Signal>, signal: Signal)
    ensures
        final(out).deep_view() == with_unique(old(out).deep_view(), signal.deep_view()),
{
    let mut i: usize = 0;
    while i < out.len()
        invariant
            i <= out.len(),
            *out == *old(out),
            forall|j: int|
                0 <= j < i ==> !((#[trigger] out.deep_view()[j]).app == signal.app
                    && out.deep_view()[j].source == signal.source),
        decreases out.len() - i,
    {
        if out[i].app == signal.app && out[i].source == signal.source {
            assert(out.deep_view()[i as int].app == signal.app);
            return;
        }
        i += 1;
    }
    let ghost model = signal.deep_view();
    out.push(signal);
    assert(out.deep_view() =~= old(out).deep_view().push(model));
}

/// `bundle_id` is `configured` or begins with it and a dot, whatever the case of
/// ASCII letters.
pub open spec fn id_matches(bundle_id: Seq<char>, configured: Seq<char>) -> bool {
    ||| lower(bundle_id) == lower(configured)
    ||| lower(configured).push('.').is_prefix_of(lower(bundle_id))
}

/// `bundle_id` belongs to one of the browsers `ids`.
pub open spec fn is_browser(bundle_id: Seq<char>, ids: Seq<Seq<char>>) -> bool {
    exists|i: int| 0 <= i < ids.len() && id_matches(bundle_id, #[trigger] ids[i])
}

/// The app that a macOS bundle identifier stands for.
pub open spec fn classified(bundle_id: Seq<char>, s: SettingsModel) -> Option<MeetingApp> {
    if s.detect_teams && "com.microsoft.teams"@.is_prefix_of(bundle_id) {
        Some(MeetingApp::MicrosoftTeams)
    } else if s.detect_zoom && "us.zoom."@.is_prefix_of(bundle_id) {
        Some(MeetingApp::Zoom)
    } else if s.detect_google_meet && is_browser(bundle_id, s.meet_browser_bundle_ids) {
        Some(MeetingApp::GoogleMeet)
    } else {
        None
    }
}

/// Case-insensitive match of a Core Audio client bundle id against a configured
/// browser id. Browsers capture audio in helper processes, so
/// `com.google.Chrome.helper` must match the configured `com.google.Chrome`.
pub fn bundle_id_matches(bundle_id: &str, configured: &str) -> (r: bool)
    ensures
        r == id_matches(bundle_id@, configured@),
{
    let b: Vec<char> = lower_chars_of(bundle_id);
    let mut c: Vec<char> = lower_chars_of(configured);
    if b.len() == c.len() && has_prefix(&b, &c) {
        assert(b@ =~= c@);
        return true;
    }
    assert(b@ != c@);
    c.push('.');
    has_prefix(&b, &c)
}

/// Whether `bundle_id` belongs to one of the browsers `ids`.
fn matches_browser(bundle_id: &str, ids: &Vec<String>) -> (r: bool)
    ensures
        r == is_browser(bundle_id@, ids.deep_view()),
{
    let mut i: usize = 0;
    while i < ids.len()
        invariant
            i <= ids.len(),
            forall|j: int| 0 <= j < i ==> !id_matches(bundle_id@, #[trigger] ids.deep_view()[j]),
        decreases ids.len() - i,
    {
        if bundle_id_matches(bundle_id, ids[i].as_str()) {
            assert(id_matches(bundle_id@, ids.deep_view()[i as int]));
            return true;
        }
        i += 1;
    }
    false
}

/// Map a macOS bundle identifier to a meeting app, honoring per-app toggles.
pub fn classify_bundle_id(bundle_id: &str, settings: &MeetingDetectionSettings) -> (r: Option<
    MeetingApp,
>)
    ensures
        r == classified(bundle_id@, settings.deep_view()),
{
    if settings.detect_teams && starts_with(bundle_id, "com.microsoft.teams") {
        return Some(MeetingApp::MicrosoftTeams);
    }
    if settings.detect_zoom && starts_with(bundle_id, "us.zoom.") {
        return Some(MeetingApp::Zoom);
    }
    if settings.detect_google_meet && matches_browser(bundle_id, &settings.meet_browser_bundle_ids) {
        return Some(MeetingApp::GoogleMeet);
    }
    None
}

/// A process known to Core Audio. A property that could not be read is `None`.
#[derive(Debug)]
pub struct AudioClient {
    /// The process is capturing input.
    pub running_input: Option<bool>,
    pub pid: Option<i32>,
    pub bundle_id: Option<String>,
}

/// What an [`AudioClient`] holds, with its text as a character sequence.
pub struct AudioClientModel {
    pub running_input: Option<bool>,
    pub pid: Option<i32>,
    pub bundle_id: Option<Seq<char>>,
}

impl DeepView for AudioClient {
    type V = AudioClientModel;

    open spec fn deep_view(&self) -> AudioClientModel {
        AudioClientModel {
            running_input: self.running_input,
            pid: self.pid,
            bundle_id: self.bundle_id.deep_view(),
        }
    }
}

/// The signal that a Core Audio client gives: one if it captures input, is not
/// this process and has the bundle id of a meeting app.
pub open spec fn client_signal(client: AudioClientModel, own_pid: i32, s: SettingsModel) -> Option<
    SignalModel,
> {
    if client.running_input == Some(true) && client.pid != Some(own_pid) {
        match client.bundle_id {
            Some(id) => match classified(id, s) {
                Some(app) => Some(
                    SignalModel { app, source: SignalSource::MicrophoneInUse, detail: id },
                ),
                None => None,
            },
            None => None,
        }
    } else {
        None
    }
}

/// `out` with the signals of `clients` behind it, one for each app at most.
pub open spec fn with_clients(
    out: Seq<SignalModel>,
    clients: Seq<AudioClientModel>,
    own_pid: i32,
    s: SettingsModel,
) -> Seq<SignalModel>
    decreases clients.len(),
{
    if clients.len() == 0 {
        out
    } else {
        let earlier = with_clients(out, clients.drop_last(), own_pid, s);
        match client_signal(clients.last(), own_pid, s) {
            Some(signal) => with_unique(earlier, signal),
            None => earlier,
        }
    }
}

/// Adds the signal that `client` gives, if any.
fn push_client(
    client: &AudioClient,
    own_pid: i32,
    settings: &MeetingDetectionSettings,
    out: &mut Vec<Signal>,
)
    ensures
        final(out).deep_view() == (match client_signal(
            client.deep_view(),
            own_pid,
            settings.deep_view(),
        ) {
            Some(signal) => with_unique(old(out).deep_view(), signal),
            None => old(out).deep_view(),
        }),
{
    match client.running_input {
        Some(true) => {},
        _ => {
            return;
        },
    }
    // Our own capture must never count as a meeting.
    if let Some(pid) = client.pid {
        if pid == own_pid {
            return;
        }
    }
    if let Some(id) = &client.bundle_id {
        if let Some(app) = classify_bundle_id(id.as_str(), settings) {
            push_unique(
                out,
                Signal { app, source: SignalSource::MicrophoneInUse, detail: id.clone() },
            );
        }
    }
}

/// Adds the signals of the Core Audio clients that capture microphone input.
///
/// `listing` is the list of Core Audio clients, or why the platform did not give
/// it. Where there is no such list, as on other platforms than macOS, it is empty.
pub fn probe_microphone_users(
    settings: &MeetingDetectionSettings,
    out: &mut Vec<Signal>,
    listing: &Result<Vec<AudioClient>, String>,
    own_pid: i32,
) -> (r: Result<(), String>)
    ensures
        match *listing {
            Ok(clients) => {
                &&& r is Ok
                &&& final(out).deep_view() == with_clients(
                    old(out).deep_view(),
                    clients.deep_view(),
                    own_pid,
                    settings.deep_view(),
                )
            },
            Err(e) => {
                &&& r is Err
                &&& r->Err_0@ == "Core Audio process list unavailable: "@ + e@
                &&& final(out).deep_view() == old(out).deep_view()
            },
        },
{
    match listing {
        Err(e) => Err(join("Core Audio process list unavailable: ", e.as_str())),
        Ok(clients) => {
            let ghost models = clients.deep_view();
            let ghost before = out.deep_view();
            let mut i: usize = 0;
            assert(models.take(0) =~= Seq::empty());
            while i < clients.len()
                invariant
                    i <= clients.len(),
                    models == clients.deep_view(),
                    out.deep_view() == with_clients(
                        before,
                        models.take(i as int),
                        own_pid,
                        settings.deep_view(),
                    ),
                decreases clients.len() - i,
            {
                assert(models.take(i + 1).drop_last() =~= models.take(i as int));
                push_client(&clients[i], own_pid, settings, out);
                i += 1;
            }
            assert(models.take(i as int) =~= models);
            Ok(())
        },
    }
}

/// `name` is that of the process that Zoom runs while a meeting window is open.
pub open spec fn is_meeting_helper(name: Seq<char>) -> bool {
    has_substring(lower(name), "cpthost"@)
}

/// The first of `names` that belongs to a meeting-only process.
pub open spec fn first_helper(names: Seq<Seq<char>>) -> Option<Seq<char>>
    decreases names.len(),
{
    if names.len() == 0 {
        None
    } else if is_meeting_helper(names[0]) {
        Some(names[0])
    } else {
        first_helper(names.drop_first())
    }
}

/// `out` with the signal that a process list gives behind it.
pub open spec fn with_processes(
    out: Seq<SignalModel>,
    names: Seq<Seq<char>>,
    s: SettingsModel,
) -> Seq<SignalModel> {
    match first_helper(names) {
        Some(name) if s.detect_zoom => with_unique(
            out,
            SignalModel {
                app: MeetingApp::Zoom,
                source: SignalSource::ProcessRunning,
                detail: name,
            },
        ),
        _ => out,
    }
}

/// Whether `name` is that of a meeting-only process.
fn names_meeting_helper(name: &str) -> (r: bool)
    ensures
        r == is_meeting_helper(name@),
{
    let needle: Vec<char> = lower_chars_of("cpthost");
    proof {
        reveal_strlit("cpthost");
        assert(lower("cpthost"@) =~= "cpthost"@);
    }
    contains(&lower_chars_of(name), &needle)
}

/// Adds the signal that the names of the running processes give, if any.
pub fn scan_process_names(
    names: &Vec<String>,
    settings: &MeetingDetectionSettings,
    out: &mut Vec<Signal>,
)
    ensures
        final(out).deep_view() == with_processes(
            old(out).deep_view(),
            names.deep_view(),
            settings.deep_view(),
        ),
{
    if !settings.detect_zoom {
        return;
    }
    let ghost models = names.deep_view();
    let mut i: usize = 0;
    assert(models.skip(0) =~= models);
    while i < names.len()
        invariant
            i <= names.len(),
            models == names.deep_view(),
            settings.detect_zoom,
            *out == *old(out),
            first_helper(models) == first_helper(models.skip(i as int)),
        decreases names.len() - i,
    {
        assert(models.skip(i as int).drop_first() =~= models.skip(i + 1));
        if names_meeting_helper(names[i].as_str()) {
            push_unique(
                out,
                Signal {
                    app: MeetingApp::Zoom,
                    source: SignalSource::ProcessRunning,
                    detail: names[i].clone(),
                },
            );
            return;
        }
        i += 1;
    }
}

/// The signals of `app`, in order.
pub open spec fn of_app(signals: Seq<SignalModel>, app: MeetingApp) -> Seq<SignalModel> {
    signals.filter(|s: SignalModel| s.app == app)
}

/// The signals in order of priority, those of one app in the order they had.
pub open spec fn by_priority(signals: Seq<SignalModel>) -> Seq<SignalModel> {
    of_app(signals, MeetingApp::MicrosoftTeams) + of_app(signals, MeetingApp::Zoom) + of_app(
        signals,
        MeetingApp::GoogleMeet,
    )
}

proof fn lemma_of_app_next(signals: Seq<SignalModel>, i: int, app: MeetingApp)
    requires
        0 <= i < signals.len(),
    ensures
        of_app(signals.take(i + 1), app) == if signals[i].app == app {
            of_app(signals.take(i), app).push(signals[i])
        } else {
            of_app(signals.take(i), app)
        },
{
    reveal(Seq::filter);
    assert(signals.take(i + 1).drop_last() =~= signals.take(i));
}

/// Sorts by priority. The sort is stable.
pub fn sort_by_priority(signals: &mut Vec<Signal>)
    ensures
        final(signals).deep_view() == by_priority(old(signals).deep_view()),
{
    let ghost models = signals.deep_view();
    let ghost mut i: int = 0;
    let mut teams: Vec<Signal> = Vec::new();
    let mut zoom: Vec<Signal> = Vec::new();
    let mut meet: Vec<Signal> = Vec::new();
    proof {
        reveal(Seq::filter);
        assert(models.take(0) =~= Seq::empty());
        assert(models.skip(0) =~= models);
        assert(teams.deep_view() =~= of_app(models.take(0), MeetingApp::MicrosoftTeams));
        assert(zoom.deep_view() =~= of_app(models.take(0), MeetingApp::Zoom));
        assert(meet.deep_view() =~= of_app(models.take(0), MeetingApp::GoogleMeet));
    }
    while signals.len() > 0
        invariant
            0 <= i <= models.len(),
            signals.deep_view() == models.skip(i),
            teams.deep_view() == of_app(models.take(i), MeetingApp::MicrosoftTeams),
            zoom.deep_view() == of_app(models.take(i), MeetingApp::Zoom),
            meet.deep_view() == of_app(models.take(i), MeetingApp::GoogleMeet),
        decreases signals.len(),
    {
        let ghost left = signals.deep_view();
        assert(left.len() == models.len() - i);
        let ghost teams_before = teams.deep_view();
        let ghost zoom_before = zoom.deep_view();
        let ghost meet_before = meet.deep_view();
        let signal: Signal = signals.remove(0);
        let ghost model = signal.deep_view();
        proof {
            assert(model == left[0]);
            assert(left[0] == models[i]);
            assert(signals.deep_view() =~= left.skip(1));
            assert(left.skip(1) =~= models.skip(i + 1));
            lemma_of_app_next(models, i, MeetingApp::MicrosoftTeams);
            lemma_of_app_next(models, i, MeetingApp::Zoom);
            lemma_of_app_next(models, i, MeetingApp::GoogleMeet);
            i = i + 1;
        }
        match signal.app {
            MeetingApp::MicrosoftTeams => {
                teams.push(signal);
                assert(teams.deep_view() =~= teams_before.push(model));
            },
            MeetingApp::Zoom => {
                zoom.push(signal);
                assert(zoom.deep_view() =~= zoom_before.push(model));
            },
            MeetingApp::GoogleMeet => {
                meet.push(signal);
                assert(meet.deep_view() =~= meet_before.push(model));
            },
        }
    }
    assert(models.take(i) =~= models);
    signals.append(&mut teams);
    signals.append(&mut zoom);
    signals.append(&mut meet);
    assert(signals.deep_view() =~= by_priority(models));
}

/// Result of one probe round. `error` is set when the platform query itself
/// failed (such as Core Audio process objects being unavailable); `signals` is
/// then meaningless and callers must not treat it as "no meeting".
#[derive(Debug, PartialEq, Eq)]
pub struct ProbeOutcome {
    pub signals: Vec<Signal>,
    pub error: Option<String>,
}

/// What a [`ProbeOutcome`] holds, with texts as character sequences.
pub struct OutcomeModel {
    pub signals: Seq<SignalModel>,
    pub error: Option<Seq<char>>,
}

impl DeepView for ProbeOutcome {
    type V = OutcomeModel;

    open spec fn deep_view(&self) -> OutcomeModel {
        OutcomeModel { signals: self.signals.deep_view(), error: self.error.deep_view() }
    }
}

impl Default for ProbeOutcome {
    fn default() -> (r: Self)
        ensures
            r.deep_view() == (OutcomeModel { signals: Seq::empty(), error: None }),
    {
        let r = ProbeOutcome { signals: Vec::new(), error: None };
        assert(r.signals.deep_view() =~= Seq::empty());
        r
    }
}

impl Clone for ProbeOutcome {
    fn clone(&self) -> (r: Self)
        ensures
            r.deep_view() == self.deep_view(),
    {
        ProbeOutcome { signals: clone_signals(&self.signals), error: clone_text(&self.error) }
    }
}

/// What a probe round comes to.
pub open spec fn probed(
    listing: Result<Vec<AudioClient>, String>,
    own_pid: i32,
    names: Seq<Seq<char>>,
    s: SettingsModel,
) -> OutcomeModel {
    let none = Seq::<SignalModel>::empty();
    match listing {
        Ok(clients) => OutcomeModel {
            signals: by_priority(
                with_processes(with_clients(none, clients.deep_view(), own_pid, s), names, s),
            ),
            error: None,
        },
        Err(e) => OutcomeModel {
            signals: by_priority(with_processes(none, names, s)),
            error: Some("Core Audio process list unavailable: "@ + e@),
        },
    }
}

/// The outcome of a probe round, from what the platform reported.
pub fn outcome_of(
    listing: &Result<Vec<AudioClient>, String>,
    own_pid: i32,
    names: &Vec<String>,
    settings: &MeetingDetectionSettings,
) -> (r: ProbeOutcome)
    ensures
        r.deep_view() == probed(*listing, own_pid, names.deep_view(), settings.deep_view()),
{
    let mut out: Vec<Signal> = Vec::new();
    assert(out.deep_view() =~= Seq::empty());
    let error: Option<String> = match probe_microphone_users(settings, &mut out, listing, own_pid) {
        Ok(_) => None,
        Err(e) => Some(e),
    };
    scan_process_names(names, settings, &mut out);
    sort_by_priority(&mut out);
    ProbeOutcome { signals: out, error }
}

/// `sysinfo::System`, known here by the names of the processes that it lists.
#[verifier::external_type_specification]
#[verifier::external_body]
pub struct ExSystem(sysinfo::System);

/// The names of the processes that a `sysinfo::System` lists, each as often as it
/// occurs. Its processes have no order.
pub uninterp spec fn listed_names(system: sysinfo::System) -> Multiset<Seq<char>>;

/// A `sysinfo::System` with nothing loaded, as `sysinfo::System::new` makes it: it
/// lists no process.
#[verifier::external_body]
fn new_system() -> (system: sysinfo::System)
    ensures
        listed_names(system) == Multiset::<Seq<char>>::empty(),
{
    sysinfo::System::new()
}

/// The names of the running processes, as
/// `sysinfo::System::refresh_processes_specifics` finds them. Only the process
/// list is refreshed, without CPU, memory and disk figures.
///
/// The names are those of all processes that `sysinfo::System::processes` lists
/// after the refresh, in some order. Which processes these are depends on the
/// machine, and in which order they come on a hash map, so neither is claimed.
#[verifier::external_body]
fn running_process_names(system: &mut sysinfo::System) -> (names: Vec<String>)
    ensures
        names.deep_view().to_multiset() == listed_names(*final(system)),
{
    system.refresh_processes_specifics(
        sysinfo::ProcessesToUpdate::All,
        true,
        sysinfo::ProcessRefreshKind::new(),
    );
    let processes = system.processes().values();
    processes.map(|p| p.name().to_string_lossy().into_owned()).collect()
}

/// Process-list probe. Keeps a `sysinfo::System` alive between calls.
pub struct ProcessProbe {
    system: sysinfo::System,
}

impl ProcessProbe {
    /// The names of the processes that the last refresh found.
    pub closed spec fn listed(&self) -> Multiset<Seq<char>> {
        listed_names(self.system)
    }
}

impl Default for ProcessProbe {
    /// A probe that has not looked at the processes yet.
    fn default() -> (r: Self)
        ensures
            r.listed() == Multiset::<Seq<char>>::empty(),
    {
        ProcessProbe { system: new_system() }
    }
}

impl ProcessProbe {
    /// The names of the running processes, or none where the settings do not ask
    /// for what they tell.
    fn names(&mut self, settings: &MeetingDetectionSettings) -> (r: Vec<String>)
        ensures
            settings.detect_zoom ==> r.deep_view().to_multiset() == final(self).listed(),
            !settings.detect_zoom ==> r@.len() == 0 && *final(self) == *old(self),
    {
        if settings.detect_zoom {
            running_process_names(&mut self.system)
        } else {
            Vec::new()
        }
    }

    /// Adds the signal that the running processes give, if any.
    pub fn probe(&mut self, settings: &MeetingDetectionSettings, out: &mut Vec<Signal>)
        ensures
            settings.detect_zoom ==> exists|names: Seq<Seq<char>>|
                names.to_multiset() == final(self).listed() && final(out).deep_view()
                    == #[trigger] with_processes(
                    old(out).deep_view(),
                    names,
                    settings.deep_view(),
                ),
            !settings.detect_zoom ==> final(out).deep_view() == old(out).deep_view()
                && *final(self) == *old(self),
    {
        let names: Vec<String> = self.names(settings);
        scan_process_names(&names, settings, out);
    }
}

/// Run every probe once. Signals are ordered by app priority and deduplicated
/// per (app, source).
///
/// `listing` is the list of Core Audio clients as for [`probe_microphone_users`],
/// and `own_pid` the id of this process.
pub fn probe_all(
    process_probe: &mut ProcessProbe,
    settings: &MeetingDetectionSettings,
    listing: &Result<Vec<AudioClient>, String>,
    own_pid: i32,
) -> (r: ProbeOutcome)
    ensures
        settings.detect_zoom ==> exists|names: Seq<Seq<char>>|
            names.to_multiset() == final(process_probe).listed() && r.deep_view()
                == #[trigger] probed(*listing, own_pid, names, settings.deep_view()),
        !settings.detect_zoom ==> r.deep_view() == probed(
            *listing,
            own_pid,
            Seq::empty(),
            settings.deep_view(),
        ) && *final(process_probe) == *old(process_probe),
{
    let names: Vec<String> = process_probe.names(settings);
    assert(names@.len() == 0 ==> names.deep_view() =~= Seq::empty());
    outcome_of(listing, own_pid, &names, settings)
}

} // verus!
