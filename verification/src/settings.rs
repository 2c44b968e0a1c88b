//! Settings of automatic meeting detection.

use crate::text::{eq_ignore_ascii_case, join, lower, trim, trimmed};
use vstd::prelude::*;

verus! {

/// Name of the settings file in the app data directory.
pub const SETTINGS_FILE_NAME: &'static str = "meeting_detection.json";

/// Browser bundle identifiers (macOS) whose microphone use is treated as a
/// Google Meet call. `com.google.Chrome` also matches the
/// `com.google.Chrome.helper` process that actually captures audio. Editable
/// from the settings view.
pub const DEFAULT_MEET_BROWSER_BUNDLE_IDS: [&'static str; 8] = [
    "com.google.Chrome",
    "com.google.Chrome.beta",
    "com.google.Chrome.canary",
    "com.microsoft.edgemac",
    "com.brave.Browser",
    "company.thebrowser.Browser",
    "org.chromium.Chromium",
    "org.mozilla.firefox",
];

/// [`DEFAULT_MEET_BROWSER_BUNDLE_IDS`] as character sequences.
pub open spec fn default_browser_ids() -> Seq<Seq<char>> {
    seq![
        "com.google.Chrome"@,
        "com.google.Chrome.beta"@,
        "com.google.Chrome.canary"@,
        "com.microsoft.edgemac"@,
        "com.brave.Browser"@,
        "company.thebrowser.Browser"@,
        "org.chromium.Chromium"@,
        "org.mozilla.firefox"@,
    ]
}

/// What a [`MeetingDetectionSettings`] holds, with texts as character sequences.
pub struct SettingsModel {
    pub enabled: bool,
    pub auto_start_recording: bool,
    pub auto_stop_recording: bool,
    pub detect_teams: bool,
    pub detect_google_meet: bool,
    pub detect_zoom: bool,
    pub notify_on_detection: bool,
    pub poll_interval_secs: u64,
    pub start_confirm_secs: u64,
    pub stop_grace_secs: u64,
    pub meet_browser_bundle_ids: Seq<Seq<char>>,
}

/// Settings of the detector, as the settings file and the settings view hold them.
#[derive(Debug, PartialEq)]
pub struct MeetingDetectionSettings {
    /// Master switch. Off by default (opt-in).
    pub enabled: bool,
    /// Start recording automatically when a meeting is confirmed.
    pub auto_start_recording: bool,
    /// Stop recording automatically when the meeting signal has been gone for
    /// `stop_grace_secs`. Only recordings started by the detector are stopped.
    pub auto_stop_recording: bool,
    pub detect_teams: bool,
    pub detect_google_meet: bool,
    pub detect_zoom: bool,
    /// Show an OS notification when a meeting is detected or ended.
    pub notify_on_detection: bool,
    /// Seconds between probes.
    pub poll_interval_secs: u64,
    /// A signal must persist this long before a meeting is confirmed
    /// (filters out short microphone permission checks).
    pub start_confirm_secs: u64,
    /// A confirmed meeting ends only after its signal has been absent this long
    /// (hysteresis against network blips and brief mute-release).
    pub stop_grace_secs: u64,
    /// Browsers whose microphone use counts as Google Meet (macOS bundle ids).
    pub meet_browser_bundle_ids: Vec<String>,
}

impl DeepView for MeetingDetectionSettings {
    type V = SettingsModel;

    open spec fn deep_view(&self) -> SettingsModel {
        SettingsModel {
            enabled: self.enabled,
            auto_start_recording: self.auto_start_recording,
            auto_stop_recording: self.auto_stop_recording,
            detect_teams: self.detect_teams,
            detect_google_meet: self.detect_google_meet,
            detect_zoom: self.detect_zoom,
            notify_on_detection: self.notify_on_detection,
            poll_interval_secs: self.poll_interval_secs,
            start_confirm_secs: self.start_confirm_secs,
            stop_grace_secs: self.stop_grace_secs,
            meet_browser_bundle_ids: self.meet_browser_bundle_ids.deep_view(),
        }
    }
}

/// The settings in force where none are stored.
pub open spec fn default_settings() -> SettingsModel {
    SettingsModel {
        enabled: false,
        auto_start_recording: true,
        auto_stop_recording: true,
        detect_teams: true,
        detect_google_meet: true,
        detect_zoom: true,
        notify_on_detection: true,
        poll_interval_secs: 3,
        start_confirm_secs: 5,
        stop_grace_secs: 45,
        meet_browser_bundle_ids: default_browser_ids(),
    }
}

/// `n` brought into `low..=high`.
pub open spec fn clamped(n: u64, low: u64, high: u64) -> u64 {
    if n < low {
        low
    } else if n > high {
        high
    } else {
        n
    }
}

/// `ids` holds `id`, whatever the case of its ASCII letters.
pub open spec fn holds_id(ids: Seq<Seq<char>>, id: Seq<char>) -> bool {
    exists|i: int| 0 <= i < ids.len() && lower(#[trigger] ids[i]) == lower(id)
}

/// The trimmed `ids` in order, without the empty ones and without those that an
/// earlier one equals but for the case of ASCII letters.
pub open spec fn distinct_ids(ids: Seq<Seq<char>>) -> Seq<Seq<char>>
    decreases ids.len(),
{
    if ids.len() == 0 {
        Seq::empty()
    } else {
        let earlier = distinct_ids(ids.drop_last());
        let id = trimmed(ids.last());
        if id.len() == 0 || holds_id(earlier, id) {
            earlier
        } else {
            earlier.push(id)
        }
    }
}

/// `s` with its times brought into their ranges and its browser ids cleaned up.
pub open spec fn sanitized_settings(s: SettingsModel) -> SettingsModel {
    SettingsModel {
        poll_interval_secs: clamped(s.poll_interval_secs, 1, 60),
        start_confirm_secs: clamped(s.start_confirm_secs, 0, 120),
        stop_grace_secs: clamped(s.stop_grace_secs, 0, 600),
        meet_browser_bundle_ids: distinct_ids(s.meet_browser_bundle_ids),
        ..s
    }
}

/// The default browser bundle identifiers.
fn default_meet_browser_bundle_ids() -> (ids: Vec<String>)
    ensures
        ids.deep_view() == default_browser_ids(),
{
    let mut ids: Vec<String> = Vec::new();
    let mut i: usize = 0;
    while i < 8
        invariant
            i <= 8,
            ids.len() == i,
            forall|j: int| 0 <= j < i ==> (#[trigger] ids@[j])@ == default_browser_ids()[j],
        decreases 8 - i,
    {
        ids.push(DEFAULT_MEET_BROWSER_BUNDLE_IDS[i].to_owned());
        i += 1;
    }
    assert(ids.deep_view() =~= default_browser_ids());
    ids
}

/// A copy of `texts`.
pub(crate) fn clone_texts(texts: &Vec<String>) -> (r: Vec<String>)
    ensures
        r.deep_view() == texts.deep_view(),
{
    let mut r: Vec<String> = Vec::new();
    let mut i: usize = 0;
    while i < texts.len()
        invariant
            i <= texts.len(),
            r.len() == i,
            forall|j: int| 0 <= j < i ==> (#[trigger] r@[j])@ == texts@[j]@,
        decreases texts.len() - i,
    {
        r.push(texts[i].clone());
        i += 1;
    }
    assert(r.deep_view() =~= texts.deep_view());
    r
}

impl Default for MeetingDetectionSettings {
    fn default() -> (r: Self)
        ensures
            r.deep_view() == default_settings(),
    {
        MeetingDetectionSettings {
            enabled: false,
            auto_start_recording: true,
            auto_stop_recording: true,
            detect_teams: true,
            detect_google_meet: true,
            detect_zoom: true,
            notify_on_detection: true,
            poll_interval_secs: 3,
            start_confirm_secs: 5,
            stop_grace_secs: 45,
            meet_browser_bundle_ids: default_meet_browser_bundle_ids(),
        }
    }
}

impl Clone for MeetingDetectionSettings {
    fn clone(&self) -> (r: Self)
        ensures
            r.deep_view() == self.deep_view(),
    {
        MeetingDetectionSettings {
            enabled: self.enabled,
            auto_start_recording: self.auto_start_recording,
            auto_stop_recording: self.auto_stop_recording,
            detect_teams: self.detect_teams,
            detect_google_meet: self.detect_google_meet,
            detect_zoom: self.detect_zoom,
            notify_on_detection: self.notify_on_detection,
            poll_interval_secs: self.poll_interval_secs,
            start_confirm_secs: self.start_confirm_secs,
            stop_grace_secs: self.stop_grace_secs,
            meet_browser_bundle_ids: clone_texts(&self.meet_browser_bundle_ids),
        }
    }
}

/// `n` brought into `low..=high`.
fn clamp(n: u64, low: u64, high: u64) -> (r: u64)
    ensures
        r == clamped(n, low, high),
{
    if n < low {
        low
    } else if n > high {
        high
    } else {
        n
    }
}

/// Whether `ids` holds `id`, whatever the case of its ASCII letters.
fn contains_id(ids: &Vec<String>, id: &str) -> (r: bool)
    ensures
        r == holds_id(ids.deep_view(), id@),
{
    let mut i: usize = 0;
    while i < ids.len()
        invariant
            i <= ids.len(),
            forall|j: int| 0 <= j < i ==> lower(#[trigger] ids.deep_view()[j]) != lower(id@),
        decreases ids.len() - i,
    {
        if eq_ignore_ascii_case(ids[i].as_str(), id) {
            assert(lower(ids.deep_view()[i as int]) == lower(id@));
            return true;
        }
        i += 1;
    }
    false
}

/// The trimmed `ids` in order, without empty and without repeated ones.
fn clean_ids(ids: &Vec<String>) -> (r: Vec<String>)
    ensures
        r.deep_view() == distinct_ids(ids.deep_view()),
{
    let mut r: Vec<String> = Vec::new();
    let mut i: usize = 0;
    assert(r.deep_view() =~= distinct_ids(ids.deep_view().take(0)));
    while i < ids.len()
        invariant
            i <= ids.len(),
            r.deep_view() == distinct_ids(ids.deep_view().take(i as int)),
        decreases ids.len() - i,
    {
        let id: String = trim(ids[i].as_str());
        let ghost before = r.deep_view();
        assert(ids.deep_view().take(i + 1).drop_last() =~= ids.deep_view().take(i as int));
        if !id.as_str().is_empty() && !contains_id(&r, id.as_str()) {
            let ghost text = id@;
            r.push(id);
            assert(r.deep_view() =~= before.push(text));
        }
        i += 1;
    }
    assert(ids.deep_view().take(i as int) =~= ids.deep_view());
    r
}

/// What looking for stored settings came to.
pub enum StoredSettings {
    /// The app data directory could not be determined.
    NoPath,
    /// There is no settings file.
    Missing,
    /// The settings file could not be read.
    Unreadable,
    /// The settings file does not hold settings.
    Malformed,
    /// The settings file holds these settings.
    Parsed(MeetingDetectionSettings),
}

impl MeetingDetectionSettings {
    /// Clamps the times into a safe range and cleans up the browser ids.
    pub fn sanitized(self) -> (r: Self)
        ensures
            r.deep_view() == sanitized_settings(self.deep_view()),
    {
        let ids: Vec<String> = clean_ids(&self.meet_browser_bundle_ids);
        MeetingDetectionSettings {
            poll_interval_secs: clamp(self.poll_interval_secs, 1, 60),
            start_confirm_secs: clamp(self.start_confirm_secs, 0, 120),
            stop_grace_secs: clamp(self.stop_grace_secs, 0, 600),
            meet_browser_bundle_ids: ids,
            ..self
        }
    }

    /// The settings to start with: the stored ones, sanitized, or the defaults
    /// where none can be had.
    pub fn load(stored: StoredSettings) -> (r: Self)
        ensures
            r.deep_view() == (match stored {
                StoredSettings::Parsed(s) => sanitized_settings(s.deep_view()),
                _ => default_settings(),
            }),
    {
        match stored {
            StoredSettings::Parsed(settings) => settings.sanitized(),
            _ => MeetingDetectionSettings::default(),
        }
    }
}

/// Why settings could not be saved.
pub enum SaveFailure {
    /// The app data directory could not be determined.
    NoPath,
    /// The app data directory could not be created.
    Directory(String),
    /// The settings could not be turned into JSON.
    Serialize(String),
    /// The settings file could not be written.
    Write(String),
}

impl SaveFailure {
    /// The failure as the settings view shows it.
    pub fn message(&self) -> (r: String)
        ensures
            r@ == (match *self {
                SaveFailure::NoPath => "Could not determine settings path"@,
                SaveFailure::Directory(e) => "Failed to create settings directory: "@ + e@,
                SaveFailure::Serialize(e) => "Failed to serialize settings: "@ + e@,
                SaveFailure::Write(e) => "Failed to write settings: "@ + e@,
            }),
    {
        match self {
            SaveFailure::NoPath => "Could not determine settings path".to_owned(),
            SaveFailure::Directory(e) => join("Failed to create settings directory: ", e.as_str()),
            SaveFailure::Serialize(e) => join("Failed to serialize settings: ", e.as_str()),
            SaveFailure::Write(e) => join("Failed to write settings: ", e.as_str()),
        }
    }
}

} // verus!
