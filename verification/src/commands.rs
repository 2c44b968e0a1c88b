//! What the commands of the webview decide.

use crate::monitor::probe_reply;
use crate::settings::{sanitized_settings, MeetingDetectionSettings, SettingsModel};
use crate::signals::{OutcomeModel, ProbeOutcome, Signal, SignalModel};
use crate::text::join;
use vstd::prelude::*;

verus! {

/// `s` with every app asked for.
pub open spec fn with_all_apps(s: SettingsModel) -> SettingsModel {
    SettingsModel { detect_teams: true, detect_google_meet: true, detect_zoom: true, ..s }
}

/// The signals that a probe found, or why there are none to show.
pub open spec fn shown_signals(result: Result<OutcomeModel, Seq<char>>) -> Result<
    Seq<SignalModel>,
    Seq<char>,
> {
    match result {
        Err(e) => Err("probe failed: "@ + e),
        Ok(outcome) => match outcome.error {
            Some(e) => Err(e),
            None => Ok(outcome.signals),
        },
    }
}

/// `r` with its texts as character sequences.
pub open spec fn signals_reply(r: Result<Vec<Signal>, String>) -> Result<
    Seq<SignalModel>,
    Seq<char>,
> {
    match r {
        Ok(signals) => Ok(signals.deep_view()),
        Err(e) => Err(e@),
    }
}

/// Puts `settings`, sanitized, in force once they have been saved, and returns them.
/// Where they could not be saved, the `current` ones stay in force.
pub fn set_settings(
    current: &mut MeetingDetectionSettings,
    settings: MeetingDetectionSettings,
    saved: Result<(), String>,
) -> (r: Result<MeetingDetectionSettings, String>)
    ensures
        match saved {
            Ok(_) => {
                &&& r is Ok
                &&& r->Ok_0.deep_view() == sanitized_settings(settings.deep_view())
                &&& final(current).deep_view() == sanitized_settings(settings.deep_view())
            },
            Err(e) => {
                &&& r is Err
                &&& r->Err_0@ == e@
                &&& *final(current) == *old(current)
            },
        },
{
    match saved {
        Ok(_) => {
            let settings: MeetingDetectionSettings = settings.sanitized();
            *current = settings.clone();
            Ok(settings)
        },
        Err(e) => Err(e),
    }
}

/// The settings of a one-shot probe that ignores the per-app toggles.
pub fn probe_settings(settings: &MeetingDetectionSettings) -> (r: MeetingDetectionSettings)
    ensures
        r.deep_view() == with_all_apps(settings.deep_view()),
{
    let mut r: MeetingDetectionSettings = settings.clone();
    r.detect_teams = true;
    r.detect_google_meet = true;
    r.detect_zoom = true;
    r
}

/// The reply to a one-shot probe. A platform failure is returned as `Err`.
pub fn probe_signals(result: Result<ProbeOutcome, String>) -> (r: Result<Vec<Signal>, String>)
    ensures
        signals_reply(r) == shown_signals(probe_reply(result)),
{
    match result {
        Err(e) => Err(join("probe failed: ", e.as_str())),
        Ok(outcome) => match outcome.error {
            Some(e) => Err(e),
            None => Ok(outcome.signals),
        },
    }
}

} // verus!
