//! What the commands of the webview come to.

use crate::commands::{shown_signals, signals_reply, with_all_apps};
use crate::settings::SettingsModel;
use crate::signals::{OutcomeModel, Signal};
use vstd::prelude::*;

verus! {

/// A one-shot probe looks for every app, and is else made with the settings in force.
pub proof fn one_shot_probes_look_for_every_app(s: SettingsModel)
    ensures
        ({
            let p = with_all_apps(s);
            &&& p.detect_teams && p.detect_zoom && p.detect_google_meet
            &&& p.meet_browser_bundle_ids == s.meet_browser_bundle_ids
            &&& p.enabled == s.enabled
            &&& p.auto_start_recording == s.auto_start_recording
            &&& p.auto_stop_recording == s.auto_stop_recording
            &&& p.notify_on_detection == s.notify_on_detection
            &&& p.poll_interval_secs == s.poll_interval_secs
            &&& p.start_confirm_secs == s.start_confirm_secs
            &&& p.stop_grace_secs == s.stop_grace_secs
        }),
{
}

/// A one-shot probe is answered with all that it found, and with an error if and only if
/// it could not be made or the platform failed. The error tells the cause.
pub proof fn one_shot_probes_hide_nothing(result: Result<OutcomeModel, Seq<char>>)
    ensures
        shown_signals(result) is Ok <==> result is Ok && result->Ok_0.error is None,
        shown_signals(result) is Ok ==> shown_signals(result)->Ok_0 == result->Ok_0.signals,
        result is Ok && result->Ok_0.error is Some ==> shown_signals(result)->Err_0
            == result->Ok_0.error->0,
        result is Err ==> {
            let e = shown_signals(result)->Err_0;
            let n = e.len() - result->Err_0.len();
            &&& n == 14
            &&& e.take(n) == seq!['p', 'r', 'o', 'b', 'e', ' ', 'f', 'a', 'i', 'l', 'e', 'd', ':', ' ']
            &&& e.skip(n) == result->Err_0
        },
{
    if result is Err {
        reveal_strlit("probe failed: ");
        let e = shown_signals(result)->Err_0;
        assert(e.take(14) =~= seq![
            'p', 'r', 'o', 'b', 'e', ' ', 'f', 'a', 'i', 'l', 'e', 'd', ':', ' ',
        ]);
        assert(e.skip(14) =~= result->Err_0);
    }
}

/// A reply shows its signals and its error as they are.
pub proof fn replies_show_what_they_hold(signals: Vec<Signal>, e: String)
    ensures
        signals_reply(Ok(signals)) is Ok,
        signals_reply(Ok(signals))->Ok_0.len() == signals@.len(),
        forall|i: int|
            0 <= i < signals@.len() ==> {
                let shown = #[trigger] signals_reply(Ok(signals))->Ok_0[i];
                &&& shown.app == signals@[i].app
                &&& shown.source == signals@[i].source
                &&& shown.detail == signals@[i].detail@
            },
        signals_reply(Err(e)) is Err,
        signals_reply(Err(e))->Err_0 == e@,
{
}

} // verus!
