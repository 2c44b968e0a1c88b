//! What sanitizing does to settings.

use crate::laws::text::{folded_texts_differ_in_case_only, same_letters};
use crate::settings::{
    default_browser_ids, default_settings, distinct_ids, holds_id, sanitized_settings,
    SettingsModel,
};
use crate::text::{lower, trim_end, trim_start, trimmed, white_space};
use vstd::prelude::*;

verus! {

/// `ids` are trimmed, not empty, and different even where case does not count.
pub open spec fn clean(ids: Seq<Seq<char>>) -> bool {
    &&& forall|i: int|
        0 <= i < ids.len() ==> trimmed(#[trigger] ids[i]) == ids[i] && ids[i].len() > 0
    &&& forall|i: int, j: int|
        0 <= i < j < ids.len() ==> lower(#[trigger] ids[i]) != lower(#[trigger] ids[j])
}

/// The times of `s` are in their ranges and its browser ids are clean.
pub open spec fn safe(s: SettingsModel) -> bool {
    &&& 1 <= s.poll_interval_secs <= 60
    &&& s.start_confirm_secs <= 120
    &&& s.stop_grace_secs <= 600
    &&& clean(s.meet_browser_bundle_ids)
}

proof fn lemma_trim_start(s: Seq<char>)
    ensures
        trim_start(s).len() <= s.len(),
        trim_start(s).len() > 0 ==> !white_space(trim_start(s)[0]),
    decreases s.len(),
{
    if s.len() > 0 && white_space(s[0]) {
        lemma_trim_start(s.drop_first());
    }
}

proof fn lemma_trim_end(s: Seq<char>)
    ensures
        trim_end(s).len() <= s.len(),
        trim_end(s).len() > 0 ==> trim_end(s)[0] == s[0] && !white_space(trim_end(s).last()),
    decreases s.len(),
{
    if s.len() > 0 && white_space(s.last()) {
        lemma_trim_end(s.drop_last());
    }
}

/// A text without white space at its ends is its own trimmed form.
proof fn lemma_trimmed_fixed(s: Seq<char>)
    requires
        s.len() > 0 ==> !white_space(s[0]) && !white_space(s.last()),
    ensures
        trimmed(s) == s,
{
}

/// Trimming leaves no white space at the ends, and trimming again changes nothing.
pub proof fn trimming_twice_is_trimming_once(s: Seq<char>)
    ensures
        trimmed(trimmed(s)) == trimmed(s),
        trimmed(s).len() > 0 ==> !white_space(trimmed(s)[0]) && !white_space(trimmed(s).last()),
{
    lemma_trim_start(s);
    lemma_trim_end(trim_start(s));
    lemma_trimmed_fixed(trimmed(s));
}

proof fn lemma_distinct_ids_clean(ids: Seq<Seq<char>>)
    ensures
        clean(distinct_ids(ids)),
    decreases ids.len(),
{
    if ids.len() > 0 {
        let earlier = distinct_ids(ids.drop_last());
        let id = trimmed(ids.last());
        lemma_distinct_ids_clean(ids.drop_last());
        trimming_twice_is_trimming_once(ids.last());
        let all = distinct_ids(ids);
        assert forall|i: int, j: int| 0 <= i < j < all.len() implies lower(#[trigger] all[i])
            != lower(#[trigger] all[j]) by {
            if j == earlier.len() {
                assert(!holds_id(earlier, id));
                assert(all[i] == earlier[i]);
            } else {
                assert(all[i] == earlier[i] && all[j] == earlier[j]);
            }
        }
        assert forall|i: int| 0 <= i < all.len() implies trimmed(#[trigger] all[i]) == all[i]
            && all[i].len() > 0 by {
            if i < earlier.len() {
                assert(all[i] == earlier[i]);
            }
        }
    }
}

proof fn lemma_distinct_ids_fixed(ids: Seq<Seq<char>>)
    requires
        clean(ids),
    ensures
        distinct_ids(ids) == ids,
    decreases ids.len(),
{
    if ids.len() > 0 {
        let before = ids.drop_last();
        assert forall|i: int| 0 <= i < before.len() implies trimmed(#[trigger] before[i])
            == before[i] && before[i].len() > 0 by {
            assert(before[i] == ids[i]);
        }
        assert forall|i: int, j: int| 0 <= i < j < before.len() implies lower(#[trigger] before[i])
            != lower(#[trigger] before[j]) by {
            assert(before[i] == ids[i] && before[j] == ids[j]);
        }
        lemma_distinct_ids_fixed(before);
        assert(ids[ids.len() - 1] == ids.last());
        assert(!holds_id(before, ids.last())) by {
            if holds_id(before, ids.last()) {
                let i = choose|i: int|
                    0 <= i < before.len() && lower(#[trigger] before[i]) == lower(ids.last());
                assert(lower(ids[i]) == lower(ids[ids.len() - 1]));
            }
        }
        assert(before.push(ids.last()) =~= ids);
    }
}

/// Sanitized settings are safe.
pub proof fn sanitized_settings_are_safe(s: SettingsModel)
    ensures
        safe(sanitized_settings(s)),
{
    lemma_distinct_ids_clean(s.meet_browser_bundle_ids);
}

/// Safe settings are left as they are.
pub proof fn safe_settings_stay(s: SettingsModel)
    requires
        safe(s),
    ensures
        sanitized_settings(s) == s,
{
    lemma_distinct_ids_fixed(s.meet_browser_bundle_ids);
}

/// Sanitizing twice is sanitizing once.
pub proof fn sanitizing_twice_is_sanitizing_once(s: SettingsModel)
    ensures
        sanitized_settings(sanitized_settings(s)) == sanitized_settings(s),
{
    sanitized_settings_are_safe(s);
    safe_settings_stay(sanitized_settings(s));
}

/// No browser is lost by sanitizing: each id that is not blank is still held,
/// in one spelling or another.
pub proof fn no_browser_is_lost(ids: Seq<Seq<char>>, i: int)
    requires
        0 <= i < ids.len(),
        trimmed(ids[i]).len() > 0,
    ensures
        holds_id(distinct_ids(ids), trimmed(ids[i])),
    decreases ids.len(),
{
    let before = ids.drop_last();
    let earlier = distinct_ids(before);
    let all = distinct_ids(ids);
    if i < ids.len() - 1 {
        no_browser_is_lost(before, i);
        assert(before[i] == ids[i]);
        let k = choose|k: int|
            0 <= k < earlier.len() && lower(#[trigger] earlier[k]) == lower(trimmed(ids[i]));
        assert(all[k] == earlier[k]);
    } else if !holds_id(earlier, trimmed(ids[i])) {
        assert(all[earlier.len() as int] == trimmed(ids[i]));
    }
}

/// No browser is made up by sanitizing, and of several spellings the first is
/// kept: each id that is left is the trimmed form of one that nothing equal to
/// it, but for case, stands before.
pub proof fn the_first_spelling_is_kept(ids: Seq<Seq<char>>, k: int)
    requires
        0 <= k < distinct_ids(ids).len(),
    ensures
        exists|i: int|
            0 <= i < ids.len() && distinct_ids(ids)[k] == trimmed(#[trigger] ids[i]) && (forall|
                j: int,
            |
                0 <= j < i ==> lower(trimmed(#[trigger] ids[j])) != lower(trimmed(ids[i]))),
    decreases ids.len(),
{
    let before = ids.drop_last();
    let earlier = distinct_ids(before);
    if k < earlier.len() {
        the_first_spelling_is_kept(before, k);
        let i = choose|i: int|
            0 <= i < before.len() && earlier[k] == trimmed(#[trigger] before[i]) && (forall|j: int|
                0 <= j < i ==> lower(trimmed(#[trigger] before[j])) != lower(trimmed(before[i])));
        assert(ids[i] == before[i]);
        assert(distinct_ids(ids)[k] == earlier[k]);
        assert forall|j: int| 0 <= j < i implies lower(trimmed(#[trigger] ids[j])) != lower(
            trimmed(ids[i]),
        ) by {
            assert(before[j] == ids[j]);
        }
    } else {
        let i = ids.len() - 1;
        let id = trimmed(ids[i]);
        assert(distinct_ids(ids)[k] == id);
        assert forall|j: int| 0 <= j < i implies lower(trimmed(#[trigger] ids[j])) != lower(id) by {
            if lower(trimmed(ids[j])) == lower(id) {
                assert(before[j] == ids[j]);
                assert(lower(id).len() == id.len());
                assert(lower(trimmed(ids[j])).len() == trimmed(ids[j]).len());
                no_browser_is_lost(before, j);
                let n = choose|n: int|
                    0 <= n < earlier.len() && lower(#[trigger] earlier[n]) == lower(
                        trimmed(before[j]),
                    );
                assert(holds_id(earlier, id));
            }
        }
    }
}

/// The defaults are safe, so that sanitizing leaves them as they are.
pub proof fn defaults_are_safe()
    ensures
        safe(default_settings()),
        sanitized_settings(default_settings()) == default_settings(),
{
    reveal_strlit("com.google.Chrome");
    reveal_strlit("com.google.Chrome.beta");
    reveal_strlit("com.google.Chrome.canary");
    reveal_strlit("com.microsoft.edgemac");
    reveal_strlit("com.brave.Browser");
    reveal_strlit("company.thebrowser.Browser");
    reveal_strlit("org.chromium.Chromium");
    reveal_strlit("org.mozilla.firefox");
    let ids = default_browser_ids();
    assert forall|i: int| 0 <= i < ids.len() implies trimmed(#[trigger] ids[i]) == ids[i]
        && ids[i].len() > 0 by {
        lemma_trimmed_fixed(ids[i]);
    }
    assert forall|i: int, j: int| 0 <= i < j < ids.len() implies lower(#[trigger] ids[i]) != lower(
        #[trigger] ids[j],
    ) by {
        assert(lower(ids[i]).len() == ids[i].len());
        assert(lower(ids[j]).len() == ids[j].len());
        if i == 0 && j == 4 {
            assert(lower(ids[i])[4] != lower(ids[j])[4]);
        }
        if i == 3 && j == 6 {
            assert(lower(ids[i])[0] != lower(ids[j])[0]);
        }
    }
    safe_settings_stay(default_settings());
}

/// `r` is `n` where that lies between `low` and `high`, and else the nearer of the two.
pub open spec fn brought_into(r: u64, n: u64, low: int, high: int) -> bool {
    &&& n <= low ==> r == low
    &&& low <= n <= high ==> r == n
    &&& n >= high ==> r == high
}

/// Sanitizing brings each time to the nearest one in its range: 1 to 60 seconds between
/// probes, up to 120 to confirm and up to 600 of grace. Every switch stays as it is.
pub proof fn times_go_to_the_nearest_bound(s: SettingsModel)
    ensures
        ({
            let r = sanitized_settings(s);
            &&& brought_into(r.poll_interval_secs, s.poll_interval_secs, 1, 60)
            &&& brought_into(r.start_confirm_secs, s.start_confirm_secs, 0, 120)
            &&& brought_into(r.stop_grace_secs, s.stop_grace_secs, 0, 600)
            &&& r.enabled == s.enabled
            &&& r.auto_start_recording == s.auto_start_recording
            &&& r.auto_stop_recording == s.auto_stop_recording
            &&& r.detect_teams == s.detect_teams
            &&& r.detect_google_meet == s.detect_google_meet
            &&& r.detect_zoom == s.detect_zoom
            &&& r.notify_on_detection == s.notify_on_detection
            &&& r.meet_browser_bundle_ids == distinct_ids(s.meet_browser_bundle_ids)
        }),
{
}

/// `id` is the trimmed form of the one at position `i` of `ids`, it is not empty, and
/// none before it is the same but for the case of the letters A to Z.
pub open spec fn first_spelling(ids: Seq<Seq<char>>, i: int, id: Seq<char>) -> bool {
    &&& 0 <= i < ids.len()
    &&& id == trimmed(ids[i])
    &&& id.len() > 0
    &&& forall|j: int| 0 <= j < i ==> !same_letters(trimmed(#[trigger] ids[j]), id)
}

proof fn lemma_kept_is_first(ids: Seq<Seq<char>>, k: int) -> (i: int)
    requires
        0 <= k < distinct_ids(ids).len(),
    ensures
        first_spelling(ids, i, distinct_ids(ids)[k]),
{
    the_first_spelling_is_kept(ids, k);
    lemma_distinct_ids_clean(ids);
    let id = distinct_ids(ids)[k];
    let i = choose|i: int|
        0 <= i < ids.len() && id == trimmed(#[trigger] ids[i]) && (forall|j: int|
            0 <= j < i ==> lower(trimmed(#[trigger] ids[j])) != lower(trimmed(ids[i])));
    assert forall|j: int| 0 <= j < i implies !same_letters(trimmed(#[trigger] ids[j]), id) by {
        folded_texts_differ_in_case_only(trimmed(ids[j]), id);
    }
    i
}

/// Of the browser ids, exactly the first spelling of each one is kept, trimmed: each that
/// is kept is one, and each one is kept.
pub proof fn exactly_the_first_spellings_are_kept(ids: Seq<Seq<char>>, id: Seq<char>)
    ensures
        distinct_ids(ids).contains(id) <==> exists|i: int| #[trigger] first_spelling(ids, i, id),
{
    let all = distinct_ids(ids);
    if all.contains(id) {
        let k = choose|k: int| 0 <= k < all.len() && all[k] == id;
        let i = lemma_kept_is_first(ids, k);
        assert(first_spelling(ids, i, id));
    }
    if exists|i: int| #[trigger] first_spelling(ids, i, id) {
        let i = choose|i: int| #[trigger] first_spelling(ids, i, id);
        no_browser_is_lost(ids, i);
        let k = choose|k: int| 0 <= k < all.len() && lower(#[trigger] all[k]) == lower(id);
        let n = lemma_kept_is_first(ids, k);
        folded_texts_differ_in_case_only(all[k], id);
        folded_texts_differ_in_case_only(id, all[k]);
        if n < i {
            assert(same_letters(trimmed(ids[n]), id));
        }
        if i < n {
            assert(same_letters(trimmed(ids[i]), all[k]));
        }
        assert(all[k] == id);
    }
}

/// The browser ids that are kept keep their order.
pub proof fn the_order_of_browsers_is_kept(ids: Seq<Seq<char>>, k: int, l: int)
    requires
        0 <= k < l < distinct_ids(ids).len(),
    ensures
        exists|i: int, j: int|
            i < j && #[trigger] first_spelling(ids, i, distinct_ids(ids)[k])
                && #[trigger] first_spelling(ids, j, distinct_ids(ids)[l]),
    decreases ids.len(),
{
    let all = distinct_ids(ids);
    let before = ids.drop_last();
    let earlier = distinct_ids(before);
    let i = lemma_kept_is_first(ids, k);
    let j = lemma_kept_is_first(ids, l);
    if l < earlier.len() {
        the_order_of_browsers_is_kept(before, k, l);
        let (a, b) = choose|a: int, b: int|
            a < b && #[trigger] first_spelling(before, a, earlier[k])
                && #[trigger] first_spelling(before, b, earlier[l]);
        assert(all[k] == earlier[k] && all[l] == earlier[l]);
        lemma_first_among_more(ids, a, all[k]);
        lemma_first_among_more(ids, b, all[l]);
    } else {
        assert(all[k] == earlier[k]);
        let a = lemma_kept_is_first(before, k);
        lemma_first_among_more(ids, a, all[k]);
        if j < before.len() {
            assert(before[j] == ids[j]);
            no_browser_is_lost(before, j);
            assert(holds_id(earlier, all[l]));
        }
    }
}

proof fn lemma_first_among_more(ids: Seq<Seq<char>>, i: int, id: Seq<char>)
    requires
        ids.len() > 0,
        first_spelling(ids.drop_last(), i, id),
    ensures
        first_spelling(ids, i, id),
{
    let before = ids.drop_last();
    assert(before[i] == ids[i]);
    assert forall|j: int| 0 <= j < i implies !same_letters(trimmed(#[trigger] ids[j]), id) by {
        assert(before[j] == ids[j]);
    }
}

/// By default the detector is off, and once it is on it does all it can: every app,
/// recordings started and stopped, notifications. It looks every 3 seconds, confirms
/// after 5 and gives 45 of grace.
pub proof fn the_detector_is_opt_in()
    ensures
        ({
            let d = default_settings();
            &&& !d.enabled
            &&& d.auto_start_recording && d.auto_stop_recording && d.notify_on_detection
            &&& d.detect_teams && d.detect_google_meet && d.detect_zoom
            &&& d.poll_interval_secs == 3
            &&& d.start_confirm_secs == 5
            &&& d.stop_grace_secs == 45
        }),
{
}

} // verus!
