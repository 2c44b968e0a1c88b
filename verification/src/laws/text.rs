//! What the text operations tell apart.

use crate::text::{
    ascii_lower, has_substring, lower, occurs_at, trim_end, trim_start, trimmed, white_space,
};
use vstd::prelude::*;

verus! {

/// `a` and `b` are the same character, or a capital letter of A to Z and its small
/// letter.
pub open spec fn same_letter(a: char, b: char) -> bool {
    ||| a == b
    ||| 65 <= a as u32 <= 90 && b as u32 == a as u32 + 32
    ||| 65 <= b as u32 <= 90 && a as u32 == b as u32 + 32
}

/// `a` and `b` are equal but for the case of the letters A to Z.
pub open spec fn same_letters(a: Seq<char>, b: Seq<char>) -> bool {
    &&& a.len() == b.len()
    &&& forall|i: int| 0 <= i < a.len() ==> same_letter(#[trigger] a[i], b[i])
}

/// Case folding makes the capital letters A to Z small and changes nothing else.
pub proof fn folding_is_of_ascii_letters(a: char, b: char)
    ensures
        same_letter(ascii_lower(a), a),
        !(65 <= ascii_lower(a) as u32 <= 90),
        ascii_lower(a) == ascii_lower(b) <==> same_letter(a, b),
{
}

/// Two texts are equal in small letters if and only if they differ in the case of the
/// letters A to Z at most.
pub proof fn folded_texts_differ_in_case_only(a: Seq<char>, b: Seq<char>)
    ensures
        lower(a) == lower(b) <==> same_letters(a, b),
        same_letters(lower(a), a),
        lower(lower(a)) == lower(a),
{
    assert(lower(a).len() == a.len() && lower(b).len() == b.len());
    assert forall|i: int| 0 <= i < a.len() implies same_letter(#[trigger] lower(a)[i], a[i])
        && lower(lower(a))[i] == lower(a)[i] by {
        folding_is_of_ascii_letters(a[i], lower(a)[i]);
    }
    assert(lower(lower(a)) =~= lower(a));
    if same_letters(a, b) {
        assert forall|i: int| 0 <= i < a.len() implies #[trigger] lower(a)[i] == lower(b)[i] by {
            folding_is_of_ascii_letters(a[i], b[i]);
        }
        assert(lower(a) =~= lower(b));
    }
    if lower(a) == lower(b) {
        assert(a.len() == b.len());
        assert forall|i: int| 0 <= i < a.len() implies same_letter(#[trigger] a[i], b[i]) by {
            assert(lower(a)[i] == lower(b)[i]);
            folding_is_of_ascii_letters(a[i], b[i]);
        }
    }
}

/// A text holds another if and only if, from some position on, its characters are those
/// of the other.
pub proof fn substrings_are_found_anywhere(s: Seq<char>, needle: Seq<char>)
    ensures
        has_substring(s, needle) <==> exists|i: int|
            0 <= i <= s.len() - needle.len() && #[trigger] s.skip(i).take(needle.len() as int)
                == needle,
{
    if has_substring(s, needle) {
        let i = choose|i: int| #[trigger] occurs_at(s, needle, i);
        assert(s.skip(i).take(needle.len() as int) =~= s.subrange(i, i + needle.len()));
    }
    if exists|i: int|
        0 <= i <= s.len() - needle.len() && #[trigger] s.skip(i).take(needle.len() as int)
            == needle {
        let i = choose|i: int|
            0 <= i <= s.len() - needle.len() && #[trigger] s.skip(i).take(needle.len() as int)
                == needle;
        assert(s.skip(i).take(needle.len() as int) =~= s.subrange(i, i + needle.len()));
        assert(occurs_at(s, needle, i));
    }
}

/// White space is: tab to carriage return, space, next line, no-break space, ogham
/// space, en quad to hair space, line and paragraph separator, narrow no-break space,
/// medium mathematical space and ideographic space. No letter, digit or sign is.
pub proof fn white_space_is_known(c: char)
    ensures
        white_space(c) <==> {
            let n = c as u32;
            ||| n == 9 || n == 10 || n == 11 || n == 12 || n == 13
            ||| n == 32 || n == 133 || n == 160 || n == 5760
            ||| 8192 <= n <= 8202
            ||| n == 8232 || n == 8233 || n == 8239 || n == 8287 || n == 12288
        },
        33 <= c as u32 <= 126 ==> !white_space(c),
{
}

/// `t` is what is left of `s` without `from` characters in front and without those
/// from `to` on.
pub open spec fn cut(s: Seq<char>, from: int, to: int, t: Seq<char>) -> bool {
    &&& 0 <= from <= to <= s.len()
    &&& t == s.subrange(from, to)
    &&& forall|i: int| 0 <= i < from ==> white_space(#[trigger] s[i])
    &&& forall|i: int| to <= i < s.len() ==> white_space(#[trigger] s[i])
}

proof fn lemma_cut_in_front(s: Seq<char>) -> (from: int)
    ensures
        0 <= from <= s.len(),
        trim_start(s) == s.skip(from),
        forall|i: int| 0 <= i < from ==> white_space(#[trigger] s[i]),
        from < s.len() ==> !white_space(s[from]),
    decreases s.len(),
{
    if s.len() > 0 && white_space(s[0]) {
        let rest = s.drop_first();
        let n = lemma_cut_in_front(rest);
        assert(rest.skip(n) =~= s.skip(n + 1));
        assert forall|i: int| 0 <= i < n + 1 implies white_space(#[trigger] s[i]) by {
            if i > 0 {
                assert(rest[i - 1] == s[i]);
            }
        }
        n + 1
    } else {
        assert(s.skip(0) =~= s);
        0
    }
}

proof fn lemma_cut_behind(s: Seq<char>) -> (to: int)
    ensures
        0 <= to <= s.len(),
        trim_end(s) == s.take(to),
        forall|i: int| to <= i < s.len() ==> white_space(#[trigger] s[i]),
        to > 0 ==> !white_space(s[to - 1]),
    decreases s.len(),
{
    if s.len() > 0 && white_space(s.last()) {
        let rest = s.drop_last();
        let n = lemma_cut_behind(rest);
        assert(rest.take(n) =~= s.take(n));
        assert forall|i: int| n <= i < s.len() implies white_space(#[trigger] s[i]) by {
            if i < rest.len() {
                assert(rest[i] == s[i]);
            }
        }
        n
    } else {
        assert(s.take(s.len() as int) =~= s);
        s.len() as int
    }
}

/// Trimming takes white space from both ends of a text, all of it and nothing else.
pub proof fn trimming_takes_the_white_space_at_the_ends(s: Seq<char>)
    ensures
        exists|from: int, to: int| #[trigger] cut(s, from, to, trimmed(s)),
        trimmed(s).len() > 0 ==> !white_space(trimmed(s)[0]) && !white_space(trimmed(s).last()),
{
    let from = lemma_cut_in_front(s);
    let rest = s.skip(from);
    let n = lemma_cut_behind(rest);
    assert(rest.take(n) =~= s.subrange(from, from + n));
    assert forall|i: int| from + n <= i < s.len() implies white_space(#[trigger] s[i]) by {
        assert(rest[i - from] == s[i]);
    }
    assert(cut(s, from, from + n, trimmed(s)));
}

} // verus!
