use vstd::prelude::*;
use crate::distance::{edit_distance, lemma_distance_self, levenshtein};

verus! {

/// A reference text is recognised when the distance to it stays below this bound.
pub const MAX_DIST: usize = 20;

/// Identifier returned when no reference text is close enough.
pub const UNKNOWN_LICENSE: &'static str = "Unknown";

pub const GPL_V_3_ID: &'static str = "GPL-3.0-only";

pub const GPL_V_2_OR_LATER_ID: &'static str = "GPL-2.0-or-later";

pub const GPL_V_3_SNIPPET: &'static str = "GNU GENERAL PUBLIC LICENSE
                       Version 3, 29 June 2007

 Copyright (C) 2007 Free Software Foundation, Inc. <http://fsf.org/>
 Everyone is permitted to copy and distribute verbatim copies
 of this license document, but changing it is not allowed.

                            Preamble

  The GNU General Public License is a free, copyleft license for
software and other kinds of works.";

pub const GPL_V_2_OR_LATER_SNIPPET: &'static str = "This program is free software; you can redistribute it and/or
modify it under the terms of the GNU General Public License as
published by the Free Software Foundation; either version 2 of the
License, or (at your option) any later version.";

/// The reference texts with their identifiers, in the order that settles ties.
pub open spec fn registry() -> Seq<(Seq<char>, Seq<char>)> {
    seq![(GPL_V_3_ID@, GPL_V_3_SNIPPET@), (GPL_V_2_OR_LATER_ID@, GPL_V_2_OR_LATER_SNIPPET@)]
}

/// Distance between `snippet` and the prefix of `text` with as many characters,
/// or `None` when `text` is shorter than `snippet`.
pub open spec fn prefix_distance(text: Seq<char>, snippet: Seq<char>) -> Option<nat> {
    if snippet.len() <= text.len() {
        Some(levenshtein(text.take(snippet.len() as int), snippet))
    } else {
        None
    }
}

/// The closest of the first `n` reference texts whose distance is below `MAX_DIST`,
/// as (index, distance); on equal distances the earlier entry is kept.
pub open spec fn best_match(text: Seq<char>, n: nat) -> Option<(int, nat)>
    decreases n,
{
    if n == 0 || n > registry().len() {
        None
    } else {
        let prev = best_match(text, (n - 1) as nat);
        match prefix_distance(text, registry()[n - 1].1) {
            Some(d) => if d < MAX_DIST && (prev is None || d < (prev->0).1) {
                Some(((n - 1) as int, d))
            } else {
                prev
            },
            None => prev,
        }
    }
}

/// The license identifier recognised in `text`, or `Unknown`.
pub open spec fn license_of(text: Seq<char>) -> Seq<char> {
    match best_match(text, registry().len()) {
        Some((i, _)) => registry()[i].0,
        None => UNKNOWN_LICENSE@,
    }
}

fn license_registry() -> (r: Vec<(&'static str, &'static str)>)
    ensures
        r@.len() == registry().len(),
        forall|i: int| 0 <= i < r@.len() ==> (#[trigger] r@[i].0@, r@[i].1@) == registry()[i],
{
    let r = vec![(GPL_V_3_ID, GPL_V_3_SNIPPET), (GPL_V_2_OR_LATER_ID, GPL_V_2_OR_LATER_SNIPPET)];
    assert(forall|i: int| 0 <= i < r@.len() ==> (#[trigger] r@[i].0@, r@[i].1@) == registry()[i]) by {
        assert(r@[0] == (GPL_V_3_ID, GPL_V_3_SNIPPET));
        assert(r@[1] == (GPL_V_2_OR_LATER_ID, GPL_V_2_OR_LATER_SNIPPET));
    }
    r
}

/// Identifies the license whose reference text is closest to the start of
/// `text`: each reference text is compared with the prefix of `text` of the
/// same number of characters; the smallest distance below `MAX_DIST` wins,
/// the earlier reference text on a tie, and `Unknown` when none is close.
pub fn classify_license(text: &str) -> (r: String)
    ensures
        r@ == license_of(text@),
{
    let reg = license_registry();
    let text_len = text.unicode_len();
    let mut best: Option<(usize, usize)> = None;
    let mut i: usize = 0;
    while i < reg.len()
        invariant
            0 <= i <= reg@.len(),
            reg@.len() == registry().len(),
            forall|k: int| 0 <= k < reg@.len() ==> (#[trigger] reg@[k].0@, reg@[k].1@) == registry()[k],
            text_len == text@.len(),
            match best {
                None => best_match(text@, i as nat) is None,
                Some((k, d)) => best_match(text@, i as nat) == Some((k as int, d as nat)) && k < i,
            },
        decreases reg@.len() - i,
    {
        let (_, snippet) = reg[i];
        assert(snippet@ == registry()[i as int].1) by {
            assert((reg@[i as int].0@, reg@[i as int].1@) == registry()[i as int]);
        }
        let n = snippet.unicode_len();
        if n <= text_len {
            let prefix = text.substring_char(0, n);
            let d = edit_distance(prefix, snippet);
            let closer = match best {
                None => true,
                Some((_, bd)) => d < bd,
            };
            if d < MAX_DIST && closer {
                best = Some((i, d));
            }
        }
        i += 1;
    }
    match best {
        Some((k, _)) => {
            assert((reg@[k as int].0@, reg@[k as int].1@) == registry()[k as int]);
            reg[k].0.to_owned()
        },
        None => UNKNOWN_LICENSE.to_owned(),
    }
}

/// What `str::trim` leaves of `s`.
pub uninterp spec fn trimmed_of(s: Seq<char>) -> Seq<char>;

/// Relies on str::trim: it removes leading and trailing whitespace, so what it
/// returns is never longer than its input.
#[verifier::external_body]
fn trim_text(s: &str) -> (r: &str)
    ensures
        r@ == trimmed_of(s@),
        r@.len() <= s@.len(),
{
    s.trim()
}

/// Identifies the license of a license file's text: surrounding whitespace is
/// dropped, then the text is classified as by `classify_license`.
pub fn guess_license_str(input: &str) -> (r: String)
    ensures
        r@ == license_of(trimmed_of(input@)),
        (forall|i: int| 0 <= i < registry().len() ==> input@.len() < (#[trigger] registry()[i]).1.len())
            ==> r@ == UNKNOWN_LICENSE@,
{
    let text = trim_text(input);
    proof {
        if forall|i: int| 0 <= i < registry().len() ==> input@.len() < (#[trigger] registry()[i]).1.len() {
            lemma_short_text_is_unknown(text@);
        }
    }
    classify_license(text)
}

/// A text shorter than every reference text is never recognised.
pub proof fn lemma_short_text_is_unknown(text: Seq<char>)
    requires
        forall|i: int| 0 <= i < registry().len() ==> text.len() < (#[trigger] registry()[i]).1.len(),
    ensures
        license_of(text) == UNKNOWN_LICENSE@,
{
    assert(registry().len() == 2);
    assert(best_match(text, 0) is None);
    assert(text.len() < registry()[0].1.len());
    assert(text.len() < registry()[1].1.len());
    assert(best_match(text, 1) is None);
    assert(best_match(text, 2) is None);
}

/// Each reference text is recognised as its own license; for the later entry
/// this rests on it being shorter than the earlier one.
pub proof fn lemma_reference_text_recognised()
    ensures
        license_of(GPL_V_3_SNIPPET@) == GPL_V_3_ID@,
        GPL_V_2_OR_LATER_SNIPPET@.len() < GPL_V_3_SNIPPET@.len() ==> license_of(
            GPL_V_2_OR_LATER_SNIPPET@,
        ) == GPL_V_2_OR_LATER_ID@,
{
    let g3 = GPL_V_3_SNIPPET@;
    let g2 = GPL_V_2_OR_LATER_SNIPPET@;
    assert(g3.take(g3.len() as int) =~= g3);
    assert(g2.take(g2.len() as int) =~= g2);
    lemma_distance_self(g3);
    lemma_distance_self(g2);
    assert(registry().len() == 2);
    assert(registry()[0] == (GPL_V_3_ID@, g3));
    assert(registry()[1] == (GPL_V_2_OR_LATER_ID@, g2));
    assert(best_match(g3, 0) is None);
    assert(best_match(g2, 0) is None);
    assert(best_match(g3, 1) == Some((0int, 0nat)));
    assert(best_match(g3, 2) == Some((0int, 0nat)));
    if g2.len() < g3.len() {
        assert(best_match(g2, 1) is None);
        assert(best_match(g2, 2) == Some((1int, 0nat)));
    }
}

} // verus!
