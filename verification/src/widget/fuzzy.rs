//! The match between an entry's text and the pattern typed into a filter.

use vstd::prelude::*;
use crate::text::{
    ascii_alphanumeric,
    eq_ignore_ascii_case,
    is_ascii_alphanumeric,
    same_ignoring_ascii_case,
    str_chars,
};

verus! {

/// The scan that decides a match, from text position `i` and pattern
/// position `j` on. `previous` is where the last pattern character was
/// found, and `in_run` says that it was alphanumeric and that only
/// alphanumeric characters have gone by since.
///
/// The text is read once, left to right. A text character is taken for the
/// pattern character that is waiting when the two are equal up to ASCII case
/// and, where the scan is still inside the alphanumeric run of the last
/// find, it stands directly behind that find. A character that is not
/// alphanumeric ends the run. The pattern matches when all of it was found.
pub open spec fn fuzzy_scan(
    text: Seq<char>,
    pattern: Seq<char>,
    i: int,
    j: int,
    previous: int,
    in_run: bool,
) -> bool
    decreases text.len() - i,
{
    if j < 0 || j >= pattern.len() {
        true
    } else if i < 0 || i >= text.len() {
        false
    } else {
        let c = text[i];
        if same_ignoring_ascii_case(c, pattern[j]) && (!ascii_alphanumeric(c) || !in_run || previous
            + 1 == i) {
            fuzzy_scan(text, pattern, i + 1, j + 1, i, ascii_alphanumeric(c))
        } else {
            fuzzy_scan(text, pattern, i + 1, j, previous, in_run && ascii_alphanumeric(c))
        }
    }
}

/// Whether `pattern` matches `text`: its characters occur in `text` in
/// order, ASCII case aside, and alphanumeric characters that follow each
/// other in the pattern are found next to each other unless a character
/// that is not alphanumeric lies between the finds.
pub open spec fn fuzzy_match(text: Seq<char>, pattern: Seq<char>) -> bool {
    fuzzy_scan(text, pattern, 0, 0, 0, false)
}

/// The empty pattern matches every text.
pub proof fn lemma_empty_pattern_matches(text: Seq<char>)
    ensures
        fuzzy_match(text, Seq::empty()),
{
}

/// Decides `fuzzy_match` on character vectors.
pub fn fuzzy_matches_chars(text: &Vec<char>, pattern: &Vec<char>) -> (r: bool)
    ensures
        r == fuzzy_match(text@, pattern@),
{
    if pattern.len() == 0 {
        return true;
    }
    let mut j: usize = 0;
    let mut previous: usize = 0;
    let mut in_run: bool = false;
    let mut i: usize = 0;
    while i < text.len()
        invariant
            i <= text.len(),
            j < pattern.len(),
            previous <= i,
            fuzzy_match(text@, pattern@) == fuzzy_scan(
                text@,
                pattern@,
                i as int,
                j as int,
                previous as int,
                in_run,
            ),
        decreases text.len() - i,
    {
        let c = text[i];
        let alphanumeric = is_ascii_alphanumeric(c);
        if eq_ignore_ascii_case(c, pattern[j]) && (!alphanumeric || !in_run || previous + 1 == i) {
            previous = i;
            in_run = alphanumeric;
            j += 1;
            if j == pattern.len() {
                assert(fuzzy_scan(text@, pattern@, i + 1, j as int, previous as int, in_run));
                return true;
            }
        } else {
            in_run = in_run && alphanumeric;
        }
        i += 1;
    }
    false
}

/// Whether `pattern` matches `text`.
pub fn fuzzy_matches(text: &str, pattern: &str) -> (r: bool)
    ensures
        r == fuzzy_match(text@, pattern@),
        pattern@.len() == 0 ==> r,
{
    let text_chars = str_chars(text);
    let pattern_chars = str_chars(pattern);
    fuzzy_matches_chars(&text_chars, &pattern_chars)
}

} // verus!
