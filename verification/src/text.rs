//! Text as sequences of characters: conversion between strings and character
//! vectors, character classes, lines, fields, trimming and decimal numbers.

use vstd::prelude::*;
use vstd::std_specs::iter::IteratorSpec;

verus! {

/// Calls `String::push`, which appends the given character to the end of the
/// string and leaves what was there before in place.
#[verifier::external_body]
pub(crate) fn push_char(s: &mut String, ch: char)
    ensures
        final(s)@ == old(s)@.push(ch),
{
    s.push(ch)
}

/// Whether a character is alphabetic or numeric by the Unicode tables that
/// `char::is_alphanumeric` consults.
pub uninterp spec fn unicode_alphanumeric(c: char) -> bool;

/// `char::is_alphanumeric` depends on the character alone; its answer is
/// given the name `unicode_alphanumeric`.
pub assume_specification[ char::is_alphanumeric ](c: char) -> (r: bool)
    ensures
        r == unicode_alphanumeric(c),
;

/// Whether a character has the Unicode property White_Space, which is what
/// `char::is_whitespace` reports.
pub uninterp spec fn unicode_whitespace(c: char) -> bool;

/// `char::is_whitespace` depends on the character alone; its answer is given
/// the name `unicode_whitespace`.
pub assume_specification[ char::is_whitespace ](c: char) -> (r: bool)
    ensures
        r == unicode_whitespace(c),
;

/// ASCII letters and digits.
pub open spec fn ascii_alphanumeric(c: char) -> bool {
    ('0' <= c && c <= '9') || ('a' <= c && c <= 'z') || ('A' <= c && c <= 'Z')
}

/// ASCII decimal digits.
pub open spec fn ascii_digit(c: char) -> bool {
    '0' <= c && c <= '9'
}

/// Space, tab, line feed, form feed and carriage return.
pub open spec fn ascii_whitespace(c: char) -> bool {
    c == ' ' || c == '\t' || c == '\n' || c == '\x0C' || c == '\r'
}

/// The lower-case form of an ASCII upper-case letter; any other character
/// is left as it is.
pub open spec fn ascii_lowercase(c: char) -> char {
    if 'A' <= c && c <= 'Z' {
        ((c as u8) + 32) as char
    } else {
        c
    }
}

/// Equality of two characters up to the case of ASCII letters.
pub open spec fn same_ignoring_ascii_case(a: char, b: char) -> bool {
    ascii_lowercase(a) == ascii_lowercase(b)
}

/// Whether a character is an ASCII letter or digit.
pub fn is_ascii_alphanumeric(c: char) -> (r: bool)
    ensures
        r == ascii_alphanumeric(c),
{
    ('0' <= c && c <= '9') || ('a' <= c && c <= 'z') || ('A' <= c && c <= 'Z')
}

/// Whether a character is an ASCII decimal digit.
pub fn is_ascii_digit(c: char) -> (r: bool)
    ensures
        r == ascii_digit(c),
{
    '0' <= c && c <= '9'
}

/// Whether a character is ASCII whitespace.
pub fn is_ascii_whitespace(c: char) -> (r: bool)
    ensures
        r == ascii_whitespace(c),
{
    c == ' ' || c == '\t' || c == '\n' || c == '\x0C' || c == '\r'
}

/// The character with an ASCII upper-case letter made lower case.
pub fn to_ascii_lowercase(c: char) -> (r: char)
    ensures
        r == ascii_lowercase(c),
{
    if 'A' <= c && c <= 'Z' {
        ((c as u8) + 32) as char
    } else {
        c
    }
}

/// Whether two characters are equal up to the case of ASCII letters.
pub fn eq_ignore_ascii_case(a: char, b: char) -> (r: bool)
    ensures
        r == same_ignoring_ascii_case(a, b),
{
    to_ascii_lowercase(a) == to_ascii_lowercase(b)
}

/// The characters of a string, in order.
pub fn str_chars(s: &str) -> (v: Vec<char>)
    ensures
        v@ == s@,
{
    broadcast use vstd::string::group_string_axioms;

    let mut it = s.chars();
    let mut v: Vec<char> = Vec::new();
    loop
        invariant
            it.obeys_prophetic_iter_laws(),
            it.decrease() is Some,
            v@ + it.remaining() == s@,
        ensures
            v@ == s@,
        decreases it.decrease()->0,
    {
        match it.next() {
            Some(c) => {
                v.push(c);
            },
            None => {
                assert(v@ =~= s@);
                break;
            },
        }
    }
    v
}

/// The string made of the characters `v[from..to]`.
pub fn substring(v: &Vec<char>, from: usize, to: usize) -> (s: String)
    requires
        from <= to <= v.len(),
    ensures
        s@ == v@.subrange(from as int, to as int),
{
    let mut s = String::new();
    let mut i: usize = from;
    while i < to
        invariant
            from <= i <= to <= v.len(),
            s@ == v@.subrange(from as int, i as int),
        decreases to - i,
    {
        push_char(&mut s, v[i]);
        i += 1;
    }
    s
}

/// The string made of all the characters of `v`.
pub fn chars_to_string(v: &Vec<char>) -> (s: String)
    ensures
        s@ == v@,
{
    let s = substring(v, 0, v.len());
    assert(v@.subrange(0, v.len() as int) =~= v@);
    s
}

/// What a vector of character vectors holds, each as a sequence.
pub open spec fn rows(v: Seq<Vec<char>>) -> Seq<Seq<char>> {
    Seq::new(v.len(), |i: int| v[i]@)
}

/// What a vector of strings holds, each as a sequence of characters.
pub open spec fn texts(v: Seq<String>) -> Seq<Seq<char>> {
    Seq::new(v.len(), |i: int| v[i]@)
}

/// A copy of the characters `v[from..to]`.
pub fn slice_chars(v: &Vec<char>, from: usize, to: usize) -> (r: Vec<char>)
    requires
        from <= to <= v.len(),
    ensures
        r@ == v@.subrange(from as int, to as int),
{
    let mut r: Vec<char> = Vec::new();
    let mut i: usize = from;
    while i < to
        invariant
            from <= i <= to <= v.len(),
            r@ == v@.subrange(from as int, i as int),
        decreases to - i,
    {
        r.push(v[i]);
        i += 1;
    }
    r
}

/// The position of the first `sep` in `s`, or the length of `s` where it
/// holds none.
pub open spec fn index_of(s: Seq<char>, sep: char) -> int
    decreases s.len(),
{
    if s.len() == 0 || s[0] == sep {
        0
    } else {
        1 + index_of(s.drop_first(), sep)
    }
}

/// `index_of` is the one position before which no `sep` stands and at which
/// one does, unless it is the end.
pub proof fn lemma_index_of(s: Seq<char>, sep: char, i: int)
    requires
        0 <= i <= s.len(),
        forall|k: int| 0 <= k < i ==> s[k] != sep,
        i == s.len() || s[i] == sep,
    ensures
        index_of(s, sep) == i,
    decreases s.len(),
{
    if i > 0 {
        let rest = s.drop_first();
        assert forall|k: int| 0 <= k < i - 1 implies rest[k] != sep by {
            assert(rest[k] == s[k + 1]);
        }
        lemma_index_of(rest, sep, i - 1);
    }
}

/// The first position at or after `from` that holds `sep`, or the length of
/// `v` where none does.
pub fn find(v: &Vec<char>, from: usize, sep: char) -> (j: usize)
    requires
        from <= v.len(),
    ensures
        from <= j <= v.len(),
        j - from == index_of(v@.skip(from as int), sep),
        forall|k: int| from <= k < j ==> v@[k] != sep,
        j < v.len() ==> v@[j as int] == sep,
{
    let mut j: usize = from;
    while j < v.len() && v[j] != sep
        invariant
            from <= j <= v.len(),
            forall|k: int| from <= k < j ==> v@[k] != sep,
        decreases v.len() - j,
    {
        j += 1;
    }
    proof {
        lemma_index_of(v@.skip(from as int), sep, j - from);
    }
    j
}

/// A line without the carriage return that stood before its line feed.
pub open spec fn without_cr(line: Seq<char>) -> Seq<char> {
    if line.len() > 0 && line.last() == '\r' {
        line.drop_last()
    } else {
        line
    }
}

/// The lines of a text. A line ends at a line feed, or at a carriage return
/// directly followed by one; neither belongs to the line. What follows the
/// last line feed is a line of its own unless it is empty.
pub open spec fn lines_of(s: Seq<char>) -> Seq<Seq<char>>
    decreases s.len(),
{
    let i = index_of(s, '\n');
    if s.len() == 0 {
        Seq::empty()
    } else if 0 <= i < s.len() {
        seq![without_cr(s.take(i))] + lines_of(s.skip(i + 1))
    } else {
        seq![s]
    }
}

/// The number of line feeds in a text, which is the number of its segments
/// that end in a line feed.
pub open spec fn line_feeds(s: Seq<char>) -> nat
    decreases s.len(),
{
    if s.len() == 0 {
        0
    } else {
        line_feeds(s.drop_first()) + if s[0] == '\n' {
            1nat
        } else {
            0nat
        }
    }
}

/// Counts the line feeds in `v`.
pub fn count_line_feeds(v: &Vec<char>) -> (n: usize)
    ensures
        n == line_feeds(v@),
{
    let mut n: usize = 0;
    let mut i: usize = 0;
    assert(v@.skip(0) =~= v@);
    while i < v.len()
        invariant
            i <= v.len(),
            n <= i,
            line_feeds(v@) == n + line_feeds(v@.skip(i as int)),
        decreases v.len() - i,
    {
        assert(v@.skip(i as int)[0] == v@[i as int]);
        assert(v@.skip(i as int).drop_first() =~= v@.skip(i + 1));
        if v[i] == '\n' {
            n += 1;
        }
        i += 1;
    }
    assert(v@.skip(i as int).len() == 0);
    n
}

/// What `index_of` gives: a position up to the length, before which no
/// `sep` stands, and at which one stands unless it is the length.
pub proof fn lemma_index_of_found(s: Seq<char>, sep: char)
    ensures
        0 <= index_of(s, sep) <= s.len(),
        forall|k: int| 0 <= k < index_of(s, sep) ==> s[k] != sep,
        index_of(s, sep) < s.len() ==> s[index_of(s, sep)] == sep,
    decreases s.len(),
{
    if s.len() > 0 && s[0] != sep {
        let rest = s.drop_first();
        lemma_index_of_found(rest, sep);
        assert forall|k: int| 0 <= k < index_of(s, sep) implies s[k] != sep by {
            if k > 0 {
                assert(rest[k - 1] == s[k]);
            }
        }
    }
}

/// A text has as many line feeds as what is left of it behind a start
/// that holds none.
pub proof fn lemma_line_feeds_skip(s: Seq<char>, i: int)
    requires
        0 <= i <= s.len(),
        forall|k: int| 0 <= k < i ==> s[k] != '\n',
    ensures
        line_feeds(s) == line_feeds(s.skip(i)),
    decreases i,
{
    if i == 0 {
        assert(s.skip(0) =~= s);
    } else {
        let rest = s.drop_first();
        assert forall|k: int| 0 <= k < i - 1 implies rest[k] != '\n' by {
            assert(rest[k] == s[k + 1]);
        }
        lemma_line_feeds_skip(rest, i - 1);
        assert(rest.skip(i - 1) =~= s.skip(i));
    }
}

/// A text has one line for each line feed, and one more for what follows
/// the last line feed if that is not empty.
pub proof fn lemma_lines_and_line_feeds(s: Seq<char>)
    ensures
        lines_of(s).len() == line_feeds(s) + if s.len() > 0 && s.last() != '\n' {
            1nat
        } else {
            0nat
        },
    decreases s.len(),
{
    if s.len() > 0 {
        let i = index_of(s, '\n');
        lemma_index_of_found(s, '\n');
        lemma_line_feeds_skip(s, i);
        if i < s.len() {
            let rest = s.skip(i + 1);
            lemma_lines_and_line_feeds(rest);
            assert(s.skip(i)[0] == '\n');
            assert(s.skip(i).drop_first() =~= rest);
            if rest.len() > 0 {
                assert(rest.last() == s.last());
            }
        } else {
            assert(s.skip(i).len() == 0);
        }
    }
}

/// The lines of `v`, in order.
pub fn split_lines(v: &Vec<char>) -> (r: Vec<Vec<char>>)
    ensures
        rows(r@) == lines_of(v@),
{
    let mut r: Vec<Vec<char>> = Vec::new();
    let mut start: usize = 0;
    assert(v@.skip(0) =~= v@);
    while start < v.len()
        invariant
            start <= v.len(),
            lines_of(v@) == rows(r@) + lines_of(v@.skip(start as int)),
        decreases v.len() - start,
    {
        let ghost before = rows(r@);
        let ghost rest = v@.skip(start as int);
        let j = find(v, start, '\n');
        if j < v.len() {
            let end: usize = if j > start && v[j - 1] == '\r' {
                (j - 1) as usize
            } else {
                j
            };
            let line = slice_chars(v, start, end);
            r.push(line);
            proof {
                assert(rest.take(j - start) =~= v@.subrange(start as int, j as int));
                assert(rest.skip(j - start + 1) =~= v@.skip(j + 1));
                assert(line@ =~= without_cr(rest.take(j - start)));
                assert(rows(r@) =~= before + seq![line@]);
            }
            start = j + 1;
        } else {
            let line = slice_chars(v, start, j);
            r.push(line);
            proof {
                assert(line@ =~= rest);
                assert(rows(r@) =~= before + seq![line@]);
                assert(v@.skip(j as int) =~= Seq::<char>::empty());
            }
            start = j;
        }
    }
    assert(rows(r@) + Seq::<Seq<char>>::empty() =~= rows(r@));
    r
}

/// The dictionary order of texts: the first character in which two texts
/// differ decides, and a text comes before each of its extensions.
pub open spec fn lex_le(a: Seq<char>, b: Seq<char>) -> bool
    decreases a.len(),
{
    if a.len() == 0 {
        true
    } else if b.len() == 0 {
        false
    } else if a[0] != b[0] {
        a[0] < b[0]
    } else {
        lex_le(a.drop_first(), b.drop_first())
    }
}

/// Of two texts one comes before the other, or they are in either order.
pub proof fn lemma_lex_le_total(a: Seq<char>, b: Seq<char>)
    ensures
        lex_le(a, b) || lex_le(b, a),
    decreases a.len(),
{
    if a.len() > 0 && b.len() > 0 && a[0] == b[0] {
        lemma_lex_le_total(a.drop_first(), b.drop_first());
    }
}

/// The dictionary order carries over.
pub proof fn lemma_lex_le_transitive(a: Seq<char>, b: Seq<char>, c: Seq<char>)
    requires
        lex_le(a, b),
        lex_le(b, c),
    ensures
        lex_le(a, c),
    decreases a.len(),
{
    if a.len() > 0 && b.len() > 0 && c.len() > 0 && a[0] == b[0] && b[0] == c[0] {
        lemma_lex_le_transitive(a.drop_first(), b.drop_first(), c.drop_first());
    }
}

/// Decides the dictionary order of two character vectors.
pub fn chars_le(a: &Vec<char>, b: &Vec<char>) -> (r: bool)
    ensures
        r == lex_le(a@, b@),
{
    let mut i: usize = 0;
    assert(a@.skip(0) =~= a@ && b@.skip(0) =~= b@);
    while i < a.len() && i < b.len()
        invariant
            i <= a.len(),
            i <= b.len(),
            lex_le(a@, b@) == lex_le(a@.skip(i as int), b@.skip(i as int)),
        decreases a.len() - i,
    {
        if a[i] != b[i] {
            return a[i] < b[i];
        }
        assert(a@.skip(i as int).drop_first() =~= a@.skip(i + 1));
        assert(b@.skip(i as int).drop_first() =~= b@.skip(i + 1));
        i += 1;
    }
    i == a.len()
}

/// Decides the dictionary order of two strings.
pub fn str_le(a: &str, b: &str) -> (r: bool)
    ensures
        r == lex_le(a@, b@),
{
    let a_chars = str_chars(a);
    let b_chars = str_chars(b);
    chars_le(&a_chars, &b_chars)
}

/// The fields of `s` between separators. With a limit, at most that many
/// fields are made, and the last one holds the rest of `s`, separators
/// included. Without a limit every separator ends a field. A text without
/// separator is one field, also when it is empty.
pub open spec fn pieces(s: Seq<char>, sep: char, limit: Option<nat>) -> Seq<Seq<char>>
    decreases s.len(),
{
    let i = index_of(s, sep);
    if limit == Some(0nat) {
        Seq::empty()
    } else if limit == Some(1nat) || !(0 <= i < s.len()) {
        seq![s]
    } else {
        seq![s.take(i)] + pieces(
            s.skip(i + 1),
            sep,
            match limit {
                Some(n) => Some((n - 1) as nat),
                None => None,
            },
        )
    }
}

/// The fields of `v` between separators, at most `limit` of them where a
/// limit is given.
pub fn split(v: &Vec<char>, sep: char, limit: Option<usize>) -> (r: Vec<Vec<char>>)
    ensures
        rows(r@) == pieces(
            v@,
            sep,
            match limit {
                Some(n) => Some(n as nat),
                None => None,
            },
        ),
{
    let ghost whole = match limit {
        Some(n) => Some(n as nat),
        None => None::<nat>,
    };
    let mut r: Vec<Vec<char>> = Vec::new();
    if let Some(0) = limit {
        assert(rows(r@) =~= Seq::<Seq<char>>::empty());
        return r;
    }
    let mut start: usize = 0;
    let mut left: Option<usize> = limit;
    assert(v@.skip(0) =~= v@);
    assert(rows(r@) + pieces(v@, sep, whole) =~= pieces(v@, sep, whole));
    loop
        invariant_except_break
            start <= v.len(),
            left != Some(0usize),
            pieces(v@, sep, whole) == rows(r@) + pieces(
                v@.skip(start as int),
                sep,
                match left {
                    Some(n) => Some(n as nat),
                    None => None,
                },
            ),
        ensures
            rows(r@) == pieces(v@, sep, whole),
        decreases v.len() - start,
    {
        let ghost before = rows(r@);
        let ghost rest = v@.skip(start as int);
        let j = find(v, start, sep);
        let last = match left {
            Some(n) => n == 1,
            None => false,
        };
        if last || j >= v.len() {
            let field = slice_chars(v, start, v.len());
            r.push(field);
            proof {
                assert(field@ =~= rest);
                assert(rows(r@) =~= before + seq![field@]);
            }
            break;
        }
        let field = slice_chars(v, start, j);
        r.push(field);
        proof {
            assert(rest.take(j - start) =~= field@);
            assert(rest.skip(j - start + 1) =~= v@.skip(j + 1));
            assert(rows(r@) =~= before + seq![field@]);
        }
        start = j + 1;
        left = match left {
            Some(n) => Some((n - 1) as usize),
            None => None,
        };
    }
    r
}

/// How many values at the start of `blank` are set.
pub open spec fn leading_set(blank: Seq<bool>) -> nat
    decreases blank.len(),
{
    if blank.len() > 0 && blank[0] {
        1 + leading_set(blank.drop_first())
    } else {
        0
    }
}

/// How many values at the end of `blank` are set.
pub open spec fn trailing_set(blank: Seq<bool>) -> nat
    decreases blank.len(),
{
    if blank.len() > 0 && blank.last() {
        1 + trailing_set(blank.drop_last())
    } else {
        0
    }
}

/// The bounds of what is left of `blank` without the set values at its
/// start and at its end: both are its length where every value is set.
pub open spec fn unset_bounds(blank: Seq<bool>) -> (int, int) {
    if leading_set(blank) >= blank.len() {
        (blank.len() as int, blank.len() as int)
    } else {
        (leading_set(blank) as int, blank.len() - trailing_set(blank))
    }
}

/// For each character of `s`, whether it is whitespace.
pub open spec fn blanks_of(s: Seq<char>) -> Seq<bool> {
    Seq::new(s.len(), |i: int| unicode_whitespace(s[i]))
}

/// How many characters at the start of `s` are whitespace.
pub open spec fn leading_whitespace(s: Seq<char>) -> nat {
    leading_set(blanks_of(s))
}

/// How many characters at the end of `s` are whitespace.
pub open spec fn trailing_whitespace(s: Seq<char>) -> nat {
    trailing_set(blanks_of(s))
}

/// `s` without the whitespace at its start and at its end.
pub open spec fn trimmed(s: Seq<char>) -> Seq<char> {
    if leading_whitespace(s) >= s.len() {
        Seq::empty()
    } else {
        s.subrange(leading_whitespace(s) as int, s.len() - trailing_whitespace(s))
    }
}

/// The bounds of `blank[from..to]` without the set values at its start and
/// at its end, as indices into `blank`.
pub fn trim_range(blank: &Vec<bool>, from: usize, to: usize) -> (r: (usize, usize))
    requires
        from <= to <= blank.len(),
    ensures
        from <= r.0 <= r.1 <= to,
        r.0 == from + unset_bounds(blank@.subrange(from as int, to as int)).0,
        r.1 == from + unset_bounds(blank@.subrange(from as int, to as int)).1,
{
    let ghost s = blank@.subrange(from as int, to as int);
    let mut a: usize = from;
    assert(s.skip(0) =~= s);
    while a < to && blank[a]
        invariant
            from <= a <= to <= blank.len(),
            s == blank@.subrange(from as int, to as int),
            leading_set(s) == (a - from) + leading_set(s.skip(a - from)),
        decreases to - a,
    {
        assert(s.skip(a - from)[0] == blank@[a as int]);
        assert(s.skip(a - from).drop_first() =~= s.skip(a - from + 1));
        a += 1;
    }
    proof {
        if a < to {
            assert(s.skip(a - from)[0] == blank@[a as int]);
        } else {
            assert(s.skip(a - from).len() == 0);
        }
        assert(leading_set(s) == a - from);
    }
    if a == to {
        return (a, a);
    }
    let mut b: usize = to;
    assert(s.take(s.len() as int) =~= s);
    while b > a && blank[b - 1]
        invariant
            from <= a < b <= to <= blank.len(),
            s == blank@.subrange(from as int, to as int),
            !blank@[a as int],
            trailing_set(s) == (to - b) + trailing_set(s.take(b - from)),
        decreases b,
    {
        assert(s.take(b - from).last() == blank@[b - 1]);
        assert(s.take(b - from).drop_last() =~= s.take(b - from - 1));
        b -= 1;
    }
    proof {
        assert(s.take(b - from).last() == blank@[b - 1]);
        assert(trailing_set(s) == to - b);
    }
    (a, b)
}

/// For each character of `v`, whether it is whitespace.
pub fn blanks(v: &Vec<char>) -> (r: Vec<bool>)
    ensures
        r@ == blanks_of(v@),
{
    let mut out: Vec<bool> = Vec::new();
    let mut i: usize = 0;
    while i < v.len()
        invariant
            i <= v.len(),
            out@ == blanks_of(v@.take(i as int)),
        decreases v.len() - i,
    {
        out.push(v[i].is_whitespace());
        assert(out@ =~= blanks_of(v@.take(i + 1)));
        i += 1;
    }
    assert(v@.take(i as int) =~= v@);
    out
}

/// The bounds of `v[from..to]` without the whitespace at its start and at
/// its end.
pub fn trim_bounds(v: &Vec<char>, from: usize, to: usize) -> (r: (usize, usize))
    requires
        from <= to <= v.len(),
    ensures
        from <= r.0 <= r.1 <= to,
        v@.subrange(r.0 as int, r.1 as int) == trimmed(v@.subrange(from as int, to as int)),
{
    let blank = blanks(v);
    let r = trim_range(&blank, from, to);
    proof {
        let s = v@.subrange(from as int, to as int);
        assert(blank@.subrange(from as int, to as int) =~= blanks_of(s));
        if leading_whitespace(s) >= s.len() {
            assert(v@.subrange(r.0 as int, r.1 as int) =~= Seq::<char>::empty());
        } else {
            assert(v@.subrange(r.0 as int, r.1 as int) =~= s.subrange(
                leading_whitespace(s) as int,
                s.len() - trailing_whitespace(s),
            ));
        }
    }
    r
}

/// `v` without the whitespace at its start and at its end.
pub fn trim(v: &Vec<char>) -> (r: Vec<char>)
    ensures
        r@ == trimmed(v@),
{
    let (a, b) = trim_bounds(v, 0, v.len());
    assert(v@.subrange(0, v.len() as int) =~= v@);
    slice_chars(v, a, b)
}

/// The character for a decimal digit.
pub open spec fn digit_char(d: nat) -> char {
    (('0' as u8) + (d % 10) as u8) as char
}

/// A number written in decimal digits, without leading zeros.
pub open spec fn decimal_of(n: nat) -> Seq<char>
    decreases n,
{
    if n < 10 {
        seq![digit_char(n)]
    } else {
        decimal_of(n / 10).push(digit_char(n % 10))
    }
}

/// The decimal digits of `n` as a string.
pub fn decimal(n: usize) -> (r: String)
    ensures
        r@ == decimal_of(n as nat),
{
    let mut digits: Vec<char> = Vec::new();
    let mut rest: usize = n;
    // The digits are found last to first.
    loop
        invariant_except_break
            decimal_of(n as nat) == decimal_of(rest as nat) + digits@.reverse(),
        ensures
            decimal_of(n as nat) == digits@.reverse(),
        decreases rest,
    {
        let d = (rest % 10) as u8;
        let c = (('0' as u8) + d) as char;
        let ghost before = digits@;
        digits.push(c);
        assert(c == digit_char(rest as nat));
        if rest < 10 {
            proof {
                assert(digits@.reverse() =~= seq![c] + before.reverse());
                assert(decimal_of(rest as nat) + before.reverse() =~= digits@.reverse());
            }
            break;
        }
        proof {
            assert(digits@.reverse() =~= seq![c] + before.reverse());
            assert(decimal_of(rest as nat) == decimal_of((rest / 10) as nat).push(c));
            assert(decimal_of((rest / 10) as nat).push(c) + before.reverse() =~= decimal_of(
                (rest / 10) as nat,
            ) + digits@.reverse());
        }
        rest = rest / 10;
    }
    let mut r = String::new();
    let mut i: usize = digits.len();
    while i > 0
        invariant
            i <= digits.len(),
            r@ == digits@.reverse().take(digits.len() - i),
        decreases i,
    {
        i -= 1;
        let ghost before = r@;
        push_char(&mut r, digits[i]);
        assert(r@ =~= digits@.reverse().take(digits.len() - i));
    }
    assert(digits@.reverse().take(digits.len() as int) =~= digits@.reverse());
    r
}

/// Every character is a decimal digit.
pub open spec fn all_digits(s: Seq<char>) -> bool {
    forall|i: int| 0 <= i < s.len() ==> ascii_digit(#[trigger] s[i])
}

/// The number that decimal digits stand for.
pub open spec fn decimal_value(s: Seq<char>) -> nat
    decreases s.len(),
{
    if s.len() == 0 {
        0
    } else {
        decimal_value(s.drop_last()) * 10 + ((s.last() as u8) - ('0' as u8)) as nat
    }
}

/// The number that `v[from..to]` stands for, if it is made of one or more
/// decimal digits and the number fits.
pub fn parse_decimal(v: &Vec<char>, from: usize, to: usize) -> (r: Option<usize>)
    requires
        from <= to <= v.len(),
    ensures
        r is Some <==> from < to && all_digits(v@.subrange(from as int, to as int)) && decimal_value(
            v@.subrange(from as int, to as int),
        ) <= usize::MAX,
        r matches Some(n) ==> n == decimal_value(v@.subrange(from as int, to as int)),
{
    if from == to {
        return None;
    }
    let ghost s = v@.subrange(from as int, to as int);
    let mut n: usize = 0;
    let mut i: usize = from;
    assert(s.take(0) =~= Seq::<char>::empty());
    while i < to
        invariant
            from <= i <= to <= v.len(),
            s == v@.subrange(from as int, to as int),
            all_digits(s.take(i - from)),
            n == decimal_value(s.take(i - from)),
        decreases to - i,
    {
        let c = v[i];
        assert(s[i - from] == c);
        assert(s.take(i - from + 1).drop_last() =~= s.take(i - from));
        assert(s.take(i - from + 1).last() == c);
        if !is_ascii_digit(c) {
            return None;
        }
        let d = ((c as u8) - ('0' as u8)) as usize;
        proof {
            lemma_decimal_value_grows(s, i - from + 1);
        }
        if n > (usize::MAX - d) / 10 {
            assert(decimal_value(s.take(i - from + 1)) > usize::MAX) by (nonlinear_arith)
                requires
                    n > (usize::MAX - d) / 10,
                    decimal_value(s.take(i - from + 1)) == n * 10 + d,
            ;
            return None;
        }
        assert(n * 10 + d <= usize::MAX) by (nonlinear_arith)
            requires
                n <= (usize::MAX - d) / 10,
        ;
        n = n * 10 + d;
        assert forall|k: int| 0 <= k < i - from + 1 implies ascii_digit(#[trigger] s.take(i - from + 1)[k]) by {
            if k < i - from {
                assert(s.take(i - from)[k] == s[k]);
            }
        }
        i += 1;
    }
    assert(s.take(to - from) =~= s);
    Some(n)
}

/// The value of digits does not shrink when more digits follow.
pub proof fn lemma_decimal_value_grows(s: Seq<char>, n: int)
    requires
        0 <= n <= s.len(),
    ensures
        decimal_value(s.take(n)) <= decimal_value(s),
    decreases s.len() - n,
{
    if n < s.len() {
        lemma_decimal_value_grows(s, n + 1);
        assert(s.take(n + 1).drop_last() =~= s.take(n));
        assert(decimal_value(s.take(n + 1)) >= decimal_value(s.take(n)) * 10);
    } else {
        assert(s.take(n) =~= s);
    }
}

/// The number of bytes that a character takes in UTF-8: one up to U+007F,
/// two up to U+07FF, three up to U+FFFF, four beyond.
pub open spec fn utf8_len(c: char) -> nat {
    if (c as u32) < 0x80 {
        1
    } else if (c as u32) < 0x800 {
        2
    } else if (c as u32) < 0x10000 {
        3
    } else {
        4
    }
}

/// The number of bytes that a text takes in UTF-8.
pub open spec fn utf8_size(s: Seq<char>) -> nat
    decreases s.len(),
{
    if s.len() == 0 {
        0
    } else {
        utf8_size(s.drop_last()) + utf8_len(s.last())
    }
}

/// How many characters from the start of `s` fit into `limit` bytes of
/// UTF-8, counted up to the first that does not fit any more.
pub open spec fn chars_within(s: Seq<char>, limit: nat) -> nat
    decreases s.len(),
{
    if s.len() == 0 || utf8_len(s[0]) > limit {
        0
    } else {
        1 + chars_within(s.drop_first(), (limit - utf8_len(s[0])) as nat)
    }
}

/// The longest prefix of `s` that takes no more than `limit` bytes in
/// UTF-8.
pub open spec fn prefix_within(s: Seq<char>, limit: nat) -> Seq<char> {
    s.take(chars_within(s, limit) as int)
}

/// The number of bytes that a character takes in UTF-8.
pub fn char_utf8_len(c: char) -> (r: usize)
    ensures
        r == utf8_len(c),
        1 <= r <= 4,
{
    let code = c as u32;
    if code < 0x80 {
        1
    } else if code < 0x800 {
        2
    } else if code < 0x10000 {
        3
    } else {
        4
    }
}

/// A text takes no fewer bytes than any of its prefixes.
pub proof fn lemma_utf8_size_grows(s: Seq<char>, n: int)
    requires
        0 <= n <= s.len(),
    ensures
        utf8_size(s.take(n)) <= utf8_size(s),
    decreases s.len() - n,
{
    if n < s.len() {
        lemma_utf8_size_grows(s, n + 1);
        assert(s.take(n + 1).drop_last() =~= s.take(n));
    } else {
        assert(s.take(n) =~= s);
    }
}

/// The longest prefix within a limit stays within it.
pub proof fn lemma_prefix_fits(s: Seq<char>, limit: nat)
    ensures
        chars_within(s, limit) <= s.len(),
        utf8_size(prefix_within(s, limit)) <= limit,
    decreases s.len(),
{
    if s.len() == 0 || utf8_len(s[0]) > limit {
        assert(s.take(0) =~= Seq::<char>::empty());
    } else {
        let rest = s.drop_first();
        let left = (limit - utf8_len(s[0])) as nat;
        lemma_prefix_fits(rest, left);
        let n = chars_within(rest, left) as int;
        assert(s.take(n + 1) =~= seq![s[0]] + rest.take(n));
        lemma_utf8_size_concat(seq![s[0]], rest.take(n));
        let first = seq![s[0]];
        assert(first.last() == s[0]);
        assert(first.drop_last().len() == 0);
        assert(utf8_size(first.drop_last()) == 0);
        assert(utf8_size(first) == utf8_len(s[0]));
    }
}

/// The bytes of two texts add up.
pub proof fn lemma_utf8_size_concat(a: Seq<char>, b: Seq<char>)
    ensures
        utf8_size(a + b) == utf8_size(a) + utf8_size(b),
    decreases b.len(),
{
    if b.len() == 0 {
        assert(a + b =~= a);
    } else {
        lemma_utf8_size_concat(a, b.drop_last());
        assert((a + b).drop_last() =~= a + b.drop_last());
    }
}

/// A text of ASCII characters takes one byte for each.
pub proof fn lemma_ascii_size(s: Seq<char>)
    requires
        forall|i: int| 0 <= i < s.len() ==> (#[trigger] s[i] as u32) < 0x80,
    ensures
        utf8_size(s) == s.len(),
    decreases s.len(),
{
    if s.len() > 0 {
        assert forall|i: int| 0 <= i < s.drop_last().len() implies (#[trigger] s.drop_last()[i] as u32) < 0x80 by {
            assert(s.drop_last()[i] == s[i]);
        }
        lemma_ascii_size(s.drop_last());
    }
}

/// The number of characters of the longest prefix of `v` that takes no more
/// than `limit` bytes in UTF-8.
pub fn fitting_chars(v: &Vec<char>, limit: usize) -> (n: usize)
    ensures
        n <= v.len(),
        n == chars_within(v@, limit as nat),
        utf8_size(v@.take(n as int)) <= limit,
        n == v.len() <==> utf8_size(v@) <= limit,
{
    let mut n: usize = 0;
    let mut bytes: usize = 0;
    assert(v@.skip(0) =~= v@);
    assert(v@.take(0) =~= Seq::<char>::empty());
    while n < v.len() && char_utf8_len(v[n]) <= limit - bytes
        invariant
            n <= v.len(),
            bytes <= limit,
            bytes == utf8_size(v@.take(n as int)),
            chars_within(v@, limit as nat) == n + chars_within(v@.skip(n as int), (limit - bytes) as nat),
        decreases v.len() - n,
    {
        assert(v@.skip(n as int)[0] == v@[n as int]);
        assert(v@.skip(n as int).drop_first() =~= v@.skip(n + 1));
        assert(v@.take(n + 1).drop_last() =~= v@.take(n as int));
        assert(v@.take(n + 1).last() == v@[n as int]);
        bytes += char_utf8_len(v[n]);
        n += 1;
    }
    proof {
        if n < v.len() {
            assert(v@.skip(n as int)[0] == v@[n as int]);
            assert(v@.take(n + 1).drop_last() =~= v@.take(n as int));
            assert(v@.take(n + 1).last() == v@[n as int]);
            lemma_utf8_size_grows(v@, n + 1);
        } else {
            assert(v@.skip(n as int).len() == 0);
            assert(v@.take(n as int) =~= v@);
        }
    }
    n
}

} // verus!
