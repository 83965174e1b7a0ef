//! A single line of input that keys edit at its end.

use vstd::prelude::*;
use crate::platform::Key;
use crate::text::{
    ascii_whitespace,
    is_ascii_whitespace,
    push_char,
    str_chars,
    substring,
    unicode_alphanumeric,
};

verus! {

/// The three kinds of character that word deletion tells apart.
#[derive(Debug, Clone, Copy, PartialEq, Eq, Structural)]
pub enum CharClass {
    /// Letters, digits and the underscore.
    Word,
    /// ASCII whitespace.
    Space,
    /// Everything else.
    Other,
}

/// Whether a character belongs to a word: it is alphanumeric or `_`.
pub open spec fn is_word(c: char) -> bool {
    unicode_alphanumeric(c) || c == '_'
}

/// The class of a character.
pub open spec fn class_of(c: char) -> CharClass {
    if is_word(c) {
        CharClass::Word
    } else if ascii_whitespace(c) {
        CharClass::Space
    } else {
        CharClass::Other
    }
}

/// The class of each character of `s`.
pub open spec fn classes_of(s: Seq<char>) -> Seq<CharClass> {
    Seq::new(s.len(), |i: int| class_of(s[i]))
}

/// How many values at the end of `classes` are `class`, counted back from
/// the last until another stands.
pub open spec fn trailing_run(classes: Seq<CharClass>, class: CharClass) -> nat
    decreases classes.len(),
{
    if classes.len() > 0 && classes.last() == class {
        1 + trailing_run(classes.drop_last(), class)
    } else {
        0
    }
}

/// The length that is left of `classes` without the run of equal values
/// that it ends in.
pub open spec fn without_last_run(classes: Seq<CharClass>) -> int {
    if classes.len() == 0 {
        0
    } else {
        classes.len() - trailing_run(classes, classes.last())
    }
}

/// `s` without the run of like characters that it ends in.
pub open spec fn without_last_word(s: Seq<char>) -> Seq<char> {
    s.take(without_last_run(classes_of(s)))
}

/// The line after one key.
pub open spec fn input_after_key(s: Seq<char>, key: Key) -> Seq<char> {
    match key {
        Key::Home | Key::Ctrl('u') => Seq::empty(),
        Key::Ctrl('w') => without_last_word(s),
        Key::Backspace => if s.len() > 0 {
            s.drop_last()
        } else {
            s
        },
        Key::Char(c) => s.push(c),
        _ => s,
    }
}

/// The line after a `Char` key for each character of `chars`, in order.
pub open spec fn input_after_typing(s: Seq<char>, chars: Seq<char>) -> Seq<char>
    decreases chars.len(),
{
    if chars.len() == 0 {
        s
    } else {
        input_after_key(input_after_typing(s, chars.drop_last()), Key::Char(chars.last()))
    }
}

/// The class of a character.
pub fn class(c: char) -> (r: CharClass)
    ensures
        r == class_of(c),
{
    if c.is_alphanumeric() || c == '_' {
        CharClass::Word
    } else if is_ascii_whitespace(c) {
        CharClass::Space
    } else {
        CharClass::Other
    }
}

/// The class of each character of `chars`.
pub fn classes(chars: &Vec<char>) -> (r: Vec<CharClass>)
    ensures
        r@ == classes_of(chars@),
{
    let mut out: Vec<CharClass> = Vec::new();
    let mut i: usize = 0;
    while i < chars.len()
        invariant
            i <= chars.len(),
            out@ == classes_of(chars@.take(i as int)),
        decreases chars.len() - i,
    {
        out.push(class(chars[i]));
        assert(out@ =~= classes_of(chars@.take(i + 1)));
        i += 1;
    }
    assert(chars@.take(i as int) =~= chars@);
    out
}

/// The length that is left of `classes` when the run of equal values at its
/// end is taken away.
pub fn last_run_start(classes: &Vec<CharClass>) -> (n: usize)
    ensures
        n <= classes.len(),
        n == without_last_run(classes@),
{
    let len: usize = classes.len();
    if len == 0 {
        return 0;
    }
    let last = classes[len - 1];
    let mut n: usize = len;
    assert(classes@.take(len as int) =~= classes@);
    while n > 0 && classes[n - 1] == last
        invariant
            n <= len == classes.len(),
            trailing_run(classes@, last) == (len - n) + trailing_run(
                classes@.take(n as int),
                last,
            ),
        decreases n,
    {
        assert(classes@.take(n as int).drop_last() =~= classes@.take(n - 1));
        n -= 1;
    }
    n
}

/// The length that is left of `chars` when the run of like characters at its
/// end is taken away.
pub fn word_boundary(chars: &Vec<char>) -> (n: usize)
    ensures
        n <= chars.len(),
        chars@.take(n as int) == without_last_word(chars@),
{
    let kinds = classes(chars);
    last_run_start(&kinds)
}

/// The input typed so far.
#[derive(Debug)]
pub struct ReadLine {
    input: String,
}

impl View for ReadLine {
    type V = Seq<char>;

    closed spec fn view(&self) -> Seq<char> {
        self.input@
    }
}

impl ReadLine {
    pub fn new() -> (r: Self)
        ensures
            r@ == Seq::<char>::empty(),
    {
        ReadLine { input: String::new() }
    }

    /// Empties the line.
    pub fn clear(&mut self)
        ensures
            final(self)@ == Seq::<char>::empty(),
    {
        self.input = String::new();
    }

    /// The line as it stands.
    pub fn input(&self) -> (r: &str)
        ensures
            r@ == self@,
    {
        self.input.as_str()
    }

    /// Edits the line: `Home` and `Ctrl-U` empty it, `Ctrl-W` deletes the
    /// last word, `Backspace` the last character, a character key appends,
    /// and every other key leaves it alone.
    pub fn on_key(&mut self, key: Key)
        ensures
            final(self)@ == input_after_key(old(self)@, key),
    {
        match key {
            Key::Home | Key::Ctrl('u') => {
                self.input = String::new();
            },
            Key::Ctrl('w') => {
                let chars = str_chars(self.input.as_str());
                let n = word_boundary(&chars);
                self.input = substring(&chars, 0, n);
            },
            Key::Backspace => {
                let chars = str_chars(self.input.as_str());
                if chars.len() > 0 {
                    self.input = substring(&chars, 0, chars.len() - 1);
                }
            },
            Key::Char(c) => {
                push_char(&mut self.input, c);
            },
            _ => {},
        }
    }
}

/// A copy holds the same line.
impl Clone for ReadLine {
    fn clone(&self) -> (r: Self)
        ensures
            r == *self,
    {
        ReadLine { input: self.input.clone() }
    }
}

impl Default for ReadLine {
    fn default() -> (r: Self)
        ensures
            r@ == Seq::<char>::empty(),
    {
        ReadLine::new()
    }
}

/// Typing characters appends them.
pub proof fn lemma_typing_appends(s: Seq<char>, chars: Seq<char>)
    ensures
        input_after_typing(s, chars) == s + chars,
    decreases chars.len(),
{
    if chars.len() == 0 {
        assert(s + chars =~= s);
    } else {
        lemma_typing_appends(s, chars.drop_last());
        assert((s + chars.drop_last()).push(chars.last()) =~= s + chars);
    }
}

/// After `Ctrl-U`, whatever the line held before, typing any characters
/// leaves exactly those characters: the same line as typing them on an
/// empty one.
pub proof fn lemma_clear_then_type(s: Seq<char>, chars: Seq<char>)
    ensures
        input_after_typing(input_after_key(s, Key::Ctrl('u')), chars) == chars,
        input_after_typing(input_after_key(s, Key::Ctrl('u')), chars) == input_after_typing(
            Seq::empty(),
            chars,
        ),
{
    lemma_typing_appends(Seq::empty(), chars);
    assert(Seq::<char>::empty() + chars =~= chars);
}

} // verus!
