//! A text with a scroll offset into its lines.

use vstd::prelude::*;
use crate::platform::Key;
use crate::text::{chars_to_string, count_line_feeds, line_feeds, lines_of, split_lines, str_chars, texts};

verus! {

/// A text, the number of its lines that end in a line feed, and the index
/// of the first line shown.
#[derive(Debug)]
pub struct Output {
    text: String,
    line_count: usize,
    scroll: usize,
}

/// What an `Output` holds: its text and its scroll offset.
pub struct OutputView {
    pub text: Seq<char>,
    pub scroll: nat,
}

/// Where a key would put the offset if the text had no end.
pub open spec fn scroll_target(scroll: int, half_height: int, key: Key) -> int {
    match key {
        Key::Down | Key::Char('j') => scroll + 1,
        Key::Up | Key::Char('k') => if scroll >= 1 {
            scroll - 1
        } else {
            0
        },
        Key::Ctrl('h') | Key::Home => 0,
        Key::Ctrl('e') | Key::End => usize::MAX as int,
        Key::Ctrl('d') | Key::PageDown => scroll + half_height,
        Key::Ctrl('u') | Key::PageUp => if scroll >= half_height {
            scroll - half_height
        } else {
            0
        },
        _ => scroll,
    }
}

/// The greatest offset at which a screen of `available_height` rows is still
/// full: the number of lines beyond one screen, and 0 when all lines fit.
pub open spec fn scroll_limit(line_count: int, available_height: int) -> int {
    if line_count > available_height {
        line_count - available_height
    } else {
        0
    }
}

/// The offset after `key`: the key's target, held back at the limit.
pub open spec fn scroll_after_key(scroll: int, line_count: int, available_height: int, key: Key) -> int {
    let target = scroll_target(scroll, available_height / 2, key);
    let limit = scroll_limit(line_count, available_height);
    if limit <= target {
        limit
    } else {
        target
    }
}

impl View for Output {
    type V = OutputView;

    closed spec fn view(&self) -> OutputView {
        OutputView { text: self.text@, scroll: self.scroll as nat }
    }
}

impl Output {
    /// The stored line count is the number of line feeds in the text.
    pub closed spec fn wf(&self) -> bool {
        self.line_count == line_feeds(self.text@)
    }

    /// The line count of the text: the number of its segments that end in
    /// a line feed. What follows the last line feed is not counted.
    pub open spec fn lines(&self) -> nat {
        line_feeds(self@.text)
    }

    /// The number of lines of a text that is held fits the machine.
    pub proof fn lemma_line_count_fits(&self)
        requires
            self.wf(),
        ensures
            self.lines() <= usize::MAX,
    {
    }

    pub fn new(text: String) -> (r: Self)
        ensures
            r.wf(),
            r@ == (OutputView { text: text@, scroll: 0 }),
    {
        let chars = str_chars(text.as_str());
        let line_count = count_line_feeds(&chars);
        Output { text, line_count, scroll: 0 }
    }

    /// Replaces the text and shows it from its first line.
    pub fn set(&mut self, output: String)
        ensures
            final(self).wf(),
            final(self)@ == (OutputView { text: output@, scroll: 0 }),
    {
        let chars = str_chars(output.as_str());
        self.line_count = count_line_feeds(&chars);
        self.text = output;
        self.scroll = 0;
    }

    /// The text.
    pub fn text(&self) -> (r: &str)
        ensures
            r@ == self@.text,
    {
        self.text.as_str()
    }

    /// The line count of the text: the number of its segments that end in
    /// a line feed.
    pub fn line_count(&self) -> (r: usize)
        requires
            self.wf(),
        ensures
            r == self.lines(),
    {
        self.line_count
    }

    /// The index of the first line shown.
    pub fn scroll(&self) -> (r: usize)
        ensures
            r == self@.scroll,
    {
        self.scroll
    }

    /// The lines of the text from the scroll offset on, what follows the
    /// last line feed among them if that is not empty; none where the
    /// offset is past the last line.
    pub fn lines_from_scroll(&self) -> (r: Vec<String>)
        ensures
            self@.scroll <= lines_of(self@.text).len() ==> texts(r@) == lines_of(self@.text).skip(
                self@.scroll as int,
            ),
            self@.scroll > lines_of(self@.text).len() ==> r@.len() == 0,
    {
        let chars = str_chars(self.text.as_str());
        let lines = split_lines(&chars);
        let mut r: Vec<String> = Vec::new();
        let mut i: usize = self.scroll;
        while i < lines.len()
            invariant
                crate::text::rows(lines@) == lines_of(self@.text),
                i >= self.scroll,
                self.scroll <= lines.len() ==> i <= lines.len() && texts(r@) == lines_of(
                    self@.text,
                ).subrange(self.scroll as int, i as int),
                self.scroll > lines.len() ==> r@.len() == 0,
            decreases lines.len() - i,
        {
            let ghost before = texts(r@);
            let line = chars_to_string(&lines[i]);
            r.push(line);
            assert(texts(r@) =~= before.push(line@));
            assert(crate::text::rows(lines@)[i as int] == lines@[i as int]@);
            i += 1;
        }
        assert(crate::text::rows(lines@).len() == lines@.len());
        r
    }

    /// Scrolls as `key` says and keeps the offset at or under the limit for a
    /// screen of `available_height` rows.
    pub fn on_key(&mut self, available_height: usize, key: Key)
        requires
            old(self).wf(),
        ensures
            final(self).wf(),
            final(self)@.text == old(self)@.text,
            final(self)@.scroll == scroll_after_key(
                old(self)@.scroll as int,
                old(self).lines() as int,
                available_height as int,
                key,
            ),
            final(self)@.scroll <= scroll_limit(final(self).lines() as int, available_height as int),
            key == Key::End || key == Key::Ctrl('e') ==> final(self)@.scroll == scroll_limit(
                final(self).lines() as int,
                available_height as int,
            ),
    {
        let half_height: usize = available_height / 2;
        let target: usize = match key {
            Key::Down | Key::Char('j') => self.scroll.saturating_add(1),
            Key::Up | Key::Char('k') => self.scroll.saturating_sub(1),
            Key::Ctrl('h') | Key::Home => 0,
            Key::Ctrl('e') | Key::End => usize::MAX,
            Key::Ctrl('d') | Key::PageDown => self.scroll.saturating_add(half_height),
            Key::Ctrl('u') | Key::PageUp => self.scroll.saturating_sub(half_height),
            _ => self.scroll,
        };
        let limit: usize = self.line_count.saturating_sub(available_height);
        self.scroll = if limit <= target {
            limit
        } else {
            target
        };
    }
}

/// A copy holds the same text at the same scroll offset.
impl Clone for Output {
    fn clone(&self) -> (r: Self)
        ensures
            r == *self,
    {
        Output { text: self.text.clone(), line_count: self.line_count, scroll: self.scroll }
    }
}

impl Default for Output {
    fn default() -> (r: Self)
        ensures
            r.wf(),
            r@ == (OutputView { text: Seq::empty(), scroll: 0 }),
    {
        Output::new(String::new())
    }
}

/// `End` puts the offset exactly at the limit, which is 0 for a text that
/// fits on the screen.
pub proof fn lemma_end_scrolls_to_limit(scroll: nat, line_count: nat, available_height: nat)
    requires
        line_count <= usize::MAX,
    ensures
        scroll_after_key(scroll as int, line_count as int, available_height as int, Key::End)
            == scroll_limit(line_count as int, available_height as int),
        line_count <= available_height ==> scroll_after_key(
            scroll as int,
            line_count as int,
            available_height as int,
            Key::End,
        ) == 0,
{
}

} // verus!
