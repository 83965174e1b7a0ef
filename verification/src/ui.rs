//! What a screen looks like, as a list of drawing operations for the
//! terminal.

use vstd::prelude::*;
use vstd::string::StringExecFns;
use crate::text::{lines_of, push_char, str_chars, substring, texts};
use crate::widget::filter::{Filter, FilterView};
use crate::widget::output::{Output, OutputView};
use crate::widget::readline::ReadLine;
use crate::widget::select_menu::SelectMenu;

verus! {

/// The number of screen rows that the header and the help line take.
pub const RESERVED_LINES_COUNT: usize = 2;

/// The colours that a row can switch to in the middle of its text.
#[derive(Debug, Clone, Copy, PartialEq, Eq, Structural)]
pub enum Color {
    White,
    Red,
    Green,
    Blue,
    Yellow,
}

impl Color {
    /// The escape sequence that switches the text to this colour.
    pub open spec fn code(self) -> Seq<char> {
        match self {
            Color::White => "\x1b[38;5;15m"@,
            Color::Red => "\x1b[38;5;1m"@,
            Color::Green => "\x1b[38;5;2m"@,
            Color::Blue => "\x1b[38;5;4m"@,
            Color::Yellow => "\x1b[38;5;3m"@,
        }
    }

    /// The escape sequence that switches the text to this colour.
    pub fn as_str(self) -> (r: &'static str)
        ensures
            r@ == self.code(),
    {
        match self {
            Color::White => "\x1b[38;5;15m",
            Color::Red => "\x1b[38;5;1m",
            Color::Green => "\x1b[38;5;2m",
            Color::Blue => "\x1b[38;5;4m",
            Color::Yellow => "\x1b[38;5;3m",
        }
    }

    /// The colour of a piece of text in a row: white where the row is
    /// hovered, its own otherwise.
    pub open spec fn or_hovered(self, hovered: bool) -> Color {
        if hovered {
            Color::White
        } else {
            self
        }
    }

    /// The colour of a piece of text in a row that may be hovered.
    pub fn hovered_or(self, hovered: bool) -> (r: Color)
        ensures
            r == self.or_hovered(hovered),
    {
        if hovered {
            Color::White
        } else {
            self
        }
    }
}

/// The colours that the drawer sets as background or foreground.
#[derive(Debug, Clone, Copy, PartialEq, Eq, Structural)]
pub enum Tone {
    Black,
    White,
    DarkYellow,
    DarkRed,
    DarkMagenta,
}

/// One drawing operation.
#[derive(Debug, Clone, PartialEq, Eq)]
pub enum DrawOp {
    /// Put the cursor at a column and a row.
    MoveTo(u16, u16),
    /// Put the cursor at the start of the next row.
    MoveToNextLine,
    SetBackground(Tone),
    SetForeground(Tone),
    ResetColor,
    Print(String),
    /// Clear from the cursor to the end of the row.
    ClearUntilNewLine,
    /// Clear from the cursor to the end of the screen.
    ClearFromCursorDown,
}

/// What a drawing operation says.
pub enum Drawn {
    MoveTo(int, int),
    MoveToNextLine,
    SetBackground(Tone),
    SetForeground(Tone),
    ResetColor,
    Print(Seq<char>),
    ClearUntilNewLine,
    ClearFromCursorDown,
}

impl View for DrawOp {
    type V = Drawn;

    open spec fn view(&self) -> Drawn {
        match self {
            DrawOp::MoveTo(column, row) => Drawn::MoveTo(*column as int, *row as int),
            DrawOp::MoveToNextLine => Drawn::MoveToNextLine,
            DrawOp::SetBackground(tone) => Drawn::SetBackground(*tone),
            DrawOp::SetForeground(tone) => Drawn::SetForeground(*tone),
            DrawOp::ResetColor => Drawn::ResetColor,
            DrawOp::Print(text) => Drawn::Print(text@),
            DrawOp::ClearUntilNewLine => Drawn::ClearUntilNewLine,
            DrawOp::ClearFromCursorDown => Drawn::ClearFromCursorDown,
        }
    }
}

/// What drawing operations say, in their order.
pub open spec fn drawn(ops: Seq<DrawOp>) -> Seq<Drawn> {
    Seq::new(ops.len(), |i: int| ops[i]@)
}

/// The end of a row: the rest of it is cleared and the cursor moves on.
pub open spec fn line_end() -> Seq<Drawn> {
    seq![Drawn::ClearUntilNewLine, Drawn::MoveToNextLine]
}

/// A row that holds a text.
pub open spec fn text_line(text: Seq<char>) -> Seq<Drawn> {
    seq![Drawn::Print(text)] + line_end()
}

/// Rows that hold texts, one for each.
pub open spec fn text_lines(lines: Seq<Seq<char>>) -> Seq<Drawn>
    decreases lines.len(),
{
    if lines.len() == 0 {
        Seq::empty()
    } else {
        text_lines(lines.drop_last()) + text_line(lines.last())
    }
}

/// The lines of a text that are drawn: those from the scroll offset on.
pub open spec fn shown_lines(output: OutputView) -> Seq<Seq<char>> {
    let lines = lines_of(output.text);
    if output.scroll >= lines.len() {
        Seq::empty()
    } else {
        lines.skip(output.scroll as int)
    }
}

/// The first `width` characters of a text, or all of it where it has no
/// more.
pub open spec fn clipped(text: Seq<char>, width: int) -> Seq<char> {
    if 0 <= width < text.len() {
        text.take(width)
    } else if width < 0 {
        Seq::empty()
    } else {
        text
    }
}

/// The last `width` characters of a text behind three dots, or all of the
/// text where it has no more.
pub open spec fn clipped_front(text: Seq<char>, width: int) -> Seq<char> {
    if 0 <= width < text.len() {
        "..."@ + text.skip(text.len() - width)
    } else if width < 0 {
        "..."@
    } else {
        text
    }
}

/// The line of the input: the text that was typed, or the placeholder
/// while nothing was, and behind it a block for the cursor.
pub open spec fn readline_ops(input: Seq<char>, placeholder: Seq<char>) -> Seq<Drawn> {
    seq![
        Drawn::SetBackground(Tone::Black),
        Drawn::SetForeground(Tone::White),
        Drawn::Print(
            if input.len() == 0 {
                placeholder
            } else {
                input
            },
        ),
        Drawn::SetBackground(Tone::DarkRed),
        Drawn::Print(" "@),
        Drawn::SetBackground(Tone::Black),
    ]
}

/// The row of the filter, which is there while the filter has the focus or
/// a pattern: the pattern, and a block for the cursor while it has the
/// focus.
pub open spec fn filter_ops(filter: FilterView) -> Seq<Drawn> {
    if filter.is_filtering() {
        seq![
            Drawn::SetBackground(Tone::Black),
            Drawn::SetForeground(Tone::White),
            Drawn::Print("filter: "@),
            Drawn::Print(filter.pattern),
        ] + (if filter.has_focus {
            seq![
                Drawn::SetBackground(Tone::DarkRed),
                Drawn::Print(" "@),
                Drawn::SetBackground(Tone::Black),
            ]
        } else {
            Seq::<Drawn>::empty()
        }) + line_end()
    } else {
        Seq::empty()
    }
}

/// The number of rows that the filter takes.
pub open spec fn filter_rows(filter: FilterView) -> usize {
    if filter.is_filtering() {
        1
    } else {
        0
    }
}

/// The sign in the header that turns while a screen is waiting.
pub open spec fn spinner_sign(waiting: bool, state: u8) -> u8 {
    if !waiting {
        ' ' as u8
    } else if state % 4 == 0 {
        '-' as u8
    } else if state % 4 == 1 {
        '\\' as u8
    } else if state % 4 == 2 {
        '|' as u8
    } else {
        '/' as u8
    }
}

/// The sign in the header for a state of the spinner.
pub fn spinner(waiting: bool, state: u8) -> (r: u8)
    ensures
        r == spinner_sign(waiting, state),
{
    if !waiting {
        ' ' as u8
    } else if state % 4 == 0 {
        '-' as u8
    } else if state % 4 == 1 {
        '\\' as u8
    } else if state % 4 == 2 {
        '|' as u8
    } else {
        '/' as u8
    }
}

/// The header: in the first row the spinner and the title of the screen;
/// in the last row the help, one text from the left and, where both fit
/// with a column between them, the other up to the right edge. The cursor
/// is left at the start of the second row.
pub open spec fn header_ops(
    viewport_size: (u16, u16),
    title: Seq<char>,
    left_help: Seq<char>,
    right_help: Seq<char>,
    spinner: u8,
) -> Seq<Drawn> {
    seq![
        Drawn::MoveTo(0, 0),
        Drawn::SetBackground(Tone::DarkYellow),
        Drawn::SetForeground(Tone::Black),
        Drawn::Print(" "@),
        Drawn::Print(seq![spinner as char]),
        Drawn::Print(" "@),
        Drawn::SetBackground(Tone::Black),
        Drawn::SetForeground(Tone::DarkYellow),
        Drawn::Print(" "@),
        Drawn::Print(title),
        Drawn::Print(" "@),
        Drawn::SetBackground(Tone::DarkYellow),
        Drawn::ClearUntilNewLine,
    ] + (if viewport_size.1 >= 2 {
        seq![
            Drawn::MoveTo(0, viewport_size.1 - 1),
            Drawn::SetBackground(Tone::Black),
            Drawn::SetForeground(Tone::DarkYellow),
            Drawn::Print(left_help),
            Drawn::ClearUntilNewLine,
        ] + (if left_help.len() + right_help.len() < viewport_size.0 {
            seq![
                Drawn::MoveTo(viewport_size.0 - right_help.len(), viewport_size.1 - 1),
                Drawn::Print(right_help),
            ]
        } else {
            Seq::<Drawn>::empty()
        })
    } else {
        Seq::<Drawn>::empty()
    }) + seq![Drawn::MoveTo(0, 1), Drawn::ResetColor]
}

/// A row of a menu: the text of an entry, on another background where the
/// row is hovered.
pub open spec fn menu_row(text: Seq<char>, hovered: bool) -> Seq<Drawn> {
    if hovered {
        seq![Drawn::SetBackground(Tone::DarkMagenta)] + text_line(text) + seq![
            Drawn::SetBackground(Tone::Black),
        ]
    } else {
        text_line(text)
    }
}

/// What a row of a menu shows of its entry.
pub trait SelectEntryDraw {
    /// The text of the row on a screen of `columns` columns.
    spec fn row_text(&self, columns: int, hovered: bool) -> Seq<char>;

    fn draw(&self, drawer: &mut Drawer, hovered: bool)
        ensures
            final(drawer).size() == old(drawer).size(),
            final(drawer)@ == old(drawer)@.push(
                Drawn::Print(self.row_text(old(drawer).size().0 as int, hovered)),
            ),
    ;
}

/// The rows of a menu for the visible entries at the places from `from` up
/// to `to`.
pub open spec fn menu_rows<E: SelectEntryDraw>(
    entries: Seq<E>,
    visible: Seq<usize>,
    columns: int,
    cursor: int,
    from: int,
    to: int,
) -> Seq<Drawn>
    decreases to - from,
{
    if from >= to {
        Seq::empty()
    } else {
        menu_rows(entries, visible, columns, cursor, from, to - 1) + menu_row(
            entries[visible[to - 1] as int].row_text(columns, to - 1 == cursor),
            to - 1 == cursor,
        )
    }
}

/// The number of rows that a menu has under `header_height` rows of its
/// screen and the header of the program.
pub open spec fn menu_height(viewport_size: (u16, u16), header_height: u16) -> int {
    if viewport_size.1 > 1 + header_height {
        viewport_size.1 - 1 - header_height
    } else {
        0
    }
}

/// The place behind the last row that a menu shows.
pub open spec fn menu_end(select: SelectMenu, height: int, len: int) -> int {
    if select.scroll + height <= len {
        select.scroll + height
    } else {
        len
    }
}

/// A menu: white on black, the visible entries from the scroll offset on,
/// as many as fit, with the hovered row set off.
pub open spec fn menu_ops<E: SelectEntryDraw>(
    viewport_size: (u16, u16),
    select: SelectMenu,
    header_height: u16,
    entries: Seq<E>,
    visible: Seq<usize>,
) -> Seq<Drawn> {
    seq![Drawn::SetBackground(Tone::Black), Drawn::SetForeground(Tone::White)] + menu_rows(
        entries,
        visible,
        viewport_size.0 as int,
        select.cursor as int,
        select.scroll as int,
        menu_end(select, menu_height(viewport_size, header_height), visible.len() as int),
    )
}

/// The drawing operations made so far, and the size of the terminal in
/// columns and rows.
#[derive(Debug)]
pub struct Drawer {
    ops: Vec<DrawOp>,
    viewport_size: (u16, u16),
}

impl View for Drawer {
    type V = Seq<Drawn>;

    closed spec fn view(&self) -> Seq<Drawn> {
        drawn(self.ops@)
    }
}

impl Drawer {
    /// The size of the terminal in columns and rows.
    pub closed spec fn size(&self) -> (u16, u16) {
        self.viewport_size
    }

    /// The size of the terminal in columns and rows.
    pub fn viewport_size(&self) -> (r: (u16, u16))
        ensures
            r == self.size(),
    {
        self.viewport_size
    }

    pub fn new(viewport_size: (u16, u16)) -> (r: Self)
        ensures
            r@ == Seq::<Drawn>::empty(),
            r.size() == viewport_size,
    {
        let r = Drawer { ops: Vec::new(), viewport_size };
        assert(r@ =~= Seq::<Drawn>::empty());
        r
    }

    /// Hands out the operations made so far, in their order.
    pub fn take_ops(&mut self) -> (r: Vec<DrawOp>)
        ensures
            drawn(r@) == old(self)@,
            final(self)@ == Seq::<Drawn>::empty(),
            final(self).size() == old(self).size(),
    {
        let mut ops: Vec<DrawOp> = Vec::new();
        core::mem::swap(&mut self.ops, &mut ops);
        assert(self@ =~= Seq::<Drawn>::empty());
        ops
    }

    fn op(&mut self, op: DrawOp)
        ensures
            final(self).size() == old(self).size(),
            final(self)@ == old(self)@.push(op@),
    {
        self.ops.push(op);
        assert(self@ =~= old(self)@.push(op@));
    }

    /// Prints a text where the cursor stands.
    pub fn print(&mut self, text: String)
        ensures
            final(self).size() == old(self).size(),
            final(self)@ == old(self)@.push(Drawn::Print(text@)),
    {
        self.op(DrawOp::Print(text));
    }

    /// Prints a text where the cursor stands.
    pub fn write(&mut self, text: &str)
        ensures
            final(self).size() == old(self).size(),
            final(self)@ == old(self)@.push(Drawn::Print(text@)),
    {
        self.op(DrawOp::Print(String::from_str(text)));
    }

    /// Puts the cursor at a column and a row.
    pub fn move_to(&mut self, column: u16, row: u16)
        ensures
            final(self).size() == old(self).size(),
            final(self)@ == old(self)@.push(Drawn::MoveTo(column as int, row as int)),
    {
        self.op(DrawOp::MoveTo(column, row));
    }

    /// Ends the row.
    pub fn next_line(&mut self)
        ensures
            final(self).size() == old(self).size(),
            final(self)@ == old(self)@ + line_end(),
    {
        self.op(DrawOp::ClearUntilNewLine);
        self.op(DrawOp::MoveToNextLine);
        assert(self@ =~= old(self)@ + line_end());
    }

    /// Clears what is left of the screen, in black.
    pub fn clear_to_bottom(&mut self)
        ensures
            final(self).size() == old(self).size(),
            final(self)@ == old(self)@ + seq![
                Drawn::SetBackground(Tone::Black),
                Drawn::ClearFromCursorDown,
            ],
    {
        self.op(DrawOp::SetBackground(Tone::Black));
        self.op(DrawOp::ClearFromCursorDown);
        assert(self@ =~= old(self)@ + seq![Drawn::SetBackground(Tone::Black), Drawn::ClearFromCursorDown]);
    }

    /// Draws the header of the program.
    pub fn header(&mut self, title: &str, left_help: &str, right_help: &str, spinner: u8)
        ensures
            final(self).size() == old(self).size(),
            final(self)@ == old(self)@ + header_ops(
                old(self).size(),
                title@,
                left_help@,
                right_help@,
                spinner,
            ),
    {
        let mut sign = String::new();
        push_char(&mut sign, spinner as char);
        assert(sign@ =~= seq![spinner as char]);
        self.op(DrawOp::MoveTo(0, 0));
        self.op(DrawOp::SetBackground(Tone::DarkYellow));
        self.op(DrawOp::SetForeground(Tone::Black));
        self.write(" ");
        self.op(DrawOp::Print(sign));
        self.write(" ");
        self.op(DrawOp::SetBackground(Tone::Black));
        self.op(DrawOp::SetForeground(Tone::DarkYellow));
        self.write(" ");
        self.write(title);
        self.write(" ");
        self.op(DrawOp::SetBackground(Tone::DarkYellow));
        self.op(DrawOp::ClearUntilNewLine);
        let (columns, rows) = self.viewport_size;
        if rows >= 2 {
            self.op(DrawOp::MoveTo(0, rows - 1));
            self.op(DrawOp::SetBackground(Tone::Black));
            self.op(DrawOp::SetForeground(Tone::DarkYellow));
            self.write(left_help);
            self.op(DrawOp::ClearUntilNewLine);
            let left = left_help.unicode_len();
            let right = right_help.unicode_len();
            if left < columns as usize && right < columns as usize - left {
                self.op(DrawOp::MoveTo((columns as usize - right) as u16, rows - 1));
                self.write(right_help);
            }
        }
        self.op(DrawOp::MoveTo(0, 1));
        self.op(DrawOp::ResetColor);
        assert(self@ =~= old(self)@ + header_ops(
            old(self).size(),
            title@,
            left_help@,
            right_help@,
            spinner,
        ));
    }

    /// Draws the lines of a text from its scroll offset on, each in a row
    /// of its own, and says how many these are.
    pub fn output(&mut self, output: &Output) -> (count: usize)
        ensures
            final(self).size() == old(self).size(),
            final(self)@ == old(self)@ + text_lines(shown_lines(output@)),
            count == shown_lines(output@).len(),
    {
        let lines = output.lines_from_scroll();
        let ghost shown = shown_lines(output@);
        assert(texts(lines@).len() == lines@.len());
        assert(shown =~= texts(lines@));
        let mut i: usize = 0;
        assert(shown.take(0) =~= Seq::<Seq<char>>::empty());
        assert(self@ + text_lines(shown.take(0)) =~= self@);
        while i < lines.len()
            invariant
                i <= lines.len(),
                shown == texts(lines@),
                self.size() == old(self).size(),
                self@ == old(self)@ + text_lines(shown.take(i as int)),
            decreases lines.len() - i,
        {
            let ghost before = self@;
            self.write(lines[i].as_str());
            self.next_line();
            proof {
                assert(shown.take(i + 1).drop_last() =~= shown.take(i as int));
                assert(shown.take(i + 1).last() == lines@[i as int]@);
                assert(self@ =~= before + text_line(lines@[i as int]@));
                assert(self@ =~= old(self)@ + text_lines(shown.take(i + 1)));
            }
            i += 1;
        }
        assert(shown.take(lines@.len() as int) =~= shown);
        lines.len()
    }

    /// Draws the line of an input.
    pub fn readline(&mut self, readline: &ReadLine, placeholder: &str)
        ensures
            final(self).size() == old(self).size(),
            final(self)@ == old(self)@ + readline_ops(readline@, placeholder@),
    {
        self.op(DrawOp::SetBackground(Tone::Black));
        self.op(DrawOp::SetForeground(Tone::White));
        if readline.input().is_empty() {
            self.write(placeholder);
        } else {
            self.write(readline.input());
        }
        self.op(DrawOp::SetBackground(Tone::DarkRed));
        self.write(" ");
        self.op(DrawOp::SetBackground(Tone::Black));
        assert(self@ =~= old(self)@ + readline_ops(readline@, placeholder@));
    }

    /// Draws the row of a filter, if it has one, and says how many rows
    /// that took.
    pub fn filter(&mut self, filter: &Filter) -> (rows: usize)
        ensures
            final(self).size() == old(self).size(),
            final(self)@ == old(self)@ + filter_ops(filter@),
            rows == filter_rows(filter@),
    {
        if filter.is_filtering() {
            self.op(DrawOp::SetBackground(Tone::Black));
            self.op(DrawOp::SetForeground(Tone::White));
            self.write("filter: ");
            self.write(filter.as_str());
            if filter.has_focus() {
                self.op(DrawOp::SetBackground(Tone::DarkRed));
                self.write(" ");
                self.op(DrawOp::SetBackground(Tone::Black));
            }
            self.next_line();
            assert(self@ =~= old(self)@ + filter_ops(filter@));
            1
        } else {
            assert(self@ =~= old(self)@ + filter_ops(filter@));
            0
        }
    }

    /// Draws the menu over the visible entries under `header_height` rows
    /// that its screen has drawn above it.
    pub fn select_menu<E: SelectEntryDraw>(
        &mut self,
        select: &SelectMenu,
        header_height: u16,
        entries: &Vec<E>,
        visible: &[usize],
    )
        requires
            crate::widget::filter::valid_listing(visible@, entries@.len() as int),
        ensures
            final(self).size() == old(self).size(),
            final(self)@ == old(self)@ + menu_ops(
                old(self).size(),
                *select,
                header_height,
                entries@,
                visible@,
            ),
    {
        self.op(DrawOp::SetBackground(Tone::Black));
        self.op(DrawOp::SetForeground(Tone::White));
        let rows = self.viewport_size.1;
        let take_count: usize = if rows as usize > 1 + header_height as usize {
            rows as usize - 1 - header_height as usize
        } else {
            0
        };
        let from: usize = select.scroll;
        let to: usize = if visible.len() >= take_count && from <= visible.len() - take_count {
            from + take_count
        } else {
            visible.len()
        };
        let ghost columns = self.viewport_size.0 as int;
        let ghost cursor = select.cursor as int;
        let ghost start = old(self)@ + seq![
            Drawn::SetBackground(Tone::Black),
            Drawn::SetForeground(Tone::White),
        ];
        assert(self@ =~= start);
        assert(to == menu_end(*select, menu_height(self.size(), header_height), visible@.len() as int));
        if from >= to {
            assert(self@ =~= old(self)@ + menu_ops(
                old(self).size(),
                *select,
                header_height,
                entries@,
                visible@,
            ));
            return ;
        }
        let mut i: usize = from;
        assert(start + menu_rows(entries@, visible@, columns, cursor, from as int, from as int) =~= start);
        while i < to
            invariant
                from <= i <= to <= visible@.len(),
                crate::widget::filter::valid_listing(visible@, entries@.len() as int),
                self.size() == old(self).size(),
                columns == old(self).size().0,
                cursor == select.cursor,
                self@ == start + menu_rows(entries@, visible@, columns, cursor, from as int, i as int),
            decreases to - i,
        {
            let hovered = i == select.cursor;
            let ghost before = self@;
            if hovered {
                self.op(DrawOp::SetBackground(Tone::DarkMagenta));
            }
            entries[visible[i]].draw(self, hovered);
            self.next_line();
            if hovered {
                self.op(DrawOp::SetBackground(Tone::Black));
            }
            proof {
                let text = entries@[visible@[i as int] as int].row_text(columns, hovered);
                assert(self@ =~= before + menu_row(text, hovered));
                assert(hovered == (i as int == cursor));
                assert(menu_rows(entries@, visible@, columns, cursor, from as int, i + 1) == menu_rows(
                    entries@,
                    visible@,
                    columns,
                    cursor,
                    from as int,
                    i as int,
                ) + menu_row(text, hovered));
                assert(self@ =~= start + menu_rows(entries@, visible@, columns, cursor, from as int, i + 1));
            }
            i += 1;
        }
        assert(self@ =~= old(self)@ + menu_ops(
            old(self).size(),
            *select,
            header_height,
            entries@,
            visible@,
        ));
    }
}

/// The first `width` characters of a text, or all of it where it has no
/// more.
pub fn clip(text: &str, width: usize) -> (r: String)
    ensures
        r@ == clipped(text@, width as int),
{
    let chars = str_chars(text);
    if width < chars.len() {
        substring(&chars, 0, width)
    } else {
        let r = substring(&chars, 0, chars.len());
        assert(chars@.subrange(0, chars@.len() as int) =~= chars@);
        r
    }
}

/// The last `width` characters of a text behind three dots, or all of the
/// text where it has no more.
pub fn clip_front(text: &str, width: usize) -> (r: String)
    ensures
        r@ == clipped_front(text@, width as int),
{
    let chars = str_chars(text);
    if width < chars.len() {
        let mut r = String::from_str("...");
        let tail = substring(&chars, chars.len() - width, chars.len());
        r.append(tail.as_str());
        assert(chars@.subrange(chars@.len() - width, chars@.len() as int) =~= chars@.skip(
            chars@.len() - width,
        ));
        r
    } else {
        let r = substring(&chars, 0, chars.len());
        assert(chars@.subrange(0, chars@.len() as int) =~= chars@);
        r
    }
}

/// A text of `n` spaces.
pub open spec fn blanks(n: int) -> Seq<char>
    decreases n,
{
    if n <= 0 {
        Seq::empty()
    } else {
        blanks(n - 1).push(' ')
    }
}

/// A text with spaces before it that fill it up to `width` characters.
pub open spec fn padded_left(text: Seq<char>, width: int) -> Seq<char> {
    blanks(width - text.len()) + text
}

/// The text with spaces before it that fill it up to `width` characters.
pub fn pad_left(text: &str, width: usize) -> (r: String)
    ensures
        r@ == padded_left(text@, width as int),
{
    let len = text.unicode_len();
    let fill: usize = width.saturating_sub(len);
    let mut r = String::new();
    let mut i: usize = 0;
    assert(r@ =~= blanks(0));
    while i < fill
        invariant
            i <= fill,
            r@ == blanks(i as int),
        decreases fill - i,
    {
        push_char(&mut r, ' ');
        i += 1;
    }
    assert(blanks(width - len) == blanks(fill as int));
    r.append(text);
    r
}

} // verus!
