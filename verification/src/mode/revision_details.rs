//! The screen that shows one revision: its message and its files.

use vstd::prelude::*;
use crate::application::Event;
use crate::backend::{RevisionEntry, RevisionInfo};
use crate::job::{Job, spawned_one};
use crate::mode::{
    ModeChangeInfo,
    ModeContext,
    ModeInfo,
    ModeKind,
    ModeResponse,
    ModeStatus,
    ModeTrait,
};
use crate::platform::Key;
use crate::text::{lines_of, split_lines, str_chars, substring};
use crate::ui::{Drawer, Drawn, clipped, filter_ops, filter_rows, line_end, menu_ops, shown_lines, text_lines};
use crate::widget::entry_list::{EntryList, selected_of};
use crate::widget::filter::FilterView;
use crate::widget::output::{Output, OutputView};
use crate::widget::select_menu::SelectMenu;

verus! {

/// The answers that the revision details take.
#[derive(Debug, PartialEq, Eq)]
pub enum Response {
    /// The revision, or an error in the message's place.
    Info(RevisionInfo),
}

/// Whether the screen is waiting for an answer.
#[derive(Debug, Clone, Copy, PartialEq, Eq, Structural)]
pub enum State {
    Idle,
    Waiting,
}

impl Default for State {
    fn default() -> (r: Self)
        ensures
            r == State::Idle,
    {
        State::Idle
    }
}

/// A revision: its message, its files with the filter and the cursor over
/// them, and whether the message is shown in full.
#[derive(Debug)]
pub struct Mode {
    pub state: State,
    pub list: EntryList<RevisionEntry>,
    pub output: Output,
    pub show_full_message: bool,
    pub revision: String,
    pub from: ModeKind,
}

impl Mode {
    /// `other` shows the same as this screen.
    pub open spec fn same_as(&self, other: &Self) -> bool {
        &&& other.state == self.state
        &&& other.show_full_message == self.show_full_message
        &&& other.from == self.from
        &&& other.revision == self.revision
        &&& self.list.same_as(&other.list)
        &&& other.output == self.output
    }

    /// The screen as it is made, before it is entered.
    pub open spec fn is_new(&self) -> bool {
        &&& self.state == State::Idle
        &&& self.list.is_new()
        &&& !self.show_full_message
        &&& self.revision@ == Seq::<char>::empty()
        &&& self.from == ModeKind::Status
        &&& self.output@ == (OutputView { text: Seq::empty(), scroll: 0 })
    }

    pub fn new() -> (r: Self)
        ensures
            r.wf(),
            r.is_new(),
    {
        Mode {
            state: State::Idle,
            list: EntryList::new(),
            output: Output::new(String::new()),
            show_full_message: false,
            revision: String::new(),
            from: ModeKind::Status,
        }
    }

    /// The first line of the message, or the empty text where it has none.
    pub open spec fn first_line(&self) -> Seq<char> {
        if lines_of(self.output@.text).len() > 0 {
            lines_of(self.output@.text)[0]
        } else {
            Seq::empty()
        }
    }

    /// The number of rows that the screen draws above its menu: the row of
    /// the filter, the rows of the message and an empty row.
    pub open spec fn menu_top(&self, viewport_size: (u16, u16)) -> u16 {
        let message_rows = if self.show_full_message {
            shown_lines(self.output@).len()
        } else {
            1
        };
        if filter_rows(self.list.filter@) + message_rows + 1 > u16::MAX {
            u16::MAX
        } else {
            (filter_rows(self.list.filter@) + message_rows + 1) as u16
        }
    }

    /// The rows that the message takes: all its lines when it is shown in
    /// full, one otherwise.
    pub open spec fn message_rows(&self) -> nat {
        if self.show_full_message {
            self.output.lines()
        } else {
            1
        }
    }

    /// The rows left for the list of files under the message and one empty
    /// row.
    pub open spec fn menu_rows(&self, ctx: &ModeContext) -> usize {
        if ctx.rows() > self.message_rows() + 1 {
            (ctx.rows() - self.message_rows() - 1) as usize
        } else {
            0
        }
    }

    /// The menu after the key has moved it.
    pub open spec fn moved(&self, ctx: &ModeContext, key: Key) -> SelectMenu {
        self.list.select.after_key(self.list.visible().len() as usize, self.menu_rows(ctx), key)
    }

    /// The entries after the key has turned selections over.
    pub open spec fn toggled(&self, ctx: &ModeContext, key: Key) -> Seq<RevisionEntry> {
        self.list.entries_after(self.moved(ctx, key).action_of(self.list.visible().len() as usize, key))
    }
}

/// A copy of the screen shows the same.
impl Clone for Mode {
    fn clone(&self) -> (r: Self)
        ensures
            self.same_as(&r),
    {
        let list = self.list.clone();
        assert(list.entries@ =~= self.list.entries@);
        Mode {
            state: self.state,
            show_full_message: self.show_full_message,
            from: self.from,
            revision: self.revision.clone(),
            list,
            output: self.output.clone(),
        }
    }
}

impl Default for Mode {
    fn default() -> (r: Self)
        ensures
            r.wf(),
            r.is_new(),
    {
        Mode::new()
    }
}

impl ModeTrait for Mode {
    open spec fn wf(&self) -> bool {
        self.output.wf() && self.list.wf()
    }

    open spec fn kind(&self) -> ModeKind {
        ModeKind::RevisionDetails
    }

    open spec fn waiting(&self) -> bool {
        self.state == State::Waiting
    }

    /// Takes the revision to show, or keeps the one it has where it is
    /// given none; starts over with an empty message, no filter and the
    /// cursor at the top; and asks the backend for the revision. A screen
    /// that is waiting already stays as it is.
    open spec fn entered(
        before: Self,
        after: Self,
        ctx: ModeContext,
        ctx_after: ModeContext,
        info: ModeChangeInfo,
    ) -> bool {
        &&& ctx_after.posted() == ctx.posted()
        &&& before.state == State::Waiting ==> after == before && ctx_after == ctx
        &&& before.state == State::Idle ==> {
            let revision = match info.info {
                Some(ModeInfo::RevisionDetails(revision)) => revision,
                _ => before.revision,
            };
            &&& after.state == State::Waiting
            &&& after.from == info.from
            &&& after.revision == revision
            &&& !after.show_full_message
            &&& after.output@ == (OutputView { text: Seq::empty(), scroll: 0 })
            &&& after.list.entries == before.list.entries
            &&& after.list.filter@ == (FilterView {
                has_focus: false,
                pattern: Seq::empty(),
                visible: Seq::empty(),
            })
            &&& after.list.select == (SelectMenu { cursor: 0, scroll: before.list.select.scroll })
            &&& ctx_after.spawned() == ctx.spawned().push(Job::RevisionDetails(revision))
        }
    }

    fn on_enter(&mut self, ctx: &mut ModeContext, info: ModeChangeInfo)
        ensures
            Self::entered(*old(self), *final(self), *old(ctx), *final(ctx), info),
    {
        if let State::Waiting = self.state {
            return ;
        }
        self.state = State::Waiting;
        self.output.set(String::new());
        self.list.filter.clear();
        self.list.select.cursor = 0;
        self.show_full_message = false;
        self.from = info.from;
        if let Some(ModeInfo::RevisionDetails(revision)) = info.info {
            self.revision = revision;
        }
        ctx.spawn(Job::RevisionDetails(self.revision.clone()));
    }

    /// While the filter has the focus, the key goes to it and the list is
    /// filtered anew. While waiting, other keys do nothing. Otherwise the
    /// key moves the cursor of the list and turns selections over, and
    /// then: `Ctrl-F` gives the filter the focus, `Tab` shows the message
    /// in full or in one line, `Enter` moves on to the diff of the selected
    /// files, or of all where none is selected or listed files are none.
    open spec fn keyed(
        before: Self,
        after: Self,
        ctx: ModeContext,
        ctx_after: ModeContext,
        key: Key,
        status: ModeStatus,
    ) -> bool {
        &&& status.pending_input == before.list.filter@.has_focus
        &&& after.state == before.state
        &&& after.output == before.output
        &&& after.revision == before.revision
        &&& after.from == before.from
        &&& after.list.entries@.len() == before.list.entries@.len()
        &&& before.list.filter@.has_focus ==> {
            &&& after.show_full_message == before.show_full_message
            &&& after.list.filtered()
            &&& after.list.entries == before.list.entries
            &&& after.list.filter@.has_focus == before.list.filter@.after_key(key).has_focus
            &&& after.list.filter@.pattern == before.list.filter@.after_key(key).pattern
            &&& after.list.select == before.list.select.saturated(
                after.list.visible().len() as usize,
            )
            &&& ctx_after.posted() == ctx.posted()
            &&& ctx_after.spawned() == ctx.spawned()
        }
        &&& !before.list.filter@.has_focus && before.state == State::Waiting ==> {
            &&& after == before
            &&& ctx_after.posted() == ctx.posted()
            &&& ctx_after.spawned() == ctx.spawned()
        }
        &&& !before.list.filter@.has_focus && before.state == State::Idle ==> {
            let moves_on = key == Key::Enter && before.list.entries@.len() > 0;
            &&& after.list.select == before.moved(&ctx, key)
            &&& after.list.entries@ == before.toggled(&ctx, key)
            &&& after.list.filter@ == if key == Key::Ctrl('f') {
                before.list.filter@.entered()
            } else {
                before.list.filter@
            }
            &&& after.show_full_message == if key == Key::Tab {
                !before.show_full_message
            } else {
                before.show_full_message
            }
            &&& ctx_after.posted() == if moves_on {
                ctx.posted().push(
                    Event::ModeChange(
                        ModeKind::Diff,
                        ModeChangeInfo { from: ModeKind::RevisionDetails, info: None },
                    ),
                )
            } else {
                ctx.posted()
            }
            &&& moves_on ==> {
                &&& spawned_one(ctx.spawned(), ctx_after.spawned())
                &&& ctx_after.spawned().last().is_diff(
                    Some(before.revision),
                    selected_of(before.list.entries@),
                )
            }
            &&& !moves_on ==> ctx_after.spawned() == ctx.spawned()
        }
    }

    fn on_key(&mut self, ctx: &mut ModeContext, key: Key) -> (status: ModeStatus)
        ensures
            Self::keyed(*old(self), *final(self), *old(ctx), *final(ctx), key, status),
    {
        if self.list.filter.has_focus() {
            self.list.on_filter_key(key);
            return ModeStatus { pending_input: true };
        }
        if let State::Idle = self.state {
            let available_height = ctx.available_height();
            let line_count = if self.show_full_message {
                self.output.line_count()
            } else {
                1
            };
            let action = self.list.on_key(available_height.saturating_sub(line_count.saturating_add(1)), key);
            self.list.apply(action);

            match key {
                Key::Ctrl('f') => self.list.filter.enter(),
                Key::Tab => {
                    self.show_full_message = !self.show_full_message;
                },
                Key::Enter => {
                    if self.list.entries.len() > 0 {
                        let entries = self.list.get_selected_entries();
                        let revision = self.revision.clone();
                        ctx.event_sender.send_mode_change(
                            ModeKind::Diff,
                            ModeChangeInfo::new(ModeKind::RevisionDetails),
                        );
                        ctx.spawn(Job::Diff { revision: Some(revision), entries });
                        assert(final(ctx).spawned().drop_last() =~= old(ctx).spawned());
                    }
                },
                _ => {},
            }
        }
        ModeStatus { pending_input: false }
    }

    fn is_waiting_response(&self) -> (r: bool)
        ensures
            r == self.waiting(),
    {
        match self.state {
            State::Idle => false,
            State::Waiting => true,
        }
    }

    /// Shows the message and lists the files of the revision, and stops
    /// waiting.
    open spec fn answered(
        before: Self,
        after: Self,
        ctx: ModeContext,
        ctx_after: ModeContext,
        response: ModeResponse,
    ) -> bool {
        &&& ctx_after == ctx
        &&& after.state == State::Idle
        &&& after.revision == before.revision
        &&& after.from == before.from
        &&& after.show_full_message == before.show_full_message
        &&& after.list.filtered()
        &&& after.list.filter@.has_focus == before.list.filter@.has_focus
        &&& after.list.filter@.pattern == before.list.filter@.pattern
        &&& after.list.select == before.list.select.saturated(
            after.list.visible().len() as usize,
        )
        &&& response matches ModeResponse::RevisionDetails(Response::Info(info)) && {
            &&& after.list.entries == info.entries
            &&& after.output@ == (OutputView { text: info.message@, scroll: 0 })
        }
    }

    fn on_response(&mut self, ctx: &mut ModeContext, response: ModeResponse)
        ensures
            Self::answered(*old(self), *final(self), *old(ctx), *final(ctx), response),
    {
        match response {
            ModeResponse::RevisionDetails(Response::Info(info)) => {
                self.state = State::Idle;
                self.output.set(info.message);
                self.list.set_entries(info.entries);
            },
            _ => {},
        }
    }

    open spec fn drawing(&self, viewport_size: (u16, u16)) -> Seq<Drawn> {
        filter_ops(self.list.filter@) + if self.show_full_message {
            text_lines(shown_lines(self.output@))
        } else {
            seq![Drawn::Print(clipped(self.first_line(), viewport_size.0 as int))] + line_end()
        } + if self.state == State::Idle {
            line_end() + menu_ops(
                viewport_size,
                self.list.select,
                self.menu_top(viewport_size),
                self.list.entries@,
                self.list.visible(),
            )
        } else {
            Seq::<Drawn>::empty()
        }
    }

    fn draw(&self, drawer: &mut Drawer)
        ensures
            final(drawer)@ == old(drawer)@ + self.drawing(old(drawer).size()),
    {
        let filter_line_count = drawer.filter(&self.list.filter);
        let viewport_size = drawer.viewport_size();
        let line_count: usize = if self.show_full_message {
            drawer.output(&self.output)
        } else {
            let chars = str_chars(self.output.text());
            let lines = split_lines(&chars);
            let width = viewport_size.0 as usize;
            let first = if lines.len() == 0 {
                String::new()
            } else if width < lines[0].len() {
                assert(crate::text::rows(lines@)[0] == lines@[0]@);
                substring(&lines[0], 0, width)
            } else {
                assert(crate::text::rows(lines@)[0] == lines@[0]@);
                let first = substring(&lines[0], 0, lines[0].len());
                assert(lines@[0]@.subrange(0, lines@[0]@.len() as int) =~= lines@[0]@);
                first
            };
            assert(crate::text::rows(lines@).len() == lines@.len());
            drawer.write(first.as_str());
            drawer.next_line();
            1
        };
        if let State::Idle = self.state {
            drawer.next_line();
            let above: usize = filter_line_count.saturating_add(line_count).saturating_add(1);
            let header_height: u16 = if above > u16::MAX as usize {
                u16::MAX
            } else {
                above as u16
            };
            drawer.select_menu(
                &self.list.select,
                header_height,
                &self.list.entries,
                self.list.filter.visible_indices(),
            );
        }
        assert(drawer@ =~= old(drawer)@ + self.drawing(old(drawer).size()));
    }

    /// The title of the screen and the two help texts.
    open spec fn header_texts(&self) -> (Seq<char>, Seq<char>, Seq<char>) {
        (
            "revision details"@,
            "[enter]diff"@,
            "[tab]full message [Left]back [arrows]move [space]toggle [a]toggle all [ctrl+f]filter"@,
        )
    }

    fn header(&self) -> (r: (&'static str, &'static str, &'static str))
        ensures
            (r.0@, r.1@, r.2@) == self.header_texts(),
    {
        (
            "revision details",
            "[enter]diff",
            "[tab]full message [Left]back [arrows]move [space]toggle [a]toggle all [ctrl+f]filter",
        )
    }
}

} // verus!
