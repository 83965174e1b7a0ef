//! The screen that shows the history.

use vstd::prelude::*;
use vstd::string::StringExecFns;
use crate::application::Event;
use crate::backend::{BackendResult, LogEntry};
use crate::job::Job;
use crate::mode::{
    ModeChangeInfo,
    ModeContext,
    ModeInfo,
    ModeKind,
    ModeResponse,
    ModeStatus,
    ModeTrait,
};
use crate::platform::Key;
use crate::ui::{
    Color,
    Drawer,
    Drawn,
    SelectEntryDraw,
    filter_ops,
    filter_rows,
    menu_ops,
    shown_lines,
    text_lines,
};
use crate::widget::entry_list::EntryList;
use crate::widget::output::{Output, OutputView, scroll_after_key};
use crate::widget::select_menu::SelectMenu;

verus! {

/// The answers that the log screen takes.
#[derive(Debug, PartialEq, Eq)]
pub enum Response {
    /// A page of the history and the number of records before it.
    Refresh(BackendResult<(usize, Vec<LogEntry>)>),
}

/// What the screen is waiting for.
#[derive(Debug, Clone, Copy, PartialEq, Eq, Structural)]
pub enum WaitOperation {
    Refresh,
    Checkout,
}

/// Whether the screen is waiting for an answer.
#[derive(Debug, Clone, Copy, PartialEq, Eq, Structural)]
pub enum State {
    Idle,
    Waiting(WaitOperation),
}

impl Default for State {
    fn default() -> (r: Self)
        ensures
            r == State::Idle,
    {
        State::Idle
    }
}

/// A record of the history is shown by its graph, hash, date, author,
/// references and subject, each in a colour of its own unless the row is
/// hovered.
impl SelectEntryDraw for LogEntry {
    open spec fn row_text(&self, columns: int, hovered: bool) -> Seq<char> {
        self.graph@ + Color::Yellow.or_hovered(hovered).code() + self.hash@ + " "@ + Color::Blue.or_hovered(
            hovered,
        ).code() + self.date@ + " "@ + Color::Green.or_hovered(hovered).code() + self.author@
            + Color::Red.or_hovered(hovered).code() + self.refs@ + " "@ + Color::White.or_hovered(
            hovered,
        ).code() + self.message@
    }

    fn draw(&self, drawer: &mut Drawer, hovered: bool)
        ensures
            final(drawer)@ == old(drawer)@.push(
                Drawn::Print(self.row_text(old(drawer).size().0 as int, hovered)),
            ),
    {
        let mut text = self.graph.clone();
        text.append(Color::Yellow.hovered_or(hovered).as_str());
        text.append(self.hash.as_str());
        text.append(" ");
        text.append(Color::Blue.hovered_or(hovered).as_str());
        text.append(self.date.as_str());
        text.append(" ");
        text.append(Color::Green.hovered_or(hovered).as_str());
        text.append(self.author.as_str());
        text.append(Color::Red.hovered_or(hovered).as_str());
        text.append(self.refs.as_str());
        text.append(" ");
        text.append(Color::White.hovered_or(hovered).as_str());
        text.append(self.message.as_str());
        drawer.print(text);
    }
}

/// The history as far as it is loaded. The records in `list` are the
/// first of the history; more are fetched a page at a time when the cursor
/// comes to the end of what is there. `skip` is the number of records in
/// front of the page that came last, and `exhausted` says that this page
/// was empty, so that nothing is left to fetch.
#[derive(Debug)]
pub struct Mode {
    pub state: State,
    pub skip: usize,
    pub exhausted: bool,
    pub list: EntryList<LogEntry>,
    pub output: Output,
}

/// The number of records that are asked for at a time: one for each row of
/// the screen, and one at least.
pub open spec fn page_len(rows: usize) -> usize {
    if rows == 0 {
        1
    } else {
        rows
    }
}

/// The keys that move the cursor of a list towards its end.
pub open spec fn moves_down(key: Key) -> bool {
    key == Key::Down || key == Key::Ctrl('n') || key == Key::Char('j') || key == Key::End || key
        == Key::Ctrl('e') || key == Key::PageDown || key == Key::Ctrl('d')
}

/// Whether the key moves the cursor of a list towards its end.
pub fn is_down(key: Key) -> (r: bool)
    ensures
        r == moves_down(key),
{
    match key {
        Key::Down | Key::Ctrl('n') | Key::Char('j') | Key::End | Key::Ctrl('e') | Key::PageDown | Key::Ctrl(
            'd',
        ) => true,
        _ => false,
    }
}

impl Mode {
    /// `other` shows the same as this screen.
    pub open spec fn same_as(&self, other: &Self) -> bool {
        &&& other.state == self.state
        &&& other.skip == self.skip
        &&& other.exhausted == self.exhausted
        &&& self.list.same_as(&other.list)
        &&& other.output == self.output
    }

    /// The screen as it is made, before it is entered.
    pub open spec fn is_new(&self) -> bool {
        &&& self.state == State::Idle
        &&& self.skip == 0
        &&& !self.exhausted
        &&& self.list.is_new()
        &&& self.output@ == (OutputView { text: Seq::empty(), scroll: 0 })
    }

    pub fn new() -> (r: Self)
        ensures
            r.wf(),
            r.is_new(),
    {
        Mode {
            state: State::Idle,
            skip: 0,
            exhausted: false,
            list: EntryList::new(),
            output: Output::new(String::new()),
        }
    }

    /// The list is shown, and keys move its cursor, while there is no text
    /// to show in its place.
    pub open spec fn shows_list(&self) -> bool {
        self.output@.text.len() == 0
    }

    /// The menu after the key has moved it, if the list is shown.
    pub open spec fn moved(&self, ctx: &ModeContext, key: Key) -> SelectMenu {
        if self.shows_list() {
            self.list.select.after_key(self.list.visible().len() as usize, ctx.rows(), key)
        } else {
            self.list.select
        }
    }

    /// The index of the entry that the key acts on: the one under the
    /// cursor once the key has moved it.
    pub open spec fn target(&self, ctx: &ModeContext, key: Key) -> Option<usize> {
        if self.moved(ctx, key).cursor < self.list.visible().len() {
            Some(self.list.visible()[self.moved(ctx, key).cursor as int])
        } else {
            None
        }
    }

    /// Whether the key makes the screen fetch the next page: the list is
    /// shown and not waiting for anything, more may be left to fetch, and
    /// the key has moved the cursor down to the last visible row, or there
    /// is no row.
    pub open spec fn fetches_more(&self, ctx: &ModeContext, key: Key) -> bool {
        &&& self.shows_list()
        &&& self.state == State::Idle
        &&& !self.exhausted
        &&& moves_down(key)
        &&& self.moved(ctx, key).cursor + 1 >= self.list.visible().len()
    }

    /// The number of records that a reading after a checkout asks for: as
    /// many as are loaded, and a page at least.
    pub open spec fn reload_len(&self, ctx: &ModeContext) -> usize {
        if self.list.entries@.len() > page_len(ctx.rows()) {
            self.list.entries@.len() as usize
        } else {
            page_len(ctx.rows())
        }
    }
}

/// A copy of the screen shows the same.
impl Clone for Mode {
    fn clone(&self) -> (r: Self)
        ensures
            self.same_as(&r),
    {
        let list = self.list.clone();
        assert(list.entries@ =~= self.list.entries@);
        Mode {
            state: self.state,
            skip: self.skip,
            exhausted: self.exhausted,
            list,
            output: self.output.clone(),
        }
    }
}

impl Default for Mode {
    fn default() -> (r: Self)
        ensures
            r.wf(),
            r.is_new(),
    {
        Mode::new()
    }
}

impl ModeTrait for Mode {
    open spec fn wf(&self) -> bool {
        self.output.wf() && self.list.wf()
    }

    open spec fn kind(&self) -> ModeKind {
        ModeKind::Log
    }

    open spec fn waiting(&self) -> bool {
        self.state is Waiting
    }

    /// Asks the backend for the first page of the history and shows the
    /// list it has meanwhile, unless the screen is waiting already.
    open spec fn entered(
        before: Self,
        after: Self,
        ctx: ModeContext,
        ctx_after: ModeContext,
        info: ModeChangeInfo,
    ) -> bool {
        &&& ctx_after.posted() == ctx.posted()
        &&& after.skip == before.skip
        &&& after.exhausted == before.exhausted
        &&& before.state is Waiting ==> after == before && ctx_after == ctx
        &&& before.state == State::Idle ==> {
            &&& after.state == State::Waiting(WaitOperation::Refresh)
            &&& after.output@ == (OutputView { text: Seq::empty(), scroll: 0 })
            &&& after.list.filtered()
            &&& after.list.entries == before.list.entries
            &&& after.list.filter@.has_focus == before.list.filter@.has_focus
            &&& after.list.filter@.pattern == before.list.filter@.pattern
            &&& after.list.select == before.list.select.saturated(after.list.visible().len() as usize)
            &&& ctx_after.spawned() == ctx.spawned().push(
                Job::LogRefresh { skip: 0, len: page_len(ctx.rows()) },
            )
        }
    }

    fn on_enter(&mut self, ctx: &mut ModeContext, info: ModeChangeInfo)
        ensures
            Self::entered(*old(self), *final(self), *old(ctx), *final(ctx), info),
    {
        if let State::Waiting(_) = self.state {
            return ;
        }
        self.state = State::Waiting(WaitOperation::Refresh);
        self.output.set(String::new());
        self.list.refilter();
        let rows = ctx.available_height();
        let len = if rows == 0 {
            1
        } else {
            rows
        };
        ctx.spawn(Job::LogRefresh { skip: 0, len });
    }

    /// While the filter has the focus, the key goes to it and the list is
    /// filtered anew. Otherwise the key moves the cursor of the list, or
    /// scrolls the text shown in its place, and then: `Ctrl-F` gives the
    /// filter the focus; `Enter` moves on to the details of the revision
    /// under the cursor; `c` checks that revision out and reads anew what
    /// is loaded; a key that has moved the cursor down to the end of the
    /// list fetches the page behind what is loaded.
    open spec fn keyed(
        before: Self,
        after: Self,
        ctx: ModeContext,
        ctx_after: ModeContext,
        key: Key,
        status: ModeStatus,
    ) -> bool {
        &&& status.pending_input == before.list.filter@.has_focus
        &&& after.output@.text == before.output@.text
        &&& after.list.entries == before.list.entries
        &&& after.skip == before.skip
        &&& after.exhausted == before.exhausted
        &&& before.list.filter@.has_focus ==> {
            &&& after.state == before.state
            &&& after.output == before.output
            &&& after.list.filtered()
            &&& after.list.filter@.has_focus == before.list.filter@.after_key(key).has_focus
            &&& after.list.filter@.pattern == before.list.filter@.after_key(key).pattern
            &&& after.list.select == before.list.select.saturated(after.list.visible().len() as usize)
            &&& ctx_after.posted() == ctx.posted()
            &&& ctx_after.spawned() == ctx.spawned()
        }
        &&& !before.list.filter@.has_focus ==> {
            let target = before.target(&ctx, key);
            &&& after.output@.scroll == if before.shows_list() {
                before.output@.scroll
            } else {
                scroll_after_key(
                    before.output@.scroll as int,
                    before.output.lines() as int,
                    ctx.rows() as int,
                    key,
                ) as nat
            }
            &&& after.list.select == before.moved(&ctx, key)
            &&& after.list.filter@ == if key == Key::Ctrl('f') {
                before.list.filter@.entered()
            } else {
                before.list.filter@
            }
            &&& after.state == if key == Key::Char('c') && target is Some {
                State::Waiting(WaitOperation::Checkout)
            } else if before.fetches_more(&ctx, key) {
                State::Waiting(WaitOperation::Refresh)
            } else {
                before.state
            }
            &&& ctx_after.posted() == if key == Key::Enter && target is Some {
                ctx.posted().push(
                    Event::ModeChange(
                        ModeKind::RevisionDetails,
                        ModeChangeInfo {
                            from: ModeKind::Log,
                            info: Some(ModeInfo::RevisionDetails(before.list.entries@[target->0 as int].hash)),
                        },
                    ),
                )
            } else {
                ctx.posted()
            }
            &&& ctx_after.spawned() == if key == Key::Char('c') && target is Some {
                ctx.spawned().push(
                    Job::LogCheckout {
                        revision: before.list.entries@[target->0 as int].hash,
                        skip: 0,
                        len: before.reload_len(&ctx),
                    },
                )
            } else if before.fetches_more(&ctx, key) {
                ctx.spawned().push(
                    Job::LogRefresh {
                        skip: before.list.entries@.len() as usize,
                        len: page_len(ctx.rows()),
                    },
                )
            } else {
                ctx.spawned()
            }
        }
    }

    fn on_key(&mut self, ctx: &mut ModeContext, key: Key) -> (status: ModeStatus)
        ensures
            Self::keyed(*old(self), *final(self), *old(ctx), *final(ctx), key, status),
    {
        if self.list.filter.has_focus() {
            self.list.on_filter_key(key);
            return ModeStatus { pending_input: true };
        }
        let available_height = ctx.available_height();
        let page: usize = if available_height == 0 {
            1
        } else {
            available_height
        };
        let shows_list = self.output.text().is_empty();
        if shows_list {
            self.list.on_key(available_height, key);
        } else {
            self.output.on_key(available_height, key);
        }

        let current_entry_index = self.list.current_entry_index();
        match key {
            Key::Ctrl('f') => self.list.filter.enter(),
            Key::Enter => {
                if let Some(current_entry_index) = current_entry_index {
                    let revision = self.list.entries[current_entry_index].hash.clone();
                    ctx.event_sender.send_mode_change(
                        ModeKind::RevisionDetails,
                        ModeChangeInfo::revision(ModeKind::Log, revision),
                    );
                }
            },
            Key::Char('c') => {
                if let Some(current_entry_index) = current_entry_index {
                    self.state = State::Waiting(WaitOperation::Checkout);
                    let revision = self.list.entries[current_entry_index].hash.clone();
                    let len = if self.list.entries.len() > page {
                        self.list.entries.len()
                    } else {
                        page
                    };
                    ctx.spawn(Job::LogCheckout { revision, skip: 0, len });
                }
            },
            _ => {
                if shows_list && matches!(self.state, State::Idle) && !self.exhausted && is_down(key)
                    && self.list.select.cursor >= self.list.filter.visible_indices().len().saturating_sub(1) {
                    self.state = State::Waiting(WaitOperation::Refresh);
                    ctx.spawn(Job::LogRefresh { skip: self.list.entries.len(), len: page });
                }
            },
        }
        ModeStatus { pending_input: false }
    }

    fn is_waiting_response(&self) -> (r: bool)
        ensures
            r == self.waiting(),
    {
        match self.state {
            State::Idle => false,
            State::Waiting(_) => true,
        }
    }

    /// A page of the history is put behind the records in front of it, in
    /// place of what was loaded from there on; an empty page says that
    /// nothing is left to fetch. An error is shown in the list's place.
    /// Either ends the waiting.
    open spec fn answered(
        before: Self,
        after: Self,
        ctx: ModeContext,
        ctx_after: ModeContext,
        response: ModeResponse,
    ) -> bool {
        &&& ctx_after == ctx
        &&& after.state == State::Idle
        &&& after.list.filtered()
        &&& after.list.filter@.has_focus == before.list.filter@.has_focus
        &&& after.list.filter@.pattern == before.list.filter@.pattern
        &&& after.list.select == before.list.select.saturated(after.list.visible().len() as usize)
        &&& response matches ModeResponse::Log(Response::Refresh(result)) && match result {
            Ok(page) => {
                &&& after.skip == page.0
                &&& after.exhausted == (page.1@.len() == 0)
                &&& after.list.entries@ == before.list.entries@.take(
                    if page.0 <= before.list.entries@.len() {
                        page.0 as int
                    } else {
                        before.list.entries@.len() as int
                    },
                ) + page.1@
                &&& after.output@ == (OutputView { text: Seq::empty(), scroll: 0 })
            },
            Err(error) => {
                &&& after.skip == before.skip
                &&& after.exhausted == before.exhausted
                &&& after.list.entries@.len() == 0
                &&& after.output@ == (OutputView { text: error@, scroll: 0 })
            },
        }
    }

    fn on_response(&mut self, ctx: &mut ModeContext, response: ModeResponse)
        ensures
            Self::answered(*old(self), *final(self), *old(ctx), *final(ctx), response),
    {
        match response {
            ModeResponse::Log(Response::Refresh(result)) => {
                self.state = State::Idle;
                match result {
                    Ok((skip, entries)) => {
                        self.skip = skip;
                        self.exhausted = entries.len() == 0;
                        self.output.set(String::new());
                        self.list.splice_entries(skip, entries);
                    },
                    Err(error) => {
                        self.output.set(error);
                        self.list.set_entries(Vec::new());
                    },
                }
            },
            _ => {},
        }
    }

    open spec fn drawing(&self, viewport_size: (u16, u16)) -> Seq<Drawn> {
        filter_ops(self.list.filter@) + if self.shows_list() {
            menu_ops(
                viewport_size,
                self.list.select,
                filter_rows(self.list.filter@) as u16,
                self.list.entries@,
                self.list.visible(),
            )
        } else {
            text_lines(shown_lines(self.output@))
        }
    }

    fn draw(&self, drawer: &mut Drawer)
        ensures
            final(drawer)@ == old(drawer)@ + self.drawing(old(drawer).size()),
    {
        let filter_line_count = drawer.filter(&self.list.filter);
        if self.output.text().is_empty() {
            drawer.select_menu(
                &self.list.select,
                filter_line_count as u16,
                &self.list.entries,
                self.list.filter.visible_indices(),
            );
        } else {
            drawer.output(&self.output);
        }
    }

    /// The title of the screen and the two help texts.
    open spec fn header_texts(&self) -> (Seq<char>, Seq<char>, Seq<char>) {
        (
            match self.state {
                State::Idle | State::Waiting(WaitOperation::Refresh) => "log"@,
                State::Waiting(WaitOperation::Checkout) => "checkout"@,
            },
            "[enter]details [c]checkout"@,
            "[arrows]move [ctrl+f]filter"@,
        )
    }

    fn header(&self) -> (r: (&'static str, &'static str, &'static str))
        ensures
            (r.0@, r.1@, r.2@) == self.header_texts(),
    {
        let name = match self.state {
            State::Idle | State::Waiting(WaitOperation::Refresh) => "log",
            State::Waiting(WaitOperation::Checkout) => "checkout",
        };
        (name, "[enter]details [c]checkout", "[arrows]move [ctrl+f]filter")
    }
}

} // verus!
