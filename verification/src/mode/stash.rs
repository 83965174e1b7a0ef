//! The screen that lists the stashes.

use vstd::prelude::*;
use vstd::string::StringExecFns;
use crate::application::Event;
use crate::backend::{BackendResult, StashEntry};
use crate::job::Job;
use crate::mode::{
    ModeChangeInfo,
    ModeContext,
    ModeInfo,
    ModeKind,
    ModeResponse,
    ModeStatus,
    ModeTrait,
};
use crate::platform::Key;
use crate::text::{decimal, decimal_of};
use crate::ui::{
    Color,
    Drawer,
    Drawn,
    SelectEntryDraw,
    filter_ops,
    filter_rows,
    menu_ops,
    shown_lines,
    text_lines,
};
use crate::widget::entry_list::EntryList;
use crate::widget::output::{Output, OutputView, scroll_after_key};
use crate::widget::select_menu::SelectMenu;

verus! {

/// The answers that the stash screen takes.
#[derive(Debug, PartialEq, Eq)]
pub enum Response {
    /// The stashes, top of the stack first.
    Refresh(BackendResult<Vec<StashEntry>>),
}

/// What the screen is waiting for.
#[derive(Debug, Clone, Copy, PartialEq, Eq, Structural)]
pub enum WaitOperation {
    Refresh,
    Discard,
}

/// Whether the screen is waiting for an answer.
#[derive(Debug, Clone, Copy, PartialEq, Eq, Structural)]
pub enum State {
    Idle,
    Waiting(WaitOperation),
}

impl Default for State {
    fn default() -> (r: Self)
        ensures
            r == State::Idle,
    {
        State::Idle
    }
}

/// A stash is shown by its number in brackets, its branch and its message,
/// each in a colour of its own unless the row is hovered.
impl SelectEntryDraw for StashEntry {
    open spec fn row_text(&self, columns: int, hovered: bool) -> Seq<char> {
        Color::Yellow.or_hovered(hovered).code() + "["@ + decimal_of(self.id as nat) + "] "@
            + Color::Green.or_hovered(hovered).code() + self.branch@ + " "@ + Color::White.or_hovered(
            hovered,
        ).code() + self.message@
    }

    fn draw(&self, drawer: &mut Drawer, hovered: bool)
        ensures
            final(drawer)@ == old(drawer)@.push(
                Drawn::Print(self.row_text(old(drawer).size().0 as int, hovered)),
            ),
    {
        let mut text = String::from_str(Color::Yellow.hovered_or(hovered).as_str());
        text.append("[");
        text.append(decimal(self.id).as_str());
        text.append("] ");
        text.append(Color::Green.hovered_or(hovered).as_str());
        text.append(self.branch.as_str());
        text.append(" ");
        text.append(Color::White.hovered_or(hovered).as_str());
        text.append(self.message.as_str());
        drawer.print(text);
    }
}

/// The stashes, the filter and the cursor over them, and the text of an
/// error that is shown in their place.
#[derive(Debug)]
pub struct Mode {
    pub state: State,
    pub list: EntryList<StashEntry>,
    pub output: Output,
}

impl Mode {
    /// `other` shows the same as this screen.
    pub open spec fn same_as(&self, other: &Self) -> bool {
        &&& other.state == self.state
        &&& self.list.same_as(&other.list)
        &&& other.output == self.output
    }

    /// The screen as it is made, before it is entered.
    pub open spec fn is_new(&self) -> bool {
        &&& self.state == State::Idle
        &&& self.list.is_new()
        &&& self.output@ == (OutputView { text: Seq::empty(), scroll: 0 })
    }

    pub fn new() -> (r: Self)
        ensures
            r.wf(),
            r.is_new(),
    {
        Mode { state: State::Idle, list: EntryList::new(), output: Output::new(String::new()) }
    }

    /// The list is shown, and keys move its cursor, while there is no text
    /// to show in its place.
    pub open spec fn shows_list(&self) -> bool {
        self.output@.text.len() == 0
    }

    /// The menu after the key has moved it, if the list is shown.
    pub open spec fn moved(&self, ctx: &ModeContext, key: Key) -> SelectMenu {
        if self.shows_list() {
            self.list.select.after_key(self.list.visible().len() as usize, ctx.rows(), key)
        } else {
            self.list.select
        }
    }

    /// The index of the entry that the key acts on: the one under the
    /// cursor once the key has moved it.
    pub open spec fn target(&self, ctx: &ModeContext, key: Key) -> Option<usize> {
        if self.moved(ctx, key).cursor < self.list.visible().len() {
            Some(self.list.visible()[self.moved(ctx, key).cursor as int])
        } else {
            None
        }
    }

    /// There is nothing to list and nothing is on its way: the screen says
    /// that there are no stashes.
    pub open spec fn shows_nothing(&self) -> bool {
        self.list.entries@.len() == 0 && self.state == State::Idle && self.shows_list()
    }

    /// Whether the screen has nothing to list and nothing on its way.
    pub fn is_empty(&self) -> (r: bool)
        ensures
            r == self.shows_nothing(),
    {
        self.list.entries.len() == 0 && matches!(self.state, State::Idle) && self.output.text().is_empty()
    }
}

/// A copy of the screen shows the same.
impl Clone for Mode {
    fn clone(&self) -> (r: Self)
        ensures
            self.same_as(&r),
    {
        let list = self.list.clone();
        assert(list.entries@ =~= self.list.entries@);
        Mode {
            state: self.state,
            list,
            output: self.output.clone(),
        }
    }
}

impl Default for Mode {
    fn default() -> (r: Self)
        ensures
            r.wf(),
            r.is_new(),
    {
        Mode::new()
    }
}

impl ModeTrait for Mode {
    open spec fn wf(&self) -> bool {
        self.output.wf() && self.list.wf()
    }

    open spec fn kind(&self) -> ModeKind {
        ModeKind::Stash
    }

    open spec fn waiting(&self) -> bool {
        self.state is Waiting
    }

    /// Asks the backend for the stashes and shows the list it has
    /// meanwhile, unless the screen is waiting already.
    open spec fn entered(
        before: Self,
        after: Self,
        ctx: ModeContext,
        ctx_after: ModeContext,
        info: ModeChangeInfo,
    ) -> bool {
        &&& ctx_after.posted() == ctx.posted()
        &&& before.state is Waiting ==> after == before && ctx_after == ctx
        &&& before.state == State::Idle ==> {
            &&& after.state == State::Waiting(WaitOperation::Refresh)
            &&& after.output@ == (OutputView { text: Seq::empty(), scroll: 0 })
            &&& after.list.filtered()
            &&& after.list.entries == before.list.entries
            &&& after.list.filter@.has_focus == before.list.filter@.has_focus
            &&& after.list.filter@.pattern == before.list.filter@.pattern
            &&& after.list.select == before.list.select.saturated(
                after.list.visible().len() as usize,
            )
            &&& ctx_after.spawned() == ctx.spawned().push(Job::StashRefresh)
        }
    }

    fn on_enter(&mut self, ctx: &mut ModeContext, info: ModeChangeInfo)
        ensures
            Self::entered(*old(self), *final(self), *old(ctx), *final(ctx), info),
    {
        if let State::Waiting(_) = self.state {
            return ;
        }
        self.state = State::Waiting(WaitOperation::Refresh);
        self.output.set(String::new());
        self.list.refilter();
        ctx.spawn(Job::StashRefresh);
    }

    /// While the filter has the focus, the key goes to it and the list is
    /// filtered anew. Otherwise the key moves the cursor of the list, or
    /// scrolls the text shown in its place, and then: `Ctrl-F` gives the
    /// filter the focus, `Enter` moves on to the details of the stash under
    /// the cursor, `p` pops it, `D` drops it.
    open spec fn keyed(
        before: Self,
        after: Self,
        ctx: ModeContext,
        ctx_after: ModeContext,
        key: Key,
        status: ModeStatus,
    ) -> bool {
        &&& status.pending_input == before.list.filter@.has_focus
        &&& after.output@.text == before.output@.text
        &&& after.list.entries == before.list.entries
        &&& before.list.filter@.has_focus ==> {
            &&& after.state == before.state
            &&& after.output == before.output
            &&& after.list.filtered()
            &&& after.list.filter@.has_focus == before.list.filter@.after_key(key).has_focus
            &&& after.list.filter@.pattern == before.list.filter@.after_key(key).pattern
            &&& after.list.select == before.list.select.saturated(
                after.list.visible().len() as usize,
            )
            &&& ctx_after.posted() == ctx.posted()
            &&& ctx_after.spawned() == ctx.spawned()
        }
        &&& !before.list.filter@.has_focus ==> {
            let target = before.target(&ctx, key);
            &&& after.output@.scroll == if before.shows_list() {
                before.output@.scroll
            } else {
                scroll_after_key(
                    before.output@.scroll as int,
                    before.output.lines() as int,
                    ctx.rows() as int,
                    key,
                ) as nat
            }
            &&& after.list.select == before.moved(&ctx, key)
            &&& after.list.filter@ == if key == Key::Ctrl('f') {
                before.list.filter@.entered()
            } else {
                before.list.filter@
            }
            &&& after.state == if key == Key::Char('D') && target is Some {
                State::Waiting(WaitOperation::Discard)
            } else {
                before.state
            }
            &&& ctx_after.posted() == if key == Key::Enter && target is Some {
                ctx.posted().push(
                    Event::ModeChange(
                        ModeKind::StashDetails,
                        ModeChangeInfo {
                            from: ModeKind::Stash,
                            info: Some(ModeInfo::StashDetails(before.list.entries@[target->0 as int].id)),
                        },
                    ),
                )
            } else {
                ctx.posted()
            }
            &&& ctx_after.spawned() == if key == Key::Char('p') && target is Some {
                ctx.spawned().push(Job::StashPop(before.list.entries@[target->0 as int].id))
            } else if key == Key::Char('D') && target is Some {
                ctx.spawned().push(Job::StashDrop(before.list.entries@[target->0 as int].id))
            } else {
                ctx.spawned()
            }
        }
    }

    fn on_key(&mut self, ctx: &mut ModeContext, key: Key) -> (status: ModeStatus)
        ensures
            Self::keyed(*old(self), *final(self), *old(ctx), *final(ctx), key, status),
    {
        if self.list.filter.has_focus() {
            self.list.on_filter_key(key);
            return ModeStatus { pending_input: true };
        }
        let available_height = ctx.available_height();
        if self.output.text().is_empty() {
            self.list.on_key(available_height, key);
        } else {
            self.output.on_key(available_height, key);
        }

        let current_entry_index = self.list.current_entry_index();
        match key {
            Key::Ctrl('f') => self.list.filter.enter(),
            Key::Enter => {
                if let Some(current_entry_index) = current_entry_index {
                    let id = self.list.entries[current_entry_index].id;
                    ctx.event_sender.send_mode_change(
                        ModeKind::StashDetails,
                        ModeChangeInfo::stash(ModeKind::Stash, id),
                    );
                }
            },
            Key::Char('p') => {
                if let Some(current_entry_index) = current_entry_index {
                    let id = self.list.entries[current_entry_index].id;
                    ctx.spawn(Job::StashPop(id));
                }
            },
            Key::Char('D') => {
                if let Some(current_entry_index) = current_entry_index {
                    self.state = State::Waiting(WaitOperation::Discard);
                    let id = self.list.entries[current_entry_index].id;
                    ctx.spawn(Job::StashDrop(id));
                }
            },
            _ => {},
        }
        ModeStatus { pending_input: false }
    }

    fn is_waiting_response(&self) -> (r: bool)
        ensures
            r == self.waiting(),
    {
        match self.state {
            State::Idle => false,
            State::Waiting(_) => true,
        }
    }

    /// A list of stashes replaces the entries, an error is shown in the
    /// list's place, and either ends the waiting.
    open spec fn answered(
        before: Self,
        after: Self,
        ctx: ModeContext,
        ctx_after: ModeContext,
        response: ModeResponse,
    ) -> bool {
        &&& ctx_after == ctx
        &&& after.state == State::Idle
        &&& after.list.filtered()
        &&& after.list.filter@.has_focus == before.list.filter@.has_focus
        &&& after.list.filter@.pattern == before.list.filter@.pattern
        &&& after.list.select == before.list.select.saturated(
            after.list.visible().len() as usize,
        )
        &&& response matches ModeResponse::Stash(Response::Refresh(result)) && match result {
            Ok(entries) => after.list.entries == entries && after.output@ == (OutputView {
                text: Seq::empty(),
                scroll: 0,
            }),
            Err(error) => after.list.entries@.len() == 0 && after.output@ == (OutputView {
                text: error@,
                scroll: 0,
            }),
        }
    }

    fn on_response(&mut self, ctx: &mut ModeContext, response: ModeResponse)
        ensures
            Self::answered(*old(self), *final(self), *old(ctx), *final(ctx), response),
    {
        match response {
            ModeResponse::Stash(Response::Refresh(result)) => {
                self.state = State::Idle;
                match result {
                    Ok(entries) => {
                        self.output.set(String::new());
                        self.list.set_entries(entries);
                    },
                    Err(error) => {
                        self.output.set(error);
                        self.list.set_entries(Vec::new());
                    },
                }
            },
            _ => {},
        }
    }

    open spec fn drawing(&self, viewport_size: (u16, u16)) -> Seq<Drawn> {
        filter_ops(self.list.filter@) + if !self.shows_list() {
            text_lines(shown_lines(self.output@))
        } else if self.list.entries@.len() > 0 {
            menu_ops(
                viewport_size,
                self.list.select,
                filter_rows(self.list.filter@) as u16,
                self.list.entries@,
                self.list.visible(),
            )
        } else if self.state == State::Idle {
            text_lines(seq!["No Stashes!"@])
        } else {
            Seq::empty()
        }
    }

    fn draw(&self, drawer: &mut Drawer)
        ensures
            final(drawer)@ == old(drawer)@ + self.drawing(old(drawer).size()),
    {
        let filter_line_count = drawer.filter(&self.list.filter);
        if self.output.text().is_empty() {
            if self.list.entries.len() == 0 {
                if let State::Idle = self.state {
                    let ghost before = drawer@;
                    drawer.write("No Stashes!");
                    drawer.next_line();
                    assert(seq!["No Stashes!"@].drop_last() =~= Seq::<Seq<char>>::empty());
                    assert(text_lines(seq!["No Stashes!"@]) =~= crate::ui::text_line("No Stashes!"@));
                    assert(drawer@ =~= before + text_lines(seq!["No Stashes!"@]));
                } else {
                    assert(drawer@ + Seq::<Drawn>::empty() =~= drawer@);
                }
            } else {
                drawer.select_menu(
                    &self.list.select,
                    filter_line_count as u16,
                    &self.list.entries,
                    self.list.filter.visible_indices(),
                );
            }
        } else {
            drawer.output(&self.output);
        }
    }

    /// The title of the screen and the two help texts.
    open spec fn header_texts(&self) -> (Seq<char>, Seq<char>, Seq<char>) {
        (
            match self.state {
                State::Idle | State::Waiting(WaitOperation::Refresh) => "stash list"@,
                State::Waiting(WaitOperation::Discard) => "discard"@,
            },
            "[p]pop [enter]details [D]discard"@,
            "[arrows]move [ctrl+f]filter"@,
        )
    }

    fn header(&self) -> (r: (&'static str, &'static str, &'static str))
        ensures
            (r.0@, r.1@, r.2@) == self.header_texts(),
    {
        let name = match self.state {
            State::Idle | State::Waiting(WaitOperation::Refresh) => "stash list",
            State::Waiting(WaitOperation::Discard) => "discard",
        };
        (name, "[p]pop [enter]details [D]discard", "[arrows]move [ctrl+f]filter")
    }
}

} // verus!
