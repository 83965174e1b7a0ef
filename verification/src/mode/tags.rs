//! The screen that lists the tags.

use vstd::prelude::*;
use crate::backend::{BackendResult, TagEntry};
use crate::job::Job;
use crate::mode::{
    ModeChangeInfo,
    ModeContext,
    ModeKind,
    ModeResponse,
    ModeStatus,
    ModeTrait,
    is_prompt,
    pushed_one,
};
use crate::mode::message_input::OnSubmit;
use crate::platform::Key;
use crate::ui::{Drawer, Drawn, SelectEntryDraw, filter_ops, filter_rows, menu_ops, shown_lines, text_lines};
use crate::widget::entry_list::EntryList;
use crate::widget::filter::listing_without;
use crate::widget::output::{Output, OutputView, scroll_after_key};
use crate::widget::select_menu::SelectMenu;

verus! {

/// The answers that the tags screen takes.
#[derive(Debug, PartialEq, Eq)]
pub enum Response {
    /// The tags, sorted by name.
    Refresh(BackendResult<Vec<TagEntry>>),
    /// A tag was checked out.
    Checkout,
    /// The name for a new tag.
    New(String),
}

/// What the screen is waiting for.
#[derive(Debug, Clone, Copy, PartialEq, Eq, Structural)]
pub enum WaitOperation {
    Refresh,
    New,
    Delete,
}

/// Whether the screen is waiting for an answer.
#[derive(Debug, Clone, Copy, PartialEq, Eq, Structural)]
pub enum State {
    Idle,
    Waiting(WaitOperation),
}

impl Default for State {
    fn default() -> (r: Self)
        ensures
            r == State::Idle,
    {
        State::Idle
    }
}

/// A tag is shown by its name.
impl SelectEntryDraw for TagEntry {
    open spec fn row_text(&self, columns: int, hovered: bool) -> Seq<char> {
        self.name@
    }

    fn draw(&self, drawer: &mut Drawer, hovered: bool)
        ensures
            final(drawer)@ == old(drawer)@.push(
                Drawn::Print(self.row_text(old(drawer).size().0 as int, hovered)),
            ),
    {
        drawer.write(self.name.as_str());
    }
}

/// The tags, the filter and the cursor over them, and the text of an error
/// that is shown in their place.
#[derive(Debug)]
pub struct Mode {
    pub state: State,
    pub list: EntryList<TagEntry>,
    pub output: Output,
}

impl Mode {
    /// `other` shows the same as this screen.
    pub open spec fn same_as(&self, other: &Self) -> bool {
        &&& other.state == self.state
        &&& self.list.same_as(&other.list)
        &&& other.output == self.output
    }

    /// The screen as it is made, before it is entered.
    pub open spec fn is_new(&self) -> bool {
        &&& self.state == State::Idle
        &&& self.list.is_new()
        &&& self.output@ == (OutputView { text: Seq::empty(), scroll: 0 })
    }

    pub fn new() -> (r: Self)
        ensures
            r.wf(),
            r.is_new(),
    {
        Mode { state: State::Idle, list: EntryList::new(), output: Output::new(String::new()) }
    }

    /// The list is shown, and keys move its cursor, while there is no text
    /// to show in its place.
    pub open spec fn shows_list(&self) -> bool {
        self.output@.text.len() == 0
    }

    /// The menu after the key has moved it, if the list is shown.
    pub open spec fn moved(&self, ctx: &ModeContext, key: Key) -> SelectMenu {
        if self.shows_list() {
            self.list.select.after_key(self.list.visible().len() as usize, ctx.rows(), key)
        } else {
            self.list.select
        }
    }

    /// The index of the entry that the key acts on: the one under the
    /// cursor once the key has moved it.
    pub open spec fn target(&self, ctx: &ModeContext, key: Key) -> Option<usize> {
        if self.moved(ctx, key).cursor < self.list.visible().len() {
            Some(self.list.visible()[self.moved(ctx, key).cursor as int])
        } else {
            None
        }
    }
}

/// A copy of the screen shows the same.
impl Clone for Mode {
    fn clone(&self) -> (r: Self)
        ensures
            self.same_as(&r),
    {
        let list = self.list.clone();
        assert(list.entries@ =~= self.list.entries@);
        Mode {
            state: self.state,
            list,
            output: self.output.clone(),
        }
    }
}

impl Default for Mode {
    fn default() -> (r: Self)
        ensures
            r.wf(),
            r.is_new(),
    {
        Mode::new()
    }
}

impl ModeTrait for Mode {
    open spec fn wf(&self) -> bool {
        self.output.wf() && self.list.wf()
    }

    open spec fn kind(&self) -> ModeKind {
        ModeKind::Tags
    }

    open spec fn waiting(&self) -> bool {
        self.state is Waiting
    }

    /// Asks the backend for the tags and shows the list it has meanwhile,
    /// unless the screen is waiting already.
    open spec fn entered(
        before: Self,
        after: Self,
        ctx: ModeContext,
        ctx_after: ModeContext,
        info: ModeChangeInfo,
    ) -> bool {
        &&& ctx_after.posted() == ctx.posted()
        &&& before.state is Waiting ==> after == before && ctx_after == ctx
        &&& before.state == State::Idle ==> {
            &&& after.state == State::Waiting(WaitOperation::Refresh)
            &&& after.output@ == (OutputView { text: Seq::empty(), scroll: 0 })
            &&& after.list.filtered()
            &&& after.list.entries == before.list.entries
            &&& after.list.filter@.has_focus == before.list.filter@.has_focus
            &&& after.list.filter@.pattern == before.list.filter@.pattern
            &&& after.list.select == before.list.select.saturated(
                after.list.visible().len() as usize,
            )
            &&& ctx_after.spawned() == ctx.spawned().push(Job::TagsRefresh)
        }
    }

    fn on_enter(&mut self, ctx: &mut ModeContext, info: ModeChangeInfo)
        ensures
            Self::entered(*old(self), *final(self), *old(ctx), *final(ctx), info),
    {
        if let State::Waiting(_) = self.state {
            return ;
        }
        self.state = State::Waiting(WaitOperation::Refresh);
        self.output.set(String::new());
        self.list.refilter();
        ctx.spawn(Job::TagsRefresh);
    }

    /// While the filter has the focus, the key goes to it and the list is
    /// filtered anew. Otherwise the key moves the cursor of the list, or
    /// scrolls the text shown in its place, and then: `Ctrl-F` gives the
    /// filter the focus, `Enter` checks out the tag under the cursor, `n`
    /// asks for the name of a new tag, `D` deletes the tag under the cursor
    /// and takes it out of the list.
    open spec fn keyed(
        before: Self,
        after: Self,
        ctx: ModeContext,
        ctx_after: ModeContext,
        key: Key,
        status: ModeStatus,
    ) -> bool {
        &&& status.pending_input == before.list.filter@.has_focus
        &&& after.output@.text == before.output@.text
        &&& before.list.filter@.has_focus ==> {
            &&& after.state == before.state
            &&& after.output == before.output
            &&& after.list.filtered()
            &&& after.list.entries == before.list.entries
            &&& after.list.filter@.has_focus == before.list.filter@.after_key(key).has_focus
            &&& after.list.filter@.pattern == before.list.filter@.after_key(key).pattern
            &&& after.list.select == before.list.select.saturated(
                after.list.visible().len() as usize,
            )
            &&& ctx_after.posted() == ctx.posted()
            &&& ctx_after.spawned() == ctx.spawned()
        }
        &&& !before.list.filter@.has_focus ==> {
            &&& after.output@.scroll == if before.shows_list() {
                before.output@.scroll
            } else {
                scroll_after_key(
                    before.output@.scroll as int,
                    before.output.lines() as int,
                    ctx.rows() as int,
                    key,
                ) as nat
            }
            &&& key == Key::Char('D') && before.target(&ctx, key) is Some ==> {
                let i = before.target(&ctx, key)->0;
                &&& after.state == State::Waiting(WaitOperation::Delete)
                &&& after.list.entries@ == before.list.entries@.remove(i as int)
                &&& after.list.visible() == listing_without(before.list.visible(), i)
                &&& after.list.filter@.has_focus == before.list.filter@.has_focus
                &&& after.list.filter@.pattern == before.list.filter@.pattern
                &&& after.list.select == before.moved(&ctx, key).without_entry(
                    before.moved(&ctx, key).cursor,
                )
                &&& ctx_after.posted() == ctx.posted()
                &&& ctx_after.spawned() == ctx.spawned().push(
                    Job::DeleteTag(before.list.entries@[i as int].name),
                )
            }
            &&& !(key == Key::Char('D') && before.target(&ctx, key) is Some) ==> {
                &&& after.state == before.state
                &&& after.list.entries == before.list.entries
                &&& after.list.select == before.moved(&ctx, key)
                &&& after.list.filter@ == if key == Key::Ctrl('f') {
                    before.list.filter@.entered()
                } else {
                    before.list.filter@
                }
                &&& ctx_after.spawned() == if key == Key::Enter && before.target(&ctx, key) is Some {
                    ctx.spawned().push(
                        Job::CheckoutTag(
                            before.list.entries@[before.target(&ctx, key)->0 as int].name,
                        ),
                    )
                } else {
                    ctx.spawned()
                }
                &&& key == Key::Char('n') ==> pushed_one(ctx.posted(), ctx_after.posted()) && is_prompt(
                    ctx_after.posted().last(),
                    ModeKind::Tags,
                    true,
                    "type in the tag name..."@,
                    OnSubmit::TagsNew,
                )
                &&& key != Key::Char('n') ==> ctx_after.posted() == ctx.posted()
            }
        }
    }

    fn on_key(&mut self, ctx: &mut ModeContext, key: Key) -> (status: ModeStatus)
        ensures
            Self::keyed(*old(self), *final(self), *old(ctx), *final(ctx), key, status),
    {
        if self.list.filter.has_focus() {
            self.list.on_filter_key(key);
            return ModeStatus { pending_input: true };
        }
        let available_height = ctx.available_height();
        if self.output.text().is_empty() {
            self.list.on_key(available_height, key);
        } else {
            self.output.on_key(available_height, key);
        }

        let current_entry_index = self.list.current_entry_index();
        match key {
            Key::Ctrl('f') => self.list.filter.enter(),
            Key::Enter => {
                if let Some(current_entry_index) = current_entry_index {
                    let name = self.list.entries[current_entry_index].name.clone();
                    ctx.spawn(Job::CheckoutTag(name));
                }
            },
            Key::Char('n') => {
                ctx.ask(ModeKind::Tags, true, "type in the tag name...", OnSubmit::TagsNew);
            },
            Key::Char('D') => {
                if let Some(current_entry_index) = current_entry_index {
                    self.state = State::Waiting(WaitOperation::Delete);
                    let entry = self.list.remove_entry(current_entry_index);
                    let cursor = self.list.select.cursor;
                    self.list.select.on_remove_entry(cursor);
                    ctx.spawn(Job::DeleteTag(entry.name));
                }
            },
            _ => {},
        }
        ModeStatus { pending_input: false }
    }

    fn is_waiting_response(&self) -> (r: bool)
        ensures
            r == self.waiting(),
    {
        match self.state {
            State::Idle => false,
            State::Waiting(_) => true,
        }
    }

    /// A list of tags replaces the entries, an error is shown in the list's
    /// place, and either ends the waiting. A checkout that is done ends the
    /// waiting too. A name for a new tag is handed on to the backend.
    open spec fn answered(
        before: Self,
        after: Self,
        ctx: ModeContext,
        ctx_after: ModeContext,
        response: ModeResponse,
    ) -> bool {
        &&& ctx_after.posted() == ctx.posted()
        &&& response matches ModeResponse::Tags(answer) && match answer {
            Response::Refresh(result) => {
                &&& after.state == State::Idle
                &&& after.list.filtered()
                &&& after.list.filter@.has_focus == before.list.filter@.has_focus
                &&& after.list.filter@.pattern == before.list.filter@.pattern
                &&& after.list.select == before.list.select.saturated(
                    after.list.visible().len() as usize,
                )
                &&& ctx_after.spawned() == ctx.spawned()
                &&& match result {
                    Ok(entries) => after.list.entries == entries && after.output@ == (
                    OutputView { text: Seq::empty(), scroll: 0 }),
                    Err(error) => after.list.entries@.len() == 0 && after.output@ == (
                    OutputView { text: error@, scroll: 0 }),
                }
            },
            Response::Checkout => {
                &&& after.state == State::Idle
                &&& after.list == before.list
                &&& after.output == before.output
                &&& ctx_after.spawned() == ctx.spawned()
            },
            Response::New(name) => {
                &&& after.state == State::Waiting(WaitOperation::New)
                &&& after.list == before.list
                &&& after.output == before.output
                &&& ctx_after.spawned() == ctx.spawned().push(Job::NewTag(name))
            },
        }
    }

    fn on_response(&mut self, ctx: &mut ModeContext, response: ModeResponse)
        ensures
            Self::answered(*old(self), *final(self), *old(ctx), *final(ctx), response),
    {
        match response {
            ModeResponse::Tags(Response::Refresh(result)) => {
                self.state = State::Idle;
                match result {
                    Ok(entries) => {
                        self.output.set(String::new());
                        self.list.set_entries(entries);
                    },
                    Err(error) => {
                        self.output.set(error);
                        self.list.set_entries(Vec::new());
                    },
                }
            },
            ModeResponse::Tags(Response::Checkout) => {
                self.state = State::Idle;
            },
            ModeResponse::Tags(Response::New(name)) => {
                self.state = State::Waiting(WaitOperation::New);
                ctx.spawn(Job::NewTag(name));
            },
            _ => {},
        }
    }

    open spec fn drawing(&self, viewport_size: (u16, u16)) -> Seq<Drawn> {
        filter_ops(self.list.filter@) + if self.shows_list() {
            menu_ops(
                viewport_size,
                self.list.select,
                filter_rows(self.list.filter@) as u16,
                self.list.entries@,
                self.list.visible(),
            )
        } else {
            text_lines(shown_lines(self.output@))
        }
    }

    fn draw(&self, drawer: &mut Drawer)
        ensures
            final(drawer)@ == old(drawer)@ + self.drawing(old(drawer).size()),
    {
        let filter_line_count = drawer.filter(&self.list.filter);
        if self.output.text().is_empty() {
            drawer.select_menu(
                &self.list.select,
                filter_line_count as u16,
                &self.list.entries,
                self.list.filter.visible_indices(),
            );
        } else {
            drawer.output(&self.output);
        }
    }

    /// The title of the screen and the two help texts.
    open spec fn header_texts(&self) -> (Seq<char>, Seq<char>, Seq<char>) {
        (
            match self.state {
                State::Idle | State::Waiting(WaitOperation::Refresh) => "tags"@,
                State::Waiting(WaitOperation::New) => "new tag"@,
                State::Waiting(WaitOperation::Delete) => "delete tag"@,
            },
            "[enter]checkout [n]new [D]delete"@,
            "[arrows]move [ctrl+f]filter"@,
        )
    }

    fn header(&self) -> (r: (&'static str, &'static str, &'static str))
        ensures
            (r.0@, r.1@, r.2@) == self.header_texts(),
    {
        let name = match self.state {
            State::Idle | State::Waiting(WaitOperation::Refresh) => "tags",
            State::Waiting(WaitOperation::New) => "new tag",
            State::Waiting(WaitOperation::Delete) => "delete tag",
        };
        (name, "[enter]checkout [n]new [D]delete", "[arrows]move [ctrl+f]filter")
    }
}

} // verus!
