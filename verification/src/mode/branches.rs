//! The screen that lists the branches.

use vstd::prelude::*;
use vstd::string::StringExecFns;
use crate::application::Event;
use crate::backend::{BackendResult, BranchEntry};
use crate::job::Job;
use crate::mode::{
    ModeChangeInfo,
    ModeContext,
    ModeKind,
    ModeResponse,
    ModeStatus,
    ModeTrait,
    is_prompt,
    pushed_one,
};
use crate::mode::message_input::OnSubmit;
use crate::platform::Key;
use crate::ui::{Drawer, Drawn, SelectEntryDraw, filter_ops, filter_rows, menu_ops, shown_lines, text_lines};
use crate::widget::entry_list::EntryList;
use crate::widget::filter::listing_without;
use crate::widget::output::{Output, OutputView, scroll_after_key};
use crate::widget::select_menu::SelectMenu;

verus! {

/// The answers that the branches screen takes.
#[derive(Debug, PartialEq, Eq)]
pub enum Response {
    /// The branches, sorted by name.
    Refresh(BackendResult<Vec<BranchEntry>>),
    /// The branch at this index was checked out.
    Checkout(usize),
    /// The name for a new branch.
    New(String),
    /// A merge is done.
    Merge,
}

/// What the screen is waiting for.
#[derive(Debug, Clone, Copy, PartialEq, Eq, Structural)]
pub enum WaitOperation {
    Refresh,
    New,
    Delete,
    Merge,
    Checkout,
}

/// Whether the screen is waiting for an answer.
#[derive(Debug, Clone, Copy, PartialEq, Eq, Structural)]
pub enum State {
    Idle,
    Waiting(WaitOperation),
}

impl Default for State {
    fn default() -> (r: Self)
        ensures
            r == State::Idle,
    {
        State::Idle
    }
}

/// A branch is shown by its name, and the one checked out is marked.
impl SelectEntryDraw for BranchEntry {
    open spec fn row_text(&self, columns: int, hovered: bool) -> Seq<char> {
        self.name@ + if self.checked_out {
            " (checked out)"@
        } else {
            Seq::<char>::empty()
        }
    }

    fn draw(&self, drawer: &mut Drawer, hovered: bool)
        ensures
            final(drawer)@ == old(drawer)@.push(
                Drawn::Print(self.row_text(old(drawer).size().0 as int, hovered)),
            ),
    {
        let mut text = self.name.clone();
        if self.checked_out {
            text.append(" (checked out)");
        } else {
            assert(text@ + Seq::<char>::empty() =~= text@);
        }
        drawer.print(text);
    }
}

/// The branches, the filter and the cursor over them, and the text of an
/// error that is shown in their place.
#[derive(Debug)]
pub struct Mode {
    pub state: State,
    pub list: EntryList<BranchEntry>,
    pub output: Output,
}

/// `i` is the index of the first branch that is marked as checked out.
pub open spec fn first_checked_out(entries: Seq<BranchEntry>, i: int) -> bool {
    &&& 0 <= i < entries.len()
    &&& entries[i].checked_out
    &&& forall|j: int| 0 <= j < i ==> !(#[trigger] entries[j]).checked_out
}

/// The index of the first branch that is marked as checked out.
pub fn checked_out_index(entries: &Vec<BranchEntry>) -> (r: Option<usize>)
    ensures
        match r {
            Some(i) => first_checked_out(entries@, i as int),
            None => forall|j: int| 0 <= j < entries@.len() ==> !(#[trigger] entries@[j]).checked_out,
        },
{
    let mut i: usize = 0;
    while i < entries.len()
        invariant
            i <= entries.len(),
            forall|j: int| 0 <= j < i ==> !(#[trigger] entries@[j]).checked_out,
        decreases entries.len() - i,
    {
        if entries[i].checked_out {
            return Some(i);
        }
        i += 1;
    }
    None
}

/// Marks the branch at `entry_index` as the one checked out, and no other.
pub fn set_checkout(entries: &mut Vec<BranchEntry>, entry_index: usize)
    requires
        entry_index < old(entries)@.len(),
    ensures
        final(entries)@.len() == old(entries)@.len(),
        forall|i: int|
            0 <= i < old(entries)@.len() ==> #[trigger] final(entries)@[i] == (BranchEntry {
                name: old(entries)@[i].name,
                checked_out: i == entry_index,
            }),
{
    let mut i: usize = 0;
    while i < entries.len()
        invariant
            i <= entries.len(),
            entries@.len() == old(entries)@.len(),
            forall|k: int|
                0 <= k < i ==> #[trigger] entries@[k] == (BranchEntry {
                    name: old(entries)@[k].name,
                    checked_out: false,
                }),
            forall|k: int| i <= k < entries@.len() ==> #[trigger] entries@[k] == old(entries)@[k],
        decreases entries.len() - i,
    {
        entries[i].checked_out = false;
        i += 1;
    }
    entries[entry_index].checked_out = true;
}

impl Mode {
    /// `other` shows the same as this screen.
    pub open spec fn same_as(&self, other: &Self) -> bool {
        &&& other.state == self.state
        &&& self.list.same_as(&other.list)
        &&& other.output == self.output
    }

    /// The screen as it is made, before it is entered.
    pub open spec fn is_new(&self) -> bool {
        &&& self.state == State::Idle
        &&& self.list.is_new()
        &&& self.output@ == (OutputView { text: Seq::empty(), scroll: 0 })
    }

    pub fn new() -> (r: Self)
        ensures
            r.wf(),
            r.is_new(),
    {
        Mode { state: State::Idle, list: EntryList::new(), output: Output::new(String::new()) }
    }

    /// The list is shown, and keys move its cursor, while there is no text
    /// to show in its place.
    pub open spec fn shows_list(&self) -> bool {
        self.output@.text.len() == 0
    }

    /// The menu after the key has moved it, if the list is shown.
    pub open spec fn moved(&self, ctx: &ModeContext, key: Key) -> SelectMenu {
        if self.shows_list() {
            self.list.select.after_key(self.list.visible().len() as usize, ctx.rows(), key)
        } else {
            self.list.select
        }
    }

    /// The index of the entry that the key acts on: the one under the
    /// cursor once the key has moved it.
    pub open spec fn target(&self, ctx: &ModeContext, key: Key) -> Option<usize> {
        if self.moved(ctx, key).cursor < self.list.visible().len() {
            Some(self.list.visible()[self.moved(ctx, key).cursor as int])
        } else {
            None
        }
    }

    /// A key that deletes: `d`, or `D` to force it.
    pub open spec fn is_delete(key: Key) -> bool {
        key == Key::Char('d') || key == Key::Char('D')
    }
}

/// A copy of the screen shows the same.
impl Clone for Mode {
    fn clone(&self) -> (r: Self)
        ensures
            self.same_as(&r),
    {
        let list = self.list.clone();
        assert(list.entries@ =~= self.list.entries@);
        Mode {
            state: self.state,
            list,
            output: self.output.clone(),
        }
    }
}

impl Default for Mode {
    fn default() -> (r: Self)
        ensures
            r.wf(),
            r.is_new(),
    {
        Mode::new()
    }
}

impl ModeTrait for Mode {
    open spec fn wf(&self) -> bool {
        self.output.wf() && self.list.wf()
    }

    open spec fn kind(&self) -> ModeKind {
        ModeKind::Branches
    }

    open spec fn waiting(&self) -> bool {
        self.state is Waiting
    }

    /// Asks the backend for the branches and shows the list it has
    /// meanwhile, unless the screen is waiting already.
    open spec fn entered(
        before: Self,
        after: Self,
        ctx: ModeContext,
        ctx_after: ModeContext,
        info: ModeChangeInfo,
    ) -> bool {
        &&& ctx_after.posted() == ctx.posted()
        &&& before.state is Waiting ==> after == before && ctx_after == ctx
        &&& before.state == State::Idle ==> {
            &&& after.state == State::Waiting(WaitOperation::Refresh)
            &&& after.output@ == (OutputView { text: Seq::empty(), scroll: 0 })
            &&& after.list.filtered()
            &&& after.list.entries == before.list.entries
            &&& after.list.filter@.has_focus == before.list.filter@.has_focus
            &&& after.list.filter@.pattern == before.list.filter@.pattern
            &&& after.list.select == before.list.select.saturated(
                after.list.visible().len() as usize,
            )
            &&& ctx_after.spawned() == ctx.spawned().push(Job::BranchesRefresh)
        }
    }

    fn on_enter(&mut self, ctx: &mut ModeContext, info: ModeChangeInfo)
        ensures
            Self::entered(*old(self), *final(self), *old(ctx), *final(ctx), info),
    {
        if let State::Waiting(_) = self.state {
            return ;
        }
        self.state = State::Waiting(WaitOperation::Refresh);
        self.output.set(String::new());
        self.list.refilter();
        ctx.spawn(Job::BranchesRefresh);
    }

    /// While the filter has the focus, the key goes to it and the list is
    /// filtered anew. Otherwise the key moves the cursor of the list, or
    /// scrolls the text shown in its place, and then acts on the branch
    /// under the cursor: `Enter` checks it out, or moves on to the log
    /// where it is checked out already; `d` deletes it and `D` forces that,
    /// and either takes it out of the list; `m` merges it into the branch
    /// checked out. `n` asks for the name of a new branch, and `Ctrl-F`
    /// gives the filter the focus.
    open spec fn keyed(
        before: Self,
        after: Self,
        ctx: ModeContext,
        ctx_after: ModeContext,
        key: Key,
        status: ModeStatus,
    ) -> bool {
        &&& status.pending_input == before.list.filter@.has_focus
        &&& after.output@.text == before.output@.text
        &&& before.list.filter@.has_focus ==> {
            &&& after.state == before.state
            &&& after.output == before.output
            &&& after.list.filtered()
            &&& after.list.entries == before.list.entries
            &&& after.list.filter@.has_focus == before.list.filter@.after_key(key).has_focus
            &&& after.list.filter@.pattern == before.list.filter@.after_key(key).pattern
            &&& after.list.select == before.list.select.saturated(
                after.list.visible().len() as usize,
            )
            &&& ctx_after.posted() == ctx.posted()
            &&& ctx_after.spawned() == ctx.spawned()
        }
        &&& !before.list.filter@.has_focus ==> {
            let target = before.target(&ctx, key);
            &&& after.output@.scroll == if before.shows_list() {
                before.output@.scroll
            } else {
                scroll_after_key(
                    before.output@.scroll as int,
                    before.output.lines() as int,
                    ctx.rows() as int,
                    key,
                ) as nat
            }
            &&& Mode::is_delete(key) && target is Some ==> {
                let i = target->0;
                &&& after.state == State::Waiting(WaitOperation::Delete)
                &&& after.list.entries@ == before.list.entries@.remove(i as int)
                &&& after.list.visible() == listing_without(before.list.visible(), i)
                &&& after.list.filter@.has_focus == before.list.filter@.has_focus
                &&& after.list.filter@.pattern == before.list.filter@.pattern
                &&& after.list.select == before.moved(&ctx, key).without_entry(
                    before.moved(&ctx, key).cursor,
                )
                &&& ctx_after.posted() == ctx.posted()
                &&& ctx_after.spawned() == ctx.spawned().push(
                    Job::DeleteBranch {
                        name: before.list.entries@[i as int].name,
                        force: key == Key::Char('D'),
                    },
                )
            }
            &&& !(Mode::is_delete(key) && target is Some) ==> {
                &&& after.list.entries == before.list.entries
                &&& after.list.select == before.moved(&ctx, key)
                &&& after.list.filter@ == if key == Key::Ctrl('f') {
                    before.list.filter@.entered()
                } else {
                    before.list.filter@
                }
                &&& after.state == if target is None {
                    before.state
                } else if key == Key::Enter && !before.list.entries@[target->0 as int].checked_out {
                    State::Waiting(WaitOperation::Checkout)
                } else if key == Key::Char('m') {
                    State::Waiting(WaitOperation::Merge)
                } else {
                    before.state
                }
                &&& ctx_after.spawned() == if target is None {
                    ctx.spawned()
                } else if key == Key::Enter && !before.list.entries@[target->0 as int].checked_out {
                    ctx.spawned().push(
                        Job::CheckoutBranch {
                            name: before.list.entries@[target->0 as int].name,
                            entry_index: target->0,
                        },
                    )
                } else if key == Key::Char('m') {
                    ctx.spawned().push(Job::MergeBranch(before.list.entries@[target->0 as int].name))
                } else {
                    ctx.spawned()
                }
                &&& key == Key::Char('n') ==> pushed_one(ctx.posted(), ctx_after.posted()) && is_prompt(
                    ctx_after.posted().last(),
                    ModeKind::Branches,
                    true,
                    "type in the branch name..."@,
                    OnSubmit::BranchesNew,
                )
                &&& key != Key::Char('n') ==> ctx_after.posted() == if key == Key::Enter && target is Some
                    && before.list.entries@[target->0 as int].checked_out {
                    ctx.posted().push(
                        Event::ModeChange(
                            ModeKind::Log,
                            ModeChangeInfo { from: ModeKind::Branches, info: None },
                        ),
                    )
                } else {
                    ctx.posted()
                }
            }
        }
    }

    fn on_key(&mut self, ctx: &mut ModeContext, key: Key) -> (status: ModeStatus)
        ensures
            Self::keyed(*old(self), *final(self), *old(ctx), *final(ctx), key, status),
    {
        if self.list.filter.has_focus() {
            self.list.on_filter_key(key);
            return ModeStatus { pending_input: true };
        }
        let available_height = ctx.available_height();
        if self.output.text().is_empty() {
            self.list.on_key(available_height, key);
        } else {
            self.output.on_key(available_height, key);
        }

        let current_entry_index = self.list.current_entry_index();
        match key {
            Key::Ctrl('f') => self.list.filter.enter(),
            Key::Enter => {
                if let Some(current_entry_index) = current_entry_index {
                    if self.list.entries[current_entry_index].checked_out {
                        ctx.event_sender.send_mode_change(ModeKind::Log, ModeChangeInfo::new(ModeKind::Branches));
                    } else {
                        self.state = State::Waiting(WaitOperation::Checkout);
                        let name = self.list.entries[current_entry_index].name.clone();
                        ctx.spawn(Job::CheckoutBranch { name, entry_index: current_entry_index });
                    }
                }
            },
            Key::Char('n') => {
                ctx.ask(ModeKind::Branches, true, "type in the branch name...", OnSubmit::BranchesNew);
            },
            Key::Char('D') | Key::Char('d') => {
                if let Some(current_entry_index) = current_entry_index {
                    self.state = State::Waiting(WaitOperation::Delete);
                    let entry = self.list.remove_entry(current_entry_index);
                    let cursor = self.list.select.cursor;
                    self.list.select.on_remove_entry(cursor);
                    let force = key == Key::Char('D');
                    ctx.spawn(Job::DeleteBranch { name: entry.name, force });
                }
            },
            Key::Char('m') => {
                if let Some(current_entry_index) = current_entry_index {
                    self.state = State::Waiting(WaitOperation::Merge);
                    let name = self.list.entries[current_entry_index].name.clone();
                    ctx.spawn(Job::MergeBranch(name));
                }
            },
            _ => {},
        }
        ModeStatus { pending_input: false }
    }

    fn is_waiting_response(&self) -> (r: bool)
        ensures
            r == self.waiting(),
    {
        match self.state {
            State::Idle => false,
            State::Waiting(_) => true,
        }
    }

    /// A list of branches replaces the entries and puts the cursor on the
    /// branch checked out, if that one is visible; an error is shown in the
    /// list's place; either ends the waiting. A checkout that is done marks
    /// its branch, if the list still has one at that index, and ends the
    /// waiting; a merge that is done ends it too. A name for a new branch
    /// is handed on to the backend.
    open spec fn answered(
        before: Self,
        after: Self,
        ctx: ModeContext,
        ctx_after: ModeContext,
        response: ModeResponse,
    ) -> bool {
        &&& ctx_after.posted() == ctx.posted()
        &&& response matches ModeResponse::Branches(answer) && match answer {
            Response::Refresh(result) => {
                &&& after.state == State::Idle
                &&& after.list.filtered()
                &&& after.list.filter@.has_focus == before.list.filter@.has_focus
                &&& after.list.filter@.pattern == before.list.filter@.pattern
                &&& after.list.select.scroll == before.list.select.scroll
                &&& forall|row: int|
                    0 <= row < after.list.visible().len() && first_checked_out(
                        after.list.entries@,
                        (#[trigger] after.list.visible()[row]) as int,
                    ) ==> after.list.select.cursor == row
                &&& (forall|i: int|
                    first_checked_out(after.list.entries@, i) ==> !after.list.visible().contains(i as usize))
                    ==> after.list.select.cursor == before.list.select.saturated(
                    after.list.visible().len() as usize,
                ).cursor
                &&& ctx_after.spawned() == ctx.spawned()
                &&& match result {
                    Ok(entries) => after.list.entries == entries && after.output@ == (
                    OutputView { text: Seq::empty(), scroll: 0 }),
                    Err(error) => after.list.entries@.len() == 0 && after.output@ == (
                    OutputView { text: error@, scroll: 0 }),
                }
            },
            Response::Checkout(entry_index) => {
                &&& after.state == State::Idle
                &&& after.list.select == before.list.select
                &&& after.list.filter == before.list.filter
                &&& after.output == before.output
                &&& ctx_after.spawned() == ctx.spawned()
                &&& after.list.entries@.len() == before.list.entries@.len()
                &&& entry_index >= before.list.entries@.len() ==> after.list.entries == before.list.entries
                &&& entry_index < before.list.entries@.len() ==> forall|i: int|
                    0 <= i < before.list.entries@.len() ==> #[trigger] after.list.entries@[i] == (
                    BranchEntry { name: before.list.entries@[i].name, checked_out: i == entry_index })
            },
            Response::New(name) => {
                &&& after.state == State::Waiting(WaitOperation::New)
                &&& after.list == before.list
                &&& after.output == before.output
                &&& ctx_after.spawned() == ctx.spawned().push(Job::NewBranch(name))
            },
            Response::Merge => {
                &&& after.state == State::Idle
                &&& after.list == before.list
                &&& after.output == before.output
                &&& ctx_after.spawned() == ctx.spawned()
            },
        }
    }

    fn on_response(&mut self, ctx: &mut ModeContext, response: ModeResponse)
        ensures
            Self::answered(*old(self), *final(self), *old(ctx), *final(ctx), response),
    {
        match response {
            ModeResponse::Branches(Response::Refresh(result)) => {
                self.state = State::Idle;
                match result {
                    Ok(entries) => {
                        self.output.set(String::new());
                        self.list.set_entries(entries);
                    },
                    Err(error) => {
                        self.output.set(error);
                        self.list.set_entries(Vec::new());
                    },
                }
                let ghost saturated = self.list.select;
                let marked = checked_out_index(&self.list.entries);
                if let Some(i) = marked {
                    if let Some(row) = self.list.filter.position_of(i) {
                        self.list.select.cursor = row;
                    }
                }
                proof {
                    let entries = self.list.entries@;
                    let visible = self.list.visible();
                    assert forall|row: int|
                        0 <= row < visible.len() && first_checked_out(
                            entries,
                            (#[trigger] visible[row]) as int,
                        ) implies self.list.select.cursor == row by {
                        let i = marked->0;
                        assert(visible[row] == i);
                        let found = self.list.select.cursor as int;
                        assert(visible[found] == i);
                        if found < row {
                            assert(visible[found] < visible[row]);
                        } else if row < found {
                            assert(visible[row] < visible[found]);
                        }
                    }
                    if forall|i: int| first_checked_out(entries, i) ==> !visible.contains(i as usize) {
                        if marked is Some {
                            assert(first_checked_out(entries, marked->0 as int));
                            assert(!visible.contains(marked->0));
                        }
                        assert(self.list.select == saturated);
                    }
                }
            },
            ModeResponse::Branches(Response::Checkout(entry_index)) => {
                self.state = State::Idle;
                if entry_index < self.list.entries.len() {
                    set_checkout(&mut self.list.entries, entry_index);
                }
            },
            ModeResponse::Branches(Response::Merge) => {
                self.state = State::Idle;
            },
            ModeResponse::Branches(Response::New(name)) => {
                self.state = State::Waiting(WaitOperation::New);
                ctx.spawn(Job::NewBranch(name));
            },
            _ => {},
        }
    }

    open spec fn drawing(&self, viewport_size: (u16, u16)) -> Seq<Drawn> {
        filter_ops(self.list.filter@) + if self.shows_list() {
            menu_ops(
                viewport_size,
                self.list.select,
                filter_rows(self.list.filter@) as u16,
                self.list.entries@,
                self.list.visible(),
            )
        } else {
            text_lines(shown_lines(self.output@))
        }
    }

    fn draw(&self, drawer: &mut Drawer)
        ensures
            final(drawer)@ == old(drawer)@ + self.drawing(old(drawer).size()),
    {
        let filter_line_count = drawer.filter(&self.list.filter);
        if self.output.text().is_empty() {
            drawer.select_menu(
                &self.list.select,
                filter_line_count as u16,
                &self.list.entries,
                self.list.filter.visible_indices(),
            );
        } else {
            drawer.output(&self.output);
        }
    }

    /// The title of the screen and the two help texts.
    open spec fn header_texts(&self) -> (Seq<char>, Seq<char>, Seq<char>) {
        (
            match self.state {
                State::Idle | State::Waiting(WaitOperation::Refresh) => "branches"@,
                State::Waiting(WaitOperation::New) => "new branch"@,
                State::Waiting(WaitOperation::Delete) => "delete branch"@,
                State::Waiting(WaitOperation::Merge) => "merge branch"@,
                State::Waiting(WaitOperation::Checkout) => "checkout"@,
            },
            "[enter]checkout [n]new [d]delete [D]force delete [m]merge"@,
            "[arrows]move [ctrl+f]filter"@,
        )
    }

    fn header(&self) -> (r: (&'static str, &'static str, &'static str))
        ensures
            (r.0@, r.1@, r.2@) == self.header_texts(),
    {
        let name = match self.state {
            State::Idle | State::Waiting(WaitOperation::Refresh) => "branches",
            State::Waiting(WaitOperation::New) => "new branch",
            State::Waiting(WaitOperation::Delete) => "delete branch",
            State::Waiting(WaitOperation::Merge) => "merge branch",
            State::Waiting(WaitOperation::Checkout) => "checkout",
        };
        (name, "[enter]checkout [n]new [d]delete [D]force delete [m]merge", "[arrows]move [ctrl+f]filter")
    }
}

} // verus!
