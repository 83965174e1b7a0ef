//! The screen that shows the state of the working copy.

use vstd::prelude::*;
use vstd::string::StringExecFns;
use crate::application::Event;
use crate::backend::{FileStatus, RevisionEntry, StatusInfo};
use crate::job::{Job, spawned_one};
use crate::mode::{
    ModeChangeInfo,
    ModeContext,
    ModeKind,
    ModeResponse,
    ModeStatus,
    ModeTrait,
    is_prompt,
    pushed_one,
};
use crate::mode::message_input::OnSubmit;
use crate::platform::Key;
use crate::text::{push_char, str_chars, substring};
use crate::ui::{
    Color,
    Drawer,
    Drawn,
    SelectEntryDraw,
    clip,
    clipped,
    filter_ops,
    filter_rows,
    line_end,
    menu_ops,
    pad_left,
    padded_left,
    shown_lines,
    text_lines,
};
use crate::widget::entry_list::{EntryList, selected_of, unselected_of, without_selected_from};
use crate::widget::filter::FilterView;
use crate::widget::output::{Output, OutputView, scroll_after_key};

verus! {

/// The answers that the status screen takes.
#[derive(Debug, PartialEq, Eq)]
pub enum Response {
    /// The work asked for is done and nothing is to be shown.
    Idle,
    /// The state of the working copy, or an error in the header's place.
    Refresh(StatusInfo),
    /// The message for a commit.
    Commit(String),
    /// The message for a stash.
    Stash(String),
}

/// What the screen is waiting for.
#[derive(Debug, Clone, Copy, PartialEq, Eq, Structural)]
pub enum WaitOperation {
    Refresh,
    Commit,
    Discard,
    Stash,
    ResolveTakingOurs,
    ResolveTakingTheirs,
}

/// Whether the screen is waiting for an answer.
#[derive(Debug, Clone, Copy, PartialEq, Eq, Structural)]
pub enum State {
    Idle,
    Waiting(WaitOperation),
}

impl Default for State {
    fn default() -> (r: Self)
        ensures
            r == State::Idle,
    {
        State::Idle
    }
}

/// The columns that a row leaves for the name of an entry: what is left
/// beside the mark of the selection, the state in its brackets, the dots
/// of a name that was cut, and the spaces between them.
pub open spec fn name_width(columns: int) -> int {
    if columns > 18 {
        columns - 18
    } else {
        0
    }
}

/// A name as a row shows it: in full if it has no more characters than the
/// row leaves for it, and otherwise three dots and its end, one character
/// more than that.
pub open spec fn shortened(name: Seq<char>, width: int) -> Seq<char> {
    if name.len() > width {
        "..."@ + name.skip(name.len() - width - 1)
    } else {
        name
    }
}

/// An entry is shown by `+` if it is selected, its state in brackets,
/// and its name.
impl SelectEntryDraw for RevisionEntry {
    open spec fn row_text(&self, columns: int, hovered: bool) -> Seq<char> {
        seq![
            if self.selected {
                '+'
            } else {
                ' '
            },
        ] + " ["@ + padded_left(self.status.label(), 9) + "] "@ + shortened(self.name@, name_width(columns))
    }

    fn draw(&self, drawer: &mut Drawer, hovered: bool)
        ensures
            final(drawer)@ == old(drawer)@.push(
                Drawn::Print(self.row_text(old(drawer).size().0 as int, hovered)),
            ),
    {
        let columns = drawer.viewport_size().0 as usize;
        let width: usize = columns.saturating_sub(2 + 1 + FileStatus::max_len() + 1 + 1 + 3 + 1);
        let mut text = String::new();
        push_char(
            &mut text,
            if self.selected {
                '+'
            } else {
                ' '
            },
        );
        text.append(" [");
        text.append(pad_left(self.status.as_str().as_str(), FileStatus::max_len()).as_str());
        text.append("] ");
        let chars = str_chars(self.name.as_str());
        if chars.len() > width {
            text.append("...");
            let tail = substring(&chars, chars.len() - width - 1, chars.len());
            assert(chars@.subrange(chars@.len() - width - 1, chars@.len() as int) =~= chars@.skip(
                chars@.len() - width - 1,
            ));
            text.append(tail.as_str());
        } else {
            text.append(self.name.as_str());
        }
        assert(text@ =~= self.row_text(columns as int, hovered));
        drawer.print(text);
    }
}

/// The changed files of the working copy with the filter and the cursor
/// over them, and the header line or the text of an error.
#[derive(Debug)]
pub struct Mode {
    pub state: State,
    pub list: EntryList<RevisionEntry>,
    pub output: Output,
    pub from: ModeKind,
}

impl Mode {
    /// `other` shows the same as this screen.
    pub open spec fn same_as(&self, other: &Self) -> bool {
        &&& other.state == self.state
        &&& other.from == self.from
        &&& self.list.same_as(&other.list)
        &&& other.output == self.output
    }

    /// The screen as it is made, before it is entered.
    pub open spec fn is_new(&self) -> bool {
        &&& self.state == State::Idle
        &&& self.list.is_new()
        &&& self.from == ModeKind::Status
        &&& self.output@ == (OutputView { text: Seq::empty(), scroll: 0 })
    }

    pub fn new() -> (r: Self)
        ensures
            r.wf(),
            r.is_new(),
    {
        Mode {
            state: State::Idle,
            list: EntryList::new(),
            output: Output::new(String::new()),
            from: ModeKind::Status,
        }
    }

    /// The list takes the keys while the text above it is a header of at
    /// most one line; a longer text is scrolled instead.
    pub open spec fn lists(&self) -> bool {
        self.output.lines() <= 1
    }

    /// The width to which the header line is cut: the columns of the
    /// terminal but one.
    pub open spec fn header_width(viewport_size: (u16, u16)) -> usize {
        if viewport_size.0 >= 2 {
            (viewport_size.0 - 1) as usize
        } else {
            1
        }
    }

    /// What the screen says in place of an empty list.
    pub open spec fn empty_message(&self) -> Seq<char> {
        if self.state == State::Idle {
            "nothing to commit!"@
        } else {
            "working..."@
        }
    }

    /// The rows left for the list under the header line and one empty row.
    pub open spec fn menu_rows(ctx: &ModeContext) -> usize {
        if ctx.rows() >= 2 {
            (ctx.rows() - 2) as usize
        } else {
            0
        }
    }

    /// `mid` is `before` after the widgets have taken the key: the cursor
    /// has moved and selections are turned over, or the text has scrolled.
    pub open spec fn key_moved(before: Mode, mid: Mode, ctx: ModeContext, key: Key) -> bool {
        let visible_len = before.list.visible().len() as usize;
        let moved = before.list.select.after_key(visible_len, Mode::menu_rows(&ctx), key);
        &&& mid.wf()
        &&& mid.state == before.state
        &&& mid.from == before.from
        &&& mid.list.filter == before.list.filter
        &&& mid.output@.text == before.output@.text
        &&& if before.lists() {
            &&& mid.output == before.output
            &&& mid.list.select == moved
            &&& mid.list.entries@ == before.list.entries_after(moved.action_of(visible_len, key))
        } else {
            &&& mid.list == before.list
            &&& mid.output@.scroll == scroll_after_key(
                before.output@.scroll as int,
                before.output.lines() as int,
                ctx.rows() as int,
                key,
            )
        }
    }

    /// `after` is `before` once its selected entries have left the list,
    /// or all entries where none was selected.
    pub open spec fn took_selected(before: Mode, after: Mode) -> bool {
        let left = without_selected_from(
            before.list.entries@,
            before.list.visible(),
            before.list.select.cursor,
            0,
        );
        &&& after.wf()
        &&& after.output == before.output
        &&& after.from == before.from
        &&& after.list.select.scroll == before.list.select.scroll
        &&& if left.entries.len() == before.list.entries@.len() {
            &&& after.list.entries@.len() == 0
            &&& after.list.filter@ == (FilterView {
                has_focus: false,
                pattern: Seq::empty(),
                visible: Seq::empty(),
            })
            &&& after.list.select.cursor == 0
        } else {
            &&& after.list.entries@ == unselected_of(before.list.entries@)
            &&& after.list.visible() == left.visible
            &&& after.list.select.cursor == left.cursor
            &&& after.list.filter@.has_focus == before.list.filter@.has_focus
            &&& after.list.filter@.pattern == before.list.filter@.pattern
        }
    }

    /// `after` is `before` in all but the state.
    pub open spec fn same_but_state(before: Mode, after: Mode) -> bool {
        &&& after.list == before.list
        &&& after.output == before.output
        &&& after.from == before.from
    }

    /// What a key does once the widgets have taken it, on a screen that
    /// lists at least one entry: `c` asks for a commit message and `Ctrl-S`
    /// for a stash message; `A` commits into the last commit; `Enter` moves
    /// on to the diff; and on a screen that is not waiting, `D` discards
    /// and `O` and `T` resolve conflicts by our side and by theirs. Each
    /// acts on the selected entries, or on all where none is selected;
    /// what is committed or discarded leaves the list. `Ctrl-F` gives the
    /// filter the focus on any screen. Nothing else happens.
    pub open spec fn key_acted(
        mid: Mode,
        after: Mode,
        posted_before: Seq<Event>,
        posted_after: Seq<Event>,
        spawned_before: Seq<Job>,
        spawned_after: Seq<Job>,
        key: Key,
    ) -> bool {
        let has = mid.list.entries@.len() > 0;
        let idle = mid.state == State::Idle;
        let selected = selected_of(mid.list.entries@);
        if key == Key::Ctrl('f') {
            &&& after.state == mid.state
            &&& after.output == mid.output
            &&& after.from == mid.from
            &&& after.list.entries == mid.list.entries
            &&& after.list.select == mid.list.select
            &&& after.list.filter@ == mid.list.filter@.entered()
            &&& posted_after == posted_before
            &&& spawned_after == spawned_before
        } else if key == Key::Char('c') && has {
            &&& after == mid
            &&& spawned_after == spawned_before
            &&& pushed_one(posted_before, posted_after)
            &&& is_prompt(
                posted_after.last(),
                ModeKind::Status,
                true,
                "type in the commit message..."@,
                OnSubmit::StatusCommit,
            )
        } else if key == Key::Ctrl('s') && has {
            &&& after == mid
            &&& spawned_after == spawned_before
            &&& pushed_one(posted_before, posted_after)
            &&& is_prompt(
                posted_after.last(),
                ModeKind::Status,
                false,
                "type in the stash message..."@,
                OnSubmit::StatusStash,
            )
        } else if key == Key::Char('A') && has {
            &&& after.state == State::Waiting(WaitOperation::Commit)
            &&& Mode::took_selected(mid, after)
            &&& posted_after == posted_before
            &&& spawned_one(spawned_before, spawned_after)
            &&& spawned_after.last().is_commit(Seq::empty(), selected, true)
        } else if key == Key::Char('D') && has && idle {
            &&& after.state == State::Waiting(WaitOperation::Discard)
            &&& Mode::took_selected(mid, after)
            &&& posted_after == posted_before
            &&& spawned_one(spawned_before, spawned_after)
            &&& spawned_after.last().is_discard(selected)
        } else if key == Key::Char('O') && has && idle {
            &&& after.state == State::Waiting(WaitOperation::ResolveTakingOurs)
            &&& Mode::same_but_state(mid, after)
            &&& posted_after == posted_before
            &&& spawned_one(spawned_before, spawned_after)
            &&& spawned_after.last().is_resolve(true, selected)
        } else if key == Key::Char('T') && has && idle {
            &&& after.state == State::Waiting(WaitOperation::ResolveTakingTheirs)
            &&& Mode::same_but_state(mid, after)
            &&& posted_after == posted_before
            &&& spawned_one(spawned_before, spawned_after)
            &&& spawned_after.last().is_resolve(false, selected)
        } else if key == Key::Enter && has {
            &&& after == mid
            &&& posted_after == posted_before.push(
                Event::ModeChange(ModeKind::Diff, ModeChangeInfo { from: ModeKind::Status, info: None }),
            )
            &&& spawned_one(spawned_before, spawned_after)
            &&& spawned_after.last().is_diff(None, selected)
        } else {
            &&& after == mid
            &&& posted_after == posted_before
            &&& spawned_after == spawned_before
        }
    }

    /// Copies of the selected entries, in their order.
    pub fn get_selected_entries(&self) -> (r: Vec<RevisionEntry>)
        ensures
            r@ == selected_of(self.list.entries@),
    {
        self.list.get_selected_entries()
    }

    /// Takes the selected entries out of the list, or all entries where
    /// none is selected.
    pub fn remove_selected_entries(&mut self)
        requires
            old(self).wf(),
        ensures
            final(self).state == old(self).state,
            Mode::took_selected(*old(self), *final(self)),
    {
        self.list.remove_selected_entries();
    }

    /// Hands the selected entries to the backend for a commit and takes
    /// them out of the list.
    pub fn commit(&mut self, ctx: &mut ModeContext, message: String, amend: bool)
        requires
            old(self).wf(),
        ensures
            final(self).state == State::Waiting(WaitOperation::Commit),
            Mode::took_selected(*old(self), *final(self)),
            final(ctx).viewport_size == old(ctx).viewport_size,
            final(ctx).posted() == old(ctx).posted(),
            spawned_one(old(ctx).spawned(), final(ctx).spawned()),
            final(ctx).spawned().last().is_commit(message@, selected_of(old(self).list.entries@), amend),
    {
        self.state = State::Waiting(WaitOperation::Commit);
        let entries = self.get_selected_entries();
        self.remove_selected_entries();
        ctx.spawn(Job::Commit { message, entries, amend });
        assert(final(ctx).spawned().drop_last() =~= old(ctx).spawned());
    }
}

/// A copy of the screen shows the same.
impl Clone for Mode {
    fn clone(&self) -> (r: Self)
        ensures
            self.same_as(&r),
    {
        let list = self.list.clone();
        assert(list.entries@ =~= self.list.entries@);
        Mode {
            state: self.state,
            from: self.from,
            list,
            output: self.output.clone(),
        }
    }
}

impl Default for Mode {
    fn default() -> (r: Self)
        ensures
            r.wf(),
            r.is_new(),
    {
        Mode::new()
    }
}

impl ModeTrait for Mode {
    open spec fn wf(&self) -> bool {
        self.output.wf() && self.list.wf()
    }

    open spec fn kind(&self) -> ModeKind {
        ModeKind::Status
    }

    open spec fn waiting(&self) -> bool {
        self.state is Waiting
    }

    /// Asks the backend for the status and shows the list it has
    /// meanwhile, unless the screen is waiting already.
    open spec fn entered(
        before: Self,
        after: Self,
        ctx: ModeContext,
        ctx_after: ModeContext,
        info: ModeChangeInfo,
    ) -> bool {
        &&& ctx_after.posted() == ctx.posted()
        &&& before.state is Waiting ==> after == before && ctx_after == ctx
        &&& before.state == State::Idle ==> {
            &&& after.state == State::Waiting(WaitOperation::Refresh)
            &&& after.from == info.from
            &&& after.output@ == (OutputView { text: Seq::empty(), scroll: 0 })
            &&& after.list.filtered()
            &&& after.list.entries == before.list.entries
            &&& after.list.filter@.has_focus == before.list.filter@.has_focus
            &&& after.list.filter@.pattern == before.list.filter@.pattern
            &&& after.list.select == before.list.select.saturated(
                after.list.visible().len() as usize,
            )
            &&& ctx_after.spawned() == ctx.spawned().push(Job::StatusRefresh)
        }
    }

    fn on_enter(&mut self, ctx: &mut ModeContext, info: ModeChangeInfo)
        ensures
            Self::entered(*old(self), *final(self), *old(ctx), *final(ctx), info),
    {
        if let State::Waiting(_) = self.state {
            return ;
        }
        self.state = State::Waiting(WaitOperation::Refresh);
        self.output.set(String::new());
        self.list.refilter();
        self.from = info.from;
        ctx.spawn(Job::StatusRefresh);
    }

    /// While the filter has the focus, the key goes to it and the list is
    /// filtered anew. Otherwise the widgets take the key first, as
    /// `key_moved` says, and then the key acts, as `key_acted` says.
    open spec fn keyed(
        before: Self,
        after: Self,
        ctx: ModeContext,
        ctx_after: ModeContext,
        key: Key,
        status: ModeStatus,
    ) -> bool {
        &&& status.pending_input == before.list.filter@.has_focus
        &&& after.output@.text == before.output@.text
        &&& after.from == before.from
        &&& before.list.filter@.has_focus ==> {
            &&& after.state == before.state
            &&& after.output == before.output
            &&& after.list.filtered()
            &&& after.list.entries == before.list.entries
            &&& after.list.filter@.has_focus == before.list.filter@.after_key(key).has_focus
            &&& after.list.filter@.pattern == before.list.filter@.after_key(key).pattern
            &&& after.list.select == before.list.select.saturated(
                after.list.visible().len() as usize,
            )
            &&& ctx_after.posted() == ctx.posted()
            &&& ctx_after.spawned() == ctx.spawned()
        }
        &&& !before.list.filter@.has_focus ==> exists|mid: Mode| #[trigger]
            Mode::key_moved(before, mid, ctx, key) && Mode::key_acted(
                mid,
                after,
                ctx.posted(),
                ctx_after.posted(),
                ctx.spawned(),
                ctx_after.spawned(),
                key,
            )
    }

    fn on_key(&mut self, ctx: &mut ModeContext, key: Key) -> (status: ModeStatus)
        ensures
            Self::keyed(*old(self), *final(self), *old(ctx), *final(ctx), key, status),
    {
        if self.list.filter.has_focus() {
            self.list.on_filter_key(key);
            return ModeStatus { pending_input: true };
        }
        let available_height = ctx.available_height();
        if self.output.line_count() > 1 {
            self.output.on_key(available_height, key);
        } else {
            let action = self.list.on_key(available_height.saturating_sub(2), key);
            self.list.apply(action);
        }
        let ghost mid = *self;
        assert(Mode::key_moved(*old(self), mid, *old(ctx), key));

        match key {
            Key::Ctrl('f') => self.list.filter.enter(),
            Key::Char('c') => {
                if self.list.entries.len() > 0 {
                    ctx.ask(ModeKind::Status, true, "type in the commit message...", OnSubmit::StatusCommit);
                }
            },
            Key::Char('A') => {
                if self.list.entries.len() > 0 {
                    self.commit(ctx, String::new(), true);
                }
            },
            Key::Char('D') => {
                if matches!(self.state, State::Idle) && self.list.entries.len() > 0 {
                    self.state = State::Waiting(WaitOperation::Discard);
                    let entries = self.get_selected_entries();
                    self.remove_selected_entries();
                    ctx.spawn(Job::Discard(entries));
                    assert(final(ctx).spawned().drop_last() =~= old(ctx).spawned());
                }
            },
            Key::Char('O') => {
                if matches!(self.state, State::Idle) && self.list.entries.len() > 0 {
                    self.state = State::Waiting(WaitOperation::ResolveTakingOurs);
                    let entries = self.get_selected_entries();
                    ctx.spawn(Job::ResolveTakingOurs(entries));
                    assert(final(ctx).spawned().drop_last() =~= old(ctx).spawned());
                }
            },
            Key::Char('T') => {
                if matches!(self.state, State::Idle) && self.list.entries.len() > 0 {
                    self.state = State::Waiting(WaitOperation::ResolveTakingTheirs);
                    let entries = self.get_selected_entries();
                    ctx.spawn(Job::ResolveTakingTheirs(entries));
                    assert(final(ctx).spawned().drop_last() =~= old(ctx).spawned());
                }
            },
            Key::Ctrl('s') => {
                if self.list.entries.len() > 0 {
                    ctx.ask(ModeKind::Status, false, "type in the stash message...", OnSubmit::StatusStash);
                }
            },
            Key::Enter => {
                if self.list.entries.len() > 0 {
                    let entries = self.get_selected_entries();
                    ctx.event_sender.send_mode_change(ModeKind::Diff, ModeChangeInfo::new(ModeKind::Status));
                    ctx.spawn(Job::Diff { revision: None, entries });
                    assert(final(ctx).spawned().drop_last() =~= old(ctx).spawned());
                }
            },
            _ => {},
        }
        assert(Mode::key_acted(
            mid,
            *self,
            old(ctx).posted(),
            final(ctx).posted(),
            old(ctx).spawned(),
            final(ctx).spawned(),
            key,
        ));
        ModeStatus { pending_input: false }
    }

    fn is_waiting_response(&self) -> (r: bool)
        ensures
            r == self.waiting(),
    {
        match self.state {
            State::Idle => false,
            State::Waiting(_) => true,
        }
    }

    /// A status replaces the header and the entries and ends the waiting.
    /// A commit message starts the commit of the selected entries, a stash
    /// message their stash; both take them out of the list. `Idle` ends the
    /// waiting and changes nothing else.
    open spec fn answered(
        before: Self,
        after: Self,
        ctx: ModeContext,
        ctx_after: ModeContext,
        response: ModeResponse,
    ) -> bool {
        &&& ctx_after.posted() == ctx.posted()
        &&& after.from == before.from
        &&& response matches ModeResponse::Status(answer) && match answer {
            Response::Refresh(info) => {
                &&& after.state == State::Idle
                &&& after.output@ == (OutputView { text: info.header@, scroll: 0 })
                &&& after.list.entries == info.entries
                &&& after.list.filtered()
                &&& after.list.filter@.has_focus == before.list.filter@.has_focus
                &&& after.list.filter@.pattern == before.list.filter@.pattern
                &&& after.list.select == before.list.select.saturated(
                    after.list.visible().len() as usize,
                )
                &&& ctx_after.spawned() == ctx.spawned()
            },
            Response::Commit(message) => {
                &&& after.state == State::Waiting(WaitOperation::Commit)
                &&& Mode::took_selected(before, after)
                &&& spawned_one(ctx.spawned(), ctx_after.spawned())
                &&& ctx_after.spawned().last().is_commit(
                    message@,
                    selected_of(before.list.entries@),
                    false,
                )
            },
            Response::Stash(message) => {
                &&& after.state == State::Waiting(WaitOperation::Stash)
                &&& Mode::took_selected(before, after)
                &&& spawned_one(ctx.spawned(), ctx_after.spawned())
                &&& ctx_after.spawned().last().is_stash(message, selected_of(before.list.entries@))
            },
            Response::Idle => {
                &&& after.state == State::Idle
                &&& Mode::same_but_state(before, after)
                &&& ctx_after.spawned() == ctx.spawned()
            },
        }
    }

    fn on_response(&mut self, ctx: &mut ModeContext, response: ModeResponse)
        ensures
            Self::answered(*old(self), *final(self), *old(ctx), *final(ctx), response),
    {
        match response {
            ModeResponse::Status(Response::Refresh(info)) => {
                self.state = State::Idle;
                self.output.set(info.header);
                self.list.set_entries(info.entries);
            },
            ModeResponse::Status(Response::Commit(message)) => {
                self.commit(ctx, message, false);
            },
            ModeResponse::Status(Response::Stash(message)) => {
                self.state = State::Waiting(WaitOperation::Stash);
                let entries = self.get_selected_entries();
                self.remove_selected_entries();
                ctx.spawn(Job::Stash { message, entries });
                assert(final(ctx).spawned().drop_last() =~= old(ctx).spawned());
            },
            ModeResponse::Status(Response::Idle) => {
                self.state = State::Idle;
            },
            _ => {},
        }
    }

    open spec fn drawing(&self, viewport_size: (u16, u16)) -> Seq<Drawn> {
        filter_ops(self.list.filter@) + if !self.lists() {
            text_lines(shown_lines(self.output@))
        } else {
            seq![Drawn::Print(clipped(self.output@.text, Mode::header_width(viewport_size) as int))] + line_end()
                + line_end() + menu_ops(
                viewport_size,
                self.list.select,
                (2 + filter_rows(self.list.filter@)) as u16,
                self.list.entries@,
                self.list.visible(),
            ) + if self.list.entries@.len() == 0 {
                seq![Drawn::Print(Color::Yellow.code() + self.empty_message())]
            } else {
                Seq::<Drawn>::empty()
            }
        }
    }

    fn draw(&self, drawer: &mut Drawer)
        ensures
            final(drawer)@ == old(drawer)@ + self.drawing(old(drawer).size()),
    {
        let filter_line_count = drawer.filter(&self.list.filter);
        if self.output.line_count() > 1 {
            drawer.output(&self.output);
        } else {
            let ghost start = drawer@;
            let viewport_size = drawer.viewport_size();
            let width = (viewport_size.0 as usize).saturating_sub(crate::ui::RESERVED_LINES_COUNT) + 1;
            let header = clip(self.output.text(), width);
            drawer.write(header.as_str());
            drawer.next_line();
            drawer.next_line();
            drawer.select_menu(
                &self.list.select,
                (2 + filter_line_count) as u16,
                &self.list.entries,
                self.list.filter.visible_indices(),
            );
            if self.list.entries.len() == 0 {
                let empty_message = match self.state {
                    State::Idle => "nothing to commit!",
                    _ => "working...",
                };
                let mut text = String::from_str(Color::Yellow.as_str());
                text.append(empty_message);
                drawer.print(text);
            }
            assert(drawer@ =~= old(drawer)@ + self.drawing(old(drawer).size()));
        }
    }

    /// The title of the screen and the two help texts.
    open spec fn header_texts(&self) -> (Seq<char>, Seq<char>, Seq<char>) {
        (
            match self.state {
                State::Idle | State::Waiting(WaitOperation::Refresh) => "status"@,
                State::Waiting(WaitOperation::Commit) => "commit"@,
                State::Waiting(WaitOperation::Stash) => "stash"@,
                State::Waiting(WaitOperation::Discard) => "discard"@,
                State::Waiting(WaitOperation::ResolveTakingOurs) => "resolve taking ours"@,
                State::Waiting(WaitOperation::ResolveTakingTheirs) => "resolve taking theirs"@,
            },
            "[c]commit [A]amend [D]discard [ctrl+s]stash [enter]diff [O]take ours [T]take theirs"@,
            "[arrows]move [space]toggle [a]toggle all [ctrl+f]filter"@,
        )
    }

    fn header(&self) -> (r: (&'static str, &'static str, &'static str))
        ensures
            (r.0@, r.1@, r.2@) == self.header_texts(),
    {
        let name = match self.state {
            State::Idle | State::Waiting(WaitOperation::Refresh) => "status",
            State::Waiting(WaitOperation::Commit) => "commit",
            State::Waiting(WaitOperation::Stash) => "stash",
            State::Waiting(WaitOperation::Discard) => "discard",
            State::Waiting(WaitOperation::ResolveTakingOurs) => "resolve taking ours",
            State::Waiting(WaitOperation::ResolveTakingTheirs) => "resolve taking theirs",
        };
        (
            name,
            "[c]commit [A]amend [D]discard [ctrl+s]stash [enter]diff [O]take ours [T]take theirs",
            "[arrows]move [space]toggle [a]toggle all [ctrl+f]filter",
        )
    }
}

} // verus!
