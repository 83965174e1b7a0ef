//! The screen that shows what one stash holds.

use vstd::prelude::*;
use crate::application::Event;
use crate::backend::BackendResult;
use crate::job::Job;
use crate::mode::{
    ModeChangeInfo,
    ModeContext,
    ModeInfo,
    ModeKind,
    ModeResponse,
    ModeStatus,
    ModeTrait,
};
use crate::platform::Key;
use crate::ui::{Drawer, Drawn, shown_lines, text_lines};
use crate::widget::output::{Output, OutputView, scroll_after_key};

verus! {

/// The answers that the stash details take.
#[derive(Debug, PartialEq, Eq)]
pub enum Response {
    /// The summary of the stash, or the error.
    Refresh(BackendResult<String>),
}

/// Whether the screen is waiting for an answer.
#[derive(Debug, Clone, Copy, PartialEq, Eq, Structural)]
pub enum State {
    Idle,
    Waiting,
}

impl Default for State {
    fn default() -> (r: Self)
        ensures
            r == State::Idle,
    {
        State::Idle
    }
}

/// The summary of one stash, and the screen that asked for it.
#[derive(Debug)]
pub struct Mode {
    pub state: State,
    pub output: Output,
    pub stash_id: usize,
    pub from: ModeKind,
}

/// The text that an answer brings: the summary, or the error in its place.
pub open spec fn answer_text(result: BackendResult<String>) -> Seq<char> {
    match result {
        Ok(info) => info@,
        Err(error) => error@,
    }
}

impl Mode {
    /// `other` shows the same as this screen.
    pub open spec fn same_as(&self, other: &Self) -> bool {
        *other == *self
    }

    /// The screen as it is made, before it is entered.
    pub open spec fn is_new(&self) -> bool {
        &&& self.state == State::Idle
        &&& self.stash_id == 0
        &&& self.from == ModeKind::Status
        &&& self.output@ == (OutputView { text: Seq::empty(), scroll: 0 })
    }

    pub fn new() -> (r: Self)
        ensures
            r.wf(),
            r.is_new(),
    {
        Mode { state: State::Idle, output: Output::new(String::new()), stash_id: 0, from: ModeKind::Status }
    }

    /// A key that leads back to the screen before: `Left` or `q`.
    pub open spec fn is_back(key: Key) -> bool {
        key == Key::Left || key == Key::Char('q')
    }
}

/// A copy of the screen shows the same.
impl Clone for Mode {
    fn clone(&self) -> (r: Self)
        ensures
            self.same_as(&r),
    {
        Mode { state: self.state, output: self.output.clone(), stash_id: self.stash_id, from: self.from }
    }
}

impl Default for Mode {
    fn default() -> (r: Self)
        ensures
            r.wf(),
            r.is_new(),
    {
        Mode::new()
    }
}

impl ModeTrait for Mode {
    open spec fn wf(&self) -> bool {
        self.output.wf()
    }

    open spec fn kind(&self) -> ModeKind {
        ModeKind::StashDetails
    }

    open spec fn waiting(&self) -> bool {
        self.state == State::Waiting
    }

    /// Takes the stash to show, or keeps the one it has where it is given
    /// none; empties the text; and asks the backend for the summary. A
    /// screen that is waiting already stays as it is.
    open spec fn entered(
        before: Self,
        after: Self,
        ctx: ModeContext,
        ctx_after: ModeContext,
        info: ModeChangeInfo,
    ) -> bool {
        &&& ctx_after.posted() == ctx.posted()
        &&& before.state == State::Waiting ==> after == before && ctx_after == ctx
        &&& before.state == State::Idle ==> {
            let id = match info.info {
                Some(ModeInfo::StashDetails(id)) => id,
                _ => before.stash_id,
            };
            &&& after.state == State::Waiting
            &&& after.from == info.from
            &&& after.stash_id == id
            &&& after.output@ == (OutputView { text: Seq::empty(), scroll: 0 })
            &&& ctx_after.spawned() == ctx.spawned().push(Job::StashShow(id))
        }
    }

    fn on_enter(&mut self, ctx: &mut ModeContext, info: ModeChangeInfo)
        ensures
            Self::entered(*old(self), *final(self), *old(ctx), *final(ctx), info),
    {
        if let State::Waiting = self.state {
            return ;
        }
        self.state = State::Waiting;
        self.output.set(String::new());
        self.from = info.from;
        if let Some(ModeInfo::StashDetails(id)) = info.info {
            self.stash_id = id;
        }
        ctx.spawn(Job::StashShow(self.stash_id));
    }

    /// While waiting, keys do nothing. Otherwise a text of more than one
    /// line scrolls; `Enter` moves on to the diff of the stash and asks the
    /// backend for it; `Left` or `q` asks for the screen before.
    open spec fn keyed(
        before: Self,
        after: Self,
        ctx: ModeContext,
        ctx_after: ModeContext,
        key: Key,
        status: ModeStatus,
    ) -> bool {
        &&& !status.pending_input
        &&& after.state == before.state
        &&& after.from == before.from
        &&& after.stash_id == before.stash_id
        &&& after.output@.text == before.output@.text
        &&& after.output@.scroll == if before.state == State::Idle && before.output.lines() > 1 {
            scroll_after_key(
                before.output@.scroll as int,
                before.output.lines() as int,
                ctx.rows() as int,
                key,
            ) as nat
        } else {
            before.output@.scroll
        }
        &&& ctx_after.posted() == if before.state == State::Idle && key == Key::Enter {
            ctx.posted().push(
                Event::ModeChange(
                    ModeKind::Diff,
                    ModeChangeInfo { from: ModeKind::StashDetails, info: None },
                ),
            )
        } else if before.state == State::Idle && Mode::is_back(key) {
            ctx.posted().push(Event::ModeRevert)
        } else {
            ctx.posted()
        }
        &&& ctx_after.spawned() == if before.state == State::Idle && key == Key::Enter {
            ctx.spawned().push(Job::StashDiff(before.stash_id))
        } else {
            ctx.spawned()
        }
    }

    fn on_key(&mut self, ctx: &mut ModeContext, key: Key) -> (status: ModeStatus)
        ensures
            Self::keyed(*old(self), *final(self), *old(ctx), *final(ctx), key, status),
    {
        if let State::Idle = self.state {
            if self.output.line_count() > 1 {
                let available_height = ctx.available_height();
                self.output.on_key(available_height, key);
            }
            match key {
                Key::Enter => {
                    ctx.event_sender.send_mode_change(ModeKind::Diff, ModeChangeInfo::new(ModeKind::StashDetails));
                    ctx.spawn(Job::StashDiff(self.stash_id));
                },
                Key::Char('q') | Key::Left => ctx.event_sender.send_mode_revert(),
                _ => {},
            }
        }
        ModeStatus { pending_input: false }
    }

    fn is_waiting_response(&self) -> (r: bool)
        ensures
            r == self.waiting(),
    {
        match self.state {
            State::Idle => false,
            State::Waiting => true,
        }
    }

    /// Shows the summary, or the error in its place, and stops waiting.
    open spec fn answered(
        before: Self,
        after: Self,
        ctx: ModeContext,
        ctx_after: ModeContext,
        response: ModeResponse,
    ) -> bool {
        &&& ctx_after == ctx
        &&& after.state == State::Idle
        &&& after.from == before.from
        &&& after.stash_id == before.stash_id
        &&& response matches ModeResponse::StashDetails(Response::Refresh(result)) && after.output@ == (
        OutputView { text: answer_text(result), scroll: 0 })
    }

    fn on_response(&mut self, ctx: &mut ModeContext, response: ModeResponse)
        ensures
            Self::answered(*old(self), *final(self), *old(ctx), *final(ctx), response),
    {
        match response {
            ModeResponse::StashDetails(Response::Refresh(result)) => {
                self.state = State::Idle;
                let info = match result {
                    Ok(info) => info,
                    Err(error) => error,
                };
                self.output.set(info);
            },
            _ => {},
        }
    }

    open spec fn drawing(&self, viewport_size: (u16, u16)) -> Seq<Drawn> {
        text_lines(shown_lines(self.output@))
    }

    fn draw(&self, drawer: &mut Drawer)
        ensures
            final(drawer)@ == old(drawer)@ + self.drawing(old(drawer).size()),
    {
        drawer.output(&self.output);
    }

    /// The title of the screen and the two help texts.
    open spec fn header_texts(&self) -> (Seq<char>, Seq<char>, Seq<char>) {
        (
            "stash details"@,
            "[enter]diff"@,
            "[arrows]move"@,
        )
    }

    fn header(&self) -> (r: (&'static str, &'static str, &'static str))
        ensures
            (r.0@, r.1@, r.2@) == self.header_texts(),
    {
        ("stash details", "[enter]diff", "[arrows]move")
    }
}

} // verus!
