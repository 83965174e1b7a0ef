//! The screen that shows a diff.

use vstd::prelude::*;
use crate::application::Event;
use crate::mode::{
    ModeChangeInfo,
    ModeContext,
    ModeKind,
    ModeResponse,
    ModeStatus,
    ModeTrait,
};
use crate::platform::Key;
use crate::ui::{Drawer, Drawn, shown_lines, text_lines};
use crate::widget::output::{Output, OutputView, scroll_after_key};

verus! {

/// The answers that the diff screen takes.
#[derive(Debug, PartialEq, Eq)]
pub enum Response {
    /// The text of the diff, or of the error that came in its place.
    Refresh(String),
}

/// Whether the screen is waiting for an answer.
#[derive(Debug, Clone, Copy, PartialEq, Eq, Structural)]
pub enum State {
    Idle,
    /// No text has come yet.
    Waiting,
}

impl Default for State {
    fn default() -> (r: Self)
        ensures
            r == State::Idle,
    {
        State::Idle
    }
}

/// The text of a diff, and the screen that asked for it.
#[derive(Debug)]
pub struct Mode {
    pub state: State,
    pub output: Output,
    pub from: ModeKind,
}

impl Mode {
    /// `other` shows the same as this screen.
    pub open spec fn same_as(&self, other: &Self) -> bool {
        *other == *self
    }

    /// The screen as it is made, before it is entered.
    pub open spec fn is_new(&self) -> bool {
        &&& self.state == State::Idle
        &&& self.from == ModeKind::Status
        &&& self.output@ == (OutputView { text: Seq::empty(), scroll: 0 })
    }

    pub fn new() -> (r: Self)
        ensures
            r.wf(),
            r.is_new(),
    {
        Mode { state: State::Idle, output: Output::new(String::new()), from: ModeKind::Status }
    }

    /// A key that leads back to the screen before: `Left` or `q`.
    pub open spec fn is_back(key: Key) -> bool {
        key == Key::Left || key == Key::Char('q')
    }
}

/// A copy of the screen shows the same.
impl Clone for Mode {
    fn clone(&self) -> (r: Self)
        ensures
            self.same_as(&r),
    {
        Mode { state: self.state, output: self.output.clone(), from: self.from }
    }
}

impl Default for Mode {
    fn default() -> (r: Self)
        ensures
            r.wf(),
            r.is_new(),
    {
        Mode::new()
    }
}

impl ModeTrait for Mode {
    open spec fn wf(&self) -> bool {
        self.output.wf()
    }

    open spec fn kind(&self) -> ModeKind {
        ModeKind::Diff
    }

    open spec fn waiting(&self) -> bool {
        self.state == State::Waiting
    }

    /// Starts waiting for the diff with an empty text, unless the screen is
    /// waiting already.
    open spec fn entered(
        before: Self,
        after: Self,
        ctx: ModeContext,
        ctx_after: ModeContext,
        info: ModeChangeInfo,
    ) -> bool {
        &&& ctx_after == ctx
        &&& before.state == State::Waiting ==> after == before
        &&& before.state == State::Idle ==> {
            &&& after.state == State::Waiting
            &&& after.from == info.from
            &&& after.output@ == (OutputView { text: Seq::empty(), scroll: 0 })
        }
    }

    fn on_enter(&mut self, ctx: &mut ModeContext, info: ModeChangeInfo)
        ensures
            Self::entered(*old(self), *final(self), *old(ctx), *final(ctx), info),
    {
        if let State::Waiting = self.state {
            return ;
        }
        self.state = State::Waiting;
        self.from = info.from;
        self.output.set(String::new());
    }

    /// While waiting, keys do nothing. Otherwise a text of more than one
    /// line scrolls, and `Left` or `q` asks for the screen before.
    open spec fn keyed(
        before: Self,
        after: Self,
        ctx: ModeContext,
        ctx_after: ModeContext,
        key: Key,
        status: ModeStatus,
    ) -> bool {
        &&& !status.pending_input
        &&& after.state == before.state
        &&& after.from == before.from
        &&& after.output@.text == before.output@.text
        &&& ctx_after.spawned() == ctx.spawned()
        &&& after.output@.scroll == if before.state == State::Idle && before.output.lines() > 1 {
            scroll_after_key(
                before.output@.scroll as int,
                before.output.lines() as int,
                ctx.rows() as int,
                key,
            ) as nat
        } else {
            before.output@.scroll
        }
        &&& ctx_after.posted() == if before.state == State::Idle && Mode::is_back(key) {
            ctx.posted().push(Event::ModeRevert)
        } else {
            ctx.posted()
        }
    }

    fn on_key(&mut self, ctx: &mut ModeContext, key: Key) -> (status: ModeStatus)
        ensures
            Self::keyed(*old(self), *final(self), *old(ctx), *final(ctx), key, status),
    {
        if let State::Idle = self.state {
            if self.output.line_count() > 1 {
                let available_height = ctx.available_height();
                self.output.on_key(available_height, key);
            }
            match key {
                Key::Char('q') | Key::Left => ctx.event_sender.send_mode_revert(),
                _ => {},
            }
        }
        ModeStatus { pending_input: false }
    }

    fn is_waiting_response(&self) -> (r: bool)
        ensures
            r == self.waiting(),
    {
        match self.state {
            State::Idle => false,
            State::Waiting => true,
        }
    }

    /// Takes the text, shows it from its first line, and stops waiting.
    open spec fn answered(
        before: Self,
        after: Self,
        ctx: ModeContext,
        ctx_after: ModeContext,
        response: ModeResponse,
    ) -> bool {
        &&& ctx_after == ctx
        &&& after.state == State::Idle
        &&& after.from == before.from
        &&& response matches ModeResponse::Diff(Response::Refresh(text)) && after.output@ == (
        OutputView { text: text@, scroll: 0 })
    }

    fn on_response(&mut self, ctx: &mut ModeContext, response: ModeResponse)
        ensures
            Self::answered(*old(self), *final(self), *old(ctx), *final(ctx), response),
    {
        match response {
            ModeResponse::Diff(Response::Refresh(info)) => {
                self.state = State::Idle;
                self.output.set(info);
            },
            _ => {},
        }
    }

    open spec fn drawing(&self, viewport_size: (u16, u16)) -> Seq<Drawn> {
        text_lines(shown_lines(self.output@))
    }

    fn draw(&self, drawer: &mut Drawer)
        ensures
            final(drawer)@ == old(drawer)@ + self.drawing(old(drawer).size()),
    {
        drawer.output(&self.output);
    }

    /// The title of the screen and the two help texts.
    open spec fn header_texts(&self) -> (Seq<char>, Seq<char>, Seq<char>) {
        (
            "details"@,
            ""@,
            "[Left]back [arrows]move"@,
        )
    }

    fn header(&self) -> (r: (&'static str, &'static str, &'static str))
        ensures
            (r.0@, r.1@, r.2@) == self.header_texts(),
    {
        ("details", "", "[Left]back [arrows]move")
    }
}

} // verus!
