//! The events that drive the program and the decisions the event loop takes
//! on each.

use vstd::prelude::*;
use crate::mode::{Mode, ModeBuf, ModeChangeInfo, ModeContext, ModeKind, ModeResponse, ModeStatus, ModeTrait};
use crate::platform::Key;
use crate::ui::{Drawer, Drawn, Tone, header_ops, spinner, spinner_sign};

verus! {

/// What the event loop reads, one at a time.
#[derive(Debug, PartialEq, Eq)]
pub enum Event {
    Key(Key),
    Resize(u16, u16),
    Response(ModeResponse),
    ModeChange(ModeKind, ModeChangeInfo),
    ModeRevert,
}

/// The events posted through it, oldest first. Events posted by one sender
/// stay in the order in which it posted them.
#[derive(Debug)]
pub struct EventSender {
    events: Vec<Event>,
}

impl View for EventSender {
    type V = Seq<Event>;

    closed spec fn view(&self) -> Seq<Event> {
        self.events@
    }
}

impl EventSender {
    pub fn new() -> (r: Self)
        ensures
            r@ == Seq::<Event>::empty(),
    {
        EventSender { events: Vec::new() }
    }

    /// Posts the answer to a piece of backend work.
    pub fn send_response(&mut self, result: ModeResponse)
        ensures
            final(self)@ == old(self)@.push(Event::Response(result)),
    {
        self.events.push(Event::Response(result));
    }

    /// Posts a move forward to a screen of the given kind.
    pub fn send_mode_change(&mut self, mode: ModeKind, info: ModeChangeInfo)
        ensures
            final(self)@ == old(self)@.push(Event::ModeChange(mode, info)),
    {
        self.events.push(Event::ModeChange(mode, info));
    }

    /// Posts a move back to the screen before.
    pub fn send_mode_revert(&mut self)
        ensures
            final(self)@ == old(self)@.push(Event::ModeRevert),
    {
        self.events.push(Event::ModeRevert);
    }

    /// Hands out the events posted since the last call, oldest first.
    pub fn take(&mut self) -> (r: Vec<Event>)
        ensures
            r@ == old(self)@,
            final(self)@ == Seq::<Event>::empty(),
    {
        let mut events: Vec<Event> = Vec::new();
        core::mem::swap(&mut self.events, &mut events);
        events
    }
}

/// The time for which the event loop waits for an event while a screen is
/// waiting for an answer, in milliseconds.
pub const TIMEOUT_MILLIS: u64 = 100;

/// What the event loop got when it looked for the next event.
#[derive(Debug, PartialEq, Eq)]
pub enum Received {
    Event(Event),
    /// The wait ran out with nothing to read.
    Timeout,
    /// Nobody is left who could post an event.
    Disconnected,
}

/// What the event loop does after it has handled what it got.
#[derive(Debug, Clone, Copy, PartialEq, Eq, Structural)]
pub enum Step {
    /// Draw the header, and the body too if `body` is set, and go on.
    Draw { body: bool },
    /// Leave the loop.
    Exit,
}

/// The screen that a key asks for when no screen takes it as text.
pub open spec fn hotkey(key: Key) -> Option<ModeKind> {
    match key {
        Key::Char('s') => Some(ModeKind::Status),
        Key::Char('l') => Some(ModeKind::Log),
        Key::Char('b') => Some(ModeKind::Branches),
        Key::Char('t') => Some(ModeKind::Tags),
        Key::Char('S') => Some(ModeKind::Stash),
        _ => None,
    }
}

/// The screen that a key asks for when no screen takes it as text.
pub fn target_mode_kind(key: Key) -> (r: Option<ModeKind>)
    ensures
        r == hotkey(key),
{
    match key {
        Key::Char('s') => Some(ModeKind::Status),
        Key::Char('l') => Some(ModeKind::Log),
        Key::Char('b') => Some(ModeKind::Branches),
        Key::Char('t') => Some(ModeKind::Tags),
        Key::Char('S') => Some(ModeKind::Stash),
        _ => None,
    }
}

/// The router and the state of the spinner in the header.
#[derive(Debug)]
pub struct Application {
    pub mode: ModeBuf,
    pub spinner_state: u8,
}

impl Application {
    /// The router is as it should be.
    pub open spec fn wf(&self) -> bool {
        self.mode.wf()
    }

    pub fn new() -> (r: Self)
        ensures
            r.wf(),
            r.mode.current().is_new(),
            r.mode.current().kind() == ModeKind::Status,
            r.mode.history() == Seq::<Mode>::empty(),
            r.spinner_state == 0,
    {
        Application { mode: ModeBuf::new(), spinner_state: 0 }
    }

    /// The active screen.
    pub fn current_mode(&self) -> (r: &Mode)
        ensures
            *r == self.mode.current(),
    {
        self.mode.mode()
    }

    /// What a key does to the router, and whether the program goes on.
    /// The active screen takes the key first. If it took it as text,
    /// nothing more happens. Otherwise `Esc` ends the program, and `s`,
    /// `l`, `b`, `t` and `S` move forward to the status, the log, the
    /// branches, the tags and the stashes.
    pub open spec fn keyed(
        before: ModeBuf,
        after: ModeBuf,
        ctx: ModeContext,
        ctx_after: ModeContext,
        key: Key,
        goes_on: bool,
    ) -> bool {
        exists|mid: ModeBuf, mid_ctx: ModeContext, status: ModeStatus| #[trigger]
            ModeBuf::keyed(before, mid, ctx, mid_ctx, key, status) && if status.pending_input {
                goes_on && after == mid && ctx_after == mid_ctx
            } else if key.is_exit() {
                !goes_on && after == mid && ctx_after == mid_ctx
            } else if hotkey(key) is Some {
                goes_on && ModeBuf::entered(
                    mid,
                    after,
                    mid_ctx,
                    ctx_after,
                    hotkey(key)->0,
                    ModeChangeInfo { from: mid.current().kind(), info: None },
                )
            } else {
                goes_on && after == mid && ctx_after == mid_ctx
            }
    }

    /// Handles a key and says whether the program goes on.
    pub fn on_key(&mut self, ctx: &mut ModeContext, key: Key) -> (goes_on: bool)
        requires
            old(self).wf(),
        ensures
            final(self).wf(),
            final(self).spinner_state == old(self).spinner_state,
            Application::keyed(old(self).mode, final(self).mode, *old(ctx), *final(ctx), key, goes_on),
            final(ctx).viewport_size == old(ctx).viewport_size,
            old(ctx).posted().is_prefix_of(final(ctx).posted()),
            old(ctx).spawned().is_prefix_of(final(ctx).spawned()),
    {
        let status = self.mode.on_key(ctx, key);
        let ghost mid = self.mode;
        let ghost mid_ctx = *ctx;
        let mut goes_on = true;
        if !status.pending_input {
            if key.is_exit() {
                goes_on = false;
            } else if let Some(target_mode_kind) = target_mode_kind(key) {
                let from = self.mode.mode_kind();
                self.mode.enter_mode(ctx, target_mode_kind, ModeChangeInfo::new(from));
            }
        }
        assert(ModeBuf::keyed(old(self).mode, mid, *old(ctx), mid_ctx, key, status));
        goes_on
    }

    /// Hands an answer to the active screen if it is for a screen of its
    /// kind, and drops it otherwise.
    pub fn on_response(&mut self, ctx: &mut ModeContext, response: ModeResponse)
        requires
            old(self).wf(),
        ensures
            final(self).wf(),
            final(self).spinner_state == old(self).spinner_state,
            ModeBuf::answered(old(self).mode, final(self).mode, *old(ctx), *final(ctx), response),
            final(ctx).viewport_size == old(ctx).viewport_size,
            old(ctx).posted().is_prefix_of(final(ctx).posted()),
            old(ctx).spawned().is_prefix_of(final(ctx).spawned()),
    {
        self.mode.on_response(ctx, response);
    }

    /// Whether the active screen is waiting for an answer.
    pub fn is_waiting_response(&self) -> (r: bool)
        ensures
            r == self.mode.current().waiting(),
    {
        self.mode.is_waiting_response()
    }

    /// Turns the spinner on by one step and draws the header of the active
    /// screen. The spinner is shown while the screen is waiting for an
    /// answer.
    pub fn draw_header(&mut self, drawer: &mut Drawer)
        requires
            old(self).wf(),
        ensures
            final(self).wf(),
            final(self).mode == old(self).mode,
            final(self).spinner_state == (old(self).spinner_state + 1) % 4,
            final(drawer).size() == old(drawer).size(),
            final(drawer)@ == old(drawer)@ + header_ops(
                old(drawer).size(),
                old(self).mode.current().header_texts().0,
                old(self).mode.current().header_texts().1,
                old(self).mode.current().header_texts().2,
                spinner_sign(old(self).mode.current().waiting(), final(self).spinner_state),
            ),
    {
        self.spinner_state = ((self.spinner_state as u16 + 1) % 4) as u8;
        let sign = spinner(self.is_waiting_response(), self.spinner_state);
        let (mode_name, left_help, right_help) = self.mode.header();
        drawer.header(mode_name, left_help, right_help, sign);
    }

    /// Draws the active screen from the second row on and clears what is
    /// left under it. The header, whose last row this clears, is to be
    /// drawn after it.
    pub fn draw_body(&self, drawer: &mut Drawer)
        requires
            self.wf(),
        ensures
            final(drawer).size() == old(drawer).size(),
            final(drawer)@ == old(drawer)@.push(Drawn::MoveTo(0, 1)) + self.mode.current().drawing(
                old(drawer).size(),
            ) + seq![Drawn::SetBackground(Tone::Black), Drawn::ClearFromCursorDown],
    {
        drawer.move_to(0, 1);
        self.mode.draw(drawer);
        drawer.clear_to_bottom();
    }

    /// How long the event loop waits for the next event: 100 milliseconds
    /// while the active screen is waiting for an answer, and without end
    /// otherwise.
    pub fn poll_timeout(&self) -> (r: Option<u64>)
        ensures
            r == if self.mode.current().waiting() {
                Some(TIMEOUT_MILLIS)
            } else {
                None
            },
    {
        if self.is_waiting_response() {
            Some(TIMEOUT_MILLIS)
        } else {
            None
        }
    }

    /// `received` is no change of screen that lacks what its screen is
    /// entered with.
    pub open spec fn accepts(received: Received) -> bool {
        received matches Received::Event(Event::ModeChange(mode_kind, info)) ==> info.fits(mode_kind)
    }

    /// Whether `received` is no change of screen that lacks what its screen
    /// is entered with.
    pub fn can_handle(received: &Received) -> (r: bool)
        ensures
            r == Application::accepts(*received),
    {
        match received {
            Received::Event(Event::ModeChange(mode_kind, info)) => info.can_enter(*mode_kind),
            _ => true,
        }
    }

    /// One turn of the event loop. A key goes to the router and may end
    /// the program; a new size of the terminal is noted; an answer, a
    /// change of screen and a way back go to the router. After each of
    /// these the whole screen is drawn. When the wait ran out, only the
    /// header is drawn. When nobody is left to post events, the program
    /// ends.
    pub fn step(&mut self, ctx: &mut ModeContext, received: Received) -> (step: Step)
        requires
            old(self).wf(),
        ensures
            final(self).wf(),
            final(self).spinner_state == old(self).spinner_state,
            old(ctx).posted().is_prefix_of(final(ctx).posted()),
            old(ctx).spawned().is_prefix_of(final(ctx).spawned()),
            match received {
                Received::Event(Event::Key(key)) => {
                    &&& Application::keyed(
                        old(self).mode,
                        final(self).mode,
                        *old(ctx),
                        *final(ctx),
                        key,
                        step != Step::Exit,
                    )
                    &&& step == Step::Exit || step == (Step::Draw { body: true })
                },
                Received::Event(Event::Resize(width, height)) => {
                    &&& step == (Step::Draw { body: true })
                    &&& final(self).mode == old(self).mode
                    &&& final(ctx).viewport_size == (width, height)
                    &&& final(ctx).posted() == old(ctx).posted()
                    &&& final(ctx).spawned() == old(ctx).spawned()
                },
                Received::Event(Event::Response(response)) => {
                    &&& step == (Step::Draw { body: true })
                    &&& ModeBuf::answered(old(self).mode, final(self).mode, *old(ctx), *final(ctx), response)
                },
                Received::Event(Event::ModeChange(mode_kind, info)) => {
                    &&& step == (Step::Draw { body: true })
                    &&& ModeBuf::entered(
                        old(self).mode,
                        final(self).mode,
                        *old(ctx),
                        *final(ctx),
                        mode_kind,
                        info,
                    )
                },
                Received::Event(Event::ModeRevert) => {
                    &&& step == (Step::Draw { body: true })
                    &&& ModeBuf::reverted(old(self).mode, final(self).mode)
                    &&& *final(ctx) == *old(ctx)
                },
                Received::Timeout => {
                    &&& step == (Step::Draw { body: false })
                    &&& *final(self) == *old(self)
                    &&& *final(ctx) == *old(ctx)
                },
                Received::Disconnected => {
                    &&& step == Step::Exit
                    &&& *final(self) == *old(self)
                    &&& *final(ctx) == *old(ctx)
                },
            },
    {
        match received {
            Received::Event(Event::Key(key)) => {
                if !self.on_key(ctx, key) {
                    return Step::Exit;
                }
            },
            Received::Event(Event::Resize(width, height)) => {
                ctx.viewport_size = (width, height);
            },
            Received::Event(Event::Response(response)) => {
                self.on_response(ctx, response);
            },
            Received::Event(Event::ModeChange(mode_kind, info)) => {
                self.mode.enter_mode(ctx, mode_kind, info);
            },
            Received::Event(Event::ModeRevert) => {
                self.mode.revert_mode(ctx);
            },
            Received::Timeout => {
                return Step::Draw { body: false };
            },
            Received::Disconnected => {
                return Step::Exit;
            },
        }
        Step::Draw { body: true }
    }
}

impl Default for Application {
    fn default() -> (r: Self)
        ensures
            r.wf(),
            r.mode.current().kind() == ModeKind::Status,
            r.spinner_state == 0,
    {
        Application::new()
    }
}

} // verus!
