//! The prompt for one line of text.

use vstd::prelude::*;
use vstd::string::StringExecFns;
use crate::application::Event;
use crate::mode::{
    ModeChangeInfo,
    ModeContext,
    ModeKind,
    ModeResponse,
    ModeStatus,
    ModeTrait,
    branches,
    status,
    tags,
};
use crate::platform::Key;
use crate::ui::{Drawer, Drawn, readline_ops};
use crate::widget::readline::{ReadLine, input_after_key};

verus! {

/// The answers that the prompt takes. It leaves no work for the backend,
/// so there is nothing that an answer could bring.
#[derive(Debug, Clone, Copy, PartialEq, Eq, Structural)]
pub enum Response {
    Empty,
}

/// What is to happen with a submitted line: which screen asked for it, and
/// for what.
#[derive(Debug, Clone, Copy, PartialEq, Eq, Structural)]
pub enum OnSubmit {
    /// Nobody asked: the line is dropped.
    Nothing,
    /// The status screen asked for a commit message.
    StatusCommit,
    /// The status screen asked for a stash message.
    StatusStash,
    /// The branches screen asked for the name of a new branch.
    BranchesNew,
    /// The tags screen asked for the name of a new tag.
    TagsNew,
}

impl Default for OnSubmit {
    fn default() -> (r: Self)
        ensures
            r == OnSubmit::Nothing,
    {
        OnSubmit::Nothing
    }
}

impl OnSubmit {
    /// The events that a submitted line brings: the answer for the screen
    /// that asked, if one did.
    pub open spec fn events(self, message: String) -> Seq<Event> {
        match self {
            OnSubmit::Nothing => Seq::empty(),
            OnSubmit::StatusCommit => seq![Event::Response(ModeResponse::Status(status::Response::Commit(message)))],
            OnSubmit::StatusStash => seq![Event::Response(ModeResponse::Status(status::Response::Stash(message)))],
            OnSubmit::BranchesNew => seq![Event::Response(ModeResponse::Branches(branches::Response::New(message)))],
            OnSubmit::TagsNew => seq![Event::Response(ModeResponse::Tags(tags::Response::New(message)))],
        }
    }

    /// Posts the submitted line to the screen that asked for it.
    pub fn invoke(self, ctx: &mut ModeContext, message: String)
        ensures
            final(ctx).posted() == old(ctx).posted() + self.events(message),
            final(ctx).spawned() == old(ctx).spawned(),
            final(ctx).viewport_size == old(ctx).viewport_size,
    {
        match self {
            OnSubmit::Nothing => {},
            OnSubmit::StatusCommit => ctx.event_sender.send_response(
                ModeResponse::Status(status::Response::Commit(message)),
            ),
            OnSubmit::StatusStash => ctx.event_sender.send_response(
                ModeResponse::Status(status::Response::Stash(message)),
            ),
            OnSubmit::BranchesNew => ctx.event_sender.send_response(
                ModeResponse::Branches(branches::Response::New(message)),
            ),
            OnSubmit::TagsNew => ctx.event_sender.send_response(
                ModeResponse::Tags(tags::Response::New(message)),
            ),
        }
        assert(final(ctx).posted() =~= old(ctx).posted() + self.events(message));
    }
}

/// What the prompt is entered with.
#[derive(Debug, Clone, PartialEq, Eq)]
pub struct ModeInfo {
    /// An empty line is not accepted.
    pub not_empty: bool,
    /// What is shown while the line is empty.
    pub placeholder: String,
    pub on_submit: OnSubmit,
}

impl ModeInfo {
    pub fn new(not_empty: bool, placeholder: String, on_submit: OnSubmit) -> (r: Self)
        ensures
            r == (ModeInfo { not_empty, placeholder, on_submit }),
    {
        ModeInfo { not_empty, placeholder, on_submit }
    }
}

/// The line being typed, and what was asked: the placeholder, whether an
/// empty line is accepted, and who gets the line.
#[derive(Debug)]
pub struct Mode {
    pub readline: ReadLine,
    pub from: ModeKind,
    pub placeholder: String,
    pub on_submit: OnSubmit,
    pub not_empty: bool,
}

impl Mode {
    /// `other` shows the same as this screen.
    pub open spec fn same_as(&self, other: &Self) -> bool {
        *other == *self
    }

    /// The screen as it is made, before it is entered.
    pub open spec fn is_new(&self) -> bool {
        &&& self.readline@ == Seq::<char>::empty()
        &&& self.from == ModeKind::Status
        &&& self.placeholder@ == Seq::<char>::empty()
        &&& self.on_submit == OnSubmit::Nothing
        &&& !self.not_empty
    }

    pub fn new() -> (r: Self)
        ensures
            r.is_new(),
    {
        Mode {
            readline: ReadLine::new(),
            from: ModeKind::Status,
            placeholder: String::new(),
            on_submit: OnSubmit::Nothing,
            not_empty: false,
        }
    }

    /// Whether `Enter` submits the line as it stands after the key: it is
    /// not empty, or an empty line is accepted.
    pub open spec fn accepts(&self, line: Seq<char>) -> bool {
        line.len() > 0 || !self.not_empty
    }
}

/// A copy of the screen shows the same.
impl Clone for Mode {
    fn clone(&self) -> (r: Self)
        ensures
            self.same_as(&r),
    {
        Mode {
            readline: self.readline.clone(),
            from: self.from,
            placeholder: self.placeholder.clone(),
            on_submit: self.on_submit,
            not_empty: self.not_empty,
        }
    }
}

impl Default for Mode {
    fn default() -> (r: Self)
        ensures
            r.is_new(),
    {
        Mode::new()
    }
}

impl ModeTrait for Mode {
    open spec fn wf(&self) -> bool {
        true
    }

    open spec fn kind(&self) -> ModeKind {
        ModeKind::MessageInput
    }

    open spec fn waiting(&self) -> bool {
        false
    }

    /// Starts from an empty line with the prompt it is given, or with the
    /// one it has where it is given none.
    open spec fn entered(
        before: Self,
        after: Self,
        ctx: ModeContext,
        ctx_after: ModeContext,
        info: ModeChangeInfo,
    ) -> bool {
        &&& ctx_after == ctx
        &&& after.readline@ == Seq::<char>::empty()
        &&& after.from == info.from
        &&& match info.info {
            Some(crate::mode::ModeInfo::MessageInput(prompt)) => {
                &&& after.placeholder == prompt.placeholder
                &&& after.on_submit == prompt.on_submit
                &&& after.not_empty == prompt.not_empty
            },
            _ => {
                &&& after.placeholder == before.placeholder
                &&& after.on_submit == before.on_submit
                &&& after.not_empty == before.not_empty
            },
        }
    }

    fn on_enter(&mut self, ctx: &mut ModeContext, info: ModeChangeInfo)
        ensures
            Self::entered(*old(self), *final(self), *old(ctx), *final(ctx), info),
    {
        self.readline.clear();
        self.from = info.from;
        if let Some(crate::mode::ModeInfo::MessageInput(mode_info)) = info.info {
            self.placeholder = mode_info.placeholder;
            self.on_submit = mode_info.on_submit;
            self.not_empty = mode_info.not_empty;
        }
    }

    /// Every key edits the line and counts as text. `Esc` asks for the
    /// screen before and drops the line. `Enter` on a line that is accepted
    /// asks for the screen before and then posts the line to the screen
    /// that asked for it; on an empty line that is not accepted it does
    /// nothing.
    open spec fn keyed(
        before: Self,
        after: Self,
        ctx: ModeContext,
        ctx_after: ModeContext,
        key: Key,
        status: ModeStatus,
    ) -> bool {
        &&& status.pending_input
        &&& after.readline@ == input_after_key(before.readline@, key)
        &&& after.from == before.from
        &&& after.placeholder == before.placeholder
        &&& after.on_submit == before.on_submit
        &&& after.not_empty == before.not_empty
        &&& ctx_after.spawned() == ctx.spawned()
        &&& key.is_cancel() ==> ctx_after.posted() == ctx.posted().push(Event::ModeRevert)
        &&& key.is_submit() && before.accepts(before.readline@) ==> exists|message: String|
            message@ == before.readline@ && #[trigger] ctx_after.posted() == ctx.posted().push(
                Event::ModeRevert,
            ) + before.on_submit.events(message)
        &&& key.is_submit() && !before.accepts(before.readline@) ==> ctx_after.posted() == ctx.posted()
        &&& !key.is_cancel() && !key.is_submit() ==> ctx_after.posted() == ctx.posted()
    }

    fn on_key(&mut self, ctx: &mut ModeContext, key: Key) -> (status: ModeStatus)
        ensures
            Self::keyed(*old(self), *final(self), *old(ctx), *final(ctx), key, status),
    {
        self.readline.on_key(key);
        if key.is_cancel() {
            ctx.event_sender.send_mode_revert();
        } else if key.is_submit() {
            let message = String::from_str(self.readline.input());
            if !(message.as_str().is_empty() && self.not_empty) {
                ctx.event_sender.send_mode_revert();
                self.on_submit.invoke(ctx, message);
            }
        }
        ModeStatus { pending_input: true }
    }

    fn is_waiting_response(&self) -> (r: bool)
        ensures
            r == self.waiting(),
    {
        false
    }

    /// An answer changes nothing.
    open spec fn answered(
        before: Self,
        after: Self,
        ctx: ModeContext,
        ctx_after: ModeContext,
        response: ModeResponse,
    ) -> bool {
        &&& ctx_after == ctx
        &&& after == before
    }

    fn on_response(&mut self, ctx: &mut ModeContext, response: ModeResponse)
        ensures
            Self::answered(*old(self), *final(self), *old(ctx), *final(ctx), response),
    {
    }

    open spec fn drawing(&self, viewport_size: (u16, u16)) -> Seq<Drawn> {
        readline_ops(self.readline@, self.placeholder@)
    }

    fn draw(&self, drawer: &mut Drawer)
        ensures
            final(drawer)@ == old(drawer)@ + self.drawing(old(drawer).size()),
    {
        drawer.readline(&self.readline, self.placeholder.as_str());
    }

    /// The title of the screen and the two help texts.
    open spec fn header_texts(&self) -> (Seq<char>, Seq<char>, Seq<char>) {
        (
            "message input"@,
            "[enter]submit [Esc]cancel"@,
            "[Left]back"@,
        )
    }

    fn header(&self) -> (r: (&'static str, &'static str, &'static str))
        ensures
            (r.0@, r.1@, r.2@) == self.header_texts(),
    {
        ("message input", "[enter]submit [Esc]cancel", "[Left]back")
    }
}

} // verus!
