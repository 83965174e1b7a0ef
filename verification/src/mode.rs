//! The screens, what they share, and the router that holds the active one
//! and the way back.

use vstd::prelude::*;
use vstd::string::StringExecFns;
use bounded_vec_deque::BoundedVecDeque;
use crate::application::{Event, EventSender};
use crate::job::Job;
use crate::platform::Key;
use crate::ui::{Drawer, Drawn, RESERVED_LINES_COUNT};

pub mod branches;
pub mod diff;
pub mod log;
pub mod message_input;
pub mod revision_details;
pub mod stash;
pub mod stash_details;
pub mod status;
pub mod tags;

verus! {

/// The tag of a screen.
#[derive(Debug, Clone, Copy, PartialEq, Eq, Structural)]
pub enum ModeKind {
    Status,
    Log,
    RevisionDetails,
    Branches,
    Tags,
    Stash,
    Diff,
    StashDetails,
    MessageInput,
}

impl Default for ModeKind {
    fn default() -> (r: Self)
        ensures
            r == ModeKind::Status,
    {
        ModeKind::Status
    }
}

/// What a screen reports after a key: whether it took the key as text, so
/// that the keys that act on the whole program must not act on it.
#[derive(Debug, Clone, Copy, PartialEq, Eq, Structural)]
pub struct ModeStatus {
    pub pending_input: bool,
}

/// What a screen is told when it is entered: where the user came from, and
/// what the screen is to show or ask.
#[derive(Debug, Clone, PartialEq, Eq)]
pub struct ModeChangeInfo {
    pub from: ModeKind,
    pub info: Option<ModeInfo>,
}

/// What a screen is to show or ask.
#[derive(Debug, Clone, PartialEq, Eq)]
pub enum ModeInfo {
    RevisionDetails(String),
    StashDetails(usize),
    MessageInput(message_input::ModeInfo),
}

impl ModeChangeInfo {
    /// Nothing to show or ask.
    pub fn new(from: ModeKind) -> (r: Self)
        ensures
            r == (ModeChangeInfo { from, info: None }),
    {
        ModeChangeInfo { from, info: None }
    }

    /// A revision to show.
    pub fn revision(from: ModeKind, revision: String) -> (r: Self)
        ensures
            r == (ModeChangeInfo { from, info: Some(ModeInfo::RevisionDetails(revision)) }),
    {
        ModeChangeInfo { from, info: Some(ModeInfo::RevisionDetails(revision)) }
    }

    /// A stash to show.
    pub fn stash(from: ModeKind, stash_id: usize) -> (r: Self)
        ensures
            r == (ModeChangeInfo { from, info: Some(ModeInfo::StashDetails(stash_id)) }),
    {
        ModeChangeInfo { from, info: Some(ModeInfo::StashDetails(stash_id)) }
    }

    /// A question to ask.
    pub fn message_input(
        from: ModeKind,
        not_empty: bool,
        placeholder: String,
        on_submit: message_input::OnSubmit,
    ) -> (r: Self)
        ensures
            r == (ModeChangeInfo {
                from,
                info: Some(
                    ModeInfo::MessageInput(message_input::ModeInfo { not_empty, placeholder, on_submit }),
                ),
            }),
    {
        ModeChangeInfo {
            from,
            info: Some(ModeInfo::MessageInput(message_input::ModeInfo::new(not_empty, placeholder, on_submit))),
        }
    }

    /// Whether this carries what a screen of `kind` is entered with: a
    /// revision for the revision details, a stash for the stash details,
    /// a prompt for the message input. The other screens need nothing. A
    /// screen that is entered without it keeps what it had of it.
    pub open spec fn fits(&self, kind: ModeKind) -> bool {
        match kind {
            ModeKind::RevisionDetails => self.info matches Some(ModeInfo::RevisionDetails(_)),
            ModeKind::StashDetails => self.info matches Some(ModeInfo::StashDetails(_)),
            ModeKind::MessageInput => self.info matches Some(ModeInfo::MessageInput(_)),
            _ => true,
        }
    }

    /// Whether this carries what a screen of `kind` is entered with.
    pub fn can_enter(&self, kind: ModeKind) -> (r: bool)
        ensures
            r == self.fits(kind),
    {
        match kind {
            ModeKind::RevisionDetails => matches!(self.info, Some(ModeInfo::RevisionDetails(_))),
            ModeKind::StashDetails => matches!(self.info, Some(ModeInfo::StashDetails(_))),
            ModeKind::MessageInput => matches!(self.info, Some(ModeInfo::MessageInput(_))),
            _ => true,
        }
    }
}

/// `after` is `before` with one more event at its end.
pub open spec fn pushed_one(before: Seq<Event>, after: Seq<Event>) -> bool {
    after.len() == before.len() + 1 && after.drop_last() == before
}

/// `event` is the change to the message input that asks this question on
/// behalf of `from`.
pub open spec fn is_prompt(
    event: Event,
    from: ModeKind,
    not_empty: bool,
    placeholder: Seq<char>,
    on_submit: message_input::OnSubmit,
) -> bool {
    event matches Event::ModeChange(kind, info) && {
        &&& kind == ModeKind::MessageInput
        &&& info.from == from
        &&& info.info matches Some(ModeInfo::MessageInput(prompt)) && {
            &&& prompt.not_empty == not_empty
            &&& prompt.placeholder@ == placeholder
            &&& prompt.on_submit == on_submit
        }
    }
}

/// The rows left for a screen under the header and the help line.
pub open spec fn body_rows(viewport_size: (u16, u16)) -> usize {
    if viewport_size.1 >= RESERVED_LINES_COUNT {
        (viewport_size.1 - RESERVED_LINES_COUNT) as usize
    } else {
        0
    }
}

/// The rows left for a screen under the header and the help line.
pub fn body_height(viewport_size: (u16, u16)) -> (r: usize)
    ensures
        r == body_rows(viewport_size),
{
    (viewport_size.1 as usize).saturating_sub(RESERVED_LINES_COUNT)
}

/// What every call on a screen is given: where to post events, where to
/// leave work for the backend, and the size of the terminal in columns and
/// rows.
#[derive(Debug)]
pub struct ModeContext {
    pub event_sender: EventSender,
    pub jobs: Vec<Job>,
    pub viewport_size: (u16, u16),
}

impl ModeContext {
    pub fn new(viewport_size: (u16, u16)) -> (r: Self)
        ensures
            r.posted() == Seq::<Event>::empty(),
            r.spawned() == Seq::<Job>::empty(),
            r.viewport_size == viewport_size,
    {
        ModeContext { event_sender: EventSender::new(), jobs: Vec::new(), viewport_size }
    }

    /// The events posted and not yet taken, oldest first.
    pub open spec fn posted(&self) -> Seq<Event> {
        self.event_sender@
    }

    /// The backend work asked for and not yet taken, oldest first.
    pub open spec fn spawned(&self) -> Seq<Job> {
        self.jobs@
    }

    /// The rows left for a screen under the header and the help line.
    pub open spec fn rows(&self) -> usize {
        body_rows(self.viewport_size)
    }

    /// The rows left for a screen under the header and the help line.
    pub fn available_height(&self) -> (r: usize)
        ensures
            r == self.rows(),
    {
        body_height(self.viewport_size)
    }

    /// Asks for the prompt: posts the change to the message input with what
    /// it is to ask and whom it is to answer.
    pub fn ask(
        &mut self,
        from: ModeKind,
        not_empty: bool,
        placeholder: &str,
        on_submit: message_input::OnSubmit,
    )
        ensures
            pushed_one(old(self).posted(), final(self).posted()),
            is_prompt(final(self).posted().last(), from, not_empty, placeholder@, on_submit),
            final(self).spawned() == old(self).spawned(),
            final(self).viewport_size == old(self).viewport_size,
    {
        let info = ModeChangeInfo::message_input(from, not_empty, String::from_str(placeholder), on_submit);
        self.event_sender.send_mode_change(ModeKind::MessageInput, info);
        assert(final(self).posted().drop_last() =~= old(self).posted());
    }

    /// Leaves work for the backend; a worker is to run it and post what
    /// comes of it.
    pub fn spawn(&mut self, job: Job)
        ensures
            final(self).spawned() == old(self).spawned().push(job),
            final(self).posted() == old(self).posted(),
            final(self).viewport_size == old(self).viewport_size,
    {
        self.jobs.push(job);
    }

    /// Hands out the backend work asked for since the last call.
    pub fn take_jobs(&mut self) -> (r: Vec<Job>)
        ensures
            r@ == old(self).spawned(),
            final(self).spawned() == Seq::<Job>::empty(),
            final(self).posted() == old(self).posted(),
            final(self).viewport_size == old(self).viewport_size,
    {
        let mut jobs: Vec<Job> = Vec::new();
        core::mem::swap(&mut self.jobs, &mut jobs);
        jobs
    }
}

/// What every screen offers. A screen is entered, is handed keys and the
/// answers to the work it left for the backend, says whether it is waiting
/// for such an answer, and names itself in the header.
///
/// Each screen says for itself what entering, a key and an answer do to it
/// and which events and backend work they bring. No call changes the size
/// of the terminal, and none takes back an event that was posted or work
/// that was left.
pub trait ModeTrait: Sized {
    /// What holds of a screen between calls.
    spec fn wf(&self) -> bool;

    /// The tag of the screen.
    spec fn kind(&self) -> ModeKind;

    /// Whether the screen is waiting for an answer.
    spec fn waiting(&self) -> bool;

    /// What entering the screen does: `after` and `ctx_after` are the
    /// screen and the context that `on_enter` leaves.
    spec fn entered(
        before: Self,
        after: Self,
        ctx: ModeContext,
        ctx_after: ModeContext,
        info: ModeChangeInfo,
    ) -> bool;

    /// What a key does: `after` and `ctx_after` are the screen and the
    /// context that `on_key` leaves, and `status` is what it returns.
    spec fn keyed(
        before: Self,
        after: Self,
        ctx: ModeContext,
        ctx_after: ModeContext,
        key: Key,
        status: ModeStatus,
    ) -> bool;

    /// What an answer does: `after` and `ctx_after` are the screen and the
    /// context that `on_response` leaves.
    spec fn answered(
        before: Self,
        after: Self,
        ctx: ModeContext,
        ctx_after: ModeContext,
        response: ModeResponse,
    ) -> bool;

    /// The title of the screen and the two help texts.
    spec fn header_texts(&self) -> (Seq<char>, Seq<char>, Seq<char>);

    /// What the screen draws under the header on a terminal of the given
    /// size.
    spec fn drawing(&self, viewport_size: (u16, u16)) -> Seq<Drawn>;

    fn on_enter(&mut self, ctx: &mut ModeContext, info: ModeChangeInfo)
        requires
            old(self).wf(),
        ensures
            final(self).wf(),
            final(self).kind() == old(self).kind(),
            final(ctx).viewport_size == old(ctx).viewport_size,
            old(ctx).posted().is_prefix_of(final(ctx).posted()),
            old(ctx).spawned().is_prefix_of(final(ctx).spawned()),
            Self::entered(*old(self), *final(self), *old(ctx), *final(ctx), info),
    ;

    fn on_key(&mut self, ctx: &mut ModeContext, key: Key) -> (status: ModeStatus)
        requires
            old(self).wf(),
        ensures
            final(self).wf(),
            final(self).kind() == old(self).kind(),
            final(ctx).viewport_size == old(ctx).viewport_size,
            old(ctx).posted().is_prefix_of(final(ctx).posted()),
            old(ctx).spawned().is_prefix_of(final(ctx).spawned()),
            Self::keyed(*old(self), *final(self), *old(ctx), *final(ctx), key, status),
    ;

    fn is_waiting_response(&self) -> (r: bool)
        ensures
            r == self.waiting(),
    ;

    fn on_response(&mut self, ctx: &mut ModeContext, response: ModeResponse)
        requires
            old(self).wf(),
            response.kind() == old(self).kind(),
        ensures
            final(self).wf(),
            final(self).kind() == old(self).kind(),
            final(ctx).viewport_size == old(ctx).viewport_size,
            old(ctx).posted().is_prefix_of(final(ctx).posted()),
            old(ctx).spawned().is_prefix_of(final(ctx).spawned()),
            Self::answered(*old(self), *final(self), *old(ctx), *final(ctx), response),
    ;

    fn header(&self) -> (r: (&'static str, &'static str, &'static str))
        ensures
            (r.0@, r.1@, r.2@) == self.header_texts(),
    ;

    fn draw(&self, drawer: &mut Drawer)
        requires
            self.wf(),
        ensures
            final(drawer).size() == old(drawer).size(),
            final(drawer)@ == old(drawer)@ + self.drawing(old(drawer).size()),
    ;
}

/// The answer to a piece of backend work, tagged with the screen it is for.
#[derive(Debug, PartialEq, Eq)]
pub enum ModeResponse {
    Status(status::Response),
    Log(log::Response),
    RevisionDetails(revision_details::Response),
    Branches(branches::Response),
    Tags(tags::Response),
    Stash(stash::Response),
    Diff(diff::Response),
    StashDetails(stash_details::Response),
    MessageInput(message_input::Response),
}

impl ModeResponse {
    /// The tag of the screen that the answer is for.
    pub open spec fn kind(&self) -> ModeKind {
        match self {
            ModeResponse::Status(_) => ModeKind::Status,
            ModeResponse::Log(_) => ModeKind::Log,
            ModeResponse::RevisionDetails(_) => ModeKind::RevisionDetails,
            ModeResponse::Branches(_) => ModeKind::Branches,
            ModeResponse::Tags(_) => ModeKind::Tags,
            ModeResponse::Stash(_) => ModeKind::Stash,
            ModeResponse::Diff(_) => ModeKind::Diff,
            ModeResponse::StashDetails(_) => ModeKind::StashDetails,
            ModeResponse::MessageInput(_) => ModeKind::MessageInput,
        }
    }

    /// The tag of the screen that the answer is for.
    pub fn mode_kind(&self) -> (r: ModeKind)
        ensures
            r == self.kind(),
    {
        match self {
            ModeResponse::Status(_) => ModeKind::Status,
            ModeResponse::Log(_) => ModeKind::Log,
            ModeResponse::RevisionDetails(_) => ModeKind::RevisionDetails,
            ModeResponse::Branches(_) => ModeKind::Branches,
            ModeResponse::Tags(_) => ModeKind::Tags,
            ModeResponse::Stash(_) => ModeKind::Stash,
            ModeResponse::Diff(_) => ModeKind::Diff,
            ModeResponse::StashDetails(_) => ModeKind::StashDetails,
            ModeResponse::MessageInput(_) => ModeKind::MessageInput,
        }
    }
}

/// A screen of any kind.
#[derive(Debug)]
pub enum Mode {
    Status(status::Mode),
    Log(log::Mode),
    RevisionDetails(revision_details::Mode),
    Branches(branches::Mode),
    Tags(tags::Mode),
    Stash(stash::Mode),
    Diff(diff::Mode),
    StashDetails(stash_details::Mode),
    MessageInput(message_input::Mode),
}

/// A copy of a screen is a screen of the same kind that shows the same.
impl Clone for Mode {
    fn clone(&self) -> (r: Self)
        ensures
            r.kind() == self.kind(),
            self.same_as(&r),
            r.wf() == self.wf(),
    {
        match self {
            Mode::Status(mode) => Mode::Status(mode.clone()),
            Mode::Log(mode) => Mode::Log(mode.clone()),
            Mode::RevisionDetails(mode) => Mode::RevisionDetails(mode.clone()),
            Mode::Branches(mode) => Mode::Branches(mode.clone()),
            Mode::Tags(mode) => Mode::Tags(mode.clone()),
            Mode::Stash(mode) => Mode::Stash(mode.clone()),
            Mode::Diff(mode) => Mode::Diff(mode.clone()),
            Mode::StashDetails(mode) => Mode::StashDetails(mode.clone()),
            Mode::MessageInput(mode) => Mode::MessageInput(mode.clone()),
        }
    }
}

impl Default for Mode {
    fn default() -> (r: Self)
        ensures
            r.wf(),
            r.is_new(),
            r.kind() == ModeKind::Status,
    {
        Mode::Status(status::Mode::new())
    }
}

impl Mode {
    /// `other` is a screen of the same kind that shows the same.
    pub open spec fn same_as(&self, other: &Self) -> bool {
        match (self, other) {
            (Mode::Status(a), Mode::Status(b)) => a.same_as(b),
            (Mode::Log(a), Mode::Log(b)) => a.same_as(b),
            (Mode::RevisionDetails(a), Mode::RevisionDetails(b)) => a.same_as(b),
            (Mode::Branches(a), Mode::Branches(b)) => a.same_as(b),
            (Mode::Tags(a), Mode::Tags(b)) => a.same_as(b),
            (Mode::Stash(a), Mode::Stash(b)) => a.same_as(b),
            (Mode::Diff(a), Mode::Diff(b)) => a.same_as(b),
            (Mode::StashDetails(a), Mode::StashDetails(b)) => a.same_as(b),
            (Mode::MessageInput(a), Mode::MessageInput(b)) => a.same_as(b),
            _ => false,
        }
    }

    /// The screen as it is made, before it is entered.
    pub open spec fn is_new(&self) -> bool {
        match self {
            Mode::Status(mode) => mode.is_new(),
            Mode::Log(mode) => mode.is_new(),
            Mode::RevisionDetails(mode) => mode.is_new(),
            Mode::Branches(mode) => mode.is_new(),
            Mode::Tags(mode) => mode.is_new(),
            Mode::Stash(mode) => mode.is_new(),
            Mode::Diff(mode) => mode.is_new(),
            Mode::StashDetails(mode) => mode.is_new(),
            Mode::MessageInput(mode) => mode.is_new(),
        }
    }

    /// A new screen of the given kind.
    pub fn default_from_mode_kind(mode_kind: ModeKind) -> (r: Self)
        ensures
            r.wf(),
            r.is_new(),
            r.kind() == mode_kind,
    {
        match mode_kind {
            ModeKind::Status => Mode::Status(status::Mode::new()),
            ModeKind::Log => Mode::Log(log::Mode::new()),
            ModeKind::RevisionDetails => Mode::RevisionDetails(revision_details::Mode::new()),
            ModeKind::Branches => Mode::Branches(branches::Mode::new()),
            ModeKind::Tags => Mode::Tags(tags::Mode::new()),
            ModeKind::Stash => Mode::Stash(stash::Mode::new()),
            ModeKind::Diff => Mode::Diff(diff::Mode::new()),
            ModeKind::StashDetails => Mode::StashDetails(stash_details::Mode::new()),
            ModeKind::MessageInput => Mode::MessageInput(message_input::Mode::new()),
        }
    }

    /// The tag of the screen.
    pub fn mode_kind(&self) -> (r: ModeKind)
        ensures
            r == self.kind(),
    {
        match self {
            Mode::Status(_) => ModeKind::Status,
            Mode::Log(_) => ModeKind::Log,
            Mode::RevisionDetails(_) => ModeKind::RevisionDetails,
            Mode::Branches(_) => ModeKind::Branches,
            Mode::Tags(_) => ModeKind::Tags,
            Mode::Stash(_) => ModeKind::Stash,
            Mode::Diff(_) => ModeKind::Diff,
            Mode::StashDetails(_) => ModeKind::StashDetails,
            Mode::MessageInput(_) => ModeKind::MessageInput,
        }
    }
}

/// A screen of any kind does what the screen of its kind does.
impl ModeTrait for Mode {
    open spec fn wf(&self) -> bool {
        match self {
            Mode::Status(mode) => mode.wf(),
            Mode::Log(mode) => mode.wf(),
            Mode::RevisionDetails(mode) => mode.wf(),
            Mode::Branches(mode) => mode.wf(),
            Mode::Tags(mode) => mode.wf(),
            Mode::Stash(mode) => mode.wf(),
            Mode::Diff(mode) => mode.wf(),
            Mode::StashDetails(mode) => mode.wf(),
            Mode::MessageInput(mode) => mode.wf(),
        }
    }

    open spec fn kind(&self) -> ModeKind {
        match self {
            Mode::Status(_) => ModeKind::Status,
            Mode::Log(_) => ModeKind::Log,
            Mode::RevisionDetails(_) => ModeKind::RevisionDetails,
            Mode::Branches(_) => ModeKind::Branches,
            Mode::Tags(_) => ModeKind::Tags,
            Mode::Stash(_) => ModeKind::Stash,
            Mode::Diff(_) => ModeKind::Diff,
            Mode::StashDetails(_) => ModeKind::StashDetails,
            Mode::MessageInput(_) => ModeKind::MessageInput,
        }
    }

    open spec fn waiting(&self) -> bool {
        match self {
            Mode::Status(mode) => mode.waiting(),
            Mode::Log(mode) => mode.waiting(),
            Mode::RevisionDetails(mode) => mode.waiting(),
            Mode::Branches(mode) => mode.waiting(),
            Mode::Tags(mode) => mode.waiting(),
            Mode::Stash(mode) => mode.waiting(),
            Mode::Diff(mode) => mode.waiting(),
            Mode::StashDetails(mode) => mode.waiting(),
            Mode::MessageInput(mode) => mode.waiting(),
        }
    }

    open spec fn entered(
        before: Self,
        after: Self,
        ctx: ModeContext,
        ctx_after: ModeContext,
        info: ModeChangeInfo,
    ) -> bool {
        match (before, after) {
            (Mode::Status(b), Mode::Status(a)) => status::Mode::entered(b, a, ctx, ctx_after, info),
            (Mode::Log(b), Mode::Log(a)) => log::Mode::entered(b, a, ctx, ctx_after, info),
            (Mode::RevisionDetails(b), Mode::RevisionDetails(a)) => revision_details::Mode::entered(
                b, a, ctx, ctx_after, info,
            ),
            (Mode::Branches(b), Mode::Branches(a)) => branches::Mode::entered(b, a, ctx, ctx_after, info),
            (Mode::Tags(b), Mode::Tags(a)) => tags::Mode::entered(b, a, ctx, ctx_after, info),
            (Mode::Stash(b), Mode::Stash(a)) => stash::Mode::entered(b, a, ctx, ctx_after, info),
            (Mode::Diff(b), Mode::Diff(a)) => diff::Mode::entered(b, a, ctx, ctx_after, info),
            (Mode::StashDetails(b), Mode::StashDetails(a)) => stash_details::Mode::entered(
                b, a, ctx, ctx_after, info,
            ),
            (Mode::MessageInput(b), Mode::MessageInput(a)) => message_input::Mode::entered(
                b, a, ctx, ctx_after, info,
            ),
            _ => false,
        }
    }

    open spec fn keyed(
        before: Self,
        after: Self,
        ctx: ModeContext,
        ctx_after: ModeContext,
        key: Key,
        status: ModeStatus,
    ) -> bool {
        match (before, after) {
            (Mode::Status(b), Mode::Status(a)) => status::Mode::keyed(b, a, ctx, ctx_after, key, status),
            (Mode::Log(b), Mode::Log(a)) => log::Mode::keyed(b, a, ctx, ctx_after, key, status),
            (Mode::RevisionDetails(b), Mode::RevisionDetails(a)) => revision_details::Mode::keyed(
                b, a, ctx, ctx_after, key, status,
            ),
            (Mode::Branches(b), Mode::Branches(a)) => branches::Mode::keyed(b, a, ctx, ctx_after, key, status),
            (Mode::Tags(b), Mode::Tags(a)) => tags::Mode::keyed(b, a, ctx, ctx_after, key, status),
            (Mode::Stash(b), Mode::Stash(a)) => stash::Mode::keyed(b, a, ctx, ctx_after, key, status),
            (Mode::Diff(b), Mode::Diff(a)) => diff::Mode::keyed(b, a, ctx, ctx_after, key, status),
            (Mode::StashDetails(b), Mode::StashDetails(a)) => stash_details::Mode::keyed(
                b, a, ctx, ctx_after, key, status,
            ),
            (Mode::MessageInput(b), Mode::MessageInput(a)) => message_input::Mode::keyed(
                b, a, ctx, ctx_after, key, status,
            ),
            _ => false,
        }
    }

    open spec fn answered(
        before: Self,
        after: Self,
        ctx: ModeContext,
        ctx_after: ModeContext,
        response: ModeResponse,
    ) -> bool {
        match (before, after) {
            (Mode::Status(b), Mode::Status(a)) => status::Mode::answered(b, a, ctx, ctx_after, response),
            (Mode::Log(b), Mode::Log(a)) => log::Mode::answered(b, a, ctx, ctx_after, response),
            (Mode::RevisionDetails(b), Mode::RevisionDetails(a)) => revision_details::Mode::answered(
                b, a, ctx, ctx_after, response,
            ),
            (Mode::Branches(b), Mode::Branches(a)) => branches::Mode::answered(b, a, ctx, ctx_after, response),
            (Mode::Tags(b), Mode::Tags(a)) => tags::Mode::answered(b, a, ctx, ctx_after, response),
            (Mode::Stash(b), Mode::Stash(a)) => stash::Mode::answered(b, a, ctx, ctx_after, response),
            (Mode::Diff(b), Mode::Diff(a)) => diff::Mode::answered(b, a, ctx, ctx_after, response),
            (Mode::StashDetails(b), Mode::StashDetails(a)) => stash_details::Mode::answered(
                b, a, ctx, ctx_after, response,
            ),
            (Mode::MessageInput(b), Mode::MessageInput(a)) => message_input::Mode::answered(
                b, a, ctx, ctx_after, response,
            ),
            _ => false,
        }
    }

    open spec fn header_texts(&self) -> (Seq<char>, Seq<char>, Seq<char>) {
        match self {
            Mode::Status(mode) => mode.header_texts(),
            Mode::Log(mode) => mode.header_texts(),
            Mode::RevisionDetails(mode) => mode.header_texts(),
            Mode::Branches(mode) => mode.header_texts(),
            Mode::Tags(mode) => mode.header_texts(),
            Mode::Stash(mode) => mode.header_texts(),
            Mode::Diff(mode) => mode.header_texts(),
            Mode::StashDetails(mode) => mode.header_texts(),
            Mode::MessageInput(mode) => mode.header_texts(),
        }
    }

    open spec fn drawing(&self, viewport_size: (u16, u16)) -> Seq<Drawn> {
        match self {
            Mode::Status(mode) => mode.drawing(viewport_size),
            Mode::Log(mode) => mode.drawing(viewport_size),
            Mode::RevisionDetails(mode) => mode.drawing(viewport_size),
            Mode::Branches(mode) => mode.drawing(viewport_size),
            Mode::Tags(mode) => mode.drawing(viewport_size),
            Mode::Stash(mode) => mode.drawing(viewport_size),
            Mode::Diff(mode) => mode.drawing(viewport_size),
            Mode::StashDetails(mode) => mode.drawing(viewport_size),
            Mode::MessageInput(mode) => mode.drawing(viewport_size),
        }
    }

    fn draw(&self, drawer: &mut Drawer)
        ensures
            final(drawer)@ == old(drawer)@ + self.drawing(old(drawer).size()),
    {
        match self {
            Mode::Status(mode) => mode.draw(drawer),
            Mode::Log(mode) => mode.draw(drawer),
            Mode::RevisionDetails(mode) => mode.draw(drawer),
            Mode::Branches(mode) => mode.draw(drawer),
            Mode::Tags(mode) => mode.draw(drawer),
            Mode::Stash(mode) => mode.draw(drawer),
            Mode::Diff(mode) => mode.draw(drawer),
            Mode::StashDetails(mode) => mode.draw(drawer),
            Mode::MessageInput(mode) => mode.draw(drawer),
        }
    }

    fn on_enter(&mut self, ctx: &mut ModeContext, info: ModeChangeInfo)
        ensures
            Self::entered(*old(self), *final(self), *old(ctx), *final(ctx), info),
    {
        match self {
            Mode::Status(mode) => mode.on_enter(ctx, info),
            Mode::Log(mode) => mode.on_enter(ctx, info),
            Mode::RevisionDetails(mode) => mode.on_enter(ctx, info),
            Mode::Branches(mode) => mode.on_enter(ctx, info),
            Mode::Tags(mode) => mode.on_enter(ctx, info),
            Mode::Stash(mode) => mode.on_enter(ctx, info),
            Mode::Diff(mode) => mode.on_enter(ctx, info),
            Mode::StashDetails(mode) => mode.on_enter(ctx, info),
            Mode::MessageInput(mode) => mode.on_enter(ctx, info),
        }
    }

    fn on_key(&mut self, ctx: &mut ModeContext, key: Key) -> (status: ModeStatus)
        ensures
            Self::keyed(*old(self), *final(self), *old(ctx), *final(ctx), key, status),
    {
        match self {
            Mode::Status(mode) => mode.on_key(ctx, key),
            Mode::Log(mode) => mode.on_key(ctx, key),
            Mode::RevisionDetails(mode) => mode.on_key(ctx, key),
            Mode::Branches(mode) => mode.on_key(ctx, key),
            Mode::Tags(mode) => mode.on_key(ctx, key),
            Mode::Stash(mode) => mode.on_key(ctx, key),
            Mode::Diff(mode) => mode.on_key(ctx, key),
            Mode::StashDetails(mode) => mode.on_key(ctx, key),
            Mode::MessageInput(mode) => mode.on_key(ctx, key),
        }
    }

    fn is_waiting_response(&self) -> (r: bool)
        ensures
            r == self.waiting(),
    {
        match self {
            Mode::Status(mode) => mode.is_waiting_response(),
            Mode::Log(mode) => mode.is_waiting_response(),
            Mode::RevisionDetails(mode) => mode.is_waiting_response(),
            Mode::Branches(mode) => mode.is_waiting_response(),
            Mode::Tags(mode) => mode.is_waiting_response(),
            Mode::Stash(mode) => mode.is_waiting_response(),
            Mode::Diff(mode) => mode.is_waiting_response(),
            Mode::StashDetails(mode) => mode.is_waiting_response(),
            Mode::MessageInput(mode) => mode.is_waiting_response(),
        }
    }

    fn on_response(&mut self, ctx: &mut ModeContext, response: ModeResponse)
        ensures
            Self::answered(*old(self), *final(self), *old(ctx), *final(ctx), response),
    {
        match self {
            Mode::Status(mode) => mode.on_response(ctx, response),
            Mode::Log(mode) => mode.on_response(ctx, response),
            Mode::RevisionDetails(mode) => mode.on_response(ctx, response),
            Mode::Branches(mode) => mode.on_response(ctx, response),
            Mode::Tags(mode) => mode.on_response(ctx, response),
            Mode::Stash(mode) => mode.on_response(ctx, response),
            Mode::Diff(mode) => mode.on_response(ctx, response),
            Mode::StashDetails(mode) => mode.on_response(ctx, response),
            Mode::MessageInput(mode) => mode.on_response(ctx, response),
        }
    }

    fn header(&self) -> (r: (&'static str, &'static str, &'static str))
        ensures
            (r.0@, r.1@, r.2@) == self.header_texts(),
    {
        match self {
            Mode::Status(mode) => mode.header(),
            Mode::Log(mode) => mode.header(),
            Mode::RevisionDetails(mode) => mode.header(),
            Mode::Branches(mode) => mode.header(),
            Mode::Tags(mode) => mode.header(),
            Mode::Stash(mode) => mode.header(),
            Mode::Diff(mode) => mode.header(),
            Mode::StashDetails(mode) => mode.header(),
            Mode::MessageInput(mode) => mode.header(),
        }
    }
}

/// The number of screens that the way back holds at most.
pub const BOUNDED_VEC_DEQUE_MAX_LEN: usize = 5;

/// `bounded_vec_deque::BoundedVecDeque`, a double-ended queue that never
/// holds more elements than the bound it was made with.
#[verifier::external_type_specification]
#[verifier::external_body]
#[verifier::reject_recursive_types(T)]
pub struct ExBoundedVecDeque<T>(BoundedVecDeque<T>);

/// The screens that a history holds, the oldest first.
pub uninterp spec fn history_modes(history: BoundedVecDeque<Mode>) -> Seq<Mode>;

/// The greatest number of screens that a history was made to hold.
pub uninterp spec fn history_limit(history: BoundedVecDeque<Mode>) -> usize;

/// Calls `BoundedVecDeque::new`, which makes an empty deque with the given
/// upper bound on its length. It allocates room for that many elements at
/// once and panics where their size in bytes exceeds `isize::MAX`; the
/// bound on `max_len` keeps far from that.
#[verifier::external_body]
fn history_new(max_len: usize) -> (history: BoundedVecDeque<Mode>)
    requires
        max_len <= 1024,
    ensures
        history_modes(history) == Seq::<Mode>::empty(),
        history_limit(history) == max_len,
{
    BoundedVecDeque::new(max_len)
}

/// Calls `BoundedVecDeque::push_back`. With a bound of 0 it hands the value
/// back and keeps nothing. Otherwise it puts the value at the back, and
/// where the deque was full before, it first takes the element at the front
/// out and returns it. The bound stays.
#[verifier::external_body]
fn history_push(history: &mut BoundedVecDeque<Mode>, mode: Mode) -> (displaced: Option<Mode>)
    ensures
        history_limit(*final(history)) == history_limit(*old(history)),
        history_limit(*old(history)) == 0 ==> displaced == Some(mode) && history_modes(*final(history))
            == history_modes(*old(history)),
        history_limit(*old(history)) > 0 && history_modes(*old(history)).len() < history_limit(
            *old(history),
        ) ==> displaced is None && history_modes(*final(history)) == history_modes(*old(history)).push(mode),
        history_limit(*old(history)) > 0 && history_modes(*old(history)).len() >= history_limit(
            *old(history),
        ) ==> displaced == Some(history_modes(*old(history)).first()) && history_modes(*final(history))
            == history_modes(*old(history)).drop_first().push(mode),
{
    history.push_back(mode)
}

/// Calls `BoundedVecDeque::pop_back`, which takes the last element out and
/// returns it, or returns `None` where the deque is empty. The bound stays.
#[verifier::external_body]
fn history_pop(history: &mut BoundedVecDeque<Mode>) -> (last: Option<Mode>)
    ensures
        history_limit(*final(history)) == history_limit(*old(history)),
        history_modes(*old(history)).len() == 0 ==> last is None && history_modes(*final(history))
            == history_modes(*old(history)),
        history_modes(*old(history)).len() > 0 ==> last == Some(history_modes(*old(history)).last())
            && history_modes(*final(history)) == history_modes(*old(history)).drop_last(),
{
    history.pop_back()
}

/// Calls `VecDeque::len` on the deque that the `BoundedVecDeque` wraps and
/// derefs to, which gives the number of its elements.
#[verifier::external_body]
fn history_len(history: &BoundedVecDeque<Mode>) -> (len: usize)
    ensures
        len == history_modes(*history).len(),
{
    history.len()
}

/// The active screen and the way back: the screens that were left for
/// another kind of screen, the oldest first.
#[derive(Debug)]
pub struct ModeBuf {
    mode: Mode,
    history: BoundedVecDeque<Mode>,
}

impl ModeBuf {
    /// The active screen.
    pub closed spec fn current(&self) -> Mode {
        self.mode
    }

    /// The way back, the oldest screen first.
    pub closed spec fn history(&self) -> Seq<Mode> {
        history_modes(self.history)
    }

    /// The history was made for five screens.
    pub closed spec fn bounded(&self) -> bool {
        history_limit(self.history) == BOUNDED_VEC_DEQUE_MAX_LEN
    }

    /// Every screen is as it should be. The way back holds five screens at
    /// most. Each screen in it was left for a screen of another kind, so
    /// neighbours differ in kind, and the last differs from the active
    /// screen.
    pub open spec fn wf(&self) -> bool {
        &&& self.bounded()
        &&& self.current().wf()
        &&& self.history().len() <= BOUNDED_VEC_DEQUE_MAX_LEN
        &&& forall|i: int| 0 <= i < self.history().len() ==> (#[trigger] self.history()[i]).wf()
        &&& forall|i: int|
            0 <= i < self.history().len() - 1 ==> (#[trigger] self.history()[i]).kind() != self.history()[i
                + 1].kind()
        &&& self.history().len() > 0 ==> self.history().last().kind() != self.current().kind()
    }

    /// The way back after the active screen was left for one of another
    /// kind: it is put at the end, and where five are held already the
    /// oldest leaves first.
    pub open spec fn history_with(history: Seq<Mode>, left: Mode) -> Seq<Mode> {
        if history.len() >= BOUNDED_VEC_DEQUE_MAX_LEN {
            history.drop_first().push(left)
        } else {
            history.push(left)
        }
    }

    /// What a forward transition does: the active screen of `after` is a
    /// new screen of the given kind that was entered with `info`, and the
    /// screen that was active went onto the way back if it was of another
    /// kind.
    pub open spec fn entered(
        before: ModeBuf,
        after: ModeBuf,
        ctx: ModeContext,
        ctx_after: ModeContext,
        mode_kind: ModeKind,
        info: ModeChangeInfo,
    ) -> bool {
        &&& after.current().kind() == mode_kind
        &&& after.history() == if before.current().kind() != mode_kind {
            ModeBuf::history_with(before.history(), before.current())
        } else {
            before.history()
        }
        &&& exists|fresh: Mode|
            fresh.is_new() && fresh.kind() == mode_kind && #[trigger] Mode::entered(
                fresh,
                after.current(),
                ctx,
                ctx_after,
                info,
            )
    }

    /// What going back does: the screen that was left last is active
    /// again, as it was left. Where the way back is empty, nothing changes.
    pub open spec fn reverted(before: ModeBuf, after: ModeBuf) -> bool {
        if before.history().len() > 0 {
            after.current() == before.history().last() && after.history() == before.history().drop_last()
        } else {
            after.current() == before.current() && after.history() == before.history()
        }
    }

    /// What a key does: the active screen takes it, and the way back stays.
    pub open spec fn keyed(
        before: ModeBuf,
        after: ModeBuf,
        ctx: ModeContext,
        ctx_after: ModeContext,
        key: Key,
        status: ModeStatus,
    ) -> bool {
        &&& after.history() == before.history()
        &&& Mode::keyed(before.current(), after.current(), ctx, ctx_after, key, status)
    }

    /// What an answer does: the active screen takes it if it is for a
    /// screen of its kind; otherwise it is dropped and nothing changes.
    pub open spec fn answered(
        before: ModeBuf,
        after: ModeBuf,
        ctx: ModeContext,
        ctx_after: ModeContext,
        response: ModeResponse,
    ) -> bool {
        &&& after.history() == before.history()
        &&& if response.kind() == before.current().kind() {
            Mode::answered(before.current(), after.current(), ctx, ctx_after, response)
        } else {
            after.current() == before.current() && ctx_after == ctx
        }
    }

    pub fn new() -> (r: Self)
        ensures
            r.wf(),
            r.current().is_new(),
            r.current().kind() == ModeKind::Status,
            r.history() == Seq::<Mode>::empty(),
    {
        ModeBuf { mode: Mode::default(), history: history_new(BOUNDED_VEC_DEQUE_MAX_LEN) }
    }

    /// The tag of the active screen.
    pub fn mode_kind(&self) -> (r: ModeKind)
        ensures
            r == self.current().kind(),
    {
        self.mode.mode_kind()
    }

    /// The number of screens on the way back.
    pub fn history_len(&self) -> (r: usize)
        ensures
            r == self.history().len(),
    {
        history_len(&self.history)
    }

    /// The active screen.
    pub fn mode(&self) -> (r: &Mode)
        ensures
            *r == self.current(),
    {
        &self.mode
    }

    /// Moves forward to a new screen of the given kind and enters it. Where
    /// the active screen is of another kind, it goes onto the way back.
    pub fn enter_mode(&mut self, ctx: &mut ModeContext, mode_kind: ModeKind, info: ModeChangeInfo)
        requires
            old(self).wf(),
        ensures
            final(self).wf(),
            ModeBuf::entered(*old(self), *final(self), *old(ctx), *final(ctx), mode_kind, info),
            final(self).history().len() <= BOUNDED_VEC_DEQUE_MAX_LEN,
            final(self).history().len() > 0 ==> final(self).history().last().kind()
                != final(self).current().kind(),
            final(ctx).viewport_size == old(ctx).viewport_size,
            old(ctx).posted().is_prefix_of(final(ctx).posted()),
            old(ctx).spawned().is_prefix_of(final(ctx).spawned()),
    {
        let mut next = Mode::default_from_mode_kind(mode_kind);
        let ghost fresh = next;
        if self.mode.mode_kind() != mode_kind {
            core::mem::swap(&mut self.mode, &mut next);
            let _ = history_push(&mut self.history, next);
        } else {
            self.mode = next;
        }
        self.mode.on_enter(ctx, info);
        assert(Mode::entered(fresh, self.mode, *old(ctx), *ctx, info));
    }

    /// Goes back to the screen that was left last, as it was left. Where
    /// the way back is empty, nothing changes.
    pub fn revert_mode(&mut self, ctx: &ModeContext)
        requires
            old(self).wf(),
        ensures
            final(self).wf(),
            ModeBuf::reverted(*old(self), *final(self)),
    {
        if let Some(mode) = history_pop(&mut self.history) {
            self.mode = mode;
        }
    }

    /// Hands a key to the active screen.
    pub fn on_key(&mut self, ctx: &mut ModeContext, key: Key) -> (status: ModeStatus)
        requires
            old(self).wf(),
        ensures
            final(self).wf(),
            final(self).current().kind() == old(self).current().kind(),
            ModeBuf::keyed(*old(self), *final(self), *old(ctx), *final(ctx), key, status),
            final(ctx).viewport_size == old(ctx).viewport_size,
            old(ctx).posted().is_prefix_of(final(ctx).posted()),
            old(ctx).spawned().is_prefix_of(final(ctx).spawned()),
    {
        self.mode.on_key(ctx, key)
    }

    /// Hands an answer to the active screen if it is for a screen of its
    /// kind, and drops it otherwise.
    pub fn on_response(&mut self, ctx: &mut ModeContext, response: ModeResponse)
        requires
            old(self).wf(),
        ensures
            final(self).wf(),
            final(self).current().kind() == old(self).current().kind(),
            ModeBuf::answered(*old(self), *final(self), *old(ctx), *final(ctx), response),
            final(ctx).viewport_size == old(ctx).viewport_size,
            old(ctx).posted().is_prefix_of(final(ctx).posted()),
            old(ctx).spawned().is_prefix_of(final(ctx).spawned()),
    {
        if response.mode_kind() == self.mode.mode_kind() {
            self.mode.on_response(ctx, response);
        }
    }

    /// Whether the active screen is waiting for an answer.
    pub fn is_waiting_response(&self) -> (r: bool)
        ensures
            r == self.current().waiting(),
    {
        self.mode.is_waiting_response()
    }

    /// The title of the active screen and its two help texts.
    pub fn header(&self) -> (r: (&'static str, &'static str, &'static str))
        ensures
            (r.0@, r.1@, r.2@) == self.current().header_texts(),
    {
        self.mode.header()
    }

    /// Draws the active screen.
    pub fn draw(&self, drawer: &mut Drawer)
        requires
            self.wf(),
        ensures
            final(drawer).size() == old(drawer).size(),
            final(drawer)@ == old(drawer)@ + self.current().drawing(old(drawer).size()),
    {
        self.mode.draw(drawer);
    }
}

impl Default for ModeBuf {
    fn default() -> (r: Self)
        ensures
            r.wf(),
            r.current().is_new(),
            r.current().kind() == ModeKind::Status,
            r.history() == Seq::<Mode>::empty(),
    {
        ModeBuf::new()
    }
}

/// After a forward transition, whatever it carries, the active screen is
/// of the kind asked for and the way back holds five screens at most. If
/// that kind is the kind of the screen that was active, the way back is as
/// it was. Otherwise the screen that was active is the last on the way
/// back, so that the screen at its end is of another kind than the active
/// one.
pub proof fn lemma_forward_keeps_history_bounded(
    before: ModeBuf,
    after: ModeBuf,
    ctx: ModeContext,
    ctx_after: ModeContext,
    mode_kind: ModeKind,
    info: ModeChangeInfo,
)
    requires
        before.wf(),
        ModeBuf::entered(before, after, ctx, ctx_after, mode_kind, info),
    ensures
        after.current().kind() == mode_kind,
        after.history().len() <= BOUNDED_VEC_DEQUE_MAX_LEN,
        before.current().kind() == mode_kind ==> after.history() == before.history(),
        before.current().kind() != mode_kind ==> after.history().len() > 0 && after.history().last()
            == before.current(),
        after.history().len() > 0 ==> after.history().last().kind() != after.current().kind(),
{
}

/// The router `bufs[i + 1]` is what a forward transition makes of
/// `bufs[i]`, and the transition leads to a screen of another kind than the
/// active one.
pub open spec fn forward_at(
    bufs: Seq<ModeBuf>,
    ctxs: Seq<(ModeContext, ModeContext)>,
    kinds: Seq<ModeKind>,
    infos: Seq<ModeChangeInfo>,
    i: int,
) -> bool {
    &&& bufs[i].current().kind() != kinds[i]
    &&& ModeBuf::entered(bufs[i], bufs[i + 1], ctxs[i].0, ctxs[i].1, kinds[i], infos[i])
}

/// Six forward transitions from an empty way back, each to a screen of
/// another kind than the active one, leave exactly the five screens that
/// were left last, the oldest first: the screen that was active at the
/// start is gone. Going back once then makes the fifth of them active
/// again and leaves the other four.
pub proof fn lemma_six_changes_fill_history(
    bufs: Seq<ModeBuf>,
    ctxs: Seq<(ModeContext, ModeContext)>,
    kinds: Seq<ModeKind>,
    infos: Seq<ModeChangeInfo>,
    back: ModeBuf,
)
    requires
        bufs.len() == 7,
        ctxs.len() == 6,
        kinds.len() == 6,
        infos.len() == 6,
        bufs[0].history().len() == 0,
        forall|i: int| 0 <= i < 6 ==> #[trigger] forward_at(bufs, ctxs, kinds, infos, i),
        ModeBuf::reverted(bufs[6], back),
    ensures
        bufs[6].current().kind() == kinds[5],
        bufs[6].history().len() == 5,
        forall|i: int| 0 <= i < 5 ==> bufs[6].history()[i] == bufs[i + 1].current(),
        back.current() == bufs[5].current(),
        back.history().len() == 4,
        forall|i: int| 0 <= i < 4 ==> back.history()[i] == bufs[i + 1].current(),
{
    assert(forward_at(bufs, ctxs, kinds, infos, 0));
    assert(bufs[1].history() =~= seq![bufs[0].current()]);
    assert(forward_at(bufs, ctxs, kinds, infos, 1));
    assert(bufs[2].history() =~= seq![bufs[0].current(), bufs[1].current()]);
    assert(forward_at(bufs, ctxs, kinds, infos, 2));
    assert(bufs[3].history() =~= seq![bufs[0].current(), bufs[1].current(), bufs[2].current()]);
    assert(forward_at(bufs, ctxs, kinds, infos, 3));
    assert(bufs[4].history() =~= seq![
        bufs[0].current(),
        bufs[1].current(),
        bufs[2].current(),
        bufs[3].current(),
    ]);
    assert(forward_at(bufs, ctxs, kinds, infos, 4));
    assert(bufs[5].history() =~= seq![
        bufs[0].current(),
        bufs[1].current(),
        bufs[2].current(),
        bufs[3].current(),
        bufs[4].current(),
    ]);
    assert(forward_at(bufs, ctxs, kinds, infos, 5));
    assert(bufs[6].history() =~= seq![
        bufs[1].current(),
        bufs[2].current(),
        bufs[3].current(),
        bufs[4].current(),
        bufs[5].current(),
    ]);
    assert(back.history() =~= seq![
        bufs[1].current(),
        bufs[2].current(),
        bufs[3].current(),
        bufs[4].current(),
    ]);
}

/// An answer reaches the active screen only if it is for a screen of its
/// kind. One for a screen of another kind changes nothing: not the active
/// screen, not the way back, and nothing is posted or left for the backend.
pub proof fn lemma_stale_answer_is_dropped(
    before: ModeBuf,
    after: ModeBuf,
    ctx: ModeContext,
    ctx_after: ModeContext,
    response: ModeResponse,
)
    requires
        ModeBuf::answered(before, after, ctx, ctx_after, response),
        response.kind() != before.current().kind(),
    ensures
        after.current() == before.current(),
        after.history() == before.history(),
        ctx_after == ctx,
{
}

} // verus!
