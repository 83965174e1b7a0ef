//! The work that screens leave for the backend, and what is posted when it
//! is done.

use vstd::prelude::*;
use crate::application::Event;
use crate::backend::{
    Backend,
    BackendResult,
    BranchEntry,
    LogEntry,
    RevisionEntry,
    RevisionInfo,
    StashEntry,
    StatusInfo,
    TagEntry,
};
use crate::mode::{
    ModeChangeInfo,
    ModeKind,
    ModeResponse,
    branches,
    diff,
    log,
    revision_details,
    stash,
    stash_details,
    status,
    tags,
};
use crate::order::{Ordered, sort, sorted};

verus! {

/// One piece of backend work. A worker runs it off the foreground and posts
/// the events that come of it.
#[derive(Debug, PartialEq, Eq)]
#[allow(inconsistent_fields)]
pub enum Job {
    /// Read the status of the working copy.
    StatusRefresh,
    /// Discard the changes of these entries, then read the status.
    Discard(Vec<RevisionEntry>),
    /// Resolve the conflicts of these entries by our side, then read the
    /// status.
    ResolveTakingOurs(Vec<RevisionEntry>),
    /// Resolve the conflicts of these entries by their side, then read the
    /// status.
    ResolveTakingTheirs(Vec<RevisionEntry>),
    /// Stash these entries under this message, then read the status.
    Stash { message: String, entries: Vec<RevisionEntry> },
    /// Commit these entries under this message, or into the last commit.
    Commit { message: String, entries: Vec<RevisionEntry>, amend: bool },
    /// Read the diff of these entries in a revision, or in the working copy.
    Diff { revision: Option<String>, entries: Vec<RevisionEntry> },
    /// Read `len` records of the history after the first `skip`.
    LogRefresh { skip: usize, len: usize },
    /// Check out a revision, then read the history as `LogRefresh` does.
    LogCheckout { revision: String, skip: usize, len: usize },
    /// Read the message and the files of a revision.
    RevisionDetails(String),
    /// Read the branches.
    BranchesRefresh,
    /// Make a branch of this name, then read the branches.
    NewBranch(String),
    /// Delete the branch of this name, then read the branches.
    DeleteBranch { name: String, force: bool },
    /// Check out the branch of this name, which stands at `entry_index`.
    CheckoutBranch { name: String, entry_index: usize },
    /// Merge the branch of this name into the one checked out.
    MergeBranch(String),
    /// Read the tags.
    TagsRefresh,
    /// Make a tag of this name, then read the tags.
    NewTag(String),
    /// Delete the tag of this name, then read the tags.
    DeleteTag(String),
    /// Check out the tag of this name.
    CheckoutTag(String),
    /// Read the stashes.
    StashRefresh,
    /// Drop a stash, then read the stashes.
    StashDrop(usize),
    /// Apply a stash and take it off the stack.
    StashPop(usize),
    /// Read the summary of a stash.
    StashShow(usize),
    /// Read the diff of a stash.
    StashDiff(usize),
}

/// `after` is `before` with one more job at its end.
pub open spec fn spawned_one(before: Seq<Job>, after: Seq<Job>) -> bool {
    after.len() == before.len() + 1 && after.drop_last() == before
}

impl Job {
    /// This is the job that discards exactly these entries.
    pub open spec fn is_discard(&self, entries: Seq<RevisionEntry>) -> bool {
        self matches Job::Discard(e) && e@ == entries
    }

    /// This is the job that resolves exactly these entries by our side, or
    /// by theirs.
    pub open spec fn is_resolve(&self, ours: bool, entries: Seq<RevisionEntry>) -> bool {
        if ours {
            self matches Job::ResolveTakingOurs(e) && e@ == entries
        } else {
            self matches Job::ResolveTakingTheirs(e) && e@ == entries
        }
    }

    /// This is the job that stashes exactly these entries under this
    /// message.
    pub open spec fn is_stash(&self, message: String, entries: Seq<RevisionEntry>) -> bool {
        self matches Job::Stash { message: m, entries: e } && m == message && e@ == entries
    }

    /// This is the job that commits exactly these entries under this
    /// message, or into the last commit.
    pub open spec fn is_commit(&self, message: Seq<char>, entries: Seq<RevisionEntry>, amend: bool) -> bool {
        self matches Job::Commit { message: m, entries: e, amend: a } && m@ == message && e@ == entries && a
            == amend
    }

    /// This is the job that reads the diff of exactly these entries in this
    /// revision, or in the working copy.
    pub open spec fn is_diff(&self, revision: Option<String>, entries: Seq<RevisionEntry>) -> bool {
        self matches Job::Diff { revision: r, entries: e } && r == revision && e@ == entries
    }
}

/// `after` holds the elements of `before`, each as often, in sorted order.
pub open spec fn sorted_from<T: Ordered>(before: Seq<T>, after: Seq<T>) -> bool {
    sorted(after) && after.to_multiset() == before.to_multiset() && after.len() == before.len()
}

/// The change to the log that follows an operation of `from` that went
/// well.
pub open spec fn to_log(from: ModeKind) -> Event {
    Event::ModeChange(ModeKind::Log, ModeChangeInfo { from, info: None })
}

/// `event` is the answer for the status screen to an attempt to read the
/// status: the status with its entries sorted by their state, or the error
/// in the header's place and no entries.
pub open spec fn status_answer(result: BackendResult<StatusInfo>, event: Event) -> bool {
    event matches Event::Response(ModeResponse::Status(status::Response::Refresh(info))) && match result {
        Ok(read) => info.header == read.header && sorted_from(read.entries@, info.entries@),
        Err(error) => info.header == error && info.entries@.len() == 0,
    }
}

/// `events` are what a commit brings: when it went well, the end of the
/// waiting and then the change to the log; otherwise the error as a status.
pub open spec fn commit_answer(result: BackendResult<()>, events: Seq<Event>) -> bool {
    match result {
        Ok(_) => events == seq![
            Event::Response(ModeResponse::Status(status::Response::Idle)),
            to_log(ModeKind::Status),
        ],
        Err(error) => events.len() == 1 && status_answer(Err(error), events[0]),
    }
}

/// The answer for the diff screen: the diff, or the error in its place.
pub open spec fn diff_answer(result: BackendResult<String>) -> Event {
    Event::Response(
        ModeResponse::Diff(
            diff::Response::Refresh(
                match result {
                    Ok(output) => output,
                    Err(error) => error,
                },
            ),
        ),
    )
}

/// `event` is the answer for the revision details: the revision with its
/// files sorted by their state, or the error in the message's place and no
/// files.
pub open spec fn revision_answer(result: BackendResult<RevisionInfo>, event: Event) -> bool {
    event matches Event::Response(ModeResponse::RevisionDetails(revision_details::Response::Info(info)))
        && match result {
        Ok(read) => info.message == read.message && sorted_from(read.entries@, info.entries@),
        Err(error) => info.message == error && info.entries@.len() == 0,
    }
}

/// `event` is the answer for the branches screen: the branches sorted by
/// name, or the error.
pub open spec fn branches_answer(result: BackendResult<Vec<BranchEntry>>, event: Event) -> bool {
    event matches Event::Response(ModeResponse::Branches(branches::Response::Refresh(answer))) && match (
        result,
        answer,
    ) {
        (Ok(read), Ok(entries)) => sorted_from(read@, entries@),
        (Err(error), Err(told)) => told == error,
        _ => false,
    }
}

/// `event` is the answer for the tags screen: the tags sorted by name, or
/// the error.
pub open spec fn tags_answer(result: BackendResult<Vec<TagEntry>>, event: Event) -> bool {
    event matches Event::Response(ModeResponse::Tags(tags::Response::Refresh(answer))) && match (
        result,
        answer,
    ) {
        (Ok(read), Ok(entries)) => sorted_from(read@, entries@),
        (Err(error), Err(told)) => told == error,
        _ => false,
    }
}

/// What the checkout of a branch brings: when it went well, the mark on
/// the branch and then the change to the log; otherwise the error.
pub open spec fn branch_checkout_answer(result: BackendResult<()>, entry_index: usize) -> Seq<Event> {
    match result {
        Ok(_) => seq![
            Event::Response(ModeResponse::Branches(branches::Response::Checkout(entry_index))),
            to_log(ModeKind::Branches),
        ],
        Err(error) => seq![Event::Response(ModeResponse::Branches(branches::Response::Refresh(Err(error))))],
    }
}

/// What a merge brings: when it went well, the end of the waiting and then
/// the change to the log; otherwise the change to the log and then the
/// error.
pub open spec fn merge_answer(result: BackendResult<()>) -> Seq<Event> {
    match result {
        Ok(_) => seq![
            Event::Response(ModeResponse::Branches(branches::Response::Merge)),
            to_log(ModeKind::Branches),
        ],
        Err(error) => seq![
            to_log(ModeKind::Branches),
            Event::Response(ModeResponse::Branches(branches::Response::Refresh(Err(error)))),
        ],
    }
}

/// What the checkout of a tag brings: when it went well, the end of the
/// waiting and then the change to the log; otherwise the error.
pub open spec fn tag_checkout_answer(result: BackendResult<()>) -> Seq<Event> {
    match result {
        Ok(_) => seq![
            Event::Response(ModeResponse::Tags(tags::Response::Checkout)),
            to_log(ModeKind::Tags),
        ],
        Err(error) => seq![Event::Response(ModeResponse::Tags(tags::Response::Refresh(Err(error))))],
    }
}

/// What popping a stash brings: when it went well, the change to the
/// status; otherwise the error.
pub open spec fn stash_pop_answer(result: BackendResult<()>) -> Seq<Event> {
    match result {
        Ok(_) => seq![
            Event::ModeChange(ModeKind::Status, ModeChangeInfo { from: ModeKind::Stash, info: None }),
        ],
        Err(error) => seq![Event::Response(ModeResponse::Stash(stash::Response::Refresh(Err(error))))],
    }
}

/// The answer for the log: the page that was read, or the error.
pub open spec fn log_answer(result: BackendResult<(usize, Vec<LogEntry>)>) -> Event {
    Event::Response(ModeResponse::Log(log::Response::Refresh(result)))
}

/// The answer for the stash screen: the stashes, or the error.
pub open spec fn stashes_answer(result: BackendResult<Vec<StashEntry>>) -> Event {
    Event::Response(ModeResponse::Stash(stash::Response::Refresh(result)))
}

/// The answer for the stash details: the summary, or the error.
pub open spec fn stash_show_answer(result: BackendResult<String>) -> Event {
    Event::Response(ModeResponse::StashDetails(stash_details::Response::Refresh(result)))
}

/// The answer to an attempt to read the status.
pub fn status_refreshed(result: BackendResult<StatusInfo>) -> (event: Event)
    ensures
        status_answer(result, event),
{
    let info = match result {
        Ok(info) => StatusInfo { header: info.header, entries: sort(info.entries) },
        Err(error) => StatusInfo { header: error, entries: Vec::new() },
    };
    Event::Response(ModeResponse::Status(status::Response::Refresh(info)))
}

/// What a commit brings.
pub fn commit_done(result: BackendResult<()>) -> (events: Vec<Event>)
    ensures
        commit_answer(result, events@),
{
    match result {
        Ok(_) => {
            let events = vec![
                Event::Response(ModeResponse::Status(status::Response::Idle)),
                Event::ModeChange(ModeKind::Log, ModeChangeInfo::new(ModeKind::Status)),
            ];
            assert(events@ =~= seq![
                Event::Response(ModeResponse::Status(status::Response::Idle)),
                to_log(ModeKind::Status),
            ]);
            events
        },
        Err(error) => vec![status_refreshed(Err(error))],
    }
}

/// The answer to an attempt to read a diff.
pub fn diff_done(result: BackendResult<String>) -> (event: Event)
    ensures
        event == diff_answer(result),
{
    let output = match result {
        Ok(output) => output,
        Err(error) => error,
    };
    Event::Response(ModeResponse::Diff(diff::Response::Refresh(output)))
}

/// The answer to an attempt to read a revision.
pub fn revision_loaded(result: BackendResult<RevisionInfo>) -> (event: Event)
    ensures
        revision_answer(result, event),
{
    let info = match result {
        Ok(info) => RevisionInfo { message: info.message, entries: sort(info.entries) },
        Err(error) => RevisionInfo { message: error, entries: Vec::new() },
    };
    Event::Response(ModeResponse::RevisionDetails(revision_details::Response::Info(info)))
}

/// The answer to an attempt to read the branches.
pub fn branches_refreshed(result: BackendResult<Vec<BranchEntry>>) -> (event: Event)
    ensures
        branches_answer(result, event),
{
    let answer = match result {
        Ok(entries) => Ok(sort(entries)),
        Err(error) => Err(error),
    };
    Event::Response(ModeResponse::Branches(branches::Response::Refresh(answer)))
}

/// The answer to an attempt to read the tags.
pub fn tags_refreshed(result: BackendResult<Vec<TagEntry>>) -> (event: Event)
    ensures
        tags_answer(result, event),
{
    let answer = match result {
        Ok(entries) => Ok(sort(entries)),
        Err(error) => Err(error),
    };
    Event::Response(ModeResponse::Tags(tags::Response::Refresh(answer)))
}

/// What the checkout of the branch at `entry_index` brings.
pub fn branch_checked_out(result: BackendResult<()>, entry_index: usize) -> (events: Vec<Event>)
    ensures
        events@ == branch_checkout_answer(result, entry_index),
{
    let events = match result {
        Ok(_) => vec![
            Event::Response(ModeResponse::Branches(branches::Response::Checkout(entry_index))),
            Event::ModeChange(ModeKind::Log, ModeChangeInfo::new(ModeKind::Branches)),
        ],
        Err(error) => vec![Event::Response(ModeResponse::Branches(branches::Response::Refresh(Err(error))))],
    };
    assert(events@ =~= branch_checkout_answer(result, entry_index));
    events
}

/// What a merge brings.
pub fn branch_merged(result: BackendResult<()>) -> (events: Vec<Event>)
    ensures
        events@ == merge_answer(result),
{
    let events = match result {
        Ok(_) => vec![
            Event::Response(ModeResponse::Branches(branches::Response::Merge)),
            Event::ModeChange(ModeKind::Log, ModeChangeInfo::new(ModeKind::Branches)),
        ],
        Err(error) => vec![
            Event::ModeChange(ModeKind::Log, ModeChangeInfo::new(ModeKind::Branches)),
            Event::Response(ModeResponse::Branches(branches::Response::Refresh(Err(error)))),
        ],
    };
    assert(events@ =~= merge_answer(result));
    events
}

/// What the checkout of a tag brings.
pub fn tag_checked_out(result: BackendResult<()>) -> (events: Vec<Event>)
    ensures
        events@ == tag_checkout_answer(result),
{
    let events = match result {
        Ok(_) => vec![
            Event::Response(ModeResponse::Tags(tags::Response::Checkout)),
            Event::ModeChange(ModeKind::Log, ModeChangeInfo::new(ModeKind::Tags)),
        ],
        Err(error) => vec![Event::Response(ModeResponse::Tags(tags::Response::Refresh(Err(error))))],
    };
    assert(events@ =~= tag_checkout_answer(result));
    events
}

/// What popping a stash brings.
pub fn stash_popped(result: BackendResult<()>) -> (events: Vec<Event>)
    ensures
        events@ == stash_pop_answer(result),
{
    let events = match result {
        Ok(_) => vec![Event::ModeChange(ModeKind::Status, ModeChangeInfo::new(ModeKind::Stash))],
        Err(error) => vec![Event::Response(ModeResponse::Stash(stash::Response::Refresh(Err(error))))],
    };
    assert(events@ =~= stash_pop_answer(result));
    events
}

/// The text of the revision that a diff is asked of, if it is asked of one.
pub open spec fn revision_text(revision: Option<String>) -> Option<Seq<char>> {
    match revision {
        Some(revision) => Some(revision@),
        None => None,
    }
}

/// `r` is what the reading of the status gives that follows an operation
/// which gave `first`: the reading is made only if the operation went
/// well; otherwise its error stands in the reading's place.
pub open spec fn status_after<B: Backend>(
    backend: &B,
    first: BackendResult<()>,
    r: BackendResult<StatusInfo>,
) -> bool {
    match first {
        Ok(_) => backend.status_gives(r),
        Err(error) => r == Err::<StatusInfo, String>(error),
    }
}

/// As `status_after`, for the reading of a page of the history.
pub open spec fn log_after<B: Backend>(
    backend: &B,
    skip: usize,
    len: usize,
    first: BackendResult<()>,
    r: BackendResult<(usize, Vec<LogEntry>)>,
) -> bool {
    match first {
        Ok(_) => backend.log_gives(skip, len, r),
        Err(error) => r == Err::<(usize, Vec<LogEntry>), String>(error),
    }
}

/// As `status_after`, for the reading of the branches.
pub open spec fn branches_after<B: Backend>(
    backend: &B,
    first: BackendResult<()>,
    r: BackendResult<Vec<BranchEntry>>,
) -> bool {
    match first {
        Ok(_) => backend.branches_gives(r),
        Err(error) => r == Err::<Vec<BranchEntry>, String>(error),
    }
}

/// As `status_after`, for the reading of the tags.
pub open spec fn tags_after<B: Backend>(
    backend: &B,
    first: BackendResult<()>,
    r: BackendResult<Vec<TagEntry>>,
) -> bool {
    match first {
        Ok(_) => backend.tags_gives(r),
        Err(error) => r == Err::<Vec<TagEntry>, String>(error),
    }
}

/// As `status_after`, for the reading of the stashes.
pub open spec fn stashes_after<B: Backend>(
    backend: &B,
    first: BackendResult<()>,
    r: BackendResult<Vec<StashEntry>>,
) -> bool {
    match first {
        Ok(_) => backend.stash_list_gives(r),
        Err(error) => r == Err::<Vec<StashEntry>, String>(error),
    }
}

/// `events` answer a reading of the status that followed an operation
/// which gave `first`.
pub open spec fn status_events<B: Backend>(backend: &B, first: BackendResult<()>, events: Seq<Event>) -> bool {
    exists|r: BackendResult<StatusInfo>| #[trigger]
        status_after(backend, first, r) && events.len() == 1 && status_answer(r, events[0])
}

/// `events` answer a reading of the branches that followed an operation
/// which gave `first`.
pub open spec fn branches_events<B: Backend>(backend: &B, first: BackendResult<()>, events: Seq<Event>) -> bool {
    exists|r: BackendResult<Vec<BranchEntry>>| #[trigger]
        branches_after(backend, first, r) && events.len() == 1 && branches_answer(r, events[0])
}

/// `events` answer a reading of the tags that followed an operation which
/// gave `first`.
pub open spec fn tags_events<B: Backend>(backend: &B, first: BackendResult<()>, events: Seq<Event>) -> bool {
    exists|r: BackendResult<Vec<TagEntry>>| #[trigger]
        tags_after(backend, first, r) && events.len() == 1 && tags_answer(r, events[0])
}

/// What a worker posts once it has run `job` on `backend`. Each job names
/// the operation that is run and what is handed to it, and `events` answer
/// what that operation gave. Where a reading is to follow an operation, it
/// is made only if the operation went well, and the error of the operation
/// is what the events carry otherwise.
pub open spec fn outcome_of<B: Backend>(backend: &B, job: Job, events: Seq<Event>) -> bool {
    match job {
        Job::StatusRefresh => status_events(backend, Ok(()), events),
        Job::Discard(entries) => exists|first: BackendResult<()>| #[trigger]
            backend.discard_gives(entries@, first) && status_events(backend, first, events),
        Job::ResolveTakingOurs(entries) => exists|first: BackendResult<()>| #[trigger]
            backend.resolve_taking_ours_gives(entries@, first) && status_events(backend, first, events),
        Job::ResolveTakingTheirs(entries) => exists|first: BackendResult<()>| #[trigger]
            backend.resolve_taking_theirs_gives(entries@, first) && status_events(backend, first, events),
        Job::Stash { message, entries } => exists|first: BackendResult<()>| #[trigger]
            backend.stash_gives(message@, entries@, first) && status_events(backend, first, events),
        Job::Commit { message, entries, amend } => exists|r: BackendResult<()>| #[trigger]
            backend.commit_gives(message@, entries@, amend, r) && commit_answer(r, events),
        Job::Diff { revision, entries } => exists|r: BackendResult<String>| #[trigger]
            backend.diff_gives(revision_text(revision), entries@, r) && events == seq![diff_answer(r)],
        Job::LogRefresh { skip, len } => exists|r: BackendResult<(usize, Vec<LogEntry>)>| #[trigger]
            backend.log_gives(skip, len, r) && events == seq![log_answer(r)],
        Job::LogCheckout { revision, skip, len } => exists|
            first: BackendResult<()>,
            r: BackendResult<(usize, Vec<LogEntry>)>,
        |
            backend.checkout_gives(revision@, first) && #[trigger] log_after(backend, skip, len, first, r)
                && events == seq![log_answer(r)],
        Job::RevisionDetails(revision) => exists|r: BackendResult<RevisionInfo>| #[trigger]
            backend.revision_details_gives(revision@, r) && events.len() == 1 && revision_answer(r, events[0]),
        Job::BranchesRefresh => branches_events(backend, Ok(()), events),
        Job::NewBranch(name) => exists|first: BackendResult<()>| #[trigger]
            backend.new_branch_gives(name@, first) && branches_events(backend, first, events),
        Job::DeleteBranch { name, force } => exists|first: BackendResult<()>| #[trigger]
            backend.delete_branch_gives(name@, force, first) && branches_events(backend, first, events),
        Job::CheckoutBranch { name, entry_index } => exists|r: BackendResult<()>| #[trigger]
            backend.checkout_gives(name@, r) && events == branch_checkout_answer(r, entry_index),
        Job::MergeBranch(name) => exists|r: BackendResult<()>| #[trigger]
            backend.merge_gives(name@, r) && events == merge_answer(r),
        Job::TagsRefresh => tags_events(backend, Ok(()), events),
        Job::NewTag(name) => exists|first: BackendResult<()>| #[trigger]
            backend.new_tag_gives(name@, first) && tags_events(backend, first, events),
        Job::DeleteTag(name) => exists|first: BackendResult<()>| #[trigger]
            backend.delete_tag_gives(name@, first) && tags_events(backend, first, events),
        Job::CheckoutTag(name) => exists|r: BackendResult<()>| #[trigger]
            backend.checkout_gives(name@, r) && events == tag_checkout_answer(r),
        Job::StashRefresh => exists|r: BackendResult<Vec<StashEntry>>| #[trigger]
            backend.stash_list_gives(r) && events == seq![stashes_answer(r)],
        Job::StashDrop(id) => exists|first: BackendResult<()>, r: BackendResult<Vec<StashEntry>>|
            backend.stash_drop_gives(id, first) && #[trigger] stashes_after(backend, first, r) && events
                == seq![stashes_answer(r)],
        Job::StashPop(id) => exists|r: BackendResult<()>| #[trigger]
            backend.stash_pop_gives(id, r) && events == stash_pop_answer(r),
        Job::StashShow(id) => exists|r: BackendResult<String>| #[trigger]
            backend.stash_show_gives(id, r) && events == seq![stash_show_answer(r)],
        Job::StashDiff(id) => exists|r: BackendResult<String>| #[trigger]
            backend.stash_diff_gives(id, r) && events == seq![diff_answer(r)],
    }
}

/// Reads the status after an operation that gave `first`, if it went well,
/// and gives the answer to post.
fn refresh_status<B: Backend>(backend: &B, first: BackendResult<()>) -> (events: Vec<Event>)
    ensures
        status_events(backend, first, events@),
{
    let result = match first {
        Ok(_) => backend.status(),
        Err(error) => Err(error),
    };
    let events = vec![status_refreshed(result)];
    assert(status_after(backend, first, result) && status_answer(result, events@[0]));
    events
}

/// Reads the branches after an operation that gave `first`, if it went
/// well, and gives the answer to post.
fn refresh_branches<B: Backend>(backend: &B, first: BackendResult<()>) -> (events: Vec<Event>)
    ensures
        branches_events(backend, first, events@),
{
    let result = match first {
        Ok(_) => backend.branches(),
        Err(error) => Err(error),
    };
    let events = vec![branches_refreshed(result)];
    assert(branches_after(backend, first, result) && branches_answer(result, events@[0]));
    events
}

/// Reads the tags after an operation that gave `first`, if it went well,
/// and gives the answer to post.
fn refresh_tags<B: Backend>(backend: &B, first: BackendResult<()>) -> (events: Vec<Event>)
    ensures
        tags_events(backend, first, events@),
{
    let result = match first {
        Ok(_) => backend.tags(),
        Err(error) => Err(error),
    };
    let events = vec![tags_refreshed(result)];
    assert(tags_after(backend, first, result) && tags_answer(result, events@[0]));
    events
}

/// Runs a job on the backend and gives the events to post, in order.
pub fn run<B: Backend>(backend: &B, job: Job) -> (events: Vec<Event>)
    ensures
        outcome_of(backend, job, events@),
{
    match job {
        Job::StatusRefresh => refresh_status(backend, Ok(())),
        Job::Discard(entries) => {
            let first = backend.discard(&entries);
            let events = refresh_status(backend, first);
            assert(backend.discard_gives(entries@, first));
            events
        },
        Job::ResolveTakingOurs(entries) => {
            let first = backend.resolve_taking_ours(&entries);
            let events = refresh_status(backend, first);
            assert(backend.resolve_taking_ours_gives(entries@, first));
            events
        },
        Job::ResolveTakingTheirs(entries) => {
            let first = backend.resolve_taking_theirs(&entries);
            let events = refresh_status(backend, first);
            assert(backend.resolve_taking_theirs_gives(entries@, first));
            events
        },
        Job::Stash { message, entries } => {
            let first = backend.stash(message.as_str(), &entries);
            let events = refresh_status(backend, first);
            assert(backend.stash_gives(message@, entries@, first));
            events
        },
        Job::Commit { message, entries, amend } => {
            let result = backend.commit(message.as_str(), &entries, amend);
            let events = commit_done(result);
            assert(backend.commit_gives(message@, entries@, amend, result));
            events
        },
        Job::Diff { revision, entries } => {
            let result = match &revision {
                Some(revision) => backend.diff(Some(revision.as_str()), &entries),
                None => backend.diff(None, &entries),
            };
            let events = vec![diff_done(result)];
            assert(events@ =~= seq![diff_answer(result)]);
            assert(backend.diff_gives(revision_text(revision), entries@, result));
            events
        },
        Job::LogRefresh { skip, len } => {
            let result = backend.log(skip, len);
            let events = vec![Event::Response(ModeResponse::Log(log::Response::Refresh(result)))];
            assert(events@ =~= seq![log_answer(result)]);
            assert(backend.log_gives(skip, len, result));
            events
        },
        Job::LogCheckout { revision, skip, len } => {
            let first = backend.checkout(revision.as_str());
            let result = match first {
                Ok(_) => backend.log(skip, len),
                Err(error) => Err(error),
            };
            let events = vec![Event::Response(ModeResponse::Log(log::Response::Refresh(result)))];
            assert(events@ =~= seq![log_answer(result)]);
            assert(backend.checkout_gives(revision@, first) && log_after(backend, skip, len, first, result));
            events
        },
        Job::RevisionDetails(revision) => {
            let result = backend.revision_details(revision.as_str());
            let events = vec![revision_loaded(result)];
            assert(backend.revision_details_gives(revision@, result) && revision_answer(result, events@[0]));
            events
        },
        Job::BranchesRefresh => refresh_branches(backend, Ok(())),
        Job::NewBranch(name) => {
            let first = backend.new_branch(name.as_str());
            let events = refresh_branches(backend, first);
            assert(backend.new_branch_gives(name@, first));
            events
        },
        Job::DeleteBranch { name, force } => {
            let first = backend.delete_branch(name.as_str(), force);
            let events = refresh_branches(backend, first);
            assert(backend.delete_branch_gives(name@, force, first));
            events
        },
        Job::CheckoutBranch { name, entry_index } => {
            let result = backend.checkout(name.as_str());
            let events = branch_checked_out(result, entry_index);
            assert(backend.checkout_gives(name@, result));
            events
        },
        Job::MergeBranch(name) => {
            let result = backend.merge(name.as_str());
            let events = branch_merged(result);
            assert(backend.merge_gives(name@, result));
            events
        },
        Job::TagsRefresh => refresh_tags(backend, Ok(())),
        Job::NewTag(name) => {
            let first = backend.new_tag(name.as_str());
            let events = refresh_tags(backend, first);
            assert(backend.new_tag_gives(name@, first));
            events
        },
        Job::DeleteTag(name) => {
            let first = backend.delete_tag(name.as_str());
            let events = refresh_tags(backend, first);
            assert(backend.delete_tag_gives(name@, first));
            events
        },
        Job::CheckoutTag(name) => {
            let result = backend.checkout(name.as_str());
            let events = tag_checked_out(result);
            assert(backend.checkout_gives(name@, result));
            events
        },
        Job::StashRefresh => {
            let result = backend.stash_list();
            let events = vec![Event::Response(ModeResponse::Stash(stash::Response::Refresh(result)))];
            assert(events@ =~= seq![stashes_answer(result)]);
            assert(backend.stash_list_gives(result));
            events
        },
        Job::StashDrop(id) => {
            let first = backend.stash_drop(id);
            let result = match first {
                Ok(_) => backend.stash_list(),
                Err(error) => Err(error),
            };
            let events = vec![Event::Response(ModeResponse::Stash(stash::Response::Refresh(result)))];
            assert(events@ =~= seq![stashes_answer(result)]);
            assert(backend.stash_drop_gives(id, first) && stashes_after(backend, first, result));
            events
        },
        Job::StashPop(id) => {
            let result = backend.stash_pop(id);
            let events = stash_popped(result);
            assert(backend.stash_pop_gives(id, result));
            events
        },
        Job::StashShow(id) => {
            let result = backend.stash_show(id);
            let events = vec![
                Event::Response(ModeResponse::StashDetails(stash_details::Response::Refresh(result))),
            ];
            assert(events@ =~= seq![stash_show_answer(result)]);
            assert(backend.stash_show_gives(id, result));
            events
        },
        Job::StashDiff(id) => {
            let result = backend.stash_diff(id);
            let events = vec![diff_done(result)];
            assert(events@ =~= seq![diff_answer(result)]);
            assert(backend.stash_diff_gives(id, result));
            events
        },
    }
}

} // verus!
