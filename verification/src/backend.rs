//! The records that a version-control backend reports, and the operations
//! that the screens ask of it.

use vstd::prelude::*;
use vstd::string::StringExecFns;
use crate::order::Ordered;
use crate::text::{
    fitting_chars,
    lemma_ascii_size,
    lemma_lex_le_total,
    lemma_lex_le_transitive,
    lemma_prefix_fits,
    lex_le,
    prefix_within,
    str_chars,
    str_le,
    substring,
    utf8_size,
};
use crate::widget::filter::FilterEntry;
use crate::widget::fuzzy::{fuzzy_match, fuzzy_matches};

pub mod git;

verus! {

/// What a backend operation returns: a value, or the error as text.
pub type BackendResult<T> = Result<T, String>;

/// The state of a file in the working copy or in a revision. The states
/// are ordered as they are listed here, and unknown ones by their codes.
#[derive(Debug, PartialEq, Eq, PartialOrd, Ord)]
pub enum FileStatus {
    Modified,
    Added,
    Deleted,
    Renamed,
    Untracked,
    Copied,
    Unmerged,
    Missing,
    Ignored,
    Clean,
    Unknown(String),
}

impl FileStatus {
    /// The place of a status in the order by which entries are sorted.
    pub open spec fn rank(&self) -> nat {
        match self {
            FileStatus::Modified => 0,
            FileStatus::Added => 1,
            FileStatus::Deleted => 2,
            FileStatus::Renamed => 3,
            FileStatus::Untracked => 4,
            FileStatus::Copied => 5,
            FileStatus::Unmerged => 6,
            FileStatus::Missing => 7,
            FileStatus::Ignored => 8,
            FileStatus::Clean => 9,
            FileStatus::Unknown(_) => 10,
        }
    }

    /// The word shown for a status: its name in lower case, and for an
    /// unknown status the code it came as, cut behind the last character
    /// that ends within its first nine bytes of UTF-8.
    pub open spec fn label(&self) -> Seq<char> {
        match self {
            FileStatus::Modified => "modified"@,
            FileStatus::Added => "added"@,
            FileStatus::Deleted => "deleted"@,
            FileStatus::Renamed => "renamed"@,
            FileStatus::Untracked => "untracked"@,
            FileStatus::Copied => "copied"@,
            FileStatus::Unmerged => "unmerged"@,
            FileStatus::Missing => "missing"@,
            FileStatus::Ignored => "ignored"@,
            FileStatus::Clean => "clean"@,
            FileStatus::Unknown(status) => if utf8_size(status@) <= 9 {
                status@
            } else {
                prefix_within(status@, 9)
            },
        }
    }

    /// The greatest length of a label, in bytes of UTF-8.
    pub fn max_len() -> (r: usize)
        ensures
            r == 9,
    {
        9
    }

    /// A label takes no more than nine bytes.
    pub proof fn lemma_label_fits(&self)
        ensures
            utf8_size(self.label()) <= 9,
    {
        reveal_strlit("modified");
        reveal_strlit("added");
        reveal_strlit("deleted");
        reveal_strlit("renamed");
        reveal_strlit("untracked");
        reveal_strlit("copied");
        reveal_strlit("unmerged");
        reveal_strlit("missing");
        reveal_strlit("ignored");
        reveal_strlit("clean");
        match self {
            FileStatus::Unknown(status) => {
                if utf8_size(status@) > 9 {
                    lemma_prefix_fits(status@, 9);
                }
            },
            _ => {
                lemma_ascii_size(self.label());
            },
        }
    }

    /// The word shown for the status.
    pub fn as_str(&self) -> (r: String)
        ensures
            r@ == self.label(),
            utf8_size(r@) <= 9,
    {
        proof {
            self.lemma_label_fits();
        }
        match self {
            FileStatus::Modified => String::from_str("modified"),
            FileStatus::Added => String::from_str("added"),
            FileStatus::Deleted => String::from_str("deleted"),
            FileStatus::Renamed => String::from_str("renamed"),
            FileStatus::Untracked => String::from_str("untracked"),
            FileStatus::Copied => String::from_str("copied"),
            FileStatus::Unmerged => String::from_str("unmerged"),
            FileStatus::Missing => String::from_str("missing"),
            FileStatus::Ignored => String::from_str("ignored"),
            FileStatus::Clean => String::from_str("clean"),
            FileStatus::Unknown(status) => {
                let chars = str_chars(status.as_str());
                let n = fitting_chars(&chars, FileStatus::max_len());
                if n == chars.len() {
                    status.clone()
                } else {
                    substring(&chars, 0, n)
                }
            },
        }
    }

    fn rank_of(&self) -> (r: u8)
        ensures
            r == self.rank(),
    {
        match self {
            FileStatus::Modified => 0,
            FileStatus::Added => 1,
            FileStatus::Deleted => 2,
            FileStatus::Renamed => 3,
            FileStatus::Untracked => 4,
            FileStatus::Copied => 5,
            FileStatus::Unmerged => 6,
            FileStatus::Missing => 7,
            FileStatus::Ignored => 8,
            FileStatus::Clean => 9,
            FileStatus::Unknown(_) => 10,
        }
    }

    /// Whether the file has a conflict that waits to be resolved.
    pub fn is_unmerged(&self) -> (r: bool)
        ensures
            r == (*self == FileStatus::Unmerged),
    {
        matches!(self, FileStatus::Unmerged)
    }
}

impl Clone for FileStatus {
    fn clone(&self) -> (r: Self)
        ensures
            r == *self,
    {
        match self {
            FileStatus::Modified => FileStatus::Modified,
            FileStatus::Added => FileStatus::Added,
            FileStatus::Deleted => FileStatus::Deleted,
            FileStatus::Renamed => FileStatus::Renamed,
            FileStatus::Untracked => FileStatus::Untracked,
            FileStatus::Copied => FileStatus::Copied,
            FileStatus::Unmerged => FileStatus::Unmerged,
            FileStatus::Missing => FileStatus::Missing,
            FileStatus::Ignored => FileStatus::Ignored,
            FileStatus::Clean => FileStatus::Clean,
            FileStatus::Unknown(status) => FileStatus::Unknown(status.clone()),
        }
    }
}

/// Statuses are ordered as they are listed; unknown ones come last, in the
/// dictionary order of their codes.
impl Ordered for FileStatus {
    open spec fn precedes(&self, other: &Self) -> bool {
        self.rank() < other.rank() || (self.rank() == other.rank() && match (self, other) {
            (FileStatus::Unknown(a), FileStatus::Unknown(b)) => lex_le(a@, b@),
            _ => true,
        })
    }

    proof fn precedes_total(a: &Self, b: &Self) {
        match (a, b) {
            (FileStatus::Unknown(x), FileStatus::Unknown(y)) => {
                lemma_lex_le_total(x@, y@);
            },
            _ => {},
        }
    }

    proof fn precedes_transitive(a: &Self, b: &Self, c: &Self) {
        match (a, b, c) {
            (FileStatus::Unknown(x), FileStatus::Unknown(y), FileStatus::Unknown(z)) => {
                lemma_lex_le_transitive(x@, y@, z@);
            },
            _ => {},
        }
    }

    fn before(&self, other: &Self) -> (r: bool)
        ensures
            r == self.precedes(other),
    {
        let a = self.rank_of();
        let b = other.rank_of();
        if a != b {
            a < b
        } else {
            match (self, other) {
                (FileStatus::Unknown(x), FileStatus::Unknown(y)) => str_le(x.as_str(), y.as_str()),
                _ => true,
            }
        }
    }
}

/// The header line of the working copy and its changed files.
#[derive(Debug, PartialEq, Eq)]
pub struct StatusInfo {
    pub header: String,
    pub entries: Vec<RevisionEntry>,
}

/// The message of a revision and the files it changed.
#[derive(Debug, PartialEq, Eq)]
pub struct RevisionInfo {
    pub message: String,
    pub entries: Vec<RevisionEntry>,
}

/// One file of the working copy or of a revision.
#[derive(Debug, PartialEq, Eq)]
pub struct RevisionEntry {
    pub selected: bool,
    pub name: String,
    pub status: FileStatus,
}

impl RevisionEntry {
    /// An entry that is not selected.
    pub fn new(name: String, status: FileStatus) -> (r: Self)
        ensures
            r == (RevisionEntry { selected: false, name, status }),
    {
        RevisionEntry { selected: false, name, status }
    }
}

impl Clone for RevisionEntry {
    fn clone(&self) -> (r: Self)
        ensures
            r == *self,
    {
        RevisionEntry { selected: self.selected, name: self.name.clone(), status: self.status.clone() }
    }
}

impl FilterEntry for RevisionEntry {
    open spec fn matches(&self, pattern: Seq<char>) -> bool {
        fuzzy_match(self.name@, pattern)
    }

    fn fuzzy_matches(&self, pattern: &str) -> (r: bool)
        ensures
            r == self.matches(pattern@),
    {
        fuzzy_matches(self.name.as_str(), pattern)
    }
}

/// Entries are ordered by their status alone.
impl Ordered for RevisionEntry {
    open spec fn precedes(&self, other: &Self) -> bool {
        self.status.precedes(&other.status)
    }

    proof fn precedes_total(a: &Self, b: &Self) {
        FileStatus::precedes_total(&a.status, &b.status);
    }

    proof fn precedes_transitive(a: &Self, b: &Self, c: &Self) {
        FileStatus::precedes_transitive(&a.status, &b.status, &c.status);
    }

    fn before(&self, other: &Self) -> (r: bool)
        ensures
            r == self.precedes(other),
    {
        self.status.before(&other.status)
    }
}

/// One record of the history.
#[derive(Debug, PartialEq, Eq)]
pub struct LogEntry {
    pub graph: String,
    pub hash: String,
    pub date: String,
    pub author: String,
    pub refs: String,
    pub message: String,
}

impl Clone for LogEntry {
    fn clone(&self) -> (r: Self)
        ensures
            r == *self,
    {
        LogEntry {
            graph: self.graph.clone(),
            hash: self.hash.clone(),
            date: self.date.clone(),
            author: self.author.clone(),
            refs: self.refs.clone(),
            message: self.message.clone(),
        }
    }
}

impl FilterEntry for LogEntry {
    open spec fn matches(&self, pattern: Seq<char>) -> bool {
        fuzzy_match(self.message@, pattern) || fuzzy_match(self.refs@, pattern) || fuzzy_match(
            self.author@,
            pattern,
        ) || fuzzy_match(self.date@, pattern) || fuzzy_match(self.hash@, pattern)
    }

    fn fuzzy_matches(&self, pattern: &str) -> (r: bool)
        ensures
            r == self.matches(pattern@),
    {
        fuzzy_matches(self.message.as_str(), pattern) || fuzzy_matches(self.refs.as_str(), pattern)
            || fuzzy_matches(self.author.as_str(), pattern) || fuzzy_matches(
            self.date.as_str(),
            pattern,
        ) || fuzzy_matches(self.hash.as_str(), pattern)
    }
}

/// One branch, and whether it is the one checked out.
#[derive(Debug, PartialEq, Eq)]
pub struct BranchEntry {
    pub name: String,
    pub checked_out: bool,
}

impl Clone for BranchEntry {
    fn clone(&self) -> (r: Self)
        ensures
            r == *self,
    {
        BranchEntry {
            name: self.name.clone(),
            checked_out: self.checked_out,
        }
    }
}

impl FilterEntry for BranchEntry {
    open spec fn matches(&self, pattern: Seq<char>) -> bool {
        fuzzy_match(self.name@, pattern)
    }

    fn fuzzy_matches(&self, pattern: &str) -> (r: bool)
        ensures
            r == self.matches(pattern@),
    {
        fuzzy_matches(self.name.as_str(), pattern)
    }
}

/// Branches are ordered by name.
impl Ordered for BranchEntry {
    open spec fn precedes(&self, other: &Self) -> bool {
        lex_le(self.name@, other.name@)
    }

    proof fn precedes_total(a: &Self, b: &Self) {
        lemma_lex_le_total(a.name@, b.name@);
    }

    proof fn precedes_transitive(a: &Self, b: &Self, c: &Self) {
        lemma_lex_le_transitive(a.name@, b.name@, c.name@);
    }

    fn before(&self, other: &Self) -> (r: bool)
        ensures
            r == self.precedes(other),
    {
        str_le(self.name.as_str(), other.name.as_str())
    }
}

/// One tag.
#[derive(Debug, PartialEq, Eq)]
pub struct TagEntry {
    pub name: String,
}

impl Clone for TagEntry {
    fn clone(&self) -> (r: Self)
        ensures
            r == *self,
    {
        TagEntry {
            name: self.name.clone(),
        }
    }
}

impl FilterEntry for TagEntry {
    open spec fn matches(&self, pattern: Seq<char>) -> bool {
        fuzzy_match(self.name@, pattern)
    }

    fn fuzzy_matches(&self, pattern: &str) -> (r: bool)
        ensures
            r == self.matches(pattern@),
    {
        fuzzy_matches(self.name.as_str(), pattern)
    }
}

/// Tags are ordered by name.
impl Ordered for TagEntry {
    open spec fn precedes(&self, other: &Self) -> bool {
        lex_le(self.name@, other.name@)
    }

    proof fn precedes_total(a: &Self, b: &Self) {
        lemma_lex_le_total(a.name@, b.name@);
    }

    proof fn precedes_transitive(a: &Self, b: &Self, c: &Self) {
        lemma_lex_le_transitive(a.name@, b.name@, c.name@);
    }

    fn before(&self, other: &Self) -> (r: bool)
        ensures
            r == self.precedes(other),
    {
        str_le(self.name.as_str(), other.name.as_str())
    }
}

/// One stash: its place in the stack, the branch it was made on, and its
/// message.
#[derive(Debug, PartialEq, Eq)]
pub struct StashEntry {
    pub id: usize,
    pub branch: String,
    pub message: String,
}

impl Clone for StashEntry {
    fn clone(&self) -> (r: Self)
        ensures
            r == *self,
    {
        StashEntry {
            id: self.id,
            branch: self.branch.clone(),
            message: self.message.clone(),
        }
    }
}

impl FilterEntry for StashEntry {
    open spec fn matches(&self, pattern: Seq<char>) -> bool {
        fuzzy_match(self.branch@, pattern) || fuzzy_match(self.message@, pattern)
    }

    fn fuzzy_matches(&self, pattern: &str) -> (r: bool)
        ensures
            r == self.matches(pattern@),
    {
        fuzzy_matches(self.branch.as_str(), pattern) || fuzzy_matches(self.message.as_str(), pattern)
    }
}

/// The text that an optional string holds.
pub open spec fn text_of(s: Option<&str>) -> Option<Seq<char>> {
    match s {
        Some(s) => Some(s@),
        None => None,
    }
}

/// The operations that the screens ask of a version-control backend. Each
/// returns a value or the error as text. An empty list of entries stands for
/// all of them.
///
/// Beside each operation stands a relation of the same name with `_gives`
/// behind it. It holds of the arguments of a call and of what the call
/// returned, and so lets the callers of a backend say which operation a
/// result came from. It promises nothing of the result: a backend that
/// states no relation of its own admits every result.
pub trait Backend {
    /// `r` is what `status` returned for these arguments.
    open spec fn status_gives(&self, r: BackendResult<StatusInfo>) -> bool {
        true
    }

    /// Reads the state of the working copy.
    fn status(&self) -> (r: BackendResult<StatusInfo>)
        ensures
            self.status_gives(r),
    ;

    /// `r` is what `commit` returned for these arguments.
    open spec fn commit_gives(
        &self,
        message: Seq<char>,
        entries: Seq<RevisionEntry>,
        amend: bool,
        r: BackendResult<()>,
    ) -> bool {
        true
    }

    /// Commits the entries under the message, or into the last commit if `amend` is set.
    fn commit(&self, message: &str, entries: &Vec<RevisionEntry>, amend: bool) -> (r: BackendResult<()>)
        ensures
            self.commit_gives(message@, entries@, amend, r),
    ;

    /// `r` is what `discard` returned for these arguments.
    open spec fn discard_gives(&self, entries: Seq<RevisionEntry>, r: BackendResult<()>) -> bool {
        true
    }

    /// Discards the changes of the entries.
    fn discard(&self, entries: &Vec<RevisionEntry>) -> (r: BackendResult<()>)
        ensures
            self.discard_gives(entries@, r),
    ;

    /// `r` is what `diff` returned for these arguments.
    open spec fn diff_gives(
        &self,
        revision: Option<Seq<char>>,
        entries: Seq<RevisionEntry>,
        r: BackendResult<String>,
    ) -> bool {
        true
    }

    /// Reads the diff of the entries, in a revision or in the working copy.
    fn diff(&self, revision: Option<&str>, entries: &Vec<RevisionEntry>) -> (r: BackendResult<String>)
        ensures
            self.diff_gives(text_of(revision), entries@, r),
    ;

    /// `r` is what `resolve_taking_ours` returned for these arguments.
    open spec fn resolve_taking_ours_gives(&self, entries: Seq<RevisionEntry>, r: BackendResult<()>) -> bool {
        true
    }

    /// Resolves the conflicts of the entries by our side.
    fn resolve_taking_ours(&self, entries: &Vec<RevisionEntry>) -> (r: BackendResult<()>)
        ensures
            self.resolve_taking_ours_gives(entries@, r),
    ;

    /// `r` is what `resolve_taking_theirs` returned for these arguments.
    open spec fn resolve_taking_theirs_gives(&self, entries: Seq<RevisionEntry>, r: BackendResult<()>) -> bool {
        true
    }

    /// Resolves the conflicts of the entries by their side.
    fn resolve_taking_theirs(&self, entries: &Vec<RevisionEntry>) -> (r: BackendResult<()>)
        ensures
            self.resolve_taking_theirs_gives(entries@, r),
    ;

    /// `r` is what `log` returned for these arguments.
    open spec fn log_gives(&self, skip: usize, len: usize, r: BackendResult<(usize, Vec<LogEntry>)>) -> bool {
        true
    }

    /// Reads `len` records of the history after the first `skip`, and says how many it skipped.
    fn log(&self, skip: usize, len: usize) -> (r: BackendResult<(usize, Vec<LogEntry>)>)
        ensures
            self.log_gives(skip, len, r),
    ;

    /// `r` is what `checkout` returned for these arguments.
    open spec fn checkout_gives(&self, revision: Seq<char>, r: BackendResult<()>) -> bool {
        true
    }

    /// Checks out a revision.
    fn checkout(&self, revision: &str) -> (r: BackendResult<()>)
        ensures
            self.checkout_gives(revision@, r),
    ;

    /// `r` is what `merge` returned for these arguments.
    open spec fn merge_gives(&self, revision: Seq<char>, r: BackendResult<()>) -> bool {
        true
    }

    /// Merges a revision into the branch checked out.
    fn merge(&self, revision: &str) -> (r: BackendResult<()>)
        ensures
            self.merge_gives(revision@, r),
    ;

    /// `r` is what `fetch` returned for these arguments.
    open spec fn fetch_gives(&self, r: BackendResult<()>) -> bool {
        true
    }

    /// Fetches from the remotes.
    fn fetch(&self) -> (r: BackendResult<()>)
        ensures
            self.fetch_gives(r),
    ;

    /// `r` is what `pull` returned for these arguments.
    open spec fn pull_gives(&self, r: BackendResult<()>) -> bool {
        true
    }

    /// Pulls from the remotes.
    fn pull(&self) -> (r: BackendResult<()>)
        ensures
            self.pull_gives(r),
    ;

    /// `r` is what `push` returned for these arguments.
    open spec fn push_gives(&self, r: BackendResult<()>) -> bool {
        true
    }

    /// Pushes to the remote.
    fn push(&self) -> (r: BackendResult<()>)
        ensures
            self.push_gives(r),
    ;

    /// `r` is what `push_gerrit` returned for these arguments.
    open spec fn push_gerrit_gives(&self, r: BackendResult<()>) -> bool {
        true
    }

    /// Pushes the current branch to the `refs/for/` namespace of the remote.
    fn push_gerrit(&self) -> (r: BackendResult<()>)
        ensures
            self.push_gerrit_gives(r),
    ;

    /// `r` is what `reset` returned for these arguments.
    open spec fn reset_gives(&self, revision: Seq<char>, r: BackendResult<()>) -> bool {
        true
    }

    /// Resets the working copy to a revision, or to the followed branch of
    /// the remote where none is named.
    fn reset(&self, revision: &str) -> (r: BackendResult<()>)
        ensures
            self.reset_gives(revision@, r),
    ;

    /// `r` is what `revision_details` returned for these arguments.
    open spec fn revision_details_gives(&self, revision: Seq<char>, r: BackendResult<RevisionInfo>) -> bool {
        true
    }

    /// Reads the message of a revision and the files it changed.
    fn revision_details(&self, revision: &str) -> (r: BackendResult<RevisionInfo>)
        ensures
            self.revision_details_gives(revision@, r),
    ;

    /// `r` is what `branches` returned for these arguments.
    open spec fn branches_gives(&self, r: BackendResult<Vec<BranchEntry>>) -> bool {
        true
    }

    /// Reads the branches.
    fn branches(&self) -> (r: BackendResult<Vec<BranchEntry>>)
        ensures
            self.branches_gives(r),
    ;

    /// `r` is what `new_branch` returned for these arguments.
    open spec fn new_branch_gives(&self, name: Seq<char>, r: BackendResult<()>) -> bool {
        true
    }

    /// Makes a branch.
    fn new_branch(&self, name: &str) -> (r: BackendResult<()>)
        ensures
            self.new_branch_gives(name@, r),
    ;

    /// `r` is what `delete_branch` returned for these arguments.
    open spec fn delete_branch_gives(&self, name: Seq<char>, force: bool, r: BackendResult<()>) -> bool {
        true
    }

    /// Deletes a branch, also when it is not merged if `force` is set.
    fn delete_branch(&self, name: &str, force: bool) -> (r: BackendResult<()>)
        ensures
            self.delete_branch_gives(name@, force, r),
    ;

    /// `r` is what `tags` returned for these arguments.
    open spec fn tags_gives(&self, r: BackendResult<Vec<TagEntry>>) -> bool {
        true
    }

    /// Reads the tags.
    fn tags(&self) -> (r: BackendResult<Vec<TagEntry>>)
        ensures
            self.tags_gives(r),
    ;

    /// `r` is what `new_tag` returned for these arguments.
    open spec fn new_tag_gives(&self, name: Seq<char>, r: BackendResult<()>) -> bool {
        true
    }

    /// Makes a tag.
    fn new_tag(&self, name: &str) -> (r: BackendResult<()>)
        ensures
            self.new_tag_gives(name@, r),
    ;

    /// `r` is what `delete_tag` returned for these arguments.
    open spec fn delete_tag_gives(&self, name: Seq<char>, r: BackendResult<()>) -> bool {
        true
    }

    /// Deletes a tag.
    fn delete_tag(&self, name: &str) -> (r: BackendResult<()>)
        ensures
            self.delete_tag_gives(name@, r),
    ;

    /// `r` is what `stash` returned for these arguments.
    open spec fn stash_gives(
        &self,
        message: Seq<char>,
        entries: Seq<RevisionEntry>,
        r: BackendResult<()>,
    ) -> bool {
        true
    }

    /// Stashes the entries under the message.
    fn stash(&self, message: &str, entries: &Vec<RevisionEntry>) -> (r: BackendResult<()>)
        ensures
            self.stash_gives(message@, entries@, r),
    ;

    /// `r` is what `stash_list` returned for these arguments.
    open spec fn stash_list_gives(&self, r: BackendResult<Vec<StashEntry>>) -> bool {
        true
    }

    /// Reads the stashes.
    fn stash_list(&self) -> (r: BackendResult<Vec<StashEntry>>)
        ensures
            self.stash_list_gives(r),
    ;

    /// `r` is what `stash_show` returned for these arguments.
    open spec fn stash_show_gives(&self, id: usize, r: BackendResult<String>) -> bool {
        true
    }

    /// Reads the summary of a stash.
    fn stash_show(&self, id: usize) -> (r: BackendResult<String>)
        ensures
            self.stash_show_gives(id, r),
    ;

    /// `r` is what `stash_diff` returned for these arguments.
    open spec fn stash_diff_gives(&self, id: usize, r: BackendResult<String>) -> bool {
        true
    }

    /// Reads the diff of a stash.
    fn stash_diff(&self, id: usize) -> (r: BackendResult<String>)
        ensures
            self.stash_diff_gives(id, r),
    ;

    /// `r` is what `stash_pop` returned for these arguments.
    open spec fn stash_pop_gives(&self, id: usize, r: BackendResult<()>) -> bool {
        true
    }

    /// Applies a stash and takes it off the stack.
    fn stash_pop(&self, id: usize) -> (r: BackendResult<()>)
        ensures
            self.stash_pop_gives(id, r),
    ;

    /// `r` is what `stash_drop` returned for these arguments.
    open spec fn stash_drop_gives(&self, id: usize, r: BackendResult<()>) -> bool {
        true
    }

    /// Drops a stash.
    fn stash_drop(&self, id: usize) -> (r: BackendResult<()>)
        ensures
            self.stash_drop_gives(id, r),
    ;
}

/// What a process that has ended gave: its output where it ended well,
/// and otherwise its output, a line feed and what it wrote as errors.
pub fn process_result(success: bool, stdout: String, stderr: &str) -> (r: BackendResult<String>)
    ensures
        match r {
            Ok(output) => success && output == stdout,
            Err(error) => !success && error@ == stdout@.push('\n') + stderr@,
        },
{
    if success {
        Ok(stdout)
    } else {
        let mut error = stdout;
        crate::text::push_char(&mut error, '\n');
        error.append(stderr);
        Err(error)
    }
}

/// The error for a process that could not be started.
pub fn spawn_error(command_name: &str, error: &str) -> (r: String)
    ensures
        r@ == "could not spawn process '"@ + command_name@ + "': "@ + error@,
{
    let mut message = String::from_str("could not spawn process '");
    message.append(command_name);
    message.append("': ");
    message.append(error);
    message
}

/// The error for a process whose end could not be awaited.
pub fn wait_error(error: &str) -> (r: String)
    ensures
        r@ == "could not wait for process: "@ + error@,
{
    let mut message = String::from_str("could not wait for process: ");
    message.append(error);
    message
}

} // verus!
