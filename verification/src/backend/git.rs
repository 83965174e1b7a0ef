//! The command lines by which git is asked, and the rules by which its
//! output becomes records.

use vstd::prelude::*;
use vstd::string::StringExecFns;
use crate::backend::{
    BackendResult,
    BranchEntry,
    FileStatus,
    LogEntry,
    RevisionEntry,
    RevisionInfo,
    StashEntry,
    StatusInfo,
    TagEntry,
};
use crate::text::{
    all_digits,
    ascii_digit,
    chars_to_string,
    chars_within,
    decimal,
    decimal_of,
    decimal_value,
    fitting_chars,
    is_ascii_digit,
    lines_of,
    parse_decimal,
    pieces,
    rows,
    slice_chars,
    split,
    split_lines,
    str_chars,
    texts,
    trim,
    trim_bounds,
    trimmed,
    utf8_size,
};

verus! {

/// The names of entries, in their order.
pub open spec fn names(entries: Seq<RevisionEntry>) -> Seq<Seq<char>> {
    Seq::new(entries.len(), |i: int| entries[i].name@)
}

/// What a list of command lines holds.
pub open spec fn commands(plan: Seq<Vec<String>>) -> Seq<Seq<Seq<char>>> {
    Seq::new(plan.len(), |i: int| texts(plan[i]@))
}

fn push_arg(args: &mut Vec<String>, word: &str)
    ensures
        texts(final(args)@) == texts(old(args)@).push(word@),
{
    args.push(String::from_str(word));
    assert(texts(args@) =~= texts(old(args)@).push(word@));
}

fn push_names(args: &mut Vec<String>, entries: &Vec<RevisionEntry>)
    ensures
        texts(final(args)@) == texts(old(args)@) + names(entries@),
{
    let mut i: usize = 0;
    assert(texts(args@) =~= texts(old(args)@) + names(entries@).take(0));
    while i < entries.len()
        invariant
            i <= entries.len(),
            texts(args@) == texts(old(args)@) + names(entries@).take(i as int),
        decreases entries.len() - i,
    {
        let ghost before = texts(args@);
        args.push(entries[i].name.clone());
        assert(texts(args@) =~= before.push(entries@[i as int].name@));
        assert(texts(args@) =~= texts(old(args)@) + names(entries@).take(i + 1));
        i += 1;
    }
    assert(names(entries@).take(entries@.len() as int) =~= names(entries@));
}

fn words1(a: &str) -> (r: Vec<String>)
    ensures
        texts(r@) == seq![a@],
{
    let mut args: Vec<String> = Vec::new();
    assert(texts(args@) =~= Seq::<Seq<char>>::empty());
    push_arg(&mut args, a);
    assert(texts(args@) =~= seq![a@]);
    args
}

fn words2(a: &str, b: &str) -> (r: Vec<String>)
    ensures
        texts(r@) == seq![a@, b@],
{
    let mut args = words1(a);
    push_arg(&mut args, b);
    assert(texts(args@) =~= seq![a@, b@]);
    args
}

fn words3(a: &str, b: &str, c: &str) -> (r: Vec<String>)
    ensures
        texts(r@) == seq![a@, b@, c@],
{
    let mut args = words2(a, b);
    push_arg(&mut args, c);
    assert(texts(args@) =~= seq![a@, b@, c@]);
    args
}

fn words4(a: &str, b: &str, c: &str, d: &str) -> (r: Vec<String>)
    ensures
        texts(r@) == seq![a@, b@, c@, d@],
{
    let mut args = words3(a, b, c);
    push_arg(&mut args, d);
    assert(texts(args@) =~= seq![a@, b@, c@, d@]);
    args
}

/// Asks for the root directory of the repository.
pub fn root_args() -> (r: Vec<String>)
    ensures
        texts(r@) == seq!["rev-parse"@, "--show-toplevel"@],
{
    words2("rev-parse", "--show-toplevel")
}

/// Asks for the status of the working copy, fields ended by NUL.
pub fn status_args() -> (r: Vec<String>)
    ensures
        texts(r@) == seq!["status"@, "--branch"@, "--no-rename"@, "--null"@],
{
    words4("status", "--branch", "--no-rename", "--null")
}

/// The command that puts entries into the index: the named ones, or all
/// where none is named.
pub open spec fn add_command(entries: Seq<RevisionEntry>) -> Seq<Seq<char>> {
    if entries.len() == 0 {
        seq!["add"@, "--all"@]
    } else {
        seq!["add"@, "--"@] + names(entries)
    }
}

/// The command that commits the index: under a message, or into the last
/// commit with the message that one has.
pub open spec fn commit_command(message: Seq<char>, amend: bool) -> Seq<Seq<char>> {
    if amend {
        seq!["commit"@, "--amend"@, "--no-edit"@]
    } else {
        seq!["commit"@, "-m"@, message]
    }
}

/// The commands of a commit, to be run in order: add, then commit.
pub fn commit_plan(message: &str, entries: &Vec<RevisionEntry>, amend: bool) -> (r: Vec<Vec<String>>)
    ensures
        commands(r@) == seq![add_command(entries@), commit_command(message@, amend)],
{
    let add = if entries.len() == 0 {
        words2("add", "--all")
    } else {
        let mut args = words2("add", "--");
        push_names(&mut args, entries);
        args
    };
    let commit = if amend {
        words3("commit", "--amend", "--no-edit")
    } else {
        words3("commit", "-m", message)
    };
    let mut plan: Vec<Vec<String>> = Vec::new();
    plan.push(add);
    plan.push(commit);
    assert(commands(plan@) =~= seq![add_command(entries@), commit_command(message@, amend)]);
    plan
}

/// The three ways in which changes are discarded.
#[derive(Debug, Clone, Copy, PartialEq, Eq, Structural)]
pub enum DiscardKind {
    /// An untracked file is removed from the working copy.
    Clean,
    /// An added file is removed from the index and the working copy.
    Remove,
    /// Any other file is brought back to what the last commit holds.
    Restore,
}

/// The way in which changes to a file of this state are discarded.
pub open spec fn discard_kind_of(status: FileStatus) -> DiscardKind {
    match status {
        FileStatus::Untracked => DiscardKind::Clean,
        FileStatus::Added => DiscardKind::Remove,
        _ => DiscardKind::Restore,
    }
}

/// The way in which changes to a file of this state are discarded.
pub fn discard_kind(status: &FileStatus) -> (r: DiscardKind)
    ensures
        r == discard_kind_of(*status),
{
    match status {
        FileStatus::Untracked => DiscardKind::Clean,
        FileStatus::Added => DiscardKind::Remove,
        _ => DiscardKind::Restore,
    }
}

/// The names of the entries that are discarded in the given way, in their
/// order.
pub open spec fn names_to_discard(entries: Seq<RevisionEntry>, kind: DiscardKind) -> Seq<Seq<char>>
    decreases entries.len(),
{
    if entries.len() == 0 {
        Seq::empty()
    } else if discard_kind_of(entries.last().status) == kind {
        names_to_discard(entries.drop_last(), kind).push(entries.last().name@)
    } else {
        names_to_discard(entries.drop_last(), kind)
    }
}

/// The words that a discard command begins with.
pub open spec fn discard_head(kind: DiscardKind) -> Seq<Seq<char>> {
    match kind {
        DiscardKind::Clean => seq!["clean"@, "--force"@, "--"@],
        DiscardKind::Remove => seq!["rm"@, "--force"@, "--"@],
        DiscardKind::Restore => seq!["checkout"@, "HEAD"@, "--"@],
    }
}

/// The command that discards the entries of one kind, if there are any.
pub open spec fn discard_command(entries: Seq<RevisionEntry>, kind: DiscardKind) -> Seq<Seq<Seq<char>>> {
    if names_to_discard(entries, kind).len() == 0 {
        Seq::empty()
    } else {
        seq![discard_head(kind) + names_to_discard(entries, kind)]
    }
}

/// The commands that discard changes. With no entries named, everything
/// is reset and cleaned. Otherwise untracked files are cleaned, added ones
/// removed and the others restored, each kind by a command of its own, and
/// a kind without entries by none.
pub open spec fn discard_commands(entries: Seq<RevisionEntry>) -> Seq<Seq<Seq<char>>> {
    if entries.len() == 0 {
        seq![seq!["reset"@, "--hard"@, "HEAD"@], seq!["clean"@, "--force"@]]
    } else {
        discard_command(entries, DiscardKind::Clean) + discard_command(entries, DiscardKind::Remove)
            + discard_command(entries, DiscardKind::Restore)
    }
}

fn push_discard(plan: &mut Vec<Vec<String>>, entries: &Vec<RevisionEntry>, kind: DiscardKind)
    ensures
        commands(final(plan)@) == commands(old(plan)@) + discard_command(entries@, kind),
{
    let mut args = match kind {
        DiscardKind::Clean => words3("clean", "--force", "--"),
        DiscardKind::Remove => words3("rm", "--force", "--"),
        DiscardKind::Restore => words3("checkout", "HEAD", "--"),
    };
    let mut any = false;
    let mut i: usize = 0;
    assert(texts(args@) =~= discard_head(kind) + names_to_discard(entries@.take(0), kind));
    while i < entries.len()
        invariant
            i <= entries.len(),
            texts(args@) == discard_head(kind) + names_to_discard(entries@.take(i as int), kind),
            any == (names_to_discard(entries@.take(i as int), kind).len() > 0),
        decreases entries.len() - i,
    {
        assert(entries@.take(i + 1).drop_last() =~= entries@.take(i as int));
        if discard_kind(&entries[i].status) == kind {
            let ghost before = texts(args@);
            args.push(entries[i].name.clone());
            assert(texts(args@) =~= before.push(entries@[i as int].name@));
            assert(texts(args@) =~= discard_head(kind) + names_to_discard(entries@.take(i + 1), kind));
            any = true;
        }
        i += 1;
    }
    assert(entries@.take(entries@.len() as int) =~= entries@);
    if any {
        let ghost before = commands(plan@);
        plan.push(args);
        assert(commands(plan@) =~= before + discard_command(entries@, kind));
    } else {
        assert(commands(plan@) =~= commands(old(plan)@) + discard_command(entries@, kind));
    }
}

/// The commands that discard changes, to be run in order.
pub fn discard_plan(entries: &Vec<RevisionEntry>) -> (r: Vec<Vec<String>>)
    ensures
        commands(r@) == discard_commands(entries@),
{
    let mut plan: Vec<Vec<String>> = Vec::new();
    if entries.len() == 0 {
        plan.push(words3("reset", "--hard", "HEAD"));
        plan.push(words2("clean", "--force"));
        assert(commands(plan@) =~= discard_commands(entries@));
    } else {
        assert(commands(plan@) =~= Seq::<Seq<Seq<char>>>::empty());
        push_discard(&mut plan, entries, DiscardKind::Clean);
        push_discard(&mut plan, entries, DiscardKind::Remove);
        push_discard(&mut plan, entries, DiscardKind::Restore);
        assert(commands(plan@) =~= discard_commands(entries@));
    }
    plan
}

/// The command that shows a diff: of a revision against its parent, or of
/// the working copy; of the named entries, or of all where none is named.
pub open spec fn diff_command(revision: Option<Seq<char>>, entries: Seq<RevisionEntry>) -> Seq<Seq<char>> {
    match revision {
        Some(revision) => if entries.len() == 0 {
            seq!["diff"@, revision.push('~'), revision]
        } else {
            seq!["diff"@, revision.push('~'), revision, "--"@] + names(entries)
        },
        None => if entries.len() == 0 {
            seq!["diff"@, "-z"@]
        } else {
            seq!["diff"@, "--"@] + names(entries)
        },
    }
}

/// Asks for a diff.
pub fn diff_args(revision: Option<&str>, entries: &Vec<RevisionEntry>) -> (r: Vec<String>)
    ensures
        texts(r@) == diff_command(
            match revision {
                Some(revision) => Some(revision@),
                None => None,
            },
            entries@,
        ),
{
    match revision {
        Some(revision) => {
            let mut parent = String::from_str(revision);
            crate::text::push_char(&mut parent, '~');
            let mut args = words3("diff", parent.as_str(), revision);
            if entries.len() > 0 {
                push_arg(&mut args, "--");
                push_names(&mut args, entries);
                assert(texts(args@) =~= seq!["diff"@, revision@.push('~'), revision@, "--"@] + names(
                    entries@,
                ));
            }
            args
        },
        None => {
            if entries.len() == 0 {
                words2("diff", "-z")
            } else {
                let mut args = words2("diff", "--");
                push_names(&mut args, entries);
                args
            }
        },
    }
}

/// The names of the unmerged entries, in their order.
pub open spec fn unmerged_names(entries: Seq<RevisionEntry>) -> Seq<Seq<char>>
    decreases entries.len(),
{
    if entries.len() == 0 {
        Seq::empty()
    } else if entries.last().status == FileStatus::Unmerged {
        unmerged_names(entries.drop_last()).push(entries.last().name@)
    } else {
        unmerged_names(entries.drop_last())
    }
}

/// The side that a conflict is resolved by, as git is told.
pub open spec fn side_flag(ours: bool) -> Seq<char> {
    if ours {
        "--ours"@
    } else {
        "--theirs"@
    }
}

/// The command that resolves conflicts by one side: of everything where no
/// entries are named; of the unmerged ones among the named entries
/// otherwise, and none where none of them is unmerged.
pub open spec fn resolve_command(ours: bool, entries: Seq<RevisionEntry>) -> Option<Seq<Seq<char>>> {
    if entries.len() == 0 {
        Some(seq!["checkout"@, side_flag(ours), "."@])
    } else if unmerged_names(entries).len() == 0 {
        None
    } else {
        Some(seq!["checkout"@, side_flag(ours), "--"@] + unmerged_names(entries))
    }
}

/// Resolves conflicts by one side, if there is anything to resolve.
pub fn resolve_args(ours: bool, entries: &Vec<RevisionEntry>) -> (r: Option<Vec<String>>)
    ensures
        match r {
            Some(args) => resolve_command(ours, entries@) == Some(texts(args@)),
            None => resolve_command(ours, entries@) is None,
        },
{
    let flag = if ours {
        "--ours"
    } else {
        "--theirs"
    };
    if entries.len() == 0 {
        return Some(words3("checkout", flag, "."));
    }
    let mut args = words3("checkout", flag, "--");
    let mut any = false;
    let mut i: usize = 0;
    assert(texts(args@) =~= seq!["checkout"@, side_flag(ours), "--"@] + unmerged_names(entries@.take(0)));
    while i < entries.len()
        invariant
            i <= entries.len(),
            texts(args@) == seq!["checkout"@, side_flag(ours), "--"@] + unmerged_names(
                entries@.take(i as int),
            ),
            any == (unmerged_names(entries@.take(i as int)).len() > 0),
        decreases entries.len() - i,
    {
        assert(entries@.take(i + 1).drop_last() =~= entries@.take(i as int));
        if entries[i].status.is_unmerged() {
            let ghost before = texts(args@);
            args.push(entries[i].name.clone());
            assert(texts(args@) =~= before.push(entries@[i as int].name@));
            assert(texts(args@) =~= seq!["checkout"@, side_flag(ours), "--"@] + unmerged_names(
                entries@.take(i + 1),
            ));
            any = true;
        }
        i += 1;
    }
    assert(entries@.take(entries@.len() as int) =~= entries@);
    if any {
        Some(args)
    } else {
        None
    }
}

/// Asks for `len` records of the history after the first `skip`, with the
/// graph and, after a NUL each, the hash, the date, the author, the
/// references and the subject.
pub fn log_args(skip: usize, len: usize) -> (r: Vec<String>)
    ensures
        texts(r@) == seq![
            "log"@,
            "--decorate"@,
            "--oneline"@,
            "--graph"@,
            "--skip"@,
            decimal_of(skip as nat),
            "--max-count"@,
            decimal_of(len as nat),
            "--format=format:%x00%h%x00%as%x00%aN%x00%D%x00%s"@,
        ],
{
    let mut args = words4("log", "--decorate", "--oneline", "--graph");
    push_arg(&mut args, "--skip");
    push_arg(&mut args, decimal(skip).as_str());
    push_arg(&mut args, "--max-count");
    push_arg(&mut args, decimal(len).as_str());
    push_arg(&mut args, "--format=format:%x00%h%x00%as%x00%aN%x00%D%x00%s");
    assert(texts(args@) =~= seq![
        "log"@,
        "--decorate"@,
        "--oneline"@,
        "--graph"@,
        "--skip"@,
        decimal_of(skip as nat),
        "--max-count"@,
        decimal_of(len as nat),
        "--format=format:%x00%h%x00%as%x00%aN%x00%D%x00%s"@,
    ]);
    args
}

/// Checks out a revision.
pub fn checkout_args(revision: &str) -> (r: Vec<String>)
    ensures
        texts(r@) == seq!["checkout"@, revision@],
{
    words2("checkout", revision)
}

/// Merges a revision into the branch checked out, always with a merge commit.
pub fn merge_args(revision: &str) -> (r: Vec<String>)
    ensures
        texts(r@) == seq!["merge"@, "--no-ff"@, revision@],
{
    words3("merge", "--no-ff", revision)
}

/// Fetches from all remotes and forgets what they no longer have.
pub fn fetch_args() -> (r: Vec<String>)
    ensures
        texts(r@) == seq!["fetch"@, "--all"@, "--prune"@],
{
    words3("fetch", "--all", "--prune")
}

/// Pulls from all remotes.
pub fn pull_args() -> (r: Vec<String>)
    ensures
        texts(r@) == seq!["pull"@, "--all"@],
{
    words2("pull", "--all")
}

/// Pushes the branch checked out.
pub fn push_args() -> (r: Vec<String>)
    ensures
        texts(r@) == seq!["push"@],
{
    words1("push")
}

/// The command that stashes: everything under a message where no entries
/// are named; the named entries otherwise, under the message if there is
/// one.
pub open spec fn stash_command(message: Seq<char>, entries: Seq<RevisionEntry>) -> Seq<Seq<char>> {
    if entries.len() == 0 {
        seq!["stash"@, "save"@, message]
    } else if message.len() == 0 {
        seq!["stash"@, "push"@, "--"@] + names(entries)
    } else {
        seq!["stash"@, "push"@, "-m"@, message, "--"@] + names(entries)
    }
}

/// Stashes changes.
pub fn stash_args(message: &str, entries: &Vec<RevisionEntry>) -> (r: Vec<String>)
    ensures
        texts(r@) == stash_command(message@, entries@),
{
    if entries.len() == 0 {
        words3("stash", "save", message)
    } else if message.is_empty() {
        let mut args = words3("stash", "push", "--");
        push_names(&mut args, entries);
        args
    } else {
        let mut args = words4("stash", "push", "-m", message);
        push_arg(&mut args, "--");
        push_names(&mut args, entries);
        assert(texts(args@) =~= stash_command(message@, entries@));
        args
    }
}

/// Asks for the stashes.
pub fn stash_list_args() -> (r: Vec<String>)
    ensures
        texts(r@) == seq!["stash"@, "list"@],
{
    words2("stash", "list")
}

/// Applies a stash and takes it off the stack.
pub fn stash_pop_args(id: usize) -> (r: Vec<String>)
    ensures
        texts(r@) == seq!["stash"@, "pop"@, decimal_of(id as nat)],
{
    words3("stash", "pop", decimal(id).as_str())
}

/// Asks for the summary of a stash.
pub fn stash_show_args(id: usize) -> (r: Vec<String>)
    ensures
        texts(r@) == seq!["stash"@, "show"@, decimal_of(id as nat)],
{
    words3("stash", "show", decimal(id).as_str())
}

/// Asks for the diff of a stash.
pub fn stash_diff_args(id: usize) -> (r: Vec<String>)
    ensures
        texts(r@) == seq!["stash"@, "show"@, "-p"@, decimal_of(id as nat)],
{
    words4("stash", "show", "-p", decimal(id).as_str())
}

/// Drops a stash.
pub fn stash_drop_args(id: usize) -> (r: Vec<String>)
    ensures
        texts(r@) == seq!["stash"@, "drop"@, decimal_of(id as nat)],
{
    words3("stash", "drop", decimal(id).as_str())
}

/// Asks for the message of a revision.
pub fn revision_message_args(revision: &str) -> (r: Vec<String>)
    ensures
        texts(r@) == seq!["show"@, "-s"@, "--format=%B"@, "--no-renames"@, revision@],
{
    let mut args = words4("show", "-s", "--format=%B", "--no-renames");
    push_arg(&mut args, revision);
    assert(texts(args@) =~= seq!["show"@, "-s"@, "--format=%B"@, "--no-renames"@, revision@]);
    args
}

/// Asks for the files that a revision changed, each as a state and a name
/// ended by NUL.
pub fn revision_changes_args(revision: &str) -> (r: Vec<String>)
    ensures
        texts(r@) == seq![
            "diff-tree"@,
            "--no-commit-id"@,
            "--name-status"@,
            "-r"@,
            "-z"@,
            revision@,
        ],
{
    let mut args = words4("diff-tree", "--no-commit-id", "--name-status", "-r");
    push_arg(&mut args, "-z");
    push_arg(&mut args, revision);
    assert(texts(args@) =~= seq![
        "diff-tree"@,
        "--no-commit-id"@,
        "--name-status"@,
        "-r"@,
        "-z"@,
        revision@,
    ]);
    args
}

/// Asks for the branches, each as its name, a space, and `*` for the one
/// checked out.
pub fn branches_args() -> (r: Vec<String>)
    ensures
        texts(r@) == seq!["branch"@, "--list"@, "--format=%(refname:short)%20%(HEAD)"@],
{
    words3("branch", "--list", "--format=%(refname:short)%20%(HEAD)")
}

/// Makes a branch and checks it out.
pub fn new_branch_args(name: &str) -> (r: Vec<String>)
    ensures
        texts(r@) == seq!["checkout"@, "-b"@, name@],
{
    words3("checkout", "-b", name)
}

/// Deletes a branch, also when it is not merged if `force` is set.
pub fn delete_branch_args(name: &str, force: bool) -> (r: Vec<String>)
    ensures
        texts(r@) == seq![
            "branch"@,
            if force {
                "-D"@
            } else {
                "--delete"@
            },
            name@,
        ],
{
    let delete_option = if force {
        "-D"
    } else {
        "--delete"
    };
    words3("branch", delete_option, name)
}

/// Asks for the tags.
pub fn tags_args() -> (r: Vec<String>)
    ensures
        texts(r@) == seq!["tag"@, "--list"@, "--format=%(refname:short)"@],
{
    words3("tag", "--list", "--format=%(refname:short)")
}

/// Makes a tag, in place of one of the same name if there is one.
pub fn new_tag_args(name: &str) -> (r: Vec<String>)
    ensures
        texts(r@) == seq!["tag"@, "--force"@, name@],
{
    words3("tag", "--force", name)
}

/// Deletes a tag.
pub fn delete_tag_args(name: &str) -> (r: Vec<String>)
    ensures
        texts(r@) == seq!["tag"@, "--delete"@, name@],
{
    words3("tag", "--delete", name)
}

/// The root directory that git names: its answer without the whitespace
/// around it.
pub fn parse_root(output: &str) -> (r: String)
    ensures
        r@ == trimmed(output@),
{
    let chars = str_chars(output);
    chars_to_string(&trim(&chars))
}

/// `status` is what the state code `code` stands for. The first character
/// decides: `M` modified, `A` added, `D` deleted, `R` renamed, `?`
/// untracked, `C` copied, `U` unmerged, a space clean. Any other code, the
/// empty one too, is kept as an unknown state.
pub open spec fn status_of(code: Seq<char>, status: FileStatus) -> bool {
    if code.len() > 0 && code[0] == 'M' {
        status == FileStatus::Modified
    } else if code.len() > 0 && code[0] == 'A' {
        status == FileStatus::Added
    } else if code.len() > 0 && code[0] == 'D' {
        status == FileStatus::Deleted
    } else if code.len() > 0 && code[0] == 'R' {
        status == FileStatus::Renamed
    } else if code.len() > 0 && code[0] == '?' {
        status == FileStatus::Untracked
    } else if code.len() > 0 && code[0] == 'C' {
        status == FileStatus::Copied
    } else if code.len() > 0 && code[0] == 'U' {
        status == FileStatus::Unmerged
    } else if code.len() > 0 && code[0] == ' ' {
        status == FileStatus::Clean
    } else {
        status matches FileStatus::Unknown(raw) && raw@ == code
    }
}

fn file_status(code: &Vec<char>) -> (r: FileStatus)
    ensures
        status_of(code@, r),
{
    if code.len() == 0 {
        return FileStatus::Unknown(chars_to_string(code));
    }
    match code[0] {
        'M' => FileStatus::Modified,
        'A' => FileStatus::Added,
        'D' => FileStatus::Deleted,
        'R' => FileStatus::Renamed,
        '?' => FileStatus::Untracked,
        'C' => FileStatus::Copied,
        'U' => FileStatus::Unmerged,
        ' ' => FileStatus::Clean,
        _ => FileStatus::Unknown(chars_to_string(code)),
    }
}

/// The state that a state code stands for.
pub fn parse_file_status(s: &str) -> (r: FileStatus)
    ensures
        status_of(s@, r),
{
    let code = str_chars(s);
    file_status(&code)
}

/// The field at `i`, or the empty text where there are fewer fields.
pub open spec fn field(fields: Seq<Seq<char>>, i: int) -> Seq<char> {
    if 0 <= i < fields.len() {
        fields[i]
    } else {
        Seq::empty()
    }
}

fn field_string(fields: &Vec<Vec<char>>, i: usize) -> (r: String)
    ensures
        r@ == field(rows(fields@), i as int),
{
    if i < fields.len() {
        chars_to_string(&fields[i])
    } else {
        String::new()
    }
}

/// The fields that describe entries: those that take two bytes of UTF-8
/// or more when the whitespace around them is taken away, without that
/// whitespace and in their order.
pub open spec fn entry_fields(fields: Seq<Seq<char>>) -> Seq<Seq<char>>
    decreases fields.len(),
{
    if fields.len() == 0 {
        Seq::empty()
    } else if utf8_size(trimmed(fields.last())) >= 2 {
        entry_fields(fields.drop_last()).push(trimmed(fields.last()))
    } else {
        entry_fields(fields.drop_last())
    }
}

/// The number of characters of an entry field that make its state code:
/// those that end within its first two bytes.
pub open spec fn code_len(field: Seq<char>) -> int {
    chars_within(field, 2) as int
}

/// `entry` is what an entry field describes: the characters within its
/// first two bytes are the state code, and the rest, without the
/// whitespace around it, is the name. The entry is not selected.
pub open spec fn is_status_entry(entry: RevisionEntry, field: Seq<char>) -> bool {
    &&& !entry.selected
    &&& entry.name@ == trimmed(field.skip(code_len(field)))
    &&& status_of(field.take(code_len(field)), entry.status)
}

/// `info` is what the output of the status command describes. The output
/// is made of fields ended by NUL. The first field, without the whitespace
/// around it, is the header; each entry field after it describes an entry.
pub open spec fn is_status(info: StatusInfo, output: Seq<char>) -> bool {
    let fields = pieces(output, '\0', None);
    let kept = entry_fields(fields.skip(1));
    &&& info.header@ == trimmed(fields[0])
    &&& info.entries@.len() == kept.len()
    &&& forall|i: int| 0 <= i < kept.len() ==> is_status_entry(#[trigger] info.entries@[i], kept[i])
}

/// Reads the output of the status command.
pub fn parse_status(output: &str) -> (info: StatusInfo)
    ensures
        is_status(info, output@),
{
    let chars = str_chars(output);
    let fields = split(&chars, '\0', None);
    assert(rows(fields@).len() >= 1);
    assert(rows(fields@)[0] == fields@[0]@);
    let header = chars_to_string(&trim(&fields[0]));
    let mut entries: Vec<RevisionEntry> = Vec::new();
    let ghost rest = rows(fields@).skip(1);
    let mut i: usize = 1;
    assert(rest.take(0) =~= Seq::<Seq<char>>::empty());
    while i < fields.len()
        invariant
            1 <= i <= fields.len(),
            rest == rows(fields@).skip(1),
            entries@.len() == entry_fields(rest.take(i - 1)).len(),
            forall|k: int|
                0 <= k < entries@.len() ==> is_status_entry(
                    #[trigger] entries@[k],
                    entry_fields(rest.take(i - 1))[k],
                ),
        decreases fields.len() - i,
    {
        let ghost before = entry_fields(rest.take(i - 1));
        assert(rest.take(i as int).drop_last() =~= rest.take(i - 1));
        assert(rest.take(i as int).last() == fields@[i as int]@);
        let text = trim(&fields[i]);
        if fitting_chars(&text, 1) < text.len() {
            let n = fitting_chars(&text, 2);
            let code = slice_chars(&text, 0, n);
            let (from, to) = trim_bounds(&text, n, text.len());
            let name = crate::text::substring(&text, from, to);
            let entry = RevisionEntry::new(name, file_status(&code));
            proof {
                assert(text@.subrange(n as int, text@.len() as int) =~= text@.skip(n as int));
                assert(text@.subrange(0, n as int) =~= text@.take(n as int));
                assert(is_status_entry(entry, text@));
            }
            entries.push(entry);
            assert(entry_fields(rest.take(i as int)) == before.push(text@));
        }
        i += 1;
    }
    assert(rest.take(fields.len() - 1) =~= rest);
    StatusInfo { header, entries }
}

/// `entry` is the record that a line of the log describes: the graph and,
/// after a NUL each, the hash, the date, the author, the references and
/// the subject, which takes the rest of the line. What a line lacks is
/// empty.
pub open spec fn is_log_entry(entry: LogEntry, line: Seq<char>) -> bool {
    let fields = pieces(line, '\0', Some(6nat));
    &&& entry.graph@ == field(fields, 0)
    &&& entry.hash@ == field(fields, 1)
    &&& entry.date@ == field(fields, 2)
    &&& entry.author@ == field(fields, 3)
    &&& entry.refs@ == field(fields, 4)
    &&& entry.message@ == field(fields, 5)
}

/// Reads the output of the log command: one record for each line.
pub fn parse_log(output: &str) -> (entries: Vec<LogEntry>)
    ensures
        entries@.len() == lines_of(output@).len(),
        forall|i: int| 0 <= i < entries@.len() ==> is_log_entry(#[trigger] entries@[i], lines_of(output@)[i]),
{
    let chars = str_chars(output);
    let lines = split_lines(&chars);
    let mut entries: Vec<LogEntry> = Vec::new();
    let mut i: usize = 0;
    while i < lines.len()
        invariant
            i <= lines.len(),
            rows(lines@) == lines_of(output@),
            entries@.len() == i,
            forall|k: int| 0 <= k < i ==> is_log_entry(#[trigger] entries@[k], lines_of(output@)[k]),
        decreases lines.len() - i,
    {
        assert(rows(lines@)[i as int] == lines@[i as int]@);
        let fields = split(&lines[i], '\0', Some(6));
        let entry = LogEntry {
            graph: field_string(&fields, 0),
            hash: field_string(&fields, 1),
            date: field_string(&fields, 2),
            author: field_string(&fields, 3),
            refs: field_string(&fields, 4),
            message: field_string(&fields, 5),
        };
        entries.push(entry);
        i += 1;
    }
    assert(rows(lines@).len() == lines@.len());
    entries
}

/// `entry` is the branch that a line describes: its name up to the first
/// space, and it is checked out if `*` is all that follows.
pub open spec fn is_branch_entry(entry: BranchEntry, line: Seq<char>) -> bool {
    let fields = pieces(line, ' ', Some(2nat));
    &&& entry.name@ == field(fields, 0)
    &&& entry.checked_out == (field(fields, 1) == seq!['*'])
}

/// Reads the output of the branches command: one branch for each line.
pub fn parse_branches(output: &str) -> (entries: Vec<BranchEntry>)
    ensures
        entries@.len() == lines_of(output@).len(),
        forall|i: int|
            0 <= i < entries@.len() ==> is_branch_entry(#[trigger] entries@[i], lines_of(output@)[i]),
{
    let chars = str_chars(output);
    let lines = split_lines(&chars);
    let mut entries: Vec<BranchEntry> = Vec::new();
    let mut i: usize = 0;
    while i < lines.len()
        invariant
            i <= lines.len(),
            rows(lines@) == lines_of(output@),
            entries@.len() == i,
            forall|k: int| 0 <= k < i ==> is_branch_entry(#[trigger] entries@[k], lines_of(output@)[k]),
        decreases lines.len() - i,
    {
        assert(rows(lines@)[i as int] == lines@[i as int]@);
        let fields = split(&lines[i], ' ', Some(2));
        let name = field_string(&fields, 0);
        let checked_out = fields.len() > 1 && fields[1].len() == 1 && fields[1][0] == '*';
        proof {
            if fields.len() > 1 {
                assert(rows(fields@)[1] == fields@[1]@);
                if checked_out {
                    assert(fields@[1]@ =~= seq!['*']);
                } else if fields@[1]@.len() == 1 {
                    assert(fields@[1]@[0] != seq!['*'][0]);
                } else {
                    assert(fields@[1]@.len() != seq!['*'].len());
                }
            } else {
                assert(field(rows(fields@), 1).len() != seq!['*'].len());
            }
        }
        entries.push(BranchEntry { name, checked_out });
        i += 1;
    }
    assert(rows(lines@).len() == lines@.len());
    entries
}

/// Reads the output of the tags command: one tag for each line, named as
/// the line says.
pub fn parse_tags(output: &str) -> (entries: Vec<TagEntry>)
    ensures
        entries@.len() == lines_of(output@).len(),
        forall|i: int| 0 <= i < entries@.len() ==> (#[trigger] entries@[i]).name@ == lines_of(output@)[i],
{
    let chars = str_chars(output);
    let lines = split_lines(&chars);
    let mut entries: Vec<TagEntry> = Vec::new();
    let mut i: usize = 0;
    while i < lines.len()
        invariant
            i <= lines.len(),
            rows(lines@) == lines_of(output@),
            entries@.len() == i,
            forall|k: int| 0 <= k < i ==> (#[trigger] entries@[k]).name@ == lines_of(output@)[k],
        decreases lines.len() - i,
    {
        assert(rows(lines@)[i as int] == lines@[i as int]@);
        entries.push(TagEntry { name: chars_to_string(&lines[i]) });
        i += 1;
    }
    assert(rows(lines@).len() == lines@.len());
    entries
}

/// How many files the fields of a change list describe. The fields come
/// in pairs of a state code and a name; the list ends before the first
/// pair whose code is empty or whose name is missing.
pub open spec fn change_count(fields: Seq<Seq<char>>) -> nat
    decreases fields.len(),
{
    if fields.len() >= 2 && fields[0].len() > 0 {
        1 + change_count(fields.skip(2))
    } else {
        0
    }
}

/// `info` is the revision that the two outputs describe: the message is
/// the first output without the whitespace around it, and the second
/// output, made of fields ended by NUL, lists the files.
pub open spec fn is_revision(info: RevisionInfo, message: Seq<char>, changes: Seq<char>) -> bool {
    let fields = pieces(changes, '\0', None);
    &&& info.message@ == trimmed(message)
    &&& info.entries@.len() == change_count(fields)
    &&& forall|i: int|
        0 <= i < info.entries@.len() ==> {
            &&& 2 * i + 1 < fields.len()
            &&& !(#[trigger] info.entries@[i]).selected
            &&& info.entries@[i].name@ == fields[2 * i + 1]
            &&& status_of(fields[2 * i], info.entries@[i].status)
        }
}

/// Reads the message of a revision and the list of the files it changed.
pub fn parse_revision_details(message: &str, changes: &str) -> (info: RevisionInfo)
    ensures
        is_revision(info, message@, changes@),
{
    let message_chars = str_chars(message);
    let message = chars_to_string(&trim(&message_chars));
    let chars = str_chars(changes);
    let fields = split(&chars, '\0', None);
    let ghost all = rows(fields@);
    let mut entries: Vec<RevisionEntry> = Vec::new();
    let mut k: usize = 0;
    assert(all.skip(0) =~= all);
    while k + 1 < fields.len() && fields[k].len() > 0
        invariant
            k <= fields.len(),
            k == 2 * entries@.len(),
            all == rows(fields@),
            change_count(all) == entries@.len() + change_count(all.skip(k as int)),
            forall|i: int|
                0 <= i < entries@.len() ==> {
                    &&& 2 * i + 1 < all.len()
                    &&& !(#[trigger] entries@[i]).selected
                    &&& entries@[i].name@ == all[2 * i + 1]
                    &&& status_of(all[2 * i], entries@[i].status)
                },
        decreases fields.len() - k,
    {
        assert(all[k as int] == fields@[k as int]@ && all[k + 1] == fields@[k + 1]@);
        assert(all.skip(k as int)[0] == all[k as int]);
        assert(all.skip(k as int).skip(2) =~= all.skip(k + 2));
        let status = file_status(&fields[k]);
        let name = chars_to_string(&fields[k + 1]);
        entries.push(RevisionEntry::new(name, status));
        k += 2;
    }
    proof {
        if k < fields.len() {
            assert(all.skip(k as int)[0] == all[k as int]);
            assert(all[k as int] == fields@[k as int]@);
        }
        assert(change_count(all.skip(k as int)) == 0);
    }
    RevisionInfo { message, entries }
}

/// How many characters at the start of `s` are no decimal digits.
pub open spec fn leading_non_digits(s: Seq<char>) -> nat
    decreases s.len(),
{
    if s.len() > 0 && !ascii_digit(s[0]) {
        1 + leading_non_digits(s.drop_first())
    } else {
        0
    }
}

/// How many characters at the end of `s` are no decimal digits.
pub open spec fn trailing_non_digits(s: Seq<char>) -> nat
    decreases s.len(),
{
    if s.len() > 0 && !ascii_digit(s.last()) {
        1 + trailing_non_digits(s.drop_last())
    } else {
        0
    }
}

/// `s` from its first decimal digit to its last.
pub open spec fn digit_core(s: Seq<char>) -> Seq<char> {
    if leading_non_digits(s) >= s.len() {
        Seq::empty()
    } else {
        s.subrange(leading_non_digits(s) as int, s.len() - trailing_non_digits(s))
    }
}

fn digit_bounds(v: &Vec<char>) -> (r: (usize, usize))
    ensures
        r.0 <= r.1 <= v.len(),
        v@.subrange(r.0 as int, r.1 as int) == digit_core(v@),
{
    let ghost s = v@;
    let mut a: usize = 0;
    assert(s.skip(0) =~= s);
    while a < v.len() && !is_ascii_digit(v[a])
        invariant
            a <= v.len(),
            s == v@,
            leading_non_digits(s) == a + leading_non_digits(s.skip(a as int)),
        decreases v.len() - a,
    {
        assert(s.skip(a as int).drop_first() =~= s.skip(a + 1));
        a += 1;
    }
    proof {
        if a == v.len() {
            assert(s.skip(a as int).len() == 0);
        }
        assert(leading_non_digits(s) == a);
    }
    if a == v.len() {
        assert(v@.subrange(a as int, a as int) =~= Seq::<char>::empty());
        return (a, a);
    }
    let mut b: usize = v.len();
    assert(s.take(s.len() as int) =~= s);
    while b > a && !is_ascii_digit(v[b - 1])
        invariant
            a < b <= v.len(),
            s == v@,
            ascii_digit(v@[a as int]),
            trailing_non_digits(s) == (v.len() - b) + trailing_non_digits(s.take(b as int)),
        decreases b,
    {
        assert(s.take(b as int).drop_last() =~= s.take(b - 1));
        b -= 1;
    }
    proof {
        assert(s.take(b as int).last() == v@[b - 1]);
        assert(trailing_non_digits(s) == v.len() - b);
    }
    (a, b)
}

/// How many characters at the end of `s` are not `c`.
pub open spec fn trailing_other(s: Seq<char>, c: char) -> nat
    decreases s.len(),
{
    if s.len() > 0 && s.last() != c {
        1 + trailing_other(s.drop_last(), c)
    } else {
        0
    }
}

/// What follows the last `c` in `s`, and all of `s` where it holds none.
pub open spec fn after_last(s: Seq<char>, c: char) -> Seq<char> {
    s.skip(s.len() - trailing_other(s, c))
}

fn after_last_start(v: &Vec<char>, c: char) -> (r: usize)
    ensures
        r <= v.len(),
        v@.skip(r as int) == after_last(v@, c),
{
    let mut b: usize = v.len();
    assert(v@.take(v@.len() as int) =~= v@);
    while b > 0 && v[b - 1] != c
        invariant
            b <= v.len(),
            trailing_other(v@, c) == (v.len() - b) + trailing_other(v@.take(b as int), c),
        decreases b,
    {
        assert(v@.take(b as int).drop_last() =~= v@.take(b - 1));
        b -= 1;
    }
    proof {
        if b > 0 {
            assert(v@.take(b as int).last() == v@[b - 1]);
        } else {
            assert(v@.take(0).len() == 0);
        }
    }
    b
}

/// What a line of the stash list says.
pub struct StashRecord {
    pub id: nat,
    pub branch: Seq<char>,
    pub message: Seq<char>,
}

/// What a line of the stash list says, if it names a stash. The line is
/// cut at its first two colons. The first part holds the number of the
/// stash: what stands between its first and its last decimal digit must be
/// decimal digits throughout and a number that fits. The second part ends
/// in the name of the branch, after its last space. The rest is the
/// message. Branch and message lose the whitespace around them. A line
/// without colon or without such a number names no stash.
pub open spec fn stash_record(line: Seq<char>) -> Option<StashRecord> {
    let fields = pieces(line, ':', Some(3nat));
    let digits = digit_core(field(fields, 0));
    if fields.len() >= 2 && digits.len() > 0 && all_digits(digits) && decimal_value(digits) <= usize::MAX {
        Some(
            StashRecord {
                id: decimal_value(digits),
                branch: trimmed(after_last(fields[1], ' ')),
                message: trimmed(field(fields, 2)),
            },
        )
    } else {
        None
    }
}

/// The stashes that lines name, in the order of the lines.
pub open spec fn stash_records(lines: Seq<Seq<char>>) -> Seq<StashRecord>
    decreases lines.len(),
{
    if lines.len() == 0 {
        Seq::empty()
    } else {
        match stash_record(lines.last()) {
            Some(record) => stash_records(lines.drop_last()).push(record),
            None => stash_records(lines.drop_last()),
        }
    }
}

/// `entry` holds what the line said.
pub open spec fn is_stash_entry(entry: StashEntry, record: StashRecord) -> bool {
    &&& entry.id == record.id
    &&& entry.branch@ == record.branch
    &&& entry.message@ == record.message
}

fn parse_stash_line(line: &Vec<char>) -> (r: Option<StashEntry>)
    ensures
        match r {
            Some(entry) => stash_record(line@) matches Some(record) && is_stash_entry(entry, record),
            None => stash_record(line@) is None,
        },
{
    let fields = split(line, ':', Some(3));
    if fields.len() < 2 {
        return None;
    }
    assert(rows(fields@)[0] == fields@[0]@ && rows(fields@)[1] == fields@[1]@);
    let (from, to) = digit_bounds(&fields[0]);
    let id = match parse_decimal(&fields[0], from, to) {
        Some(id) => id,
        None => {
            return None;
        },
    };
    let start = after_last_start(&fields[1], ' ');
    let (a, b) = trim_bounds(&fields[1], start, fields[1].len());
    let branch = crate::text::substring(&fields[1], a, b);
    assert(fields@[1]@.subrange(start as int, fields@[1]@.len() as int) =~= fields@[1]@.skip(start as int));
    let message = if fields.len() > 2 {
        assert(rows(fields@)[2] == fields@[2]@);
        chars_to_string(&trim(&fields[2]))
    } else {
        let none: Vec<char> = Vec::new();
        chars_to_string(&trim(&none))
    };
    Some(StashEntry { id, branch, message })
}

/// Reads the output of the stash list command: one stash for each line
/// that names one.
pub fn parse_stash_list(output: &str) -> (entries: Vec<StashEntry>)
    ensures
        entries@.len() == stash_records(lines_of(output@)).len(),
        forall|i: int|
            0 <= i < entries@.len() ==> is_stash_entry(
                #[trigger] entries@[i],
                stash_records(lines_of(output@))[i],
            ),
{
    let chars = str_chars(output);
    let lines = split_lines(&chars);
    let ghost all = lines_of(output@);
    let mut entries: Vec<StashEntry> = Vec::new();
    let mut i: usize = 0;
    assert(all.take(0) =~= Seq::<Seq<char>>::empty());
    while i < lines.len()
        invariant
            i <= lines.len(),
            rows(lines@) == all,
            entries@.len() == stash_records(all.take(i as int)).len(),
            forall|k: int|
                0 <= k < entries@.len() ==> is_stash_entry(
                    #[trigger] entries@[k],
                    stash_records(all.take(i as int))[k],
                ),
        decreases lines.len() - i,
    {
        assert(rows(lines@)[i as int] == lines@[i as int]@);
        assert(all.take(i + 1).drop_last() =~= all.take(i as int));
        assert(all.take(i + 1).last() == lines@[i as int]@);
        if let Some(entry) = parse_stash_line(&lines[i]) {
            entries.push(entry);
        }
        i += 1;
    }
    assert(rows(lines@).len() == lines@.len());
    assert(all.take(lines@.len() as int) =~= all);
    entries
}

/// Asks for the name of the remote.
pub fn remote_args() -> (r: Vec<String>)
    ensures
        texts(r@) == seq!["remote"@],
{
    words1("remote")
}

/// Asks for the name of the branch checked out.
pub fn current_branch_args() -> (r: Vec<String>)
    ensures
        texts(r@) == seq!["symbolic-ref"@, "--short"@, "HEAD"@],
{
    words3("symbolic-ref", "--short", "HEAD")
}

/// The branch of the remote that the branch checked out follows: the name
/// of the remote, a slash, and the name of the branch, each as git gave
/// it, without the whitespace around it.
pub fn remote_branch(remote_output: &str, branch_output: &str) -> (r: String)
    ensures
        r@ == trimmed(remote_output@).push('/') + trimmed(branch_output@),
{
    let mut remote = parse_root(remote_output);
    let current_branch = parse_root(branch_output);
    crate::text::push_char(&mut remote, '/');
    remote.append(current_branch.as_str());
    remote
}

/// Pushes the branch checked out to the remote as a change for Gerrit.
pub fn push_gerrit_args(remote_output: &str, branch_output: &str) -> (r: Vec<String>)
    ensures
        texts(r@) == seq![
            "push"@,
            trimmed(remote_output@),
            "HEAD:refs/for/"@ + trimmed(branch_output@),
        ],
{
    let remote = parse_root(remote_output);
    let current_branch = parse_root(branch_output);
    let mut branch_info = String::from_str("HEAD:refs/for/");
    branch_info.append(current_branch.as_str());
    words3("push", remote.as_str(), branch_info.as_str())
}

/// Asks whether the working copy has changes, before a reset.
pub fn reset_check_args() -> (r: Vec<String>)
    ensures
        texts(r@) == seq!["status"@, "--null"@],
{
    words2("status", "--null")
}

/// The reset to a revision, or to the followed branch of the remote where
/// no revision is named. It is refused while the working copy has changes,
/// which is when the status asked for before is not empty.
pub fn reset_args(status_output: &str, revision: &str, remote_branch: &str) -> (r: BackendResult<Vec<String>>)
    ensures
        match r {
            Ok(args) => status_output@.len() == 0 && texts(args@) == seq![
                "reset"@,
                "--hard"@,
                if revision@.len() == 0 {
                    remote_branch@
                } else {
                    revision@
                },
            ],
            Err(error) => status_output@.len() > 0 && error@
                == "There are local changes! Please stash / commit / discard first."@,
        },
{
    if !status_output.is_empty() {
        return Err(String::from_str("There are local changes! Please stash / commit / discard first."));
    }
    let revision = if revision.is_empty() {
        remote_branch
    } else {
        revision
    };
    Ok(words3("reset", "--hard", revision))
}

} // verus!
