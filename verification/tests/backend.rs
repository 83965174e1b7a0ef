use std::cell::RefCell;

use verco::application::Event;
use verco::backend::git;
use verco::backend::{
    Backend, BackendResult, BranchEntry, FileStatus, LogEntry, RevisionEntry, RevisionInfo, StashEntry,
    StatusInfo, TagEntry,
};
use verco::job::{self, Job};
use verco::mode::{branches, diff, log, revision_details, stash, stash_details, status, tags};
use verco::mode::{ModeChangeInfo, ModeKind, ModeResponse};
use verco::order::{sort, Ordered};
use verco::text;

fn entry(name: &str, status: FileStatus) -> RevisionEntry {
    RevisionEntry::new(name.to_string(), status)
}

fn strings(words: &[&str]) -> Vec<String> {
    words.iter().map(|w| w.to_string()).collect()
}

fn to_log(from: ModeKind) -> Event {
    Event::ModeChange(ModeKind::Log, ModeChangeInfo::new(from))
}

// records

#[test]
fn file_status_labels() {
    for (status, label) in [
        (FileStatus::Modified, "modified"),
        (FileStatus::Added, "added"),
        (FileStatus::Deleted, "deleted"),
        (FileStatus::Renamed, "renamed"),
        (FileStatus::Untracked, "untracked"),
        (FileStatus::Copied, "copied"),
        (FileStatus::Unmerged, "unmerged"),
        (FileStatus::Missing, "missing"),
        (FileStatus::Ignored, "ignored"),
        (FileStatus::Clean, "clean"),
        (FileStatus::Unknown("X".to_string()), "X"),
        (FileStatus::Unknown(String::new()), ""),
        (FileStatus::Unknown("123456789".to_string()), "123456789"),
        (FileStatus::Unknown("1234567890".to_string()), "123456789"),
        // Ten bytes, and the ninth byte ends a character: eight characters.
        (FileStatus::Unknown("\u{e9}abcdefgh".to_string()), "\u{e9}abcdefg"),
        // Nine bytes in three characters.
        (FileStatus::Unknown("日本語".to_string()), "日本語"),
        (FileStatus::Unknown("日本語日".to_string()), "日本語"),
        // The ninth byte is inside a character: the cut is before it.
        (FileStatus::Unknown("abcdefgh\u{e9}".to_string()), "abcdefgh"),
        (FileStatus::Unknown("ééééééééééé".to_string()), "éééé"),
        (FileStatus::Unknown("a\u{1f600}\u{1f600}\u{1f600}".to_string()), "a\u{1f600}\u{1f600}"),
    ] {
        assert_eq!(status.as_str(), label);
        assert!(status.as_str().len() <= FileStatus::max_len());
    }
    assert_eq!(FileStatus::max_len(), 9);
    assert!(FileStatus::Unmerged.is_unmerged());
    assert!(!FileStatus::Modified.is_unmerged());
}

#[test]
fn file_status_label_is_the_first_nine_bytes_where_they_end_a_character() {
    for code in ["", "a", "123456789", "1234567890", "é23456789", "\u{e9}abcdefgh", "日本語日本語", "!! something long"] {
        let expected = if code.len() <= 9 { code } else { &code[..9] };
        assert!(code.len() <= 9 || code.is_char_boundary(9));
        assert_eq!(FileStatus::Unknown(code.to_string()).as_str(), expected, "{:?}", code);
    }
}

#[test]
fn utf8_lengths_are_those_of_the_standard_library() {
    for c in ['\0', 'a', '\u{7f}', '\u{80}', 'é', '\u{7ff}', '\u{800}', '日', '\u{ffff}', '\u{10000}', '\u{1f600}', '\u{10ffff}'] {
        assert_eq!(text::char_utf8_len(c), c.len_utf8(), "{:?}", c);
    }
    for (s, limit, n) in [("", 0usize, 0usize), ("abc", 0, 0), ("abc", 2, 2), ("abc", 3, 3), ("abc", 9, 3), ("aé", 2, 1), ("aé", 3, 2), ("日本", 5, 1)] {
        assert_eq!(text::fitting_chars(&text::str_chars(s), limit), n, "{:?} {}", s, limit);
    }
}

#[test]
fn file_status_order_is_the_order_of_the_sort() {
    let statuses = || {
        vec![
            FileStatus::Unknown("b".to_string()),
            FileStatus::Clean,
            FileStatus::Unknown("a".to_string()),
            FileStatus::Unknown("ab".to_string()),
            FileStatus::Unknown(String::new()),
            FileStatus::Untracked,
            FileStatus::Modified,
            FileStatus::Ignored,
            FileStatus::Added,
            FileStatus::Unmerged,
            FileStatus::Deleted,
            FileStatus::Missing,
            FileStatus::Copied,
            FileStatus::Renamed,
            FileStatus::Unknown("é".to_string()),
        ]
    };
    for a in statuses() {
        for b in statuses() {
            assert_eq!(a.before(&b), a <= b, "{:?} {:?}", a, b);
            assert_eq!(a.cmp(&b) == std::cmp::Ordering::Equal, a == b);
        }
    }
    let mut expected = statuses();
    expected.sort();
    assert_eq!(sort(statuses()), expected);
}

#[test]
fn revision_entry_new_is_not_selected() {
    let e = RevisionEntry::new("a".to_string(), FileStatus::Added);
    assert_eq!(e, RevisionEntry { selected: false, name: "a".to_string(), status: FileStatus::Added });
    assert_eq!(e.clone(), e);
    assert_eq!(FileStatus::Unknown("zz".to_string()).clone(), FileStatus::Unknown("zz".to_string()));
}

#[test]
fn entries_sort_by_status() {
    let sorted = sort(vec![
        entry("u2", FileStatus::Unknown("b".to_string())),
        entry("clean", FileStatus::Clean),
        entry("u1", FileStatus::Unknown("a".to_string())),
        entry("untracked", FileStatus::Untracked),
        entry("modified", FileStatus::Modified),
        entry("ignored", FileStatus::Ignored),
        entry("added", FileStatus::Added),
        entry("unmerged", FileStatus::Unmerged),
        entry("deleted", FileStatus::Deleted),
        entry("missing", FileStatus::Missing),
        entry("copied", FileStatus::Copied),
        entry("renamed", FileStatus::Renamed),
    ]);
    let names: Vec<&str> = sorted.iter().map(|e| e.name.as_str()).collect();
    assert_eq!(
        names,
        vec![
            "modified", "added", "deleted", "renamed", "untracked", "copied", "unmerged", "missing", "ignored",
            "clean", "u1", "u2",
        ]
    );
}

#[test]
fn sort_keeps_every_element() {
    let names = ["b", "a", "c", "a", "", "B", "é", "ab", "a"];
    let sorted = sort(names.iter().map(|n| TagEntry { name: n.to_string() }).collect());
    let got: Vec<&str> = sorted.iter().map(|t| t.name.as_str()).collect();
    let mut expected = names.to_vec();
    expected.sort();
    assert_eq!(got, expected);
    assert!(sort(Vec::<TagEntry>::new()).is_empty());
}

// text

#[test]
fn text_order_is_the_order_of_strings() {
    let words = ["", "a", "A", "ab", "b", "é", "日本", "a b", "aa", "Z"];
    for a in words {
        for b in words {
            assert_eq!(text::str_le(a, b), a <= b, "{:?} {:?}", a, b);
        }
    }
}

#[test]
fn text_conversions() {
    assert_eq!(text::str_chars("aé日"), vec!['a', 'é', '日']);
    assert_eq!(text::chars_to_string(&vec!['a', 'é', '日']), "aé日");
    assert_eq!(text::substring(&vec!['a', 'b', 'c', 'd'], 1, 3), "bc");
    assert_eq!(text::slice_chars(&vec!['a', 'b', 'c', 'd'], 2, 2), vec![]);
    assert_eq!(text::find(&vec!['a', 'b', 'c', 'b'], 0, 'b'), 1);
    assert_eq!(text::find(&vec!['a', 'b', 'c', 'b'], 2, 'b'), 3);
    assert_eq!(text::find(&vec!['a', 'b', 'c', 'b'], 0, 'x'), 4);
}

#[test]
fn text_character_classes() {
    for c in ['a', 'z', 'A', 'Z', '0', '9'] {
        assert!(text::is_ascii_alphanumeric(c));
    }
    for c in ['_', ' ', 'é', '/', '@', '[', '`', '{', ':'] {
        assert!(!text::is_ascii_alphanumeric(c));
    }
    for c in ['\0', '\u{7f}', 'x', 'Z', 'é', ' ', '日'] {
        assert_eq!(text::is_ascii_alphanumeric(c), c.is_ascii_alphanumeric());
        assert_eq!(text::is_ascii_whitespace(c), c.is_ascii_whitespace());
        assert_eq!(text::is_ascii_digit(c), c.is_ascii_digit());
        assert_eq!(text::to_ascii_lowercase(c), c.to_ascii_lowercase());
    }
    for c in [' ', '\t', '\n', '\r', '\u{c}'] {
        assert!(text::is_ascii_whitespace(c));
    }
    assert!(!text::is_ascii_whitespace('\u{b}'));
    assert!(text::eq_ignore_ascii_case('a', 'A'));
    assert!(!text::eq_ignore_ascii_case('a', 'b'));
    assert!(!text::eq_ignore_ascii_case('é', 'É'));
    assert!(!text::eq_ignore_ascii_case('@', '`'));
    assert!(!text::eq_ignore_ascii_case('[', '{'));
}

#[test]
fn text_split() {
    let rows = |text: &str, sep: char, limit: Option<usize>| -> Vec<String> {
        text::split(&text::str_chars(text), sep, limit).iter().map(text::chars_to_string).collect()
    };
    assert_eq!(rows("a:b:c", ':', None), vec!["a", "b", "c"]);
    assert_eq!(rows("", ':', None), vec![""]);
    assert_eq!(rows(":", ':', None), vec!["", ""]);
    assert_eq!(rows("a::b:", ':', None), vec!["a", "", "b", ""]);
    assert_eq!(rows("a:b:c", ':', Some(2)), vec!["a", "b:c"]);
    assert_eq!(rows("a:b:c", ':', Some(1)), vec!["a:b:c"]);
    assert_eq!(rows("a:b:c", ':', Some(0)), Vec::<String>::new());
    assert_eq!(rows("a:b:c", ':', Some(9)), vec!["a", "b", "c"]);
    for text in ["", "a", "a:b", ":a:", "::", "a:b:c:d"] {
        let expected: Vec<&str> = text.split(':').collect();
        assert_eq!(rows(text, ':', None), expected);
        for n in 0..5 {
            let expected: Vec<&str> = text.splitn(n, ':').collect();
            assert_eq!(rows(text, ':', Some(n)), expected);
        }
    }
}

#[test]
fn text_trim() {
    for text in ["", " ", "a", " a ", "\t\na b\r\n", "\u{2003}x\u{a0}", "  \u{3000}", "x  y"] {
        assert_eq!(text::chars_to_string(&text::trim(&text::str_chars(text))), text.trim(), "{:?}", text);
    }
    let chars = text::str_chars("ab  cd  ");
    assert_eq!(text::trim_bounds(&chars, 2, 8), (4, 6));
    assert_eq!(text::trim_bounds(&chars, 2, 4), (4, 4));
}

#[test]
fn text_decimal() {
    for n in [0usize, 1, 9, 10, 11, 99, 100, 12345, usize::MAX] {
        assert_eq!(text::decimal(n), n.to_string());
        let chars = text::str_chars(&n.to_string());
        assert_eq!(text::parse_decimal(&chars, 0, chars.len()), Some(n));
    }
    let parse = |s: &str| {
        let chars = text::str_chars(s);
        text::parse_decimal(&chars, 0, chars.len())
    };
    assert_eq!(parse(""), None);
    assert_eq!(parse("007"), Some(7));
    assert_eq!(parse("1a"), None);
    assert_eq!(parse("-1"), None);
    assert_eq!(parse("+1"), None);
    assert_eq!(parse("١"), None);
    assert_eq!(parse("18446744073709551616"), None);
    assert_eq!(parse("99999999999999999999999"), None);
    let chars = text::str_chars("ab12cd");
    assert_eq!(text::parse_decimal(&chars, 2, 4), Some(12));
}

// command lines

#[test]
fn git_simple_command_lines() {
    assert_eq!(git::root_args(), strings(&["rev-parse", "--show-toplevel"]));
    assert_eq!(git::status_args(), strings(&["status", "--branch", "--no-rename", "--null"]));
    assert_eq!(git::checkout_args("abc"), strings(&["checkout", "abc"]));
    assert_eq!(git::merge_args("dev"), strings(&["merge", "--no-ff", "dev"]));
    assert_eq!(git::fetch_args(), strings(&["fetch", "--all", "--prune"]));
    assert_eq!(git::pull_args(), strings(&["pull", "--all"]));
    assert_eq!(git::push_args(), strings(&["push"]));
    assert_eq!(git::stash_list_args(), strings(&["stash", "list"]));
    assert_eq!(git::stash_pop_args(3), strings(&["stash", "pop", "3"]));
    assert_eq!(git::stash_show_args(12), strings(&["stash", "show", "12"]));
    assert_eq!(git::stash_diff_args(0), strings(&["stash", "show", "-p", "0"]));
    assert_eq!(git::stash_drop_args(7), strings(&["stash", "drop", "7"]));
    assert_eq!(
        git::revision_message_args("abc"),
        strings(&["show", "-s", "--format=%B", "--no-renames", "abc"])
    );
    assert_eq!(
        git::revision_changes_args("abc"),
        strings(&["diff-tree", "--no-commit-id", "--name-status", "-r", "-z", "abc"])
    );
    assert_eq!(
        git::branches_args(),
        strings(&["branch", "--list", "--format=%(refname:short)%20%(HEAD)"])
    );
    assert_eq!(git::new_branch_args("topic"), strings(&["checkout", "-b", "topic"]));
    assert_eq!(git::delete_branch_args("feature", false), strings(&["branch", "--delete", "feature"]));
    assert_eq!(git::delete_branch_args("feature", true), strings(&["branch", "-D", "feature"]));
    assert_eq!(git::tags_args(), strings(&["tag", "--list", "--format=%(refname:short)"]));
    assert_eq!(git::new_tag_args("v1"), strings(&["tag", "--force", "v1"]));
    assert_eq!(git::delete_tag_args("v1"), strings(&["tag", "--delete", "v1"]));
    assert_eq!(git::remote_args(), strings(&["remote"]));
    assert_eq!(git::current_branch_args(), strings(&["symbolic-ref", "--short", "HEAD"]));
    assert_eq!(git::reset_check_args(), strings(&["status", "--null"]));
}

#[test]
fn git_log_command_line() {
    assert_eq!(
        git::log_args(20, 100),
        strings(&[
            "log",
            "--decorate",
            "--oneline",
            "--graph",
            "--skip",
            "20",
            "--max-count",
            "100",
            "--format=format:%x00%h%x00%as%x00%aN%x00%D%x00%s",
        ])
    );
}

#[test]
fn git_commit_plan() {
    let entries = vec![entry("a b.rs", FileStatus::Modified), entry("c", FileStatus::Added)];
    assert_eq!(
        git::commit_plan("fix", &entries, false),
        vec![strings(&["add", "--", "a b.rs", "c"]), strings(&["commit", "-m", "fix"])]
    );
    assert_eq!(
        git::commit_plan("ignored", &vec![], true),
        vec![strings(&["add", "--all"]), strings(&["commit", "--amend", "--no-edit"])]
    );
}

#[test]
fn git_discard_plan() {
    assert_eq!(
        git::discard_plan(&vec![]),
        vec![strings(&["reset", "--hard", "HEAD"]), strings(&["clean", "--force"])]
    );
    let entries = vec![
        entry("m", FileStatus::Modified),
        entry("u1", FileStatus::Untracked),
        entry("a", FileStatus::Added),
        entry("d", FileStatus::Deleted),
        entry("u2", FileStatus::Untracked),
    ];
    assert_eq!(
        git::discard_plan(&entries),
        vec![
            strings(&["clean", "--force", "--", "u1", "u2"]),
            strings(&["rm", "--force", "--", "a"]),
            strings(&["checkout", "HEAD", "--", "m", "d"]),
        ]
    );
    assert_eq!(
        git::discard_plan(&vec![entry("a", FileStatus::Added)]),
        vec![strings(&["rm", "--force", "--", "a"])]
    );
    assert_eq!(git::discard_kind(&FileStatus::Untracked), git::DiscardKind::Clean);
    assert_eq!(git::discard_kind(&FileStatus::Added), git::DiscardKind::Remove);
    assert_eq!(git::discard_kind(&FileStatus::Unknown("x".to_string())), git::DiscardKind::Restore);
}

#[test]
fn git_diff_command_line() {
    let entries = vec![entry("a", FileStatus::Modified), entry("b", FileStatus::Modified)];
    assert_eq!(git::diff_args(None, &vec![]), strings(&["diff", "-z"]));
    assert_eq!(git::diff_args(None, &entries), strings(&["diff", "--", "a", "b"]));
    assert_eq!(git::diff_args(Some("abc"), &vec![]), strings(&["diff", "abc~", "abc"]));
    assert_eq!(git::diff_args(Some("abc"), &entries), strings(&["diff", "abc~", "abc", "--", "a", "b"]));
}

#[test]
fn git_resolve_command_line() {
    assert_eq!(git::resolve_args(true, &vec![]), Some(strings(&["checkout", "--ours", "."])));
    assert_eq!(git::resolve_args(false, &vec![]), Some(strings(&["checkout", "--theirs", "."])));
    let entries = vec![
        entry("a", FileStatus::Modified),
        entry("b", FileStatus::Unmerged),
        entry("c", FileStatus::Unmerged),
    ];
    assert_eq!(git::resolve_args(true, &entries), Some(strings(&["checkout", "--ours", "--", "b", "c"])));
    assert_eq!(git::resolve_args(false, &entries), Some(strings(&["checkout", "--theirs", "--", "b", "c"])));
    assert_eq!(git::resolve_args(true, &vec![entry("a", FileStatus::Modified)]), None);
}

#[test]
fn git_stash_command_line() {
    let entries = vec![entry("a", FileStatus::Modified)];
    assert_eq!(git::stash_args("wip", &vec![]), strings(&["stash", "save", "wip"]));
    assert_eq!(git::stash_args("", &vec![]), strings(&["stash", "save", ""]));
    assert_eq!(git::stash_args("", &entries), strings(&["stash", "push", "--", "a"]));
    assert_eq!(git::stash_args("wip", &entries), strings(&["stash", "push", "-m", "wip", "--", "a"]));
}

#[test]
fn git_reset_and_gerrit() {
    assert_eq!(git::remote_branch("origin\n", " main \n"), "origin/main");
    assert_eq!(
        git::push_gerrit_args("origin\n", "main\n"),
        strings(&["push", "origin", "HEAD:refs/for/main"])
    );
    assert_eq!(git::reset_args("", "abc", "origin/main"), Ok(strings(&["reset", "--hard", "abc"])));
    assert_eq!(git::reset_args("", "", "origin/main"), Ok(strings(&["reset", "--hard", "origin/main"])));
    assert_eq!(
        git::reset_args(" M a\0", "abc", "origin/main"),
        Err("There are local changes! Please stash / commit / discard first.".to_string())
    );
}

// parsing

#[test]
fn git_parse_root() {
    assert_eq!(git::parse_root("/home/me/repo\n"), "/home/me/repo");
    assert_eq!(git::parse_root("  /a b \r\n"), "/a b");
    assert_eq!(git::parse_root(""), "");
}

#[test]
fn git_parse_file_status() {
    for (code, status) in [
        ("M ", FileStatus::Modified),
        ("MM", FileStatus::Modified),
        ("A", FileStatus::Added),
        ("D ", FileStatus::Deleted),
        ("R100", FileStatus::Renamed),
        ("??", FileStatus::Untracked),
        ("C", FileStatus::Copied),
        ("UU", FileStatus::Unmerged),
        (" M", FileStatus::Clean),
        ("!!", FileStatus::Unknown("!!".to_string())),
        ("m", FileStatus::Unknown("m".to_string())),
        ("", FileStatus::Unknown(String::new())),
        ("T", FileStatus::Unknown("T".to_string())),
    ] {
        assert_eq!(git::parse_file_status(code), status, "{:?}", code);
    }
}

#[test]
fn git_parse_status() {
    let output = "## main...origin/main [ahead 1]\0 M src/a b.rs\0?? new.txt\0A  added\0UU both\0x\0\0!! ign\0";
    let info = git::parse_status(output);
    assert_eq!(info.header, "## main...origin/main [ahead 1]");
    assert_eq!(
        info.entries,
        vec![
            // The field is trimmed before it is cut, so a leading space of
            // the code is lost.
            entry("src/a b.rs", FileStatus::Modified),
            entry("new.txt", FileStatus::Untracked),
            entry("added", FileStatus::Added),
            entry("both", FileStatus::Unmerged),
            entry("ign", FileStatus::Unknown("!!".to_string())),
        ]
    );
    let empty = git::parse_status("");
    assert_eq!(empty, StatusInfo { header: String::new(), entries: vec![] });
    let only_header = git::parse_status("  ## No commits yet on main\n");
    assert_eq!(only_header.header, "## No commits yet on main");
    assert!(only_header.entries.is_empty());
    let two_chars = git::parse_status("h\0MM\0");
    assert_eq!(two_chars.entries, vec![entry("", FileStatus::Modified)]);
}

#[test]
fn git_parse_status_cuts_the_code_after_two_bytes() {
    for output in [
        "",
        "## main\0 M a\0?? b c\0",
        "h\0M\0MM\0MMM\0",
        "h\0\u{e9}\0\u{e9}x\0\u{e9} name\0",
        "h\0  ab  \0\t\0 \u{a0}M x\u{2003}\0",
        "h\0!! ign\0R  old -> new\0",
    ] {
        let mut fields = output.split('\0').map(str::trim);
        let header = fields.next().unwrap_or("");
        let expected: Vec<RevisionEntry> = fields
            .filter(|field| field.len() >= 2)
            .map(|field| {
                let (code, name) = field.split_at(2);
                entry(name.trim(), git::parse_file_status(code))
            })
            .collect();
        let info = git::parse_status(output);
        assert_eq!(info.header, header, "{:?}", output);
        assert_eq!(info.entries, expected, "{:?}", output);
    }
    assert_eq!(
        git::parse_status("h\0\u{e9}x\0").entries,
        vec![entry("x", FileStatus::Unknown("\u{e9}".to_string()))]
    );
    // Where the second byte is inside a character, the code is the one
    // character before it.
    assert_eq!(
        git::parse_status("h\0M\u{e9}\0").entries,
        vec![entry("\u{e9}", FileStatus::Modified)]
    );
    assert_eq!(
        git::parse_status("h\0日本\0").entries,
        vec![entry("日本", FileStatus::Unknown(String::new()))]
    );
}

#[test]
fn git_parse_log() {
    let output = "* \0abc123\02020-01-02\0Some One\0HEAD -> main, tag: v1\0subject with \0 inside\n\
                  | \n\
                  * \0def456\02019-12-31\0Other\0\0second\n";
    let entries = git::parse_log(output);
    assert_eq!(
        entries,
        vec![
            LogEntry {
                graph: "* ".to_string(),
                hash: "abc123".to_string(),
                date: "2020-01-02".to_string(),
                author: "Some One".to_string(),
                refs: "HEAD -> main, tag: v1".to_string(),
                message: "subject with \0 inside".to_string(),
            },
            LogEntry {
                graph: "| ".to_string(),
                hash: String::new(),
                date: String::new(),
                author: String::new(),
                refs: String::new(),
                message: String::new(),
            },
            LogEntry {
                graph: "* ".to_string(),
                hash: "def456".to_string(),
                date: "2019-12-31".to_string(),
                author: "Other".to_string(),
                refs: String::new(),
                message: "second".to_string(),
            },
        ]
    );
    assert!(git::parse_log("").is_empty());
}

#[test]
fn git_parse_branches() {
    let entries = git::parse_branches("dev \nmain *\nfeature/x \nodd\nstar * x\n");
    assert_eq!(
        entries,
        vec![
            BranchEntry { name: "dev".to_string(), checked_out: false },
            BranchEntry { name: "main".to_string(), checked_out: true },
            BranchEntry { name: "feature/x".to_string(), checked_out: false },
            BranchEntry { name: "odd".to_string(), checked_out: false },
            BranchEntry { name: "star".to_string(), checked_out: false },
        ]
    );
    assert!(git::parse_branches("").is_empty());
}

#[test]
fn git_parse_tags() {
    assert_eq!(
        git::parse_tags("v1\nv2.0\r\nlast"),
        vec![
            TagEntry { name: "v1".to_string() },
            TagEntry { name: "v2.0".to_string() },
            TagEntry { name: "last".to_string() },
        ]
    );
    assert!(git::parse_tags("").is_empty());
}

#[test]
fn git_parse_stash_list() {
    let output = "stash@{0}: WIP on main: 1234567 subject: with colon\n\
                  stash@{1}: On feature/x: my message\n\
                  stash@{12}: On dev\n\
                  no colon here\n\
                  stash@{x}: On dev: no number\n\
                  stash@{1}2: On dev: broken number\n\
                  stash@{99999999999999999999999}: On dev: too big\n\
                  \n\
                  7: main\n";
    assert_eq!(
        git::parse_stash_list(output),
        vec![
            StashEntry { id: 0, branch: "main".to_string(), message: "1234567 subject: with colon".to_string() },
            StashEntry { id: 1, branch: "feature/x".to_string(), message: "my message".to_string() },
            StashEntry { id: 12, branch: "dev".to_string(), message: String::new() },
            StashEntry { id: 7, branch: "main".to_string(), message: String::new() },
        ]
    );
    assert!(git::parse_stash_list("").is_empty());
}

#[test]
fn git_parse_revision_details() {
    let info = git::parse_revision_details("\nsubject\n\nbody\n\n", "M\0src/a.rs\0A\0new file\0D\0gone\0");
    assert_eq!(info.message, "subject\n\nbody");
    assert_eq!(
        info.entries,
        vec![
            entry("src/a.rs", FileStatus::Modified),
            entry("new file", FileStatus::Added),
            entry("gone", FileStatus::Deleted),
        ]
    );
    let info = git::parse_revision_details("m", "");
    assert_eq!(info, RevisionInfo { message: "m".to_string(), entries: vec![] });
    // A code without a name ends the list, and so does an empty code.
    assert_eq!(git::parse_revision_details("", "M").entries, vec![]);
    assert_eq!(git::parse_revision_details("", "M\0a\0\0b\0A\0c").entries, vec![entry("a", FileStatus::Modified)]);
    assert_eq!(
        git::parse_revision_details("", "X\0a\0M\0").entries,
        vec![entry("a", FileStatus::Unknown("X".to_string())), entry("", FileStatus::Modified)]
    );
}

#[test]
fn git_parsers_agree_with_std_splitting() {
    for output in [
        "",
        "* \0abc\02020-01-02\0A B\0HEAD -> main\0subject \0 more\n| \n* \0d\n",
        "a\r\nb c\n\nd\0e\0f\0g\0h\0i\0j",
        "main *\ndev \n x\n*\nfeature/x *\n",
    ] {
        let log: Vec<LogEntry> = output
            .lines()
            .map(|line| {
                let mut splits = line.splitn(6, '\0');
                LogEntry {
                    graph: splits.next().unwrap_or("").into(),
                    hash: splits.next().unwrap_or("").into(),
                    date: splits.next().unwrap_or("").into(),
                    author: splits.next().unwrap_or("").into(),
                    refs: splits.next().unwrap_or("").into(),
                    message: splits.next().unwrap_or("").into(),
                }
            })
            .collect();
        assert_eq!(git::parse_log(output), log, "{:?}", output);
        let branches: Vec<BranchEntry> = output
            .lines()
            .map(|line| {
                let mut splits = line.splitn(2, ' ');
                let name = splits.next().unwrap_or("").into();
                let checked_out = splits.next().unwrap_or("") == "*";
                BranchEntry { name, checked_out }
            })
            .collect();
        assert_eq!(git::parse_branches(output), branches, "{:?}", output);
        let tags: Vec<TagEntry> = output.lines().map(|line| TagEntry { name: line.into() }).collect();
        assert_eq!(git::parse_tags(output), tags, "{:?}", output);
    }
    for output in [
        "",
        "stash@{0}: WIP on main: 1234567 subject\n",
        "stash@{3}: On feature/x: two: colons \nstash@{10}:  dev  \n",
        "x7y: a b c:m\n",
    ] {
        let stashes: Vec<StashEntry> = output
            .lines()
            .map(|line| {
                let mut splits = line.splitn(3, ':');
                let id = splits.next().unwrap().trim_matches(|c: char| !c.is_numeric()).parse::<usize>().unwrap();
                let branch = splits.next().unwrap().split(' ').next_back().unwrap().trim().to_owned();
                let message = splits.next().unwrap_or("").trim().to_owned();
                StashEntry { id, branch, message }
            })
            .collect();
        assert_eq!(git::parse_stash_list(output), stashes, "{:?}", output);
    }
    for (message, changes) in [("", ""), (" m \n", "M\0a\0A\0b c\0"), ("x", "M\0a\0\0b\0"), ("x", "M\0a\0D")] {
        let mut splits = changes.split('\0');
        let mut entries = Vec::new();
        loop {
            let status = match splits.next() {
                Some(status) if !status.is_empty() => git::parse_file_status(status),
                _ => break,
            };
            let name = match splits.next() {
                Some(name) => name.into(),
                None => break,
            };
            entries.push(RevisionEntry::new(name, status));
        }
        assert_eq!(
            git::parse_revision_details(message, changes),
            RevisionInfo { message: message.trim().into(), entries }
        );
    }
}

// process

#[test]
fn process_results() {
    assert_eq!(verco::backend::process_result(true, "out".to_string(), "err"), Ok("out".to_string()));
    assert_eq!(verco::backend::process_result(false, "out".to_string(), "err"), Err("out\nerr".to_string()));
    assert_eq!(verco::backend::process_result(false, String::new(), ""), Err("\n".to_string()));
    assert_eq!(
        verco::backend::spawn_error("git", "No such file or directory"),
        "could not spawn process 'git': No such file or directory"
    );
    assert_eq!(verco::backend::wait_error("interrupted"), "could not wait for process: interrupted");
}

// jobs

/// A backend that answers from a script and notes what it was asked.
struct Scripted {
    fail: Option<&'static str>,
    calls: RefCell<Vec<String>>,
}

impl Scripted {
    fn new(fail: Option<&'static str>) -> Self {
        Scripted { fail, calls: RefCell::new(Vec::new()) }
    }

    fn call<T>(&self, name: &str, detail: String, value: T) -> BackendResult<T> {
        self.calls.borrow_mut().push(format!("{}({})", name, detail));
        if self.fail == Some("*") || self.fail.map_or(false, |f| f == name) {
            Err(format!("{} failed", name))
        } else {
            Ok(value)
        }
    }

    fn calls(&self) -> Vec<String> {
        self.calls.borrow().clone()
    }
}

fn names(entries: &Vec<RevisionEntry>) -> String {
    entries.iter().map(|e| e.name.as_str()).collect::<Vec<_>>().join(",")
}

impl Backend for Scripted {
    fn status(&self) -> BackendResult<StatusInfo> {
        self.call(
            "status",
            String::new(),
            StatusInfo {
                header: "## main".to_string(),
                entries: vec![
                    entry("z", FileStatus::Untracked),
                    entry("a", FileStatus::Added),
                    entry("m", FileStatus::Modified),
                ],
            },
        )
    }

    fn commit(&self, message: &str, entries: &Vec<RevisionEntry>, amend: bool) -> BackendResult<()> {
        self.call("commit", format!("{},{},{}", message, names(entries), amend), ())
    }

    fn discard(&self, entries: &Vec<RevisionEntry>) -> BackendResult<()> {
        self.call("discard", names(entries), ())
    }

    fn diff(&self, revision: Option<&str>, entries: &Vec<RevisionEntry>) -> BackendResult<String> {
        self.call("diff", format!("{:?},{}", revision, names(entries)), "the diff".to_string())
    }

    fn resolve_taking_ours(&self, entries: &Vec<RevisionEntry>) -> BackendResult<()> {
        self.call("resolve_taking_ours", names(entries), ())
    }

    fn resolve_taking_theirs(&self, entries: &Vec<RevisionEntry>) -> BackendResult<()> {
        self.call("resolve_taking_theirs", names(entries), ())
    }

    fn log(&self, skip: usize, len: usize) -> BackendResult<(usize, Vec<LogEntry>)> {
        self.call("log", format!("{},{}", skip, len), (skip, vec![]))
    }

    fn checkout(&self, revision: &str) -> BackendResult<()> {
        self.call("checkout", revision.to_string(), ())
    }

    fn merge(&self, revision: &str) -> BackendResult<()> {
        self.call("merge", revision.to_string(), ())
    }

    fn fetch(&self) -> BackendResult<()> {
        self.call("fetch", String::new(), ())
    }

    fn pull(&self) -> BackendResult<()> {
        self.call("pull", String::new(), ())
    }

    fn push(&self) -> BackendResult<()> {
        self.call("push", String::new(), ())
    }

    fn push_gerrit(&self) -> BackendResult<()> {
        self.call("push_gerrit", String::new(), ())
    }

    fn reset(&self, revision: &str) -> BackendResult<()> {
        self.call("reset", revision.to_string(), ())
    }

    fn revision_details(&self, revision: &str) -> BackendResult<RevisionInfo> {
        self.call(
            "revision_details",
            revision.to_string(),
            RevisionInfo {
                message: "subject".to_string(),
                entries: vec![entry("d", FileStatus::Deleted), entry("m", FileStatus::Modified)],
            },
        )
    }

    fn branches(&self) -> BackendResult<Vec<BranchEntry>> {
        self.call(
            "branches",
            String::new(),
            vec![
                BranchEntry { name: "main".to_string(), checked_out: true },
                BranchEntry { name: "dev".to_string(), checked_out: false },
            ],
        )
    }

    fn new_branch(&self, name: &str) -> BackendResult<()> {
        self.call("new_branch", name.to_string(), ())
    }

    fn delete_branch(&self, name: &str, force: bool) -> BackendResult<()> {
        self.call("delete_branch", format!("{},{}", name, force), ())
    }

    fn tags(&self) -> BackendResult<Vec<TagEntry>> {
        self.call(
            "tags",
            String::new(),
            vec![TagEntry { name: "v2".to_string() }, TagEntry { name: "v1".to_string() }],
        )
    }

    fn new_tag(&self, name: &str) -> BackendResult<()> {
        self.call("new_tag", name.to_string(), ())
    }

    fn delete_tag(&self, name: &str) -> BackendResult<()> {
        self.call("delete_tag", name.to_string(), ())
    }

    fn stash(&self, message: &str, entries: &Vec<RevisionEntry>) -> BackendResult<()> {
        self.call("stash", format!("{},{}", message, names(entries)), ())
    }

    fn stash_list(&self) -> BackendResult<Vec<StashEntry>> {
        self.call(
            "stash_list",
            String::new(),
            vec![StashEntry { id: 0, branch: "main".to_string(), message: "wip".to_string() }],
        )
    }

    fn stash_show(&self, id: usize) -> BackendResult<String> {
        self.call("stash_show", id.to_string(), "summary".to_string())
    }

    fn stash_diff(&self, id: usize) -> BackendResult<String> {
        self.call("stash_diff", id.to_string(), "stash diff".to_string())
    }

    fn stash_pop(&self, id: usize) -> BackendResult<()> {
        self.call("stash_pop", id.to_string(), ())
    }

    fn stash_drop(&self, id: usize) -> BackendResult<()> {
        self.call("stash_drop", id.to_string(), ())
    }
}

fn sorted_status() -> Event {
    Event::Response(ModeResponse::Status(status::Response::Refresh(StatusInfo {
        header: "## main".to_string(),
        entries: vec![
            entry("m", FileStatus::Modified),
            entry("a", FileStatus::Added),
            entry("z", FileStatus::Untracked),
        ],
    })))
}

fn status_error(error: &str) -> Event {
    Event::Response(ModeResponse::Status(status::Response::Refresh(StatusInfo {
        header: error.to_string(),
        entries: vec![],
    })))
}

#[test]
fn job_status_jobs_read_the_status_after_their_operation() {
    let selected = vec![entry("a", FileStatus::Added)];
    for (job, calls) in [
        (Job::StatusRefresh, vec!["status()"]),
        (Job::Discard(selected.clone()), vec!["discard(a)", "status()"]),
        (Job::ResolveTakingOurs(selected.clone()), vec!["resolve_taking_ours(a)", "status()"]),
        (Job::ResolveTakingTheirs(selected.clone()), vec!["resolve_taking_theirs(a)", "status()"]),
        (Job::Stash { message: "wip".to_string(), entries: selected.clone() }, vec!["stash(wip,a)", "status()"]),
    ] {
        let backend = Scripted::new(None);
        assert_eq!(job::run(&backend, job), vec![sorted_status()]);
        assert_eq!(backend.calls(), calls);
    }
}

#[test]
fn job_failed_operation_is_not_followed_by_a_reading() {
    let backend = Scripted::new(Some("discard"));
    assert_eq!(job::run(&backend, Job::Discard(vec![])), vec![status_error("discard failed")]);
    assert_eq!(backend.calls(), vec!["discard()"]);
    let backend = Scripted::new(Some("status"));
    assert_eq!(job::run(&backend, Job::Discard(vec![])), vec![status_error("status failed")]);
    assert_eq!(backend.calls(), vec!["discard()", "status()"]);
    let backend = Scripted::new(Some("new_branch"));
    assert_eq!(
        job::run(&backend, Job::NewBranch("x".to_string())),
        vec![Event::Response(ModeResponse::Branches(branches::Response::Refresh(Err(
            "new_branch failed".to_string()
        ))))]
    );
    assert_eq!(backend.calls(), vec!["new_branch(x)"]);
    let backend = Scripted::new(Some("checkout"));
    assert_eq!(
        job::run(&backend, Job::LogCheckout { revision: "abc".to_string(), skip: 3, len: 9 }),
        vec![Event::Response(ModeResponse::Log(log::Response::Refresh(Err("checkout failed".to_string()))))]
    );
    assert_eq!(backend.calls(), vec!["checkout(abc)"]);
}

#[test]
fn job_commit() {
    let backend = Scripted::new(None);
    let job = Job::Commit { message: "fix".to_string(), entries: vec![entry("a", FileStatus::Added)], amend: false };
    assert_eq!(
        job::run(&backend, job),
        vec![Event::Response(ModeResponse::Status(status::Response::Idle)), to_log(ModeKind::Status)]
    );
    assert_eq!(backend.calls(), vec!["commit(fix,a,false)"]);
    let backend = Scripted::new(Some("commit"));
    let job = Job::Commit { message: String::new(), entries: vec![], amend: true };
    assert_eq!(job::run(&backend, job), vec![status_error("commit failed")]);
    assert_eq!(backend.calls(), vec!["commit(,,true)"]);
}

#[test]
fn job_diffs() {
    let backend = Scripted::new(None);
    let shown = |text: &str| Event::Response(ModeResponse::Diff(diff::Response::Refresh(text.to_string())));
    assert_eq!(job::run(&backend, Job::Diff { revision: None, entries: vec![] }), vec![shown("the diff")]);
    assert_eq!(
        job::run(
            &backend,
            Job::Diff { revision: Some("abc".to_string()), entries: vec![entry("a", FileStatus::Added)] }
        ),
        vec![shown("the diff")]
    );
    assert_eq!(job::run(&backend, Job::StashDiff(2)), vec![shown("stash diff")]);
    assert_eq!(backend.calls(), vec!["diff(None,)", "diff(Some(\"abc\"),a)", "stash_diff(2)"]);
    let backend = Scripted::new(Some("*"));
    assert_eq!(job::run(&backend, Job::Diff { revision: None, entries: vec![] }), vec![shown("diff failed")]);
    assert_eq!(job::run(&backend, Job::StashDiff(2)), vec![shown("stash_diff failed")]);
}

#[test]
fn job_log() {
    let backend = Scripted::new(None);
    let page = |skip| Event::Response(ModeResponse::Log(log::Response::Refresh(Ok((skip, vec![])))));
    assert_eq!(job::run(&backend, Job::LogRefresh { skip: 5, len: 10 }), vec![page(5)]);
    assert_eq!(
        job::run(&backend, Job::LogCheckout { revision: "abc".to_string(), skip: 0, len: 7 }),
        vec![page(0)]
    );
    assert_eq!(backend.calls(), vec!["log(5,10)", "checkout(abc)", "log(0,7)"]);
}

#[test]
fn job_revision_details() {
    let backend = Scripted::new(None);
    assert_eq!(
        job::run(&backend, Job::RevisionDetails("abc".to_string())),
        vec![Event::Response(ModeResponse::RevisionDetails(revision_details::Response::Info(RevisionInfo {
            message: "subject".to_string(),
            entries: vec![entry("m", FileStatus::Modified), entry("d", FileStatus::Deleted)],
        })))]
    );
    let backend = Scripted::new(Some("*"));
    assert_eq!(
        job::run(&backend, Job::RevisionDetails("abc".to_string())),
        vec![Event::Response(ModeResponse::RevisionDetails(revision_details::Response::Info(RevisionInfo {
            message: "revision_details failed".to_string(),
            entries: vec![],
        })))]
    );
}

#[test]
fn job_branches() {
    let sorted = Event::Response(ModeResponse::Branches(branches::Response::Refresh(Ok(vec![
        BranchEntry { name: "dev".to_string(), checked_out: false },
        BranchEntry { name: "main".to_string(), checked_out: true },
    ]))));
    let failed = |what: &str| {
        Event::Response(ModeResponse::Branches(branches::Response::Refresh(Err(format!("{} failed", what)))))
    };
    let backend = Scripted::new(None);
    assert_eq!(job::run(&backend, Job::BranchesRefresh), vec![sorted]);
    job::run(&backend, Job::NewBranch("topic".to_string()));
    job::run(&backend, Job::DeleteBranch { name: "old".to_string(), force: true });
    assert_eq!(
        job::run(&backend, Job::CheckoutBranch { name: "dev".to_string(), entry_index: 4 }),
        vec![
            Event::Response(ModeResponse::Branches(branches::Response::Checkout(4))),
            to_log(ModeKind::Branches),
        ]
    );
    assert_eq!(
        job::run(&backend, Job::MergeBranch("dev".to_string())),
        vec![Event::Response(ModeResponse::Branches(branches::Response::Merge)), to_log(ModeKind::Branches)]
    );
    assert_eq!(
        backend.calls(),
        vec![
            "branches()",
            "new_branch(topic)",
            "branches()",
            "delete_branch(old,true)",
            "branches()",
            "checkout(dev)",
            "merge(dev)",
        ]
    );
    let backend = Scripted::new(Some("*"));
    assert_eq!(
        job::run(&backend, Job::CheckoutBranch { name: "dev".to_string(), entry_index: 4 }),
        vec![failed("checkout")]
    );
    assert_eq!(
        job::run(&backend, Job::MergeBranch("dev".to_string())),
        vec![to_log(ModeKind::Branches), failed("merge")]
    );
}

#[test]
fn job_tags() {
    let sorted = Event::Response(ModeResponse::Tags(tags::Response::Refresh(Ok(vec![
        TagEntry { name: "v1".to_string() },
        TagEntry { name: "v2".to_string() },
    ]))));
    let backend = Scripted::new(None);
    assert_eq!(job::run(&backend, Job::TagsRefresh), vec![sorted]);
    job::run(&backend, Job::NewTag("v3".to_string()));
    job::run(&backend, Job::DeleteTag("v0".to_string()));
    assert_eq!(
        job::run(&backend, Job::CheckoutTag("v1".to_string())),
        vec![Event::Response(ModeResponse::Tags(tags::Response::Checkout)), to_log(ModeKind::Tags)]
    );
    assert_eq!(
        backend.calls(),
        vec!["tags()", "new_tag(v3)", "tags()", "delete_tag(v0)", "tags()", "checkout(v1)"]
    );
    let backend = Scripted::new(Some("*"));
    assert_eq!(
        job::run(&backend, Job::CheckoutTag("v1".to_string())),
        vec![Event::Response(ModeResponse::Tags(tags::Response::Refresh(Err("checkout failed".to_string()))))]
    );
}

#[test]
fn job_stashes() {
    let list = Event::Response(ModeResponse::Stash(stash::Response::Refresh(Ok(vec![StashEntry {
        id: 0,
        branch: "main".to_string(),
        message: "wip".to_string(),
    }]))));
    let backend = Scripted::new(None);
    assert_eq!(job::run(&backend, Job::StashRefresh), vec![list]);
    job::run(&backend, Job::StashDrop(1));
    assert_eq!(
        job::run(&backend, Job::StashPop(2)),
        vec![Event::ModeChange(ModeKind::Status, ModeChangeInfo::new(ModeKind::Stash))]
    );
    assert_eq!(
        job::run(&backend, Job::StashShow(3)),
        vec![Event::Response(ModeResponse::StashDetails(stash_details::Response::Refresh(Ok(
            "summary".to_string()
        ))))]
    );
    assert_eq!(
        backend.calls(),
        vec!["stash_list()", "stash_drop(1)", "stash_list()", "stash_pop(2)", "stash_show(3)"]
    );
    let backend = Scripted::new(Some("*"));
    assert_eq!(
        job::run(&backend, Job::StashPop(2)),
        vec![Event::Response(ModeResponse::Stash(stash::Response::Refresh(Err("stash_pop failed".to_string()))))]
    );
    assert_eq!(
        job::run(&backend, Job::StashShow(3)),
        vec![Event::Response(ModeResponse::StashDetails(stash_details::Response::Refresh(Err(
            "stash_show failed".to_string()
        ))))]
    );
}

#[test]
fn job_answers_for_given_results() {
    assert_eq!(job::status_refreshed(Err("e".to_string())), status_error("e"));
    assert_eq!(
        job::commit_done(Ok(())),
        vec![Event::Response(ModeResponse::Status(status::Response::Idle)), to_log(ModeKind::Status)]
    );
    assert_eq!(job::commit_done(Err("e".to_string())), vec![status_error("e")]);
    assert_eq!(
        job::diff_done(Err("e".to_string())),
        Event::Response(ModeResponse::Diff(diff::Response::Refresh("e".to_string())))
    );
    assert_eq!(
        job::branches_refreshed(Err("e".to_string())),
        Event::Response(ModeResponse::Branches(branches::Response::Refresh(Err("e".to_string()))))
    );
    assert_eq!(
        job::tags_refreshed(Ok(vec![])),
        Event::Response(ModeResponse::Tags(tags::Response::Refresh(Ok(vec![]))))
    );
    assert_eq!(
        job::branch_checked_out(Ok(()), 2),
        vec![Event::Response(ModeResponse::Branches(branches::Response::Checkout(2))), to_log(ModeKind::Branches)]
    );
    assert_eq!(
        job::stash_popped(Err("e".to_string())),
        vec![Event::Response(ModeResponse::Stash(stash::Response::Refresh(Err("e".to_string()))))]
    );
}

#[test]
fn trim_range_gives_the_bounds_between_the_set_flags() {
    let blank = vec![true, true, false, true, false, true];
    assert_eq!(text::trim_range(&blank, 0, 6), (2, 5));
    assert_eq!(text::trim_range(&blank, 2, 5), (2, 5));
    assert_eq!(text::trim_range(&blank, 3, 6), (4, 5));
    assert_eq!(text::trim_range(&blank, 1, 4), (2, 3));
}

#[test]
fn trim_range_of_set_flags_alone_is_empty_at_the_end() {
    let blank = vec![false, true, true, true];
    assert_eq!(text::trim_range(&blank, 1, 4), (4, 4));
    assert_eq!(text::trim_range(&blank, 1, 3), (3, 3));
    assert_eq!(text::trim_range(&blank, 2, 2), (2, 2));
    assert_eq!(text::trim_range(&Vec::new(), 0, 0), (0, 0));
}

#[test]
fn trim_range_without_set_flags_keeps_the_range() {
    let blank = vec![false, false, false];
    assert_eq!(text::trim_range(&blank, 0, 3), (0, 3));
    assert_eq!(text::trim_range(&blank, 1, 2), (1, 2));
}

#[test]
fn blanks_marks_the_whitespace() {
    let chars: Vec<char> = " a\t\u{3000}b\n".chars().collect();
    assert_eq!(text::blanks(&chars), vec![true, false, true, true, false, true]);
    assert_eq!(text::blanks(&Vec::new()), Vec::<bool>::new());
}
