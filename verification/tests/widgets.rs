use verco::backend::TagEntry;
use verco::platform::{Key, PlatformEvent, ProcessHandle, ProcessTag, ProcessTask};
use verco::widget::filter::Filter;
use verco::widget::fuzzy::fuzzy_matches;
use verco::widget::output::Output;
use verco::widget::readline::{classes, last_run_start, word_boundary, CharClass, ReadLine};
use verco::widget::select_menu::{SelectMenu, SelectMenuAction};

fn tags(names: &[&str]) -> Vec<TagEntry> {
    names.iter().map(|name| TagEntry { name: name.to_string() }).collect()
}

fn typed(text: &str) -> ReadLine {
    let mut line = ReadLine::new();
    for c in text.chars() {
        line.on_key(Key::Char(c));
    }
    line
}

fn filter_with(pattern: &str) -> Filter {
    let mut filter = Filter::new();
    filter.enter();
    for c in pattern.chars() {
        filter.on_key(Key::Char(c));
    }
    filter
}

// fuzzy match

#[test]
fn empty_pattern_matches_every_text() {
    for text in ["", "a", "Cargo.toml", "  ", "日本語", "a\nb"] {
        assert!(fuzzy_matches(text, ""), "{:?}", text);
    }
}

#[test]
fn fuzzy_match_ignores_ascii_case() {
    assert!(fuzzy_matches("ABC", "abc"));
    assert!(fuzzy_matches("abc", "ABC"));
    assert!(fuzzy_matches("Readme.md", "README"));
}

#[test]
fn fuzzy_match_rejects_alphanumerics_that_are_not_adjacent() {
    assert!(!fuzzy_matches("aXbXc", "abc"));
    assert!(!fuzzy_matches("axb", "ab"));
}

#[test]
fn fuzzy_match_takes_the_first_find_only() {
    // The scan takes the first `a` and then wants `b` right behind it.
    assert!(!fuzzy_matches("aab", "ab"));
    assert!(fuzzy_matches("ab", "ab"));
}

#[test]
fn fuzzy_match_run_boundary_resets_adjacency() {
    assert!(fuzzy_matches("Cargo.toml", "cto"));
    assert!(fuzzy_matches("a.b", "ab"));
    assert!(fuzzy_matches("axb.b", "ab"));
    assert!(fuzzy_matches("src/main.rs", "smr"));
    assert!(!fuzzy_matches("src/main.rs", "sm1"));
}

#[test]
fn fuzzy_match_with_characters_that_are_not_alphanumeric() {
    assert!(fuzzy_matches("src/main.rs", "s/m"));
    assert!(fuzzy_matches("a-b-c", "--"));
    assert!(!fuzzy_matches("a-b", "--"));
}

#[test]
fn fuzzy_match_needs_the_whole_pattern() {
    assert!(!fuzzy_matches("", "a"));
    assert!(!fuzzy_matches("ab", "abc"));
    assert!(!fuzzy_matches("Readme.md", "cto"));
    assert!(!fuzzy_matches("src/main.rs", "cto"));
}

#[test]
fn fuzzy_match_compares_other_characters_exactly() {
    assert!(fuzzy_matches("é", "é"));
    assert!(!fuzzy_matches("É", "é"));
}

// filter

#[test]
fn empty_pattern_matches_all() {
    let entries = tags(&["alpha", "beta", "gamma"]);
    let mut filter = Filter::new();
    filter.filter(&entries);
    assert_eq!(filter.visible_indices(), &[0, 1, 2]);
}

#[test]
fn case_insensitive_subsequence() {
    let entries = tags(&["Readme.md", "src/main.rs", "Cargo.toml"]);
    let mut filter = filter_with("cto");
    filter.filter(&entries);
    assert_eq!(filter.as_str(), "cto");
    assert_eq!(filter.visible_indices(), &[2]);
}

#[test]
fn filter_lists_exactly_the_matches_in_ascending_order() {
    let entries = tags(&["main", "feature/login", "fix/main-crash", "release", "Maintenance"]);
    let mut filter = filter_with("main");
    filter.filter(&entries);
    let visible = filter.visible_indices().to_vec();
    assert_eq!(visible, vec![0, 2, 4]);
    for pair in visible.windows(2) {
        assert!(pair[0] < pair[1]);
    }
    for (i, entry) in entries.iter().enumerate() {
        assert_eq!(visible.contains(&i), fuzzy_matches(&entry.name, "main"));
    }
}

#[test]
fn filter_of_no_entries_lists_nothing() {
    let entries = tags(&[]);
    let mut filter = filter_with("x");
    filter.filter(&entries);
    assert!(filter.visible_indices().is_empty());
}

#[test]
fn filter_enter_then_cancel_is_the_start_state() {
    let mut filter = Filter::new();
    assert!(!filter.has_focus());
    assert!(!filter.is_filtering());
    filter.enter();
    assert!(filter.has_focus());
    assert!(filter.is_filtering());
    filter.on_key(Key::Esc);
    assert!(!filter.has_focus());
    assert_eq!(filter.as_str(), "");
    assert!(!filter.is_filtering());
}

#[test]
fn filter_cancel_clears_a_typed_pattern() {
    let mut filter = filter_with("abc");
    filter.on_key(Key::Esc);
    assert!(!filter.has_focus());
    assert_eq!(filter.as_str(), "");
}

#[test]
fn filter_submit_keeps_the_pattern() {
    let mut filter = filter_with("abc");
    filter.on_key(Key::Enter);
    assert!(!filter.has_focus());
    assert_eq!(filter.as_str(), "abc");
    assert!(filter.is_filtering());

    let mut filter = filter_with("xy");
    filter.on_key(Key::Ctrl('f'));
    assert!(!filter.has_focus());
    assert_eq!(filter.as_str(), "xy");
}

#[test]
fn filter_enter_starts_from_an_empty_pattern() {
    let mut filter = filter_with("abc");
    filter.on_key(Key::Enter);
    filter.enter();
    assert!(filter.has_focus());
    assert_eq!(filter.as_str(), "");
}

#[test]
fn filter_forwards_editing_keys() {
    let mut filter = filter_with("foo bar");
    filter.on_key(Key::Backspace);
    assert_eq!(filter.as_str(), "foo ba");
    filter.on_key(Key::Ctrl('w'));
    assert_eq!(filter.as_str(), "foo ");
    filter.on_key(Key::Ctrl('u'));
    assert_eq!(filter.as_str(), "");
    assert!(filter.has_focus());
}

#[test]
fn filter_clear_forgets_everything() {
    let entries = tags(&["a", "b"]);
    let mut filter = filter_with("a");
    filter.filter(&entries);
    filter.clear();
    assert!(!filter.has_focus());
    assert_eq!(filter.as_str(), "");
    assert!(filter.visible_indices().is_empty());
}

#[test]
fn filter_on_remove_entry_shifts_and_drops() {
    let entries = tags(&["a", "b", "c", "d"]);
    let mut filter = Filter::new();
    filter.filter(&entries);
    filter.on_remove_entry(1);
    assert_eq!(filter.visible_indices(), &[0, 1, 2]);

    let entries = tags(&["x0", "y", "x2", "y", "y", "x5"]);
    let mut filter = filter_with("x");
    filter.filter(&entries);
    assert_eq!(filter.visible_indices(), &[0, 2, 5]);
    filter.on_remove_entry(2);
    assert_eq!(filter.visible_indices(), &[0, 4]);
    filter.on_remove_entry(1);
    assert_eq!(filter.visible_indices(), &[0, 3]);
    filter.on_remove_entry(0);
    assert_eq!(filter.visible_indices(), &[2]);
    filter.on_remove_entry(7);
    assert_eq!(filter.visible_indices(), &[2]);
}

#[test]
fn filter_lookups() {
    let entries = tags(&["x0", "y", "x2", "y", "y", "x5"]);
    let mut filter = filter_with("x");
    filter.filter(&entries);
    assert_eq!(filter.get_visible_index(0), Some(0));
    assert_eq!(filter.get_visible_index(2), Some(5));
    assert_eq!(filter.get_visible_index(3), None);
    assert_eq!(filter.position_of(2), Some(1));
    assert_eq!(filter.position_of(3), None);
    assert_eq!(filter.rows_before(0), 0);
    assert_eq!(filter.rows_before(2), 1);
    assert_eq!(filter.rows_before(3), 2);
    assert_eq!(filter.rows_before(9), 3);
}

// select menu

#[test]
fn select_menu_moves_with_every_key_of_its_policy() {
    let n = 20;
    let h = 10;
    let mut menu = SelectMenu::new();
    for key in [Key::Down, Key::Ctrl('n'), Key::Char('j')] {
        let before = menu.cursor;
        menu.on_key(n, h, key);
        assert_eq!(menu.cursor, before + 1);
    }
    for key in [Key::Up, Key::Ctrl('p'), Key::Char('k')] {
        let before = menu.cursor;
        menu.on_key(n, h, key);
        assert_eq!(menu.cursor, before - 1);
    }
    for key in [Key::End, Key::Ctrl('e')] {
        menu.cursor = 3;
        menu.on_key(n, h, key);
        assert_eq!(menu.cursor, 19);
    }
    for key in [Key::Home, Key::Ctrl('h')] {
        menu.cursor = 3;
        menu.on_key(n, h, key);
        assert_eq!(menu.cursor, 0);
    }
    for key in [Key::PageDown, Key::Ctrl('d')] {
        menu.cursor = 3;
        menu.on_key(n, h, key);
        assert_eq!(menu.cursor, 8);
    }
    for key in [Key::PageUp, Key::Ctrl('u')] {
        menu.cursor = 7;
        menu.on_key(n, h, key);
        assert_eq!(menu.cursor, 2);
    }
    for key in [Key::Left, Key::Tab, Key::Char('x'), Key::Null, Key::F(1), Key::Alt('j')] {
        menu.cursor = 7;
        assert_eq!(menu.on_key(n, h, key), SelectMenuAction::Nothing);
        assert_eq!(menu.cursor, 7);
    }
}

#[test]
fn select_menu_keeps_the_cursor_on_the_list() {
    let mut menu = SelectMenu::new();
    menu.on_key(3, 10, Key::Up);
    assert_eq!(menu.cursor, 0);
    menu.on_key(3, 10, Key::PageUp);
    assert_eq!(menu.cursor, 0);
    menu.on_key(3, 10, Key::Down);
    menu.on_key(3, 10, Key::Down);
    menu.on_key(3, 10, Key::Down);
    assert_eq!(menu.cursor, 2);
    menu.on_key(3, 10, Key::PageDown);
    assert_eq!(menu.cursor, 2);
    menu.on_key(0, 10, Key::Down);
    assert_eq!(menu.cursor, 0);
    menu.on_key(0, 10, Key::End);
    assert_eq!(menu.cursor, 0);
}

#[test]
fn select_menu_invariants_hold_after_any_key() {
    let keys = [
        Key::Down,
        Key::Up,
        Key::Home,
        Key::End,
        Key::PageDown,
        Key::PageUp,
        Key::Char(' '),
        Key::Char('a'),
        Key::Enter,
    ];
    for n in [0usize, 1, 2, 5, 30] {
        for h in [1usize, 2, 3, 10] {
            let mut menu = SelectMenu::new();
            for round in 0..3 {
                for key in keys {
                    for _ in 0..=round {
                        menu.on_key(n, h, key);
                        assert!(menu.cursor <= n.saturating_sub(1));
                        assert!(menu.scroll <= menu.cursor);
                        assert!(menu.cursor < menu.scroll + h);
                    }
                }
            }
        }
    }
}

#[test]
fn select_menu_slides_the_window_after_the_cursor() {
    let mut menu = SelectMenu { cursor: 4, scroll: 0 };
    menu.on_key(20, 5, Key::Down);
    assert_eq!((menu.cursor, menu.scroll), (5, 1));
    menu.on_key(20, 5, Key::End);
    assert_eq!((menu.cursor, menu.scroll), (19, 15));
    menu.on_key(20, 5, Key::Up);
    assert_eq!((menu.cursor, menu.scroll), (18, 15));
    menu.on_key(20, 5, Key::Home);
    assert_eq!((menu.cursor, menu.scroll), (0, 0));
    let mut menu = SelectMenu { cursor: 3, scroll: 9 };
    menu.on_key(20, 5, Key::Null);
    assert_eq!((menu.cursor, menu.scroll), (3, 3));
}

#[test]
fn select_menu_down_then_up_is_a_no_op_away_from_the_boundaries() {
    for (cursor, scroll) in [(0usize, 0usize), (3, 2), (5, 5), (7, 4)] {
        let mut menu = SelectMenu { cursor, scroll };
        menu.on_key(20, 5, Key::Down);
        menu.on_key(20, 5, Key::Up);
        assert_eq!((menu.cursor, menu.scroll), (cursor, scroll));
    }
    // At the bottom row of the window the window follows and stays.
    let mut menu = SelectMenu { cursor: 2, scroll: 0 };
    menu.on_key(10, 3, Key::Down);
    menu.on_key(10, 3, Key::Up);
    assert_eq!((menu.cursor, menu.scroll), (2, 1));
    // At the end of the list the cursor does not come back.
    let mut menu = SelectMenu { cursor: 9, scroll: 7 };
    menu.on_key(10, 3, Key::Down);
    menu.on_key(10, 3, Key::Up);
    assert_eq!(menu.cursor, 8);
}

#[test]
fn select_menu_actions() {
    let mut menu = SelectMenu { cursor: 2, scroll: 0 };
    assert_eq!(menu.on_key(5, 10, Key::Char(' ')), SelectMenuAction::Toggle(2));
    assert_eq!(menu.on_key(5, 10, Key::Char('a')), SelectMenuAction::ToggleAll);
    assert_eq!(menu.on_key(5, 10, Key::Down), SelectMenuAction::Nothing);
    assert_eq!(menu.on_key(5, 10, Key::Ctrl(' ')), SelectMenuAction::Nothing);
    let mut menu = SelectMenu::new();
    assert_eq!(menu.on_key(0, 10, Key::Char(' ')), SelectMenuAction::Nothing);
    assert_eq!(menu.on_key(0, 10, Key::Char('a')), SelectMenuAction::ToggleAll);
    let mut menu = SelectMenu { cursor: 9, scroll: 0 };
    assert_eq!(menu.on_key(3, 10, Key::Char(' ')), SelectMenuAction::Toggle(2));
}

#[test]
fn select_menu_on_remove_entry() {
    let mut menu = SelectMenu { cursor: 3, scroll: 1 };
    menu.on_remove_entry(4);
    assert_eq!(menu.cursor, 3);
    menu.on_remove_entry(3);
    assert_eq!(menu.cursor, 2);
    menu.on_remove_entry(0);
    assert_eq!(menu.cursor, 1);
    menu.on_remove_entry(0);
    assert_eq!(menu.cursor, 0);
    menu.on_remove_entry(0);
    assert_eq!(menu.cursor, 0);
    assert_eq!(menu.scroll, 1);
}

#[test]
fn select_menu_saturate_cursor() {
    let mut menu = SelectMenu { cursor: 7, scroll: 2 };
    menu.saturate_cursor(10);
    assert_eq!(menu.cursor, 7);
    menu.saturate_cursor(5);
    assert_eq!(menu.cursor, 4);
    menu.saturate_cursor(0);
    assert_eq!(menu.cursor, 0);
    assert_eq!(menu.scroll, 2);
}

#[test]
fn select_menu_does_not_overflow() {
    let mut menu = SelectMenu { cursor: usize::MAX, scroll: usize::MAX };
    menu.on_key(usize::MAX, usize::MAX, Key::Down);
    assert_eq!(menu.cursor, usize::MAX - 1);
    let mut menu = SelectMenu { cursor: usize::MAX, scroll: 0 };
    menu.on_key(usize::MAX, usize::MAX, Key::PageDown);
    assert_eq!(menu.cursor, usize::MAX - 1);
    let mut menu = SelectMenu { cursor: 3, scroll: usize::MAX };
    menu.on_key(10, usize::MAX, Key::Down);
    assert_eq!((menu.cursor, menu.scroll), (4, 4));
    let mut menu = SelectMenu { cursor: 0, scroll: 0 };
    menu.on_key(10, 0, Key::Down);
    assert_eq!((menu.cursor, menu.scroll), (1, 2));
}

#[test]
fn select_menu_default_is_the_top() {
    let menu = SelectMenu::default();
    assert_eq!((menu.cursor(), menu.scroll()), (0, 0));
}

// output

#[test]
fn output_counts_the_segments_that_end_in_a_line_feed() {
    for (text, count) in [
        ("", 0usize),
        ("a", 0),
        ("a\n", 1),
        ("a\nb", 1),
        ("a\nb\n", 2),
        ("\n", 1),
        ("\n\n", 2),
        ("a\n\nb", 2),
        ("a\r\nb\r\n", 2),
        ("\r", 0),
        ("é\n日本\n語", 2),
    ] {
        assert_eq!(Output::new(text.to_string()).line_count(), count, "{:?}", text);
        assert_eq!(text.matches('\n').count(), count, "{:?}", text);
    }
}

#[test]
fn output_hands_out_what_follows_the_last_line_feed() {
    let mut output = Output::new("a\nb".to_string());
    assert_eq!(output.line_count(), 1);
    assert_eq!(output.lines_from_scroll(), vec!["a", "b"]);
    // The limit on the offset goes by the line count.
    output.on_key(0, Key::End);
    assert_eq!(output.scroll(), 1);
    assert_eq!(output.lines_from_scroll(), vec!["b"]);
    output.on_key(0, Key::Down);
    assert_eq!(output.scroll(), 1);
    output.on_key(1, Key::Null);
    assert_eq!(output.scroll(), 0);
    let mut output = Output::new("only".to_string());
    assert_eq!(output.line_count(), 0);
    output.on_key(0, Key::End);
    assert_eq!(output.scroll(), 0);
    assert_eq!(output.lines_from_scroll(), vec!["only"]);
}

#[test]
fn output_lines_are_those_of_str_lines() {
    for text in ["", "a", "a\nb\n", "a\r\nb", "a\rb\n", "x\n\n\ny", "\r\n", "tail\r", "é\n日本\n"] {
        let output = Output::new(text.to_string());
        let expected: Vec<String> = text.lines().map(|line| line.to_string()).collect();
        assert_eq!(output.lines_from_scroll(), expected, "{:?}", text);
    }
}

#[test]
fn output_set_replaces_the_text_and_resets_the_scroll() {
    let mut output = Output::new("1\n2\n3\n4\n5\n".to_string());
    output.on_key(2, Key::End);
    assert_eq!(output.scroll(), 3);
    output.set("a\nb\n".to_string());
    assert_eq!(output.text(), "a\nb\n");
    assert_eq!(output.line_count(), 2);
    assert_eq!(output.scroll(), 0);
}

#[test]
fn output_default_is_empty() {
    let output = Output::default();
    assert_eq!(output.text(), "");
    assert_eq!(output.line_count(), 0);
    assert_eq!(output.scroll(), 0);
}

#[test]
fn output_scrolls_with_every_key_of_its_policy() {
    let text: String = (0..100).map(|i| format!("{}\n", i)).collect();
    let mut output = Output::new(text);
    let h = 10;
    for key in [Key::Down, Key::Char('j')] {
        let before = output.scroll();
        output.on_key(h, key);
        assert_eq!(output.scroll(), before + 1);
    }
    for key in [Key::Up, Key::Char('k')] {
        let before = output.scroll();
        output.on_key(h, key);
        assert_eq!(output.scroll(), before - 1);
    }
    for key in [Key::PageDown, Key::Ctrl('d')] {
        let before = output.scroll();
        output.on_key(h, key);
        assert_eq!(output.scroll(), before + 5);
    }
    for key in [Key::PageUp, Key::Ctrl('u')] {
        let before = output.scroll();
        output.on_key(h, key);
        assert_eq!(output.scroll(), before - 5);
    }
    for key in [Key::End, Key::Ctrl('e')] {
        output.on_key(h, Key::Home);
        output.on_key(h, key);
        assert_eq!(output.scroll(), 90);
    }
    for key in [Key::Home, Key::Ctrl('h')] {
        output.on_key(h, Key::End);
        output.on_key(h, key);
        assert_eq!(output.scroll(), 0);
    }
    output.on_key(h, Key::Down);
    for key in [Key::Ctrl('n'), Key::Ctrl('p'), Key::Enter, Key::Char(' '), Key::Left] {
        output.on_key(h, key);
        assert_eq!(output.scroll(), 1);
    }
}

#[test]
fn output_scroll_stays_under_the_limit() {
    let mut output = Output::new("1\n2\n3\n4\n5\n".to_string());
    for _ in 0..10 {
        output.on_key(3, Key::Down);
        assert!(output.scroll() <= 2);
    }
    assert_eq!(output.scroll(), 2);
    output.on_key(3, Key::PageDown);
    assert_eq!(output.scroll(), 2);
    output.on_key(3, Key::Up);
    output.on_key(3, Key::Up);
    output.on_key(3, Key::Up);
    assert_eq!(output.scroll(), 0);
    output.on_key(3, Key::PageUp);
    assert_eq!(output.scroll(), 0);
    // A taller screen pulls the offset back.
    output.on_key(3, Key::End);
    assert_eq!(output.scroll(), 2);
    output.on_key(4, Key::Null);
    assert_eq!(output.scroll(), 1);
}

#[test]
fn output_end_clamps_to_zero_when_everything_fits() {
    let mut output = Output::new("one\ntwo\n".to_string());
    output.on_key(10, Key::End);
    assert_eq!(output.scroll(), 0);
    output.on_key(2, Key::End);
    assert_eq!(output.scroll(), 0);
    let mut output = Output::new(String::new());
    output.on_key(0, Key::End);
    assert_eq!(output.scroll(), 0);
    let mut output = Output::new("one\ntwo\n".to_string());
    output.on_key(0, Key::End);
    assert_eq!(output.scroll(), 2);
}

#[test]
fn output_lines_from_scroll_start_at_the_offset() {
    let mut output = Output::new("1\n2\n3\n4\n5\n".to_string());
    output.on_key(2, Key::Down);
    output.on_key(2, Key::Down);
    assert_eq!(output.lines_from_scroll(), vec!["3", "4", "5"]);
    output.on_key(0, Key::End);
    assert_eq!(output.scroll(), 5);
    assert!(output.lines_from_scroll().is_empty());
}

// read line

#[test]
fn readline_appends_characters() {
    let line = typed("héllo 日本");
    assert_eq!(line.input(), "héllo 日本");
}

#[test]
fn readline_backspace_removes_one_scalar() {
    let mut line = typed("aé日");
    line.on_key(Key::Backspace);
    assert_eq!(line.input(), "aé");
    line.on_key(Key::Backspace);
    assert_eq!(line.input(), "a");
    line.on_key(Key::Backspace);
    assert_eq!(line.input(), "");
    line.on_key(Key::Backspace);
    assert_eq!(line.input(), "");
}

#[test]
fn readline_home_and_ctrl_u_clear() {
    for key in [Key::Home, Key::Ctrl('u')] {
        let mut line = typed("some text");
        line.on_key(key);
        assert_eq!(line.input(), "");
    }
    let mut line = typed("x");
    line.clear();
    assert_eq!(line.input(), "");
}

#[test]
fn readline_clear_then_type_equals_typing_on_an_empty_line() {
    for chars in ["", "a", "fix: the thing", "日本語 ok"] {
        let mut line = typed("whatever was here");
        line.on_key(Key::Ctrl('u'));
        for c in chars.chars() {
            line.on_key(Key::Char(c));
        }
        assert_eq!(line.input(), typed(chars).input());
        assert_eq!(line.input(), chars);
    }
}

#[test]
fn readline_delete_word() {
    for (before, after) in [
        ("", ""),
        ("hello", ""),
        ("hello world", "hello "),
        ("hello ", "hello"),
        ("hello   \t", "hello"),
        ("foo.bar", "foo."),
        ("foo.bar!!", "foo.bar"),
        ("foo_bar baz_qux9", "foo_bar "),
        ("a  ...", "a  "),
        ("...", ""),
        ("   ", ""),
        ("héllo wörld", "héllo "),
        ("日本語", ""),
        ("x 日本語", "x "),
        ("tab\u{a0}", "tab"),
    ] {
        let mut line = typed(before);
        line.on_key(Key::Ctrl('w'));
        assert_eq!(line.input(), after, "{:?}", before);
    }
}

#[test]
fn readline_ignores_other_keys() {
    let mut line = typed("abc");
    for key in [
        Key::Null,
        Key::Enter,
        Key::Left,
        Key::Right,
        Key::Up,
        Key::Down,
        Key::End,
        Key::PageUp,
        Key::PageDown,
        Key::Tab,
        Key::Delete,
        Key::F(5),
        Key::Ctrl('a'),
        Key::Alt('x'),
        Key::Esc,
    ] {
        line.on_key(key);
        assert_eq!(line.input(), "abc");
    }
}

// processes

#[test]
fn process_task_starts_and_ends_empty() {
    let mut task = ProcessTask::new();
    assert_eq!(task, ProcessTask { handle: None, buf: vec![] });
    task.handle = Some(ProcessHandle(7));
    task.buf.extend_from_slice(b"output");
    task.dispose();
    assert_eq!(task.handle, None);
    assert!(task.buf.is_empty());
    task.dispose();
    assert_eq!(task, ProcessTask::new());
}

#[test]
fn platform_events_carry_their_values() {
    let spawned = PlatformEvent::ProcessSpawned { tag: ProcessTag::Null, handle: ProcessHandle(3) };
    assert_eq!(spawned.clone(), spawned);
    assert_ne!(spawned, PlatformEvent::ProcessExit { tag: ProcessTag::Null });
    assert_ne!(PlatformEvent::Key(Key::Esc), PlatformEvent::Resize(1, 2));
    assert_eq!(
        PlatformEvent::ProcessOutput { tag: ProcessTag::Null, buf: vec![1, 2] },
        PlatformEvent::ProcessOutput { tag: ProcessTag::Null, buf: vec![1, 2] }
    );
    assert_eq!(ProcessHandle(3).0, 3);
}

// the widgets against their rules written out with std

fn every_key() -> Vec<Key> {
    let mut keys = vec![
        Key::Null,
        Key::Backspace,
        Key::Enter,
        Key::Left,
        Key::Right,
        Key::Up,
        Key::Down,
        Key::Home,
        Key::End,
        Key::PageUp,
        Key::PageDown,
        Key::Tab,
        Key::Delete,
        Key::F(1),
        Key::Esc,
    ];
    for c in ['j', 'k', 'a', ' ', 'n', 'p', 'h', 'e', 'd', 'u', 'w', 'f', 'x'] {
        keys.push(Key::Char(c));
        keys.push(Key::Ctrl(c));
        keys.push(Key::Alt(c));
    }
    keys
}

#[test]
fn select_menu_follows_its_rule_for_every_key() {
    for key in every_key() {
        for n in [0usize, 1, 3, 10] {
            for h in [0usize, 1, 2, 5, 20] {
                for cursor in [0usize, 1, 2, 7, 9, 15] {
                    for scroll in [0usize, 1, 4, 9, 12] {
                        let half = h / 2;
                        let target = match key {
                            Key::Down | Key::Ctrl('n') | Key::Char('j') => cursor + 1,
                            Key::Up | Key::Ctrl('p') | Key::Char('k') => cursor.saturating_sub(1),
                            Key::Ctrl('h') | Key::Home => 0,
                            Key::Ctrl('e') | Key::End => usize::MAX,
                            Key::Ctrl('d') | Key::PageDown => cursor + half,
                            Key::Ctrl('u') | Key::PageUp => cursor.saturating_sub(half),
                            _ => cursor,
                        };
                        let expected_cursor = n.saturating_sub(1).min(target);
                        let expected_scroll = if expected_cursor < scroll {
                            expected_cursor
                        } else if expected_cursor >= scroll + h {
                            expected_cursor + 1 - h
                        } else {
                            scroll
                        };
                        let expected_action = match key {
                            Key::Char(' ') if expected_cursor < n => SelectMenuAction::Toggle(expected_cursor),
                            Key::Char('a') => SelectMenuAction::ToggleAll,
                            _ => SelectMenuAction::Nothing,
                        };
                        let mut menu = SelectMenu { cursor, scroll };
                        let action = menu.on_key(n, h, key);
                        assert_eq!(
                            (menu.cursor, menu.scroll, action),
                            (expected_cursor, expected_scroll, expected_action),
                            "{:?} n={} h={} cursor={} scroll={}",
                            key,
                            n,
                            h,
                            cursor,
                            scroll
                        );
                    }
                }
            }
        }
    }
}

#[test]
fn output_follows_its_rule_for_every_key() {
    let text: String = (0..12).map(|i| format!("{}\n", i)).collect();
    for key in every_key() {
        for h in [0usize, 1, 2, 5, 12, 20] {
            for start in 0..4 {
                let mut output = Output::new(text.clone());
                for _ in 0..start {
                    output.on_key(1, Key::PageDown);
                    output.on_key(1, Key::Down);
                    output.on_key(1, Key::Down);
                }
                let scroll = output.scroll();
                let half = h / 2;
                let target = match key {
                    Key::Down | Key::Char('j') => scroll + 1,
                    Key::Up | Key::Char('k') => scroll.saturating_sub(1),
                    Key::Ctrl('h') | Key::Home => 0,
                    Key::Ctrl('e') | Key::End => usize::MAX,
                    Key::Ctrl('d') | Key::PageDown => scroll + half,
                    Key::Ctrl('u') | Key::PageUp => scroll.saturating_sub(half),
                    _ => scroll,
                };
                let expected = 12usize.saturating_sub(h).min(target);
                output.on_key(h, key);
                assert_eq!(output.scroll(), expected, "{:?} h={} scroll={}", key, h, scroll);
            }
        }
    }
}

fn word_boundary_with_std(input: &str) -> usize {
    fn is_word(c: char) -> bool {
        c.is_alphanumeric() || c == '_'
    }
    fn rfind_boundary(mut chars: std::str::Chars, f: fn(&char) -> bool) -> usize {
        match chars.rfind(f) {
            Some(c) => chars.as_str().len() + c.len_utf8(),
            None => 0,
        }
    }
    let mut chars = input.chars();
    match chars.next_back() {
        Some(c) => {
            if is_word(c) {
                rfind_boundary(chars, |&c| !is_word(c))
            } else if c.is_ascii_whitespace() {
                rfind_boundary(chars, |&c| is_word(c) || !c.is_ascii_whitespace())
            } else {
                rfind_boundary(chars, |&c| is_word(c) || c.is_ascii_whitespace())
            }
        },
        None => 0,
    }
}

#[test]
fn readline_follows_its_rule_for_every_key() {
    let lines = [
        "",
        "a",
        "hello world",
        "hello   ",
        "a.b!!",
        "x_y z_9",
        " \t",
        "...",
        "héllo wörld",
        "日本 語",
        "a\u{a0}\u{a0}",
        "tab\t\u{2003}",
        "_",
        "a-",
        "- ",
    ];
    for line in lines {
        for key in every_key() {
            let mut expected = line.to_string();
            match key {
                Key::Home | Key::Ctrl('u') => expected.clear(),
                Key::Ctrl('w') => expected.truncate(word_boundary_with_std(line)),
                Key::Backspace => {
                    if let Some((index, _)) = line.char_indices().next_back() {
                        expected.truncate(index);
                    }
                },
                Key::Char(c) => expected.push(c),
                _ => (),
            }
            let mut readline = typed(line);
            readline.on_key(key);
            assert_eq!(readline.input(), expected, "{:?} {:?}", line, key);
        }
    }
}

#[test]
fn last_run_start_takes_the_last_run_of_equal_classes_away() {
    assert_eq!(last_run_start(&vec![CharClass::Word, CharClass::Word, CharClass::Space, CharClass::Word, CharClass::Word, CharClass::Word]), 3);
    assert_eq!(last_run_start(&vec![CharClass::Word, CharClass::Space, CharClass::Space]), 1);
    assert_eq!(last_run_start(&vec![CharClass::Word, CharClass::Other, CharClass::Space, CharClass::Other, CharClass::Other]), 3);
    assert_eq!(last_run_start(&vec![CharClass::Other]), 0);
    assert_eq!(last_run_start(&vec![CharClass::Space, CharClass::Space, CharClass::Space]), 0);
    assert_eq!(last_run_start(&Vec::new()), 0);
}

#[test]
fn last_run_start_stops_at_the_first_other_class() {
    assert_eq!(last_run_start(&vec![CharClass::Word, CharClass::Space, CharClass::Word, CharClass::Space, CharClass::Word]), 4);
    assert_eq!(last_run_start(&vec![CharClass::Other, CharClass::Other, CharClass::Word, CharClass::Other, CharClass::Other]), 3);
}

#[test]
fn classes_gives_each_character_its_class() {
    let chars: Vec<char> = "a_ \t-é9\u{a0}".chars().collect();
    assert_eq!(
        classes(&chars),
        vec![
            CharClass::Word,
            CharClass::Word,
            CharClass::Space,
            CharClass::Space,
            CharClass::Other,
            CharClass::Word,
            CharClass::Word,
            CharClass::Other,
        ]
    );
    assert_eq!(classes(&Vec::new()), Vec::<CharClass>::new());
}

#[test]
fn word_boundary_is_the_start_of_the_last_run() {
    let chars: Vec<char> = "git commit --amend".chars().collect();
    assert_eq!(word_boundary(&chars), 13);
    let chars: Vec<char> = "git commit --".chars().collect();
    assert_eq!(word_boundary(&chars), 11);
    let chars: Vec<char> = "git commit ".chars().collect();
    assert_eq!(word_boundary(&chars), 10);
}
