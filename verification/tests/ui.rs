use verco::application::Application;
use verco::backend::{BranchEntry, FileStatus, LogEntry, RevisionEntry, RevisionInfo, StashEntry, StatusInfo, TagEntry};
use verco::mode::{branches, diff, log, message_input, revision_details, stash, status, tags};
use verco::mode::message_input::OnSubmit;
use verco::mode::{ModeChangeInfo, ModeContext, ModeKind, ModeResponse, ModeTrait};
use verco::platform::Key;
use verco::ui::{self, Color, DrawOp, Drawer, SelectEntryDraw, Tone};
use verco::widget::filter::Filter;
use verco::widget::output::Output;
use verco::widget::readline::ReadLine;
use verco::widget::select_menu::SelectMenu;

fn print(text: &str) -> DrawOp {
    DrawOp::Print(text.to_string())
}

fn line(text: &str) -> Vec<DrawOp> {
    vec![print(text), DrawOp::ClearUntilNewLine, DrawOp::MoveToNextLine]
}

fn lines(texts: &[&str]) -> Vec<DrawOp> {
    texts.iter().flat_map(|t| line(t)).collect()
}

fn menu_start() -> Vec<DrawOp> {
    vec![DrawOp::SetBackground(Tone::Black), DrawOp::SetForeground(Tone::White)]
}

fn hovered(text: &str) -> Vec<DrawOp> {
    let mut ops = vec![DrawOp::SetBackground(Tone::DarkMagenta)];
    ops.extend(line(text));
    ops.push(DrawOp::SetBackground(Tone::Black));
    ops
}

fn tag(name: &str) -> TagEntry {
    TagEntry { name: name.to_string() }
}

fn row<E: SelectEntryDraw>(entry: &E, columns: u16, hovered: bool) -> String {
    let mut drawer = Drawer::new((columns, 24));
    entry.draw(&mut drawer, hovered);
    match drawer.take_ops().as_slice() {
        [DrawOp::Print(text)] => text.clone(),
        other => panic!("{:?}", other),
    }
}

#[test]
fn colors_have_their_escape_codes() {
    assert_eq!(Color::White.as_str(), "\x1b[38;5;15m");
    assert_eq!(Color::Red.as_str(), "\x1b[38;5;1m");
    assert_eq!(Color::Green.as_str(), "\x1b[38;5;2m");
    assert_eq!(Color::Blue.as_str(), "\x1b[38;5;4m");
    assert_eq!(Color::Yellow.as_str(), "\x1b[38;5;3m");
    assert_eq!(Color::Red.hovered_or(true), Color::White);
    assert_eq!(Color::Red.hovered_or(false), Color::Red);
}

#[test]
fn drawer_basic_operations() {
    let mut drawer = Drawer::new((80, 24));
    assert_eq!(drawer.viewport_size(), (80, 24));
    drawer.move_to(3, 4);
    drawer.write("a");
    drawer.print("b".to_string());
    drawer.next_line();
    drawer.clear_to_bottom();
    assert_eq!(
        drawer.take_ops(),
        vec![
            DrawOp::MoveTo(3, 4),
            print("a"),
            print("b"),
            DrawOp::ClearUntilNewLine,
            DrawOp::MoveToNextLine,
            DrawOp::SetBackground(Tone::Black),
            DrawOp::ClearFromCursorDown,
        ]
    );
    assert!(drawer.take_ops().is_empty());
    assert_eq!(drawer.viewport_size(), (80, 24));
}

#[test]
fn drawer_header() {
    let mut drawer = Drawer::new((40, 10));
    drawer.header("status", "[c]commit", "[arrows]move", b'|');
    assert_eq!(
        drawer.take_ops(),
        vec![
            DrawOp::MoveTo(0, 0),
            DrawOp::SetBackground(Tone::DarkYellow),
            DrawOp::SetForeground(Tone::Black),
            print(" "),
            print("|"),
            print(" "),
            DrawOp::SetBackground(Tone::Black),
            DrawOp::SetForeground(Tone::DarkYellow),
            print(" "),
            print("status"),
            print(" "),
            DrawOp::SetBackground(Tone::DarkYellow),
            DrawOp::ClearUntilNewLine,
            DrawOp::MoveTo(0, 9),
            DrawOp::SetBackground(Tone::Black),
            DrawOp::SetForeground(Tone::DarkYellow),
            print("[c]commit"),
            DrawOp::ClearUntilNewLine,
            DrawOp::MoveTo(28, 9),
            print("[arrows]move"),
            DrawOp::MoveTo(0, 1),
            DrawOp::ResetColor,
        ]
    );
}

#[test]
fn drawer_header_on_a_small_terminal() {
    // The right help is left out where the two do not fit with a column
    // between them.
    let mut drawer = Drawer::new((21, 10));
    drawer.header("t", "[c]commit", "[arrows]move", b' ');
    let ops = drawer.take_ops();
    assert!(!ops.contains(&print("[arrows]move")));
    assert!(ops.contains(&print("[c]commit")));
    let mut drawer = Drawer::new((22, 10));
    drawer.header("t", "[c]commit", "[arrows]move", b' ');
    assert!(drawer.take_ops().contains(&DrawOp::MoveTo(10, 9)));
    // With one row there is no help line.
    let mut drawer = Drawer::new((80, 1));
    drawer.header("t", "left", "right", b' ');
    let ops = drawer.take_ops();
    assert!(!ops.contains(&print("left")));
    assert_eq!(ops.len(), 15);
    let mut drawer = Drawer::new((0, 0));
    drawer.header("t", "left", "right", b' ');
    assert_eq!(drawer.take_ops().len(), 15);
}

#[test]
fn spinner_turns_while_waiting() {
    let signs: Vec<u8> = (0..6).map(|state| ui::spinner(true, state)).collect();
    assert_eq!(signs, vec![b'-', b'\\', b'|', b'/', b'-', b'\\']);
    for state in [0, 1, 2, 3, 255] {
        assert_eq!(ui::spinner(false, state), b' ');
    }
    let mut app = Application::new();
    let mut ctx = ModeContext::new((80, 24));
    app.mode.enter_mode(&mut ctx, ModeKind::Status, ModeChangeInfo::new(ModeKind::Status));
    let mut seen = Vec::new();
    for _ in 0..5 {
        let mut drawer = Drawer::new(ctx.viewport_size);
        app.draw_header(&mut drawer);
        seen.push(drawer.take_ops()[4].clone());
    }
    assert_eq!(seen, vec![print("\\"), print("|"), print("/"), print("-"), print("\\")]);
    assert_eq!(app.spinner_state, 1);
    app.spinner_state = 255;
    let mut drawer = Drawer::new(ctx.viewport_size);
    app.draw_header(&mut drawer);
    assert_eq!(app.spinner_state, 0);
}

#[test]
fn drawer_output_draws_the_lines_from_the_scroll_offset() {
    let mut output = Output::new("1\n2\n3\n4\n5\n".to_string());
    let mut drawer = Drawer::new((80, 3));
    assert_eq!(drawer.output(&output), 5);
    assert_eq!(drawer.take_ops(), lines(&["1", "2", "3", "4", "5"]));
    output.on_key(2, Key::End);
    assert_eq!(drawer.output(&output), 2);
    assert_eq!(drawer.take_ops(), lines(&["4", "5"]));
    output.on_key(0, Key::End);
    assert_eq!(drawer.output(&output), 0);
    assert!(drawer.take_ops().is_empty());
    assert_eq!(drawer.output(&Output::default()), 0);
    assert_eq!(drawer.output(&Output::new("one\r\ntwo".to_string())), 2);
    assert_eq!(drawer.take_ops(), lines(&["one", "two"]));
}

#[test]
fn drawer_readline() {
    let mut line = ReadLine::new();
    let mut drawer = Drawer::new((80, 24));
    drawer.readline(&line, "type here");
    let shown = |text: &str| {
        vec![
            DrawOp::SetBackground(Tone::Black),
            DrawOp::SetForeground(Tone::White),
            print(text),
            DrawOp::SetBackground(Tone::DarkRed),
            print(" "),
            DrawOp::SetBackground(Tone::Black),
        ]
    };
    assert_eq!(drawer.take_ops(), shown("type here"));
    line.on_key(Key::Char('x'));
    drawer.readline(&line, "type here");
    assert_eq!(drawer.take_ops(), shown("x"));
}

#[test]
fn drawer_filter_takes_a_row_only_while_filtering() {
    let mut filter = Filter::new();
    let mut drawer = Drawer::new((80, 24));
    assert_eq!(drawer.filter(&filter), 0);
    assert!(drawer.take_ops().is_empty());
    filter.enter();
    filter.on_key(Key::Char('a'));
    assert_eq!(drawer.filter(&filter), 1);
    assert_eq!(
        drawer.take_ops(),
        vec![
            DrawOp::SetBackground(Tone::Black),
            DrawOp::SetForeground(Tone::White),
            print("filter: "),
            print("a"),
            DrawOp::SetBackground(Tone::DarkRed),
            print(" "),
            DrawOp::SetBackground(Tone::Black),
            DrawOp::ClearUntilNewLine,
            DrawOp::MoveToNextLine,
        ]
    );
    filter.on_key(Key::Enter);
    assert_eq!(drawer.filter(&filter), 1);
    assert_eq!(
        drawer.take_ops(),
        vec![
            DrawOp::SetBackground(Tone::Black),
            DrawOp::SetForeground(Tone::White),
            print("filter: "),
            print("a"),
            DrawOp::ClearUntilNewLine,
            DrawOp::MoveToNextLine,
        ]
    );
}

#[test]
fn drawer_select_menu_shows_the_window() {
    let entries: Vec<TagEntry> = (0..10).map(|i| tag(&format!("t{}", i))).collect();
    let visible: Vec<usize> = vec![1, 3, 5, 7, 9];
    let mut drawer = Drawer::new((80, 5));
    // Five rows, one for the header: four for the menu.
    drawer.select_menu(&SelectMenu { cursor: 1, scroll: 0 }, 0, &entries, &visible);
    let mut expected = menu_start();
    expected.extend(line("t1"));
    expected.extend(hovered("t3"));
    expected.extend(line("t5"));
    expected.extend(line("t7"));
    assert_eq!(drawer.take_ops(), expected);

    drawer.select_menu(&SelectMenu { cursor: 4, scroll: 2 }, 1, &entries, &visible);
    let mut expected = menu_start();
    expected.extend(line("t5"));
    expected.extend(line("t7"));
    expected.extend(hovered("t9"));
    assert_eq!(drawer.take_ops(), expected);

    drawer.select_menu(&SelectMenu { cursor: 0, scroll: 0 }, 4, &entries, &visible);
    assert_eq!(drawer.take_ops(), menu_start());
    drawer.select_menu(&SelectMenu { cursor: 0, scroll: 7 }, 0, &entries, &visible);
    assert_eq!(drawer.take_ops(), menu_start());
    drawer.select_menu(&SelectMenu { cursor: 0, scroll: usize::MAX }, u16::MAX, &entries, &visible);
    assert_eq!(drawer.take_ops(), menu_start());
    drawer.select_menu(&SelectMenu { cursor: 0, scroll: 0 }, 0, &Vec::<TagEntry>::new(), &[]);
    assert_eq!(drawer.take_ops(), menu_start());
}

#[test]
fn rows_of_entries() {
    let e = RevisionEntry { selected: true, name: "src/main.rs".to_string(), status: FileStatus::Modified };
    assert_eq!(row(&e, 80, false), "+ [ modified] src/main.rs");
    let e = RevisionEntry { selected: false, name: "a".to_string(), status: FileStatus::Untracked };
    assert_eq!(row(&e, 80, true), "  [untracked] a");
    let e = RevisionEntry {
        selected: false,
        name: "0123456789abcdef".to_string(),
        status: FileStatus::Unknown("!!".to_string()),
    };
    assert_eq!(row(&e, 80, false), "  [       !!] 0123456789abcdef");
    assert_eq!(row(&e, 34, false), "  [       !!] 0123456789abcdef");
    // Fifteen columns are left for the name: it is cut to its last sixteen
    // characters behind the dots only when it has more than fifteen.
    assert_eq!(row(&e, 33, false), "  [       !!] ...0123456789abcdef");
    assert_eq!(row(&e, 28, false), "  [       !!] ...56789abcdef");
    assert_eq!(row(&e, 18, false), "  [       !!] ...f");
    assert_eq!(row(&e, 0, false), "  [       !!] ...f");

    assert_eq!(row(&BranchEntry { name: "main".to_string(), checked_out: true }, 80, false), "main (checked out)");
    assert_eq!(row(&BranchEntry { name: "dev".to_string(), checked_out: false }, 80, true), "dev");
    assert_eq!(row(&tag("v1"), 80, false), "v1");
    let s = StashEntry { id: 12, branch: "main".to_string(), message: "wip".to_string() };
    assert_eq!(row(&s, 80, false), "\x1b[38;5;3m[12] \x1b[38;5;2mmain \x1b[38;5;15mwip");
    assert_eq!(row(&s, 80, true), "\x1b[38;5;15m[12] \x1b[38;5;15mmain \x1b[38;5;15mwip");
    let l = LogEntry {
        graph: "* ".to_string(),
        hash: "abc".to_string(),
        date: "2020-01-01".to_string(),
        author: "me".to_string(),
        refs: " (HEAD)".to_string(),
        message: "subject".to_string(),
    };
    assert_eq!(
        row(&l, 80, false),
        "* \x1b[38;5;3mabc \x1b[38;5;4m2020-01-01 \x1b[38;5;2mme\x1b[38;5;1m (HEAD) \x1b[38;5;15msubject"
    );
}

#[test]
fn clipping_and_padding() {
    assert_eq!(ui::clip("hello", 3), "hel");
    assert_eq!(ui::clip("hello", 5), "hello");
    assert_eq!(ui::clip("hello", 9), "hello");
    assert_eq!(ui::clip("héllo", 2), "hé");
    assert_eq!(ui::clip("hello", 0), "");
    assert_eq!(ui::clip_front("hello", 3), "...llo");
    assert_eq!(ui::clip_front("hello", 5), "hello");
    assert_eq!(ui::clip_front("hello", 0), "...");
    assert_eq!(ui::pad_left("ab", 5), "   ab");
    assert_eq!(ui::pad_left("abcde", 5), "abcde");
    assert_eq!(ui::pad_left("abcdef", 5), "abcdef");
    assert_eq!(ui::pad_left("", 2), "  ");
}

// screens

fn drawn<M: ModeTrait>(mode: &M, viewport_size: (u16, u16)) -> Vec<DrawOp> {
    let mut drawer = Drawer::new(viewport_size);
    mode.draw(&mut drawer);
    drawer.take_ops()
}

#[test]
fn stash_screen_says_when_there_are_no_stashes() {
    let mut mode = stash::Mode::new();
    let mut ctx = ModeContext::new((80, 24));
    assert_eq!(drawn(&mode, (80, 24)), lines(&["No Stashes!"]));
    mode.on_enter(&mut ctx, ModeChangeInfo::new(ModeKind::Status));
    assert!(drawn(&mode, (80, 24)).is_empty());
    mode.on_response(
        &mut ctx,
        ModeResponse::Stash(stash::Response::Refresh(Ok(vec![StashEntry {
            id: 0,
            branch: "main".to_string(),
            message: "wip".to_string(),
        }]))),
    );
    let mut expected = menu_start();
    expected.extend(hovered("\x1b[38;5;15m[0] \x1b[38;5;15mmain \x1b[38;5;15mwip"));
    assert_eq!(drawn(&mode, (80, 24)), expected);
    mode.on_response(&mut ctx, ModeResponse::Stash(stash::Response::Refresh(Err("bad\nthing".to_string()))));
    assert_eq!(drawn(&mode, (80, 24)), lines(&["bad", "thing"]));
}

#[test]
fn list_screens_draw_the_filter_and_the_menu() {
    let mut mode = tags::Mode::new();
    let mut ctx = ModeContext::new((80, 4));
    mode.on_response(
        &mut ctx,
        ModeResponse::Tags(tags::Response::Refresh(Ok(vec![tag("a1"), tag("b"), tag("a2"), tag("a3")]))),
    );
    let mut expected = menu_start();
    expected.extend(hovered("a1"));
    expected.extend(line("b"));
    expected.extend(line("a2"));
    assert_eq!(drawn(&mode, (80, 4)), expected);

    mode.on_key(&mut ctx, Key::Ctrl('f'));
    mode.on_key(&mut ctx, Key::Char('a'));
    mode.on_key(&mut ctx, Key::Enter);
    mode.on_key(&mut ctx, Key::Down);
    let mut expected = vec![
        DrawOp::SetBackground(Tone::Black),
        DrawOp::SetForeground(Tone::White),
        print("filter: "),
        print("a"),
        DrawOp::ClearUntilNewLine,
        DrawOp::MoveToNextLine,
    ];
    expected.extend(menu_start());
    expected.extend(line("a1"));
    expected.extend(hovered("a2"));
    assert_eq!(drawn(&mode, (80, 4)), expected);

    let mut mode = branches::Mode::new();
    mode.on_response(&mut ctx, ModeResponse::Branches(branches::Response::Refresh(Err("oops".to_string()))));
    assert_eq!(drawn(&mode, (80, 4)), lines(&["oops"]));
    let mut mode = log::Mode::new();
    mode.on_response(&mut ctx, ModeResponse::Log(log::Response::Refresh(Ok((0, vec![])))));
    assert_eq!(drawn(&mode, (80, 4)), menu_start());
}

#[test]
fn text_screens_draw_their_text_from_the_scroll_offset() {
    let mut mode = diff::Mode::new();
    let mut ctx = ModeContext::new((80, 5));
    mode.on_response(&mut ctx, ModeResponse::Diff(diff::Response::Refresh("1\n2\n3\n4\n5\n".to_string())));
    assert_eq!(drawn(&mode, (80, 5)), lines(&["1", "2", "3", "4", "5"]));
    mode.on_key(&mut ctx, Key::End);
    assert_eq!(drawn(&mode, (80, 5)), lines(&["3", "4", "5"]));
    assert_eq!(drawn(&mode, (80, 2)), lines(&["3", "4", "5"]));
    assert!(drawn(&diff::Mode::new(), (80, 5)).is_empty());
}

#[test]
fn message_input_draws_its_line() {
    let mut mode = message_input::Mode::new();
    let mut ctx = ModeContext::new((80, 5));
    mode.on_enter(
        &mut ctx,
        ModeChangeInfo::message_input(ModeKind::Tags, true, "type in the tag name...".to_string(), OnSubmit::TagsNew),
    );
    assert_eq!(drawn(&mode, (80, 5))[2], print("type in the tag name..."));
    mode.on_key(&mut ctx, Key::Char('v'));
    assert_eq!(drawn(&mode, (80, 5))[2], print("v"));
}

#[test]
fn status_screen_draws_header_list_and_empty_message() {
    let mut mode = status::Mode::new();
    let mut ctx = ModeContext::new((20, 10));
    let mut expected = vec![print("")];
    expected.extend(vec![DrawOp::ClearUntilNewLine, DrawOp::MoveToNextLine]);
    expected.extend(vec![DrawOp::ClearUntilNewLine, DrawOp::MoveToNextLine]);
    expected.extend(menu_start());
    expected.extend(vec![print("\x1b[38;5;3mnothing to commit!")]);
    assert_eq!(drawn(&mode, (20, 10)), expected);
    mode.on_enter(&mut ctx, ModeChangeInfo::new(ModeKind::Status));
    assert_eq!(drawn(&mode, (20, 10)).last(), Some(&print("\x1b[38;5;3mworking...")));
    mode.on_response(
        &mut ctx,
        ModeResponse::Status(status::Response::Refresh(StatusInfo {
            header: "## main...origin/main [ahead 1]".to_string(),
            entries: vec![RevisionEntry::new("a".to_string(), FileStatus::Modified)],
        })),
    );
    // The header is cut to the columns of the terminal but one.
    let mut expected = vec![print("## main...origin/ma")];
    expected.extend(vec![DrawOp::ClearUntilNewLine, DrawOp::MoveToNextLine]);
    expected.extend(vec![DrawOp::ClearUntilNewLine, DrawOp::MoveToNextLine]);
    expected.extend(menu_start());
    expected.extend(hovered("  [ modified] a"));
    assert_eq!(drawn(&mode, (20, 10)), expected);
    mode.on_response(
        &mut ctx,
        ModeResponse::Status(status::Response::Refresh(StatusInfo {
            header: "error\nmore\n".to_string(),
            entries: vec![],
        })),
    );
    assert_eq!(drawn(&mode, (20, 10)), lines(&["error", "more"]));
}

#[test]
fn revision_details_draws_message_and_files() {
    let mut mode = revision_details::Mode::new();
    let mut ctx = ModeContext::new((20, 10));
    mode.on_enter(&mut ctx, ModeChangeInfo::revision(ModeKind::Log, "abc".to_string()));
    assert_eq!(drawn(&mode, (20, 10)), line(""));
    mode.on_response(
        &mut ctx,
        ModeResponse::RevisionDetails(revision_details::Response::Info(RevisionInfo {
            message: "a subject that is long enough\n\nbody".to_string(),
            entries: vec![RevisionEntry::new("f".to_string(), FileStatus::Added)],
        })),
    );
    let mut expected = line("a subject that is lo");
    expected.extend(vec![DrawOp::ClearUntilNewLine, DrawOp::MoveToNextLine]);
    expected.extend(menu_start());
    expected.extend(hovered("  [    added] f"));
    assert_eq!(drawn(&mode, (20, 10)), expected);
    mode.on_key(&mut ctx, Key::Tab);
    let mut expected = lines(&["a subject that is long enough", "", "body"]);
    expected.extend(vec![DrawOp::ClearUntilNewLine, DrawOp::MoveToNextLine]);
    expected.extend(menu_start());
    expected.extend(hovered("  [    added] f"));
    assert_eq!(drawn(&mode, (20, 10)), expected);
    // Three rows for the message, one empty, one for the header of the
    // program: on a terminal of five rows no row is left for the menu.
    let mut expected = lines(&["a subject that is long enough", "", "body"]);
    expected.extend(vec![DrawOp::ClearUntilNewLine, DrawOp::MoveToNextLine]);
    expected.extend(menu_start());
    assert_eq!(drawn(&mode, (20, 5)), expected);
}

#[test]
fn application_draws_the_body_and_clears_the_rest() {
    let app = Application::new();
    let mut drawer = Drawer::new((80, 24));
    app.draw_body(&mut drawer);
    let ops = drawer.take_ops();
    assert_eq!(ops[0], DrawOp::MoveTo(0, 1));
    assert_eq!(&ops[ops.len() - 2..], &[DrawOp::SetBackground(Tone::Black), DrawOp::ClearFromCursorDown]);
    assert_eq!(app.mode.header().0, "status");
    assert_eq!(verco::mode::body_height((80, 24)), 22);
    assert_eq!(verco::mode::body_height((80, 1)), 0);
}
