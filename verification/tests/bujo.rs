use bujo::codec::{load_entries, parse, serialize};
use bujo::entry::{Entry, Mode};
use bujo::machine::{move_cursor, update, Cursor, Effect, InputEvent, Session};
use bujo::render::{render_frame, render_node, render_statusbar};

fn session(mode: Mode) -> Session {
    Session { mode, close: false, entries: Vec::new() }
}

fn todo(text: &str, complete: bool) -> Entry {
    Entry::Todo { text: text.to_string(), complete }
}

fn journal(text: &str) -> Entry {
    Entry::Journal { text: text.to_string() }
}

fn note(text: &str) -> Entry {
    Entry::Note { text: text.to_string() }
}

#[test]
fn round_trip_open_todo() {
    let e = todo("buy milk", false);
    assert_eq!(parse(&serialize(&e)), Some(e));
}

#[test]
fn round_trip_done_todo() {
    let e = todo("call mom", true);
    assert_eq!(parse(&serialize(&e)), Some(e));
}

#[test]
fn round_trip_journal() {
    let e = journal("had a good day");
    assert_eq!(parse(&serialize(&e)), Some(e));
}

#[test]
fn round_trip_note() {
    let e = note("remember this");
    assert_eq!(parse(&serialize(&e)), Some(e));
}

#[test]
fn round_trip_empty_text() {
    let e = todo("", false);
    assert_eq!(parse(&serialize(&e)), Some(e));
}

#[test]
fn serialize_exact_lines() {
    assert_eq!(serialize(&todo("buy milk", false)), ". buy milk");
    assert_eq!(serialize(&todo("call mom", true)), "x call mom");
    assert_eq!(serialize(&journal("had a good day")), "| had a good day");
    assert_eq!(serialize(&note("remember this")), "- remember this");
}

#[test]
fn parse_recognizes_each_prefix() {
    assert_eq!(parse(". a"), Some(todo("a", false)));
    assert_eq!(parse("x a"), Some(todo("a", true)));
    assert_eq!(parse("| a"), Some(journal("a")));
    assert_eq!(parse("- a"), Some(note("a")));
    assert_eq!(parse(". "), Some(todo("", false)));
}

#[test]
fn parse_tolerates_unrecognized_lines() {
    assert_eq!(parse(""), None);
    assert_eq!(parse("x"), None);
    assert_eq!(parse("."), None);
    assert_eq!(parse("hello"), None);
    assert_eq!(parse(".no space"), None);
    assert_eq!(parse("? what"), None);
    assert_eq!(parse("  indented"), None);
    assert_eq!(parse("X upper"), None);
}

#[test]
fn dot_then_any_key_ends_in_todo() {
    for second in [
        InputEvent::Char('a'),
        InputEvent::Char('.'),
        InputEvent::Other,
        InputEvent::CtrlC,
    ] {
        let mut s = session(Mode::Normal);
        let cur = Cursor { x: 1, y: 1 };
        update(&mut s, cur, InputEvent::Char('.'));
        update(&mut s, cur, second);
        assert_eq!(s.mode, Mode::Todo);
    }
}

#[test]
fn quote_then_key_ends_in_journal() {
    let mut s = session(Mode::Normal);
    let cur = Cursor { x: 1, y: 1 };
    update(&mut s, cur, InputEvent::Char('\''));
    update(&mut s, cur, InputEvent::Char('z'));
    assert_eq!(s.mode, Mode::Journal);
}

#[test]
fn dash_ends_in_note() {
    let mut s = session(Mode::Normal);
    let cur = Cursor { x: 1, y: 1 };
    let eff = update(&mut s, cur, InputEvent::Char('-'));
    assert_eq!(s.mode, Mode::Note);
    assert!(eff.is_empty());
}

#[test]
fn escape_returns_to_normal_from_todo() {
    let mut s = session(Mode::Todo);
    update(&mut s, Cursor { x: 5, y: 5 }, InputEvent::Esc);
    assert_eq!(s.mode, Mode::Normal);
}

#[test]
fn escape_returns_to_normal_from_journal() {
    let mut s = session(Mode::Journal);
    update(&mut s, Cursor { x: 5, y: 5 }, InputEvent::Esc);
    assert_eq!(s.mode, Mode::Normal);
}

#[test]
fn left_moves_from_column_one_stay_clamped() {
    let mut cur = Cursor { x: 1, y: 7 };
    for _ in 0..10 {
        cur = move_cursor(cur, 'h');
        assert!(cur.x >= 1);
        assert_eq!(cur, Cursor { x: 1, y: 7 });
    }
}

#[test]
fn up_moves_from_row_one_stay_clamped() {
    let mut cur = Cursor { x: 3, y: 1 };
    for _ in 0..10 {
        cur = move_cursor(cur, 'k');
        assert!(cur.y >= 1);
        assert_eq!(cur, Cursor { x: 3, y: 1 });
    }
}

#[test]
fn movement_keys_move_one_cell() {
    let cur = Cursor { x: 4, y: 4 };
    assert_eq!(move_cursor(cur, 'h'), Cursor { x: 3, y: 4 });
    assert_eq!(move_cursor(cur, 'j'), Cursor { x: 4, y: 5 });
    assert_eq!(move_cursor(cur, 'k'), Cursor { x: 4, y: 3 });
    assert_eq!(move_cursor(cur, 'l'), Cursor { x: 5, y: 4 });
    assert_eq!(move_cursor(cur, 'z'), cur);
}

#[test]
fn normal_mode_emits_cursor_moves() {
    let mut s = session(Mode::Normal);
    let eff = update(&mut s, Cursor { x: 1, y: 2 }, InputEvent::Char('h'));
    assert_eq!(eff, vec![Effect::MoveTo { to: Cursor { x: 1, y: 2 } }]);
    let eff = update(&mut s, Cursor { x: 2, y: 2 }, InputEvent::Char('l'));
    assert_eq!(eff, vec![Effect::MoveTo { to: Cursor { x: 3, y: 2 } }]);
}

#[test]
fn dot_emits_bullet_marker() {
    let mut s = session(Mode::Normal);
    let eff = update(&mut s, Cursor { x: 1, y: 1 }, InputEvent::Char('.'));
    assert_eq!(eff, vec![Effect::Text { s: "\u{2022} ".to_string() }]);
}

#[test]
fn quote_emits_journal_marker() {
    let mut s = session(Mode::Normal);
    let eff = update(&mut s, Cursor { x: 1, y: 1 }, InputEvent::Char('\''));
    assert_eq!(eff, vec![Effect::Text { s: "| ".to_string() }]);
}

#[test]
fn todo_mode_echoes_characters() {
    let mut s = session(Mode::Todo);
    let eff = update(&mut s, Cursor { x: 1, y: 1 }, InputEvent::Char('a'));
    assert_eq!(eff, vec![Effect::Echo { c: 'a' }]);
    assert_eq!(s.mode, Mode::Todo);
}

#[test]
fn todo_mode_enter_returns_to_normal() {
    let mut s = session(Mode::Todo);
    let eff = update(&mut s, Cursor { x: 1, y: 1 }, InputEvent::Char('\n'));
    assert_eq!(eff, vec![Effect::Text { s: "\r\n".to_string() }]);
    assert_eq!(s.mode, Mode::Normal);
}

#[test]
fn journal_mode_enter_starts_marked_line_and_stays() {
    let mut s = session(Mode::Journal);
    let eff = update(&mut s, Cursor { x: 1, y: 1 }, InputEvent::Char('\n'));
    assert_eq!(eff, vec![Effect::Text { s: "\r\n|  ".to_string() }]);
    assert_eq!(s.mode, Mode::Journal);
}

#[test]
fn note_mode_ignores_input() {
    let mut s = session(Mode::Note);
    let eff = update(&mut s, Cursor { x: 1, y: 1 }, InputEvent::Char('q'));
    assert!(eff.is_empty());
    assert_eq!(s.mode, Mode::Note);
}

#[test]
fn ctrl_c_sets_close_at_every_mode() {
    for mode in [Mode::Normal, Mode::Todo, Mode::Note, Mode::Journal] {
        let mut s = session(mode);
        let eff = update(&mut s, Cursor { x: 1, y: 1 }, InputEvent::CtrlC);
        assert!(s.close);
        assert_eq!(s.mode, mode);
        assert!(eff.is_empty());
    }
}

#[test]
fn only_ctrl_c_sets_close() {
    for evt in [
        InputEvent::Char('c'),
        InputEvent::Char('\n'),
        InputEvent::Esc,
        InputEvent::Other,
    ] {
        for mode in [Mode::Normal, Mode::Todo, Mode::Note, Mode::Journal] {
            let mut s = session(mode);
            update(&mut s, Cursor { x: 1, y: 1 }, evt);
            assert!(!s.close);
        }
    }
}

#[test]
fn update_never_touches_entries() {
    let mut s = session(Mode::Normal);
    s.entries = vec![todo("keep me", false)];
    update(&mut s, Cursor { x: 1, y: 1 }, InputEvent::Char('.'));
    update(&mut s, Cursor { x: 1, y: 1 }, InputEvent::Char('a'));
    update(&mut s, Cursor { x: 1, y: 1 }, InputEvent::CtrlC);
    assert_eq!(s.entries, vec![todo("keep me", false)]);
}

#[test]
fn loading_scenario_file() {
    let lines = vec![
        ". buy milk".to_string(),
        "x call mom".to_string(),
        "| had a good day".to_string(),
        "- remember this".to_string(),
    ];
    let entries = load_entries(&lines);
    assert_eq!(
        entries,
        vec![
            todo("buy milk", false),
            todo("call mom", true),
            journal("had a good day"),
            note("remember this"),
        ]
    );
    let rendered: Vec<String> = entries.iter().map(render_node).collect();
    assert_eq!(
        rendered,
        vec![
            "\u{2022} buy milk".to_string(),
            "x call mom".to_string(),
            "| had a good day".to_string(),
            "- remember this".to_string(),
        ]
    );
}

#[test]
fn loading_drops_unrecognized_lines() {
    let lines = vec![
        "# comment".to_string(),
        ". a".to_string(),
        "".to_string(),
        "x b".to_string(),
    ];
    let entries = load_entries(&lines);
    assert_eq!(entries, vec![todo("a", false), todo("b", true)]);
}

#[test]
fn statusbar_labels_are_fixed_width() {
    assert_eq!(render_statusbar(&session(Mode::Normal)), "Normal  ");
    assert_eq!(render_statusbar(&session(Mode::Todo)), "Todo    ");
    assert_eq!(render_statusbar(&session(Mode::Note)), "Note    ");
    assert_eq!(render_statusbar(&session(Mode::Journal)), "Journal ");
}

#[test]
fn frame_repaints_statusbar_cursor_and_entries() {
    let mut s = session(Mode::Todo);
    s.entries = vec![todo("a", false), journal("b")];
    let eff = render_frame(&s, Cursor { x: 2, y: 3 }, 24);
    assert_eq!(
        eff,
        vec![
            Effect::MoveTo { to: Cursor { x: 1, y: 24 } },
            Effect::Text { s: "Todo    ".to_string() },
            Effect::MoveTo { to: Cursor { x: 2, y: 3 } },
            Effect::Text { s: "\u{2022} a".to_string() },
            Effect::Text { s: "\r\n".to_string() },
            Effect::Text { s: "| b".to_string() },
            Effect::Text { s: "\r\n".to_string() },
        ]
    );
}
