use kedit::Command;
use kedit::Document;
use kedit::Editor;
use kedit::NavKey;
use kedit::Terminal;

fn doc(lines: &[&str]) -> Document {
    let owned: Vec<String> = lines.iter().map(|l| l.to_string()).collect();
    Document::from_lines(owned, None)
}

fn editor(lines: &[&str]) -> Editor {
    Editor::new(doc(lines), Terminal::new(80, 26))
}

fn go(e: &mut Editor, key: NavKey) {
    e.process_command(Command::Move(key));
}

#[test]
fn right_wraps_to_next_row_start() {
    // three rows of lengths [10, 0, 5], cursor at (10, 0)
    let mut e = editor(&["abcdefghij", "", "hello"]);
    go(&mut e, NavKey::End);
    assert_eq!(e.cursor_position().x, 10);
    assert_eq!(e.cursor_position().y, 0);
    go(&mut e, NavKey::Right);
    assert_eq!(e.cursor_position().x, 0);
    assert_eq!(e.cursor_position().y, 1);
}

#[test]
fn left_wraps_to_previous_row_end() {
    let mut e = editor(&["abcdefghij", "", "hello"]);
    go(&mut e, NavKey::Down);
    assert_eq!(e.cursor_position().y, 1);
    go(&mut e, NavKey::Left);
    assert_eq!(e.cursor_position().x, 10);
    assert_eq!(e.cursor_position().y, 0);
}

#[test]
fn page_up_pins_cursor_to_window_top() {
    // 100 rows, viewport height 24, cursor moved to (0, 50)
    let lines: Vec<String> = (0..100).map(|i| format!("line {}", i)).collect();
    let d = Document::from_lines(lines, None);
    let mut e = Editor::new(d, Terminal::new(80, 26));
    for _ in 0..50 {
        go(&mut e, NavKey::Down);
    }
    assert_eq!(e.cursor_position().y, 50);
    assert_eq!(e.offset().y, 27);
    go(&mut e, NavKey::PageUp);
    assert_eq!(e.cursor_position().y, 26);
    assert_eq!(e.offset().y, 26);
}

#[test]
fn page_down_stops_at_document_end() {
    let mut e = editor(&["a", "b", "c"]);
    go(&mut e, NavKey::PageDown);
    assert_eq!(e.cursor_position().y, 3);
    go(&mut e, NavKey::PageDown);
    assert_eq!(e.cursor_position().y, 3);
}

#[test]
fn page_up_saturates_at_zero() {
    let lines: Vec<String> = (0..10).map(|i| format!("{}", i)).collect();
    let mut e = Editor::new(Document::from_lines(lines, None), Terminal::new(80, 26));
    for _ in 0..10 {
        go(&mut e, NavKey::Down);
    }
    assert_eq!(e.cursor_position().y, 10);
    go(&mut e, NavKey::PageUp);
    assert_eq!(e.cursor_position().y, 0);
}

#[test]
fn down_converges_to_document_length() {
    let mut e = editor(&["a", "b", "c"]);
    for _ in 0..10 {
        go(&mut e, NavKey::Down);
    }
    assert_eq!(e.cursor_position().y, 3);
}

#[test]
fn up_converges_to_zero() {
    let mut e = editor(&["a", "b", "c"]);
    for _ in 0..10 {
        go(&mut e, NavKey::Down);
    }
    for _ in 0..10 {
        go(&mut e, NavKey::Up);
    }
    assert_eq!(e.cursor_position().y, 0);
}

#[test]
fn down_onto_shorter_row_clamps_column() {
    let mut e = editor(&["abcdef", "ab"]);
    go(&mut e, NavKey::End);
    assert_eq!(e.cursor_position().x, 6);
    go(&mut e, NavKey::Down);
    assert_eq!(e.cursor_position().x, 2);
    assert_eq!(e.cursor_position().y, 1);
}

#[test]
fn home_is_idempotent() {
    let mut e = editor(&["hello"]);
    go(&mut e, NavKey::End);
    go(&mut e, NavKey::Home);
    let once = e.cursor_position();
    let off_once = e.offset();
    go(&mut e, NavKey::Home);
    assert_eq!(e.cursor_position().x, once.x);
    assert_eq!(e.cursor_position().y, once.y);
    assert_eq!(e.offset().x, off_once.x);
    assert_eq!(e.offset().y, off_once.y);
}

#[test]
fn end_is_idempotent() {
    let mut e = editor(&["hello"]);
    go(&mut e, NavKey::End);
    let once = e.cursor_position();
    go(&mut e, NavKey::End);
    assert_eq!(e.cursor_position().x, once.x);
    assert_eq!(e.cursor_position().y, once.y);
    assert_eq!(once.x, 5);
}

#[test]
fn navigation_in_empty_document_is_inert() {
    let mut e = editor(&[]);
    for key in [
        NavKey::Up,
        NavKey::Down,
        NavKey::Left,
        NavKey::Right,
        NavKey::PageUp,
        NavKey::PageDown,
        NavKey::Home,
        NavKey::End,
    ] {
        go(&mut e, key);
        assert_eq!(e.cursor_position().x, 0);
        assert_eq!(e.cursor_position().y, 0);
        assert_eq!(e.offset().x, 0);
        assert_eq!(e.offset().y, 0);
    }
}

#[test]
fn end_then_right_scrolls_horizontally() {
    let row = "abcdefghij".repeat(10);
    let mut e = Editor::new(
        Document::from_lines(vec![row], None),
        Terminal::new(10, 26),
    );
    go(&mut e, NavKey::End);
    assert_eq!(e.cursor_position().x, 100);
    assert_eq!(e.offset().x, 91);
    let screen = e.screen_cursor();
    assert_eq!(screen.x, 9);
    assert_eq!(screen.y, 0);
}

#[test]
fn quit_command_sets_flag_and_moves_nothing() {
    let mut e = editor(&["hello"]);
    go(&mut e, NavKey::End);
    assert!(!e.should_quit());
    e.process_command(Command::Quit);
    assert!(e.should_quit());
    assert_eq!(e.cursor_position().x, 5);
    assert_eq!(e.cursor_position().y, 0);
}

#[test]
fn other_command_is_a_no_op() {
    let mut e = editor(&["hello"]);
    go(&mut e, NavKey::Right);
    let before = e.cursor_position();
    e.process_command(Command::Other);
    assert!(!e.should_quit());
    assert_eq!(e.cursor_position().x, before.x);
    assert_eq!(e.cursor_position().y, before.y);
}

#[test]
fn cursor_stays_visible_through_mixed_commands() {
    let lines: Vec<String> = (0..60).map(|i| "x".repeat(i % 30)).collect();
    let mut e = Editor::new(Document::from_lines(lines, None), Terminal::new(20, 12));
    let keys = [
        NavKey::PageDown,
        NavKey::Down,
        NavKey::End,
        NavKey::Right,
        NavKey::Right,
        NavKey::PageDown,
        NavKey::Up,
        NavKey::Left,
        NavKey::PageUp,
        NavKey::Down,
        NavKey::End,
        NavKey::Home,
    ];
    for key in keys {
        go(&mut e, key);
        let c = e.cursor_position();
        let o = e.offset();
        assert!(o.y <= c.y && c.y < o.y + 10, "vertical containment");
        assert!(o.x <= c.x && c.x < o.x + 20, "horizontal containment");
    }
}
