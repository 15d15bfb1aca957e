use kedit::text::fmt_dec;
use kedit::text::make_spaces;
use kedit::Document;
use kedit::Editor;
use kedit::Terminal;

#[test]
fn default_document_is_empty() {
    let d = Document::default();
    assert_eq!(d.len(), 0);
    assert!(d.is_empty());
    assert!(d.row(0).is_none());
    assert!(d.file_name().is_none());
}

#[test]
fn from_lines_keeps_line_order() {
    let d = Document::from_lines(
        vec!["first".to_string(), "second".to_string(), "third".to_string()],
        Some("notes.txt".to_string()),
    );
    assert_eq!(d.len(), 3);
    assert!(!d.is_empty());
    assert_eq!(d.row(0).unwrap().render(0, 5), "first");
    assert_eq!(d.row(1).unwrap().render(0, 6), "second");
    assert_eq!(d.row(2).unwrap().render(0, 5), "third");
    assert!(d.row(3).is_none());
    assert_eq!(d.file_name().as_deref(), Some("notes.txt"));
}

#[test]
fn row_lookup_past_end_is_absent() {
    let d = Document::from_lines(vec!["x".to_string()], None);
    assert!(d.row(1).is_none());
    assert!(d.row(usize::MAX).is_none());
}

#[test]
fn terminal_reserves_status_and_message_rows() {
    assert_eq!(Terminal::new(80, 26).size().height, 24);
    assert_eq!(Terminal::new(80, 26).size().width, 80);
    assert_eq!(Terminal::new(80, 2).size().height, 0);
    assert_eq!(Terminal::new(80, 1).size().height, 0);
    assert_eq!(Terminal::new(0, 0).size().height, 0);
}

#[test]
fn default_editor_has_empty_state() {
    let e = Editor::default();
    assert!(!e.should_quit());
    assert_eq!(e.cursor_position().x, 0);
    assert_eq!(e.cursor_position().y, 0);
    assert_eq!(e.offset().x, 0);
    assert_eq!(e.offset().y, 0);
    let lines = e.frame();
    assert_eq!(lines.len(), 24);
}

#[test]
fn decimal_formatting_is_exact() {
    assert_eq!(fmt_dec(0), "0");
    assert_eq!(fmt_dec(7), "7");
    assert_eq!(fmt_dec(10), "10");
    assert_eq!(fmt_dec(105), "105");
    assert_eq!(fmt_dec(987654321), "987654321");
    assert_eq!(
        fmt_dec(u128::MAX),
        "340282366920938463463374607431768211455"
    );
}

#[test]
fn spaces_builder_matches_repeat() {
    assert_eq!(make_spaces(0), "");
    assert_eq!(make_spaces(5), " ".repeat(5));
}
