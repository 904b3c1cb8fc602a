use termedit::terminal::TerminalCursor;

fn create_content() -> Vec<String> {
    vec![
        String::from("Hello, World!"),
        String::from("This is a Rust program!"),
        String::from("Third line of code!"),
        String::from("Fourth line of code!"),
        String::from("Fifth line of code!"),
        String::from("Sixth line of code!"),
    ]
}

fn line_str(cursor: &TerminalCursor, i: usize) -> String {
    cursor.line(i).iter().collect()
}

#[test]
fn test_move_up() {
    let content = create_content();
    let mut cursor = TerminalCursor::new(content);
    cursor.initialize();
    cursor.move_up(1);
    assert_eq!(cursor.position(), (0, 0));
}

#[test]
fn test_move_left() {
    let content = create_content();
    let mut cursor = TerminalCursor::new(content);
    cursor.initialize();
    cursor.move_left(1);
    assert_eq!(cursor.position(), (0, 0));
}

#[test]
fn test_move_right() {
    let content = create_content();
    let mut cursor = TerminalCursor::new(content);
    cursor.initialize();
    cursor.move_right(1);
    assert_eq!(cursor.position(), (1, 0));
}

#[test]
fn test_move_down() {
    let content = create_content();
    let mut cursor = TerminalCursor::new(content);
    cursor.initialize();
    cursor.move_down(1);
    assert_eq!(cursor.position(), (0, 1));
}

#[test]
fn test_write_text() {
    let content = create_content();
    let mut cursor = TerminalCursor::new(content);
    cursor.initialize();
    cursor.write_text("a");
    assert_eq!(line_str(&cursor, 0), "aHello, World!");
}

#[test]
fn test_write_text_new_line() {
    let content = create_content();
    let mut cursor = TerminalCursor::new(content);
    cursor.initialize();
    cursor.write_text("a\n");
    assert_eq!(line_str(&cursor, 0), "a");
    assert_eq!(line_str(&cursor, 1), "Hello, World!");
}

#[test]
fn test_write_text_new_line_middle() {
    let content = create_content();
    let mut cursor = TerminalCursor::new(content);
    cursor.initialize();
    cursor.write_text("This is a simple text\nwith a new line");
    assert_eq!(line_str(&cursor, 0), "This is a simple text");
    assert_eq!(line_str(&cursor, 1), "with a new lineHello, World!");
}

#[test]
fn moves_never_leave_the_buffer() {
    let mut cursor = TerminalCursor::new(create_content());
    cursor.initialize();
    cursor.move_up(100);
    assert_eq!(cursor.position(), (0, 0));
    cursor.move_left(100);
    assert_eq!(cursor.position(), (0, 0));
    cursor.move_right(1000);
    assert_eq!(cursor.position(), ("Hello, World!".len() - 1, 0));
    cursor.move_down(1000);
    assert_eq!(cursor.position().1, 5);
    let last_len = "Sixth line of code!".len();
    assert!(cursor.position().0 <= last_len - 1);
}

#[test]
fn move_down_clamps_to_last_line() {
    let mut cursor = TerminalCursor::new(create_content());
    cursor.initialize();
    cursor.move_down(1);
    assert_eq!(cursor.position(), (0, 1));
    cursor.move_down(10);
    assert_eq!(cursor.position(), (0, cursor.line_count() - 1));
}

#[test]
fn vertical_move_keeps_column_on_the_line() {
    let mut cursor = TerminalCursor::new(vec![
        String::from("a long first line"),
        String::from("ab"),
    ]);
    cursor.move_right(10);
    assert_eq!(cursor.position(), (10, 0));
    cursor.move_down(1);
    assert_eq!(cursor.position(), (1, 1));
}

#[test]
fn empty_seed_becomes_one_empty_line() {
    let mut cursor = TerminalCursor::new(Vec::new());
    assert_eq!(cursor.line_count(), 1);
    assert_eq!(line_str(&cursor, 0), "");
    cursor.move_right(5);
    assert_eq!(cursor.position(), (0, 0));
    cursor.move_down(5);
    assert_eq!(cursor.position(), (0, 0));
}

#[test]
fn write_char_inserts_and_advances() {
    let mut cursor = TerminalCursor::new(vec![String::from("Hello, World!")]);
    cursor.initialize();
    cursor.write_char('a');
    assert_eq!(line_str(&cursor, 0), "aHello, World!");
    assert_eq!(cursor.position(), (1, 0));
    assert_eq!(cursor.line_count(), 1);
}

#[test]
fn write_break_at_column_zero_opens_line_above() {
    let mut cursor = TerminalCursor::new(vec![String::from("Hello, World!")]);
    cursor.initialize();
    cursor.write_char('\n');
    assert_eq!(cursor.line_count(), 2);
    assert_eq!(line_str(&cursor, 0), "");
    assert_eq!(line_str(&cursor, 1), "Hello, World!");
    assert_eq!(cursor.position(), (0, 1));
}

#[test]
fn write_break_splits_at_the_cursor() {
    let mut cursor = TerminalCursor::new(vec![String::from("Hello, World!")]);
    cursor.initialize();
    cursor.set_position(5, 0);
    cursor.write_char('\n');
    assert_eq!(cursor.line_count(), 2);
    assert_eq!(line_str(&cursor, 0), "Hello");
    assert_eq!(line_str(&cursor, 1), ", World!");
    assert_eq!(cursor.position(), (0, 1));
}

#[test]
fn delete_at_origin_is_a_no_op() {
    let mut cursor = TerminalCursor::new(create_content());
    cursor.initialize();
    cursor.delete_char();
    assert_eq!(cursor.line_count(), 6);
    assert_eq!(line_str(&cursor, 0), "Hello, World!");
    assert_eq!(cursor.position(), (0, 0));
}

#[test]
fn delete_at_column_zero_joins_lines() {
    let mut cursor = TerminalCursor::new(vec![
        String::from("Hello"),
        String::from(", World!"),
    ]);
    cursor.initialize();
    cursor.move_down(1);
    cursor.delete_char();
    assert_eq!(cursor.line_count(), 1);
    assert_eq!(line_str(&cursor, 0), "Hello, World!");
    assert_eq!(cursor.position(), (5, 0));
}

#[test]
fn delete_in_the_middle_removes_one_character() {
    let mut cursor = TerminalCursor::new(vec![String::from("abc")]);
    cursor.initialize();
    cursor.set_position(2, 0);
    cursor.delete_char();
    assert_eq!(line_str(&cursor, 0), "ac");
    assert_eq!(cursor.position(), (1, 0));
}

#[test]
fn split_then_delete_restores_the_line() {
    let mut cursor = TerminalCursor::new(vec![String::from("Hello, World!")]);
    cursor.initialize();
    cursor.set_position(5, 0);
    cursor.write_char('\n');
    cursor.delete_char();
    assert_eq!(cursor.line_count(), 1);
    assert_eq!(line_str(&cursor, 0), "Hello, World!");
    assert_eq!(cursor.position(), (5, 0));
}

#[test]
fn next_line_opens_an_empty_line_above() {
    let mut cursor = TerminalCursor::new(vec![String::from("abc")]);
    cursor.initialize();
    cursor.next_line();
    assert_eq!(cursor.line_count(), 2);
    assert_eq!(line_str(&cursor, 0), "");
    assert_eq!(line_str(&cursor, 1), "abc");
    assert_eq!(cursor.position(), (0, 1));
}

#[test]
fn set_editing_toggles_the_mode() {
    let mut cursor = TerminalCursor::new(create_content());
    assert!(!cursor.is_editing());
    cursor.set_editing(true);
    assert!(cursor.is_editing());
    cursor.set_editing(false);
    assert!(!cursor.is_editing());
}

#[test]
fn write_content_replays_the_buffer() {
    let mut cursor = TerminalCursor::new(vec![
        String::from("ab"),
        String::from("c"),
    ]);
    cursor.initialize();
    cursor.set_position(1, 1);
    let steps = cursor.write_content();
    assert_eq!(steps.len(), 3);
    let texts: Vec<String> = steps.iter().map(|s| s.text.iter().collect()).collect();
    assert_eq!(texts, vec![String::from("ab"), String::from("c"), String::from("")]);
    assert_eq!((steps[0].x, steps[0].y), (0, 1));
    assert_eq!((steps[1].x, steps[1].y), (0, 2));
    assert_eq!((steps[2].x, steps[2].y), (1, 1));
}
