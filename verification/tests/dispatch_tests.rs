use termedit::dispatch::{dispatch, Action, KeyInput};
use termedit::terminal::TerminalCursor;

#[test]
fn normal_mode_routes_navigation_and_quit() {
    assert_eq!(dispatch(false, KeyInput::Char('q')), Action::Quit);
    assert_eq!(dispatch(false, KeyInput::Char('k')), Action::MoveUp);
    assert_eq!(dispatch(false, KeyInput::Char('j')), Action::MoveDown);
    assert_eq!(dispatch(false, KeyInput::Char('h')), Action::MoveLeft);
    assert_eq!(dispatch(false, KeyInput::Char('l')), Action::MoveRight);
    assert_eq!(dispatch(false, KeyInput::Char('i')), Action::EnterEditing);
    assert_eq!(dispatch(false, KeyInput::Char('x')), Action::Ignore);
    assert_eq!(dispatch(false, KeyInput::Enter), Action::Ignore);
    assert_eq!(dispatch(false, KeyInput::Backspace), Action::Ignore);
    assert_eq!(dispatch(false, KeyInput::Esc), Action::Ignore);
    assert_eq!(dispatch(false, KeyInput::Other), Action::Ignore);
}

#[test]
fn editing_mode_routes_text_keys() {
    assert_eq!(dispatch(true, KeyInput::Esc), Action::LeaveEditing);
    assert_eq!(dispatch(true, KeyInput::Backspace), Action::Delete);
    assert_eq!(dispatch(true, KeyInput::Enter), Action::Write('\n'));
    assert_eq!(dispatch(true, KeyInput::Char('q')), Action::Write('q'));
    assert_eq!(dispatch(true, KeyInput::Char('Z')), Action::Write('Z'));
    assert_eq!(dispatch(true, KeyInput::Other), Action::Ignore);
}

#[test]
fn apply_action_drives_the_engine() {
    let mut cursor = TerminalCursor::new(vec![String::from("hi"), String::from("there")]);
    cursor.initialize();
    assert!(!cursor.apply_action(Action::MoveDown));
    assert_eq!(cursor.position(), (0, 1));
    assert!(!cursor.apply_action(Action::EnterEditing));
    assert!(cursor.is_editing());
    assert!(!cursor.apply_action(Action::Write('x')));
    let first: String = cursor.line(1).iter().collect();
    assert_eq!(first, "xthere");
    assert!(!cursor.apply_action(Action::Delete));
    let second: String = cursor.line(1).iter().collect();
    assert_eq!(second, "there");
    assert!(!cursor.apply_action(Action::LeaveEditing));
    assert!(!cursor.is_editing());
    assert!(!cursor.apply_action(Action::Ignore));
    assert!(cursor.apply_action(Action::Quit));
    assert_eq!(cursor.position(), (0, 1));
}
