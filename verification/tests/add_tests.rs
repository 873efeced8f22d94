use todo_tui::add::{AddAction, AddSession};
use todo_tui::input::InputEvent;

#[test]
fn typing_builds_the_buffer() {
    let mut session = AddSession::new();
    assert_eq!(session.handle_event(&InputEvent::Char('h')), AddAction::Echo('h'));
    assert_eq!(session.handle_event(&InputEvent::Char('i')), AddAction::Echo('i'));
    assert_eq!(session.handle_event(&InputEvent::Char('\n')), AddAction::Submit);
    assert_eq!(session.take_text(), "hi");
}

#[test]
fn backspace_removes_the_last_character() {
    let mut session = AddSession::new();
    session.handle_event(&InputEvent::Char('a'));
    session.handle_event(&InputEvent::Char('b'));
    assert_eq!(session.handle_event(&InputEvent::Backspace), AddAction::Erase);
    assert_eq!(session.take_text(), "a");
}

#[test]
fn backspace_on_an_empty_buffer_is_ignored() {
    let mut session = AddSession::new();
    assert_eq!(session.handle_event(&InputEvent::Backspace), AddAction::Ignore);
    assert_eq!(session.take_text(), "");
}

#[test]
fn interrupt_abandons_the_entry() {
    let mut session = AddSession::new();
    session.handle_event(&InputEvent::Char('x'));
    assert_eq!(session.handle_event(&InputEvent::Interrupt), AddAction::Abort);
}

#[test]
fn confirm_leaves_the_buffer_as_typed() {
    let mut session = AddSession::new();
    for c in "write spec".chars() {
        assert_eq!(session.handle_event(&InputEvent::Char(c)), AddAction::Echo(c));
    }
    assert_eq!(session.handle_event(&InputEvent::Char('\n')), AddAction::Submit);
    assert_eq!(session.take_text(), "write spec");
}

#[test]
fn arrows_do_not_touch_the_buffer() {
    let mut session = AddSession::new();
    session.handle_event(&InputEvent::Char('z'));
    assert_eq!(session.handle_event(&InputEvent::Up), AddAction::Ignore);
    assert_eq!(session.handle_event(&InputEvent::Down), AddAction::Ignore);
    assert_eq!(session.handle_event(&InputEvent::Left), AddAction::Ignore);
    assert_eq!(session.handle_event(&InputEvent::Right), AddAction::Ignore);
    assert_eq!(session.handle_event(&InputEvent::Other), AddAction::Ignore);
    assert_eq!(session.take_text(), "z");
}
