use todo_tui::input::InputEvent;
use todo_tui::migrate::perform_migrations;
use todo_tui::session::{ListAction, ListSession};
use todo_tui::store::Store;

fn store_with(contents: &[&str]) -> Store {
    let mut s = Store::new();
    perform_migrations(&mut s).unwrap();
    for c in contents {
        s.create(String::from(*c)).unwrap();
    }
    s
}

#[test]
fn confirm_on_row_two_selects_snapshot_index_one() {
    let store = store_with(&["one", "two", "three"]);
    let snapshot = store.list_active().unwrap();
    let ids: Vec<u64> = snapshot.iter().map(|t| t.id).collect();
    let mut session = ListSession::new(snapshot);
    assert_eq!(session.handle_event(&InputEvent::Down), ListAction::MoveDown);
    let action = session.handle_event(&InputEvent::Char('\n'));
    assert_eq!(action, ListAction::Complete(ids[1]));
    assert_ne!(action, ListAction::Complete(ids[0]));
    assert_ne!(action, ListAction::Complete(ids[2]));
}

#[test]
fn confirm_on_the_first_row_selects_the_first_task() {
    let store = store_with(&["one", "two"]);
    let snapshot = store.list_active().unwrap();
    let first = snapshot[0].id;
    let mut session = ListSession::new(snapshot);
    assert_eq!(
        session.handle_event(&InputEvent::Char('\n')),
        ListAction::Complete(first)
    );
}

#[test]
fn confirm_above_the_first_row_is_ignored() {
    let store = store_with(&["one"]);
    let mut session = ListSession::new(store.list_active().unwrap());
    assert_eq!(session.handle_event(&InputEvent::Up), ListAction::MoveUp);
    assert_eq!(session.handle_event(&InputEvent::Char('\n')), ListAction::Ignore);
}

#[test]
fn confirm_below_the_last_row_is_ignored() {
    let store = store_with(&["one"]);
    let mut session = ListSession::new(store.list_active().unwrap());
    session.handle_event(&InputEvent::Down);
    assert_eq!(session.handle_event(&InputEvent::Char('\n')), ListAction::Ignore);
}

#[test]
fn cursor_movement_is_not_clamped() {
    let store = store_with(&["one", "two"]);
    let mut session = ListSession::new(store.list_active().unwrap());
    // Three rows above the top, then back down to the second row.
    for _ in 0..4 {
        assert_eq!(session.handle_event(&InputEvent::Up), ListAction::MoveUp);
    }
    for _ in 0..4 {
        assert_eq!(session.handle_event(&InputEvent::Char('\n')), ListAction::Ignore);
        assert_eq!(session.handle_event(&InputEvent::Down), ListAction::MoveDown);
    }
    session.handle_event(&InputEvent::Down);
    let second = store.list_active().unwrap()[1].id;
    assert_eq!(
        session.handle_event(&InputEvent::Char('\n')),
        ListAction::Complete(second)
    );
}

#[test]
fn horizontal_movement_does_not_change_the_selection() {
    let store = store_with(&["one", "two"]);
    let snapshot = store.list_active().unwrap();
    let first = snapshot[0].id;
    let mut session = ListSession::new(snapshot);
    assert_eq!(session.handle_event(&InputEvent::Left), ListAction::MoveLeft);
    assert_eq!(session.handle_event(&InputEvent::Right), ListAction::MoveRight);
    assert_eq!(
        session.handle_event(&InputEvent::Char('\n')),
        ListAction::Complete(first)
    );
}

#[test]
fn the_add_key_enters_add_mode() {
    let store = store_with(&[]);
    let mut session = ListSession::new(store.list_active().unwrap());
    assert_eq!(session.handle_event(&InputEvent::Char('a')), ListAction::EnterAdd);
}

#[test]
fn interrupt_exits_the_session() {
    let store = store_with(&["one"]);
    let mut session = ListSession::new(store.list_active().unwrap());
    assert_eq!(session.handle_event(&InputEvent::Interrupt), ListAction::Exit);
}

#[test]
fn unrecognized_events_are_ignored() {
    let store = store_with(&["one"]);
    let mut session = ListSession::new(store.list_active().unwrap());
    assert_eq!(session.handle_event(&InputEvent::Char('x')), ListAction::Ignore);
    assert_eq!(session.handle_event(&InputEvent::Backspace), ListAction::Ignore);
    assert_eq!(session.handle_event(&InputEvent::Other), ListAction::Ignore);
}

#[test]
fn reload_resets_the_cursor_to_the_first_row() {
    let mut store = store_with(&["one", "two"]);
    let mut session = ListSession::new(store.list_active().unwrap());
    session.handle_event(&InputEvent::Down);
    let second = store.list_active().unwrap()[1].id;
    assert_eq!(
        session.handle_event(&InputEvent::Char('\n')),
        ListAction::Complete(second)
    );
    store.complete(second).unwrap();
    session.reload(store.list_active().unwrap());
    let first = store.list_active().unwrap()[0].id;
    assert_eq!(
        session.handle_event(&InputEvent::Char('\n')),
        ListAction::Complete(first)
    );
}
