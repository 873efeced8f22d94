//! The full interactive round, end to end against the store model: startup
//! on an empty store, the command banner, an empty list, entering a task
//! through the add sub-session, and completing it from the list view.

use todo_tui::add::{AddAction, AddSession};
use todo_tui::banner::commands;
use todo_tui::input::InputEvent;
use todo_tui::migrate::perform_migrations;
use todo_tui::render::{render_lines, success_notice};
use todo_tui::session::{ListAction, ListSession};
use todo_tui::store::Store;

#[test]
fn one_full_session_against_an_empty_store() {
    // Startup: both migrations run and are recorded.
    let mut store = Store::new();
    assert_eq!(perform_migrations(&mut store).unwrap(), 2);
    assert_eq!(store.applied_migration_count().unwrap(), 2);

    // The command banner has its three lines.
    assert_eq!(commands().len(), 3);

    // The first render shows only the header: no task lines.
    let snapshot = store.list_active().unwrap();
    assert!(render_lines(&snapshot).is_empty());
    let mut list = ListSession::new(snapshot);

    // Entering add mode and typing the new entry.
    assert_eq!(list.handle_event(&InputEvent::Char('a')), ListAction::EnterAdd);
    let mut add = AddSession::new();
    for c in "write spec".chars() {
        assert_eq!(add.handle_event(&InputEvent::Char(c)), AddAction::Echo(c));
    }
    assert_eq!(add.handle_event(&InputEvent::Char('\n')), AddAction::Submit);
    let text = add.take_text();
    store.create(text.clone()).expect("creation must succeed");
    assert_eq!(success_notice(&text), "Successfully added TODO : write spec");

    // Back in the list view: exactly one row.
    let snapshot = store.list_active().unwrap();
    assert_eq!(
        render_lines(&snapshot),
        vec![String::from("Todo : write spec")]
    );
    let id = snapshot[0].id;
    list.reload(snapshot);

    // Confirming on that row removes it from view...
    assert_eq!(list.handle_event(&InputEvent::Char('\n')), ListAction::Complete(id));
    store.complete(id).unwrap();
    let snapshot = store.list_active().unwrap();
    assert!(render_lines(&snapshot).is_empty());
    list.reload(snapshot);

    // ...while the record itself persists, inactive.
    let row = store.find_by_id(id).expect("the row must persist");
    assert_eq!(row.content, "write spec");
    assert!(!row.active);

    // And the session can still be left.
    assert_eq!(list.handle_event(&InputEvent::Interrupt), ListAction::Exit);
}
