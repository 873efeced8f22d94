use todo_tui::banner::commands;
use todo_tui::render::{failure_notice, render_lines, render_task_line, success_notice};
use todo_tui::store::Task;

#[test]
fn a_task_renders_with_its_content() {
    let t = Task { id: 1, content: String::from("write spec"), active: true };
    assert_eq!(render_task_line(&t), "Todo : write spec");
}

#[test]
fn an_empty_snapshot_renders_no_task_lines() {
    let lines = render_lines(&Vec::new());
    assert!(lines.is_empty());
}

#[test]
fn lines_come_out_in_snapshot_order() {
    let tasks = vec![
        Task { id: 1, content: String::from("one"), active: true },
        Task { id: 2, content: String::from("two"), active: true },
    ];
    let lines = render_lines(&tasks);
    assert_eq!(lines, vec![String::from("Todo : one"), String::from("Todo : two")]);
}

#[test]
fn the_success_notice_echoes_the_entered_text() {
    assert_eq!(
        success_notice("write spec"),
        "Successfully added TODO : write spec"
    );
}

#[test]
fn the_failure_notice_is_generic() {
    assert_eq!(failure_notice(), "Couldn't add todo : Something went wrong!");
}

#[test]
fn the_banner_lists_the_three_commands() {
    let cmds = commands();
    assert_eq!(cmds.len(), 3);
    assert_eq!(cmds[0].key, "'a'");
    assert_eq!(cmds[0].description, "Add TODO");
    assert_eq!(cmds[1].key, "Enter");
    assert_eq!(cmds[1].description, "Mark TODO as done");
    assert_eq!(cmds[2].key, "CTRL+'C'");
    assert_eq!(cmds[2].description, "Exit program");
    assert_eq!(cmds[0].line(), "Press 'a' => Add TODO");
    assert_eq!(cmds[1].line(), "Press Enter => Mark TODO as done");
    assert_eq!(cmds[2].line(), "Press CTRL+'C' => Exit program");
}
