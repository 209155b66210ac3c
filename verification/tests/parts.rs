use todo_manager::app::{App, CurrentScreen};
use todo_manager::config::Config;
use todo_manager::notifications::{error, info, notification, warning, NotificationLevel};
use todo_manager::todo::{Todo, TodoNode};
use todo_manager::ui::{centered_percentages, centered_rect, key_hint, prompt, title_text, Area};

fn s(x: &str) -> String {
    x.to_string()
}

#[test]
fn urgency_per_level() {
    assert_eq!(NotificationLevel::Error.urgency(), "critical");
    assert_eq!(NotificationLevel::Warning.urgency(), "normal");
    assert_eq!(NotificationLevel::Info.urgency(), "low");
}

#[test]
fn notify_send_arguments() {
    let n = error("Save failed", "disk full");
    assert_eq!(n.level, NotificationLevel::Error);
    assert_eq!(
        n.command_args(),
        vec![s("--urgency"), s("critical"), s("--app-name"), s("Todo Manager"), s("Save failed"), s("disk full")]
    );
    assert_eq!(warning("w", "m").command_args()[1], "normal");
    assert_eq!(info("i", "m").command_args()[1], "low");
    let n = notification(NotificationLevel::Info, "t", "m");
    assert_eq!((n.title.as_str(), n.message.as_str()), ("t", "m"));
}

#[test]
fn config_projects() {
    let mut c = Config::default();
    assert!(c.list_projects().is_empty());
    assert_eq!(c.get_project("$a"), None);
    c.add_project(s("$a"), s("/a.json"));
    c.add_project(s("$b"), s("/b.json"));
    c.add_project(s("$a"), s("/a2.json"));
    assert_eq!(c.get_project("$a"), Some(&s("/a2.json")));
    assert_eq!(c.get_project("$b"), Some(&s("/b.json")));
    let mut names: Vec<String> = c.list_projects().into_iter().cloned().collect();
    names.sort();
    assert_eq!(names, vec![s("$a"), s("$b")]);
}

#[test]
fn title_line() {
    assert_eq!(title_text(&vec![]), "Todo Manager : ");
    assert_eq!(title_text(&vec![s("work"), s("email")]), "Todo Manager : work/email");
}

#[test]
fn hints_per_screen() {
    assert_eq!(key_hint(CurrentScreen::Main), "(q/s) to quit or save /(l) to load / (n) to make new pair/(d) to delete");
    assert_eq!(key_hint(CurrentScreen::Editing), "(ESC) to cancel/(Tab) to switch boxes/enter to complete");
    assert_eq!(key_hint(CurrentScreen::Loading), "(enter) to confirm the operation, (ESC) to cancel");
    assert_eq!(key_hint(CurrentScreen::Exiting { for_quit: true }), key_hint(CurrentScreen::Loading));
    assert_eq!(
        key_hint(CurrentScreen::Deleting),
        "(ESC) to cancel/(Tab) to switch boxes, are you sure you want to delete?"
    );
}

#[test]
fn prompts_per_screen() {
    assert_eq!(
        prompt(CurrentScreen::Exiting { for_quit: true }, "f"),
        Some((s("Quit"), s("Would you like to save a todo list?(enter to save,escape to abort)\nf")))
    );
    assert_eq!(prompt(CurrentScreen::Exiting { for_quit: false }, "").unwrap().0, "Save as");
    assert_eq!(
        prompt(CurrentScreen::Loading, "x"),
        Some((s("Loading"), s("Would you like to load a todo list?(enter to load,escape to abort)\nx")))
    );
    assert_eq!(prompt(CurrentScreen::Main, "x"), None);
    assert_eq!(prompt(CurrentScreen::Deleting, "y"), None);
}

#[test]
fn centered_parts() {
    assert_eq!(centered_percentages(60), (20, 60, 20));
    assert_eq!(centered_percentages(25), (37, 25, 37));
    assert_eq!(centered_percentages(100), (0, 100, 0));
}

#[test]
fn rows_of_list() {
    let mut app = App::new(Config::default());
    app.todos.insert(s("a"), Todo::new(s("first"), s("Todo: Done"), s("a")));
    app.tree.insert(s("a"), TodoNode::new(s("a"), s("0"), vec![]));
    let mut root = app.tree.remove(&s("0")).unwrap();
    root.children.push(s("a"));
    app.tree.insert(s("0"), root);
    assert_eq!(app.table_rows(), vec![(s("first"), s("Todo: Done"))]);
}

#[test]
fn centered_rect_of_full_screen() {
    let screen = Area { x: 0, y: 0, width: 100, height: 100 };
    assert_eq!(centered_rect(60, 25, screen), Area { x: 20, y: 37, width: 60, height: 25 });
    let whole = Area { x: 3, y: 4, width: 50, height: 20 };
    assert_eq!(centered_rect(100, 100, whole), whole);
}
