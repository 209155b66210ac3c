use ratatui_textarea::{Input, Key};
use todo_manager::app::{unresolved_path_warning, App, CurrentScreen, CurrentlyEditing};
use todo_manager::config::Config;
use todo_manager::editor::{textarea_input, textarea_lines_of};
use todo_manager::notifications::NotificationLevel;
use todo_manager::save::{OnlyVersion, SaveFormat, SaveStruct04, VersionedData};
use todo_manager::todo::{Todo, TodoNode};
use todo_manager::StrMap;

fn s(x: &str) -> String {
    x.to_string()
}

fn type_text(app: &mut App, text: &str) {
    for c in text.chars() {
        let key = if c == '\n' { Key::Enter } else { Key::Char(c) };
        textarea_input(&mut app.textarea, Input { key, ctrl: false, alt: false, shift: false });
    }
}

fn children(app: &App, id: &str) -> Vec<String> {
    app.tree.get(&s(id)).unwrap().children.clone()
}

/// A manager holding the root, two children "a" and "b", and "c" under "a".
fn sample() -> App {
    let mut app = App::new(Config::default());
    for (id, parent, text) in [("a", "0", "first"), ("b", "0", "second"), ("c", "a", "inner")] {
        app.todos.insert(s(id), Todo::new(s(text), s("Todo: Todo"), s(id)));
        app.tree.insert(s(id), TodoNode::new(s(id), s(parent), vec![]));
        let mut p = app.tree.remove(&s(parent)).unwrap();
        p.children.push(s(id));
        app.tree.insert(s(parent), p);
    }
    app
}

#[test]
fn new_app_holds_root() {
    let app = App::new(Config::default());
    assert_eq!(app.todos.len(), 1);
    assert_eq!(app.todos.get(&s("0")).unwrap().text, "RootOfAll 1");
    assert!(children(&app, "0").is_empty());
    assert_eq!(app.all_todo_types, vec![s("Todo: Todo"), s("Todo: Done"), s("Todo: WIP")]);
    assert_eq!(textarea_lines_of(&app.todo_type), vec![s("Todo: Todo")]);
    assert_eq!(textarea_lines_of(&app.textarea), vec![s("")]);
    assert_eq!(app.current_screen, CurrentScreen::Main);
    assert_eq!(app.currently_editing, None);
    assert_eq!(app.id_of_now_root, "0");
    assert_eq!(app.idx_of_now_selected, 0);
    assert!(!app.is_new);
    assert_eq!(app.get_id_of_now_selected(), None);
}

#[test]
fn new_todo_gets_fresh_id() {
    let mut app = App::new(Config::default());
    app.start_edit_of_new_todo();
    assert!(app.is_new);
    assert_eq!(app.current_screen, CurrentScreen::Editing);
    assert_eq!(app.currently_editing, Some(CurrentlyEditing::TodoText));
    assert_eq!(app.id_of_now_editing.chars().count(), 21);
    assert!(app.id_of_now_editing.chars().all(|c| c == '_' || c == '-' || c.is_ascii_alphanumeric()));
    let first = app.id_of_now_editing.clone();
    app.start_edit_of_new_todo();
    assert_ne!(first, app.id_of_now_editing);
}

#[test]
fn save_new_todo_adds_child() {
    let mut app = App::new(Config::default());
    app.start_edit_of_new_todo_with_id(s("n1"));
    type_text(&mut app, "buy milk\nand bread");
    app.save_todo();
    assert_eq!(children(&app, "0"), vec![s("n1")]);
    let t = app.todos.get(&s("n1")).unwrap();
    assert_eq!(t.text, "buy milk\nand bread");
    assert_eq!(t.todo_type, "Todo: Todo");
    assert_eq!(t.id, "n1");
    let n = app.tree.get(&s("n1")).unwrap();
    assert_eq!(n.parent, "0");
    assert!(n.children.is_empty());
    assert_eq!(app.currently_editing, None);
    assert_eq!(app.text_input, "");
    assert_eq!(app.get_id_of_now_selected(), Some(s("n1")));
}

#[test]
fn edit_existing_todo() {
    let mut app = sample();
    app.start_edit_of_todo(s("b"));
    assert!(!app.is_new);
    assert_eq!(app.text_input, "second");
    assert_eq!(textarea_lines_of(&app.textarea), vec![s("second")]);
    assert_eq!(textarea_lines_of(&app.todo_type), vec![s("Todo: Todo")]);
    type_text(&mut app, "!");
    app.save_todo();
    assert_eq!(app.todos.get(&s("b")).unwrap().text, "!second");
    assert_eq!(children(&app, "0"), vec![s("a"), s("b")]);
}

#[test]
fn edit_and_save_unchanged_keeps_todo() {
    let mut app = sample();
    app.todos.insert(s("a"), Todo::new(s("two\nlines"), s("Todo: WIP"), s("a")));
    app.start_edit_of_todo(s("a"));
    app.save_todo();
    let t = app.todos.get(&s("a")).unwrap();
    assert_eq!(t.text, "two\nlines");
    assert_eq!(t.todo_type, "Todo: WIP");
}

#[test]
fn edit_splits_type_like_str_lines() {
    let mut app = sample();
    app.todos.insert(s("a"), Todo::new(s("x\r\ny"), s("Todo: WIP\n"), s("a")));
    app.start_edit_of_todo(s("a"));
    assert_eq!(textarea_lines_of(&app.textarea), vec![s("x"), s("y")]);
    assert_eq!(textarea_lines_of(&app.todo_type), vec![s("Todo: WIP")]);
    app.todos.insert(s("b"), Todo::new(s(""), s(""), s("b")));
    app.start_edit_of_todo(s("b"));
    assert_eq!(textarea_lines_of(&app.todo_type), vec![s("")]);
}

#[test]
fn toggle_switches_fields() {
    let mut app = App::new(Config::default());
    app.toggle_editing();
    assert_eq!(app.currently_editing, Some(CurrentlyEditing::TodoText));
    app.toggle_editing();
    assert_eq!(app.currently_editing, Some(CurrentlyEditing::TodoType));
    app.toggle_editing();
    assert_eq!(app.currently_editing, Some(CurrentlyEditing::TodoText));
}

#[test]
fn resolve_paths() {
    let mut config = Config::default();
    config.add_project(s("work"), s("/home/u/work.json"));
    let app = App::new(config);
    assert_eq!(app.resolve_path(s("$work")), Ok(s("/home/u/work.json")));
    assert_eq!(app.resolve_path(s("$")), Err(s("No Project $")));
    assert_eq!(app.resolve_path(s("$home")), Err(s("No Project $home")));
    assert_eq!(app.resolve_path(s("todos.json")), Ok(s("todos.json")));
    assert_eq!(app.resolve_path(s("work")), Ok(s("work")));
}

#[test]
fn prepare_save_remembers_file() {
    let mut app = App::new(Config::default());
    assert_eq!(app.prepare_save(s("f.json")), Ok(s("f.json")));
    assert_eq!(app.loaded_file, "f.json");
    assert_eq!(app.prepare_save(s("$none")), Err(s("No Project $none")));
    assert_eq!(app.loaded_file, "f.json");
    assert_eq!(app.prepare_load(s("g.json")), Ok(s("g.json")));
    assert_eq!(app.loaded_file, "g.json");
}

#[test]
fn snapshot_is_current_format() {
    let app = sample();
    let snap = app.save_snapshot();
    assert_eq!(snap.version, "0.5");
    assert_eq!(snap.todos.len(), 4);
    assert_eq!(snap.tree.get(&s("0")).unwrap().children, vec![s("a"), s("b")]);
}

#[test]
fn save_then_load_gives_back_data() {
    let app = sample();
    let snap = app.save_snapshot();
    let mut other = App::new(Config::default());
    other.id_of_now_root = s("x");
    other.idx_of_now_selected = 3;
    let format = other
        .read_version("{}", Some(OnlyVersion { version: snap.version.clone() }))
        .unwrap();
    assert_eq!(format, SaveFormat::V05);
    assert_eq!(other.id_of_now_root, "0");
    assert_eq!(other.idx_of_now_selected, 0);
    other.install_loaded(VersionedData::V05(snap));
    assert_eq!(other.todos.len(), 4);
    assert_eq!(other.todos.get(&s("c")).unwrap().text, "inner");
    assert_eq!(children(&other, "a"), vec![s("c")]);
}

#[test]
fn read_version_errors() {
    let mut app = App::new(Config::default());
    assert_eq!(app.read_version("garbage", None), Err(s("File is not valid JSON")));
    assert_eq!(app.read_version("{}", None), Ok(SaveFormat::V01));
    assert_eq!(
        app.read_version("{}", Some(OnlyVersion { version: s("9") })),
        Err(s("Version is corrupted"))
    );
}

#[test]
fn install_old_data() {
    let mut app = App::new(Config::default());
    let mut todos = StrMap::new();
    let mut tree = StrMap::new();
    todos.insert(s("0"), Todo::new(s("root"), s("Done"), s("0")));
    tree.insert(s("0"), TodoNode::new(s("0"), s("0"), vec![]));
    app.install_loaded(VersionedData::V04(SaveStruct04 { todos, tree, version: s("0.4") }));
    assert_eq!(app.todos.get(&s("0")).unwrap().todo_type, "Todo: Done");
}

#[test]
fn delete_leaf_and_refuse_parent() {
    let mut app = sample();
    app.idx_of_now_selected = 0;
    let refused = app.delete_now_todo();
    let note = refused.err().unwrap();
    assert_eq!(note.title, "Cannot delete");
    assert_eq!(note.message, "This todo has subtodos. Delete them first.");
    assert_eq!(note.level, NotificationLevel::Warning);
    assert_eq!(children(&app, "0"), vec![s("a"), s("b")]);
    app.idx_of_now_selected = 1;
    assert!(app.delete_now_todo().is_ok());
    assert_eq!(children(&app, "0"), vec![s("a")]);
    assert!(app.todos.get(&s("b")).is_none());
    assert!(app.tree.get(&s("b")).is_none());
    assert_eq!(app.idx_of_now_selected, 0);
}

#[test]
fn path_warning_text() {
    let n = unresolved_path_warning("$x");
    assert_eq!(n.title, "Path error");
    assert_eq!(n.message, "Could not resolve '$x'");
    assert_eq!(n.level, NotificationLevel::Warning);
}

#[test]
fn opening_editor_with_selection_deletes_only_selection() {
    let mut app = App::new(Config::default());
    type_text(&mut app, "abc");
    textarea_input(&mut app.textarea, Input { key: Key::Left, ctrl: false, alt: false, shift: false });
    textarea_input(&mut app.textarea, Input { key: Key::Left, ctrl: false, alt: false, shift: true });
    app.start_edit_of_new_todo_with_id(s("n"));
    assert_eq!(textarea_lines_of(&app.textarea), vec![s("c")]);
    app.start_edit_of_new_todo_with_id(s("n"));
    assert_eq!(textarea_lines_of(&app.textarea), vec![s("")]);
}

fn press_key(app: &mut App, key: Key, shift: bool) {
    textarea_input(&mut app.textarea, Input { key, ctrl: false, alt: false, shift });
}

#[test]
fn selection_started_at_end_still_empties_editor() {
    let mut app = sample();
    type_text(&mut app, "abc");
    press_key(&mut app, Key::Left, true);
    app.start_edit_of_todo(s("a"));
    assert_eq!(textarea_lines_of(&app.textarea), vec![s("first")]);
    app.save_todo();
    assert_eq!(app.todos.get(&s("a")).unwrap().text, "first");
}

#[test]
fn selection_on_second_line_keeps_text_after_its_start() {
    let mut app = App::new(Config::default());
    type_text(&mut app, "ab\ncd");
    press_key(&mut app, Key::Left, false);
    press_key(&mut app, Key::Left, true);
    app.start_edit_of_new_todo_with_id(s("n"));
    assert_eq!(textarea_lines_of(&app.textarea), vec![s("d")]);
}

#[test]
fn editor_opens_with_cursor_at_start() {
    let mut app = sample();
    app.todos.insert(s("a"), Todo::new(s("xy\nzw"), s("Todo: Todo"), s("a")));
    app.start_edit_of_todo(s("a"));
    type_text(&mut app, "q");
    assert_eq!(textarea_lines_of(&app.textarea), vec![s("qxy"), s("zw")]);
}
