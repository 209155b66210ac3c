use todo_manager::app::{App, CurrentScreen, CurrentlyEditing};
use todo_manager::config::Config;
use todo_manager::control::{Action, KeyCode, KeyInput};
use todo_manager::editor::textarea_lines_of;
use todo_manager::todo::{Todo, TodoNode};

fn s(x: &str) -> String {
    x.to_string()
}

fn key(code: KeyCode) -> KeyInput {
    KeyInput { code, alt: false, released: false }
}

fn alt(code: KeyCode) -> KeyInput {
    KeyInput { code, alt: true, released: false }
}

fn press(app: &mut App, k: KeyInput) -> Action {
    assert!(!app.key_would_panic(&k));
    app.handle_key(k)
}

fn children(app: &App, id: &str) -> Vec<String> {
    app.tree.get(&s(id)).unwrap().children.clone()
}

fn sample() -> App {
    let mut app = App::new(Config::default());
    for (id, parent, text) in [("a", "0", "first"), ("b", "0", "second"), ("c", "0", "third"), ("d", "a", "inner")] {
        app.todos.insert(s(id), Todo::new(s(text), s("Todo: Todo"), s(id)));
        app.tree.insert(s(id), TodoNode::new(s(id), s(parent), vec![]));
        let mut p = app.tree.remove(&s(parent)).unwrap();
        p.children.push(s(id));
        app.tree.insert(s(parent), p);
    }
    app
}

#[test]
fn released_keys_do_nothing() {
    let mut app = sample();
    let a = app.handle_key(KeyInput { code: KeyCode::Char('n'), alt: false, released: true });
    assert!(matches!(a, Action::Continue));
    assert_eq!(app.current_screen, CurrentScreen::Main);
}

#[test]
fn select_down_and_up() {
    let mut app = sample();
    press(&mut app, key(KeyCode::Down));
    assert_eq!(app.idx_of_now_selected, 1);
    press(&mut app, key(KeyCode::Down));
    press(&mut app, key(KeyCode::Down));
    assert_eq!(app.idx_of_now_selected, 2);
    press(&mut app, key(KeyCode::Up));
    assert_eq!(app.idx_of_now_selected, 1);
    press(&mut app, key(KeyCode::Up));
    press(&mut app, key(KeyCode::Up));
    assert_eq!(app.idx_of_now_selected, 0);
}

#[test]
fn move_down_then_up_restores_order() {
    let mut app = sample();
    press(&mut app, alt(KeyCode::Down));
    assert_eq!(children(&app, "0"), vec![s("b"), s("a"), s("c")]);
    assert_eq!(app.idx_of_now_selected, 1);
    press(&mut app, alt(KeyCode::Up));
    assert_eq!(children(&app, "0"), vec![s("a"), s("b"), s("c")]);
    assert_eq!(app.idx_of_now_selected, 0);
    press(&mut app, alt(KeyCode::Up));
    assert_eq!(children(&app, "0"), vec![s("a"), s("b"), s("c")]);
}

#[test]
fn move_down_on_empty_list_would_fail() {
    let app = App::new(Config::default());
    assert!(app.key_would_panic(&alt(KeyCode::Down)));
    assert!(!app.key_would_panic(&key(KeyCode::Down)));
}

#[test]
fn enter_then_leave() {
    let mut app = sample();
    press(&mut app, key(KeyCode::Right));
    assert_eq!(app.id_of_now_root, "a");
    assert_eq!(app.idx_of_now_selected, 0);
    assert_eq!(app.path_to_now_todo, vec![s("first")]);
    press(&mut app, key(KeyCode::Left));
    assert_eq!(app.id_of_now_root, "0");
    assert_eq!(app.idx_of_now_selected, 0);
    assert!(app.path_to_now_todo.is_empty());
    press(&mut app, key(KeyCode::Down));
    press(&mut app, key(KeyCode::Down));
    press(&mut app, key(KeyCode::Right));
    assert_eq!(app.id_of_now_root, "c");
    press(&mut app, key(KeyCode::Left));
    assert_eq!(app.idx_of_now_selected, 2);
}

#[test]
fn left_at_top_stays_at_root() {
    let mut app = sample();
    press(&mut app, key(KeyCode::Down));
    press(&mut app, key(KeyCode::Left));
    assert_eq!(app.id_of_now_root, "0");
    assert_eq!(app.idx_of_now_selected, 1);
}

#[test]
fn new_todo_by_keys() {
    let mut app = sample();
    press(&mut app, key(KeyCode::Char('n')));
    assert_eq!(app.current_screen, CurrentScreen::Editing);
    assert!(matches!(press(&mut app, key(KeyCode::Char('x'))), Action::EditText));
    assert!(matches!(press(&mut app, key(KeyCode::Enter)), Action::EditText));
    assert!(matches!(press(&mut app, key(KeyCode::Tab)), Action::Continue));
    assert_eq!(app.currently_editing, Some(CurrentlyEditing::TodoType));
    assert!(matches!(press(&mut app, key(KeyCode::Char('y'))), Action::EditType));
    let id = app.id_of_now_editing.clone();
    press(&mut app, key(KeyCode::Enter));
    assert_eq!(app.current_screen, CurrentScreen::Main);
    assert_eq!(children(&app, "0"), vec![s("a"), s("b"), s("c"), id.clone()]);
    assert_eq!(app.todos.get(&id).unwrap().text, "");
    assert_eq!(textarea_lines_of(&app.todo_type), vec![s("Todo: Todo")]);
}

#[test]
fn escape_leaves_editor() {
    let mut app = sample();
    press(&mut app, key(KeyCode::Char('e')));
    assert_eq!(app.id_of_now_editing, "a");
    press(&mut app, key(KeyCode::Esc));
    assert_eq!(app.current_screen, CurrentScreen::Main);
    assert_eq!(app.currently_editing, None);
    assert_eq!(app.todos.get(&s("a")).unwrap().text, "first");
}

#[test]
fn save_prompt() {
    let mut app = sample();
    app.loaded_file = s("old.json");
    press(&mut app, key(KeyCode::Char('s')));
    assert_eq!(app.current_screen, CurrentScreen::Exiting { for_quit: false });
    assert_eq!(app.text_input, "old.json");
    press(&mut app, key(KeyCode::Backspace));
    press(&mut app, key(KeyCode::Char('x')));
    assert_eq!(app.text_input, "old.jsox");
    match press(&mut app, key(KeyCode::Enter)) {
        Action::Save { path, for_quit } => {
            assert_eq!(path, "old.jsox");
            assert!(!for_quit);
        }
        _ => panic!("expected a save"),
    }
    assert!(!app.finish_save(true, false));
    assert_eq!(app.current_screen, CurrentScreen::Main);
}

#[test]
fn quit_prompt() {
    let mut app = sample();
    press(&mut app, key(KeyCode::Char('q')));
    assert_eq!(app.current_screen, CurrentScreen::Exiting { for_quit: true });
    assert!(matches!(press(&mut app, key(KeyCode::Enter)), Action::Quit));
    let mut app = sample();
    press(&mut app, key(KeyCode::Char('q')));
    assert!(matches!(press(&mut app, key(KeyCode::Char('q'))), Action::Quit));
    let mut app = sample();
    press(&mut app, key(KeyCode::Char('s')));
    assert!(matches!(press(&mut app, key(KeyCode::Char('q'))), Action::Continue));
    assert_eq!(app.current_screen, CurrentScreen::Main);
    let mut app = sample();
    press(&mut app, key(KeyCode::Char('q')));
    press(&mut app, key(KeyCode::Char('f')));
    assert!(matches!(press(&mut app, key(KeyCode::Enter)), Action::Save { for_quit: true, .. }));
    assert!(!app.finish_save(false, true));
    assert_eq!(app.current_screen, CurrentScreen::Exiting { for_quit: true });
    assert!(app.finish_save(true, true));
}

#[test]
fn load_prompt() {
    let mut app = sample();
    press(&mut app, key(KeyCode::Char('l')));
    assert_eq!(app.current_screen, CurrentScreen::Loading);
    for c in "f.json".chars() {
        press(&mut app, key(KeyCode::Char(c)));
    }
    match press(&mut app, key(KeyCode::Enter)) {
        Action::Load { path } => assert_eq!(path, "f.json"),
        _ => panic!("expected a load"),
    }
    app.finish_load(false);
    assert_eq!(app.current_screen, CurrentScreen::Loading);
    app.finish_load(true);
    assert_eq!(app.current_screen, CurrentScreen::Main);
}

#[test]
fn type_then_erase_restores_prompt() {
    let mut app = sample();
    press(&mut app, key(KeyCode::Char('l')));
    press(&mut app, key(KeyCode::Char('a')));
    press(&mut app, key(KeyCode::Char('b')));
    press(&mut app, key(KeyCode::Backspace));
    assert_eq!(app.text_input, "a");
    press(&mut app, key(KeyCode::Esc));
    assert_eq!(app.current_screen, CurrentScreen::Main);
}

#[test]
fn delete_by_keys() {
    let mut app = sample();
    press(&mut app, key(KeyCode::Down));
    press(&mut app, key(KeyCode::Char('d')));
    assert_eq!(app.current_screen, CurrentScreen::Deleting);
    press(&mut app, key(KeyCode::Char('y')));
    press(&mut app, key(KeyCode::Enter));
    assert_eq!(app.current_screen, CurrentScreen::Main);
    assert_eq!(children(&app, "0"), vec![s("a"), s("c")]);
    assert_eq!(app.idx_of_now_selected, 0);
}

#[test]
fn delete_refused_for_parent() {
    let mut app = sample();
    press(&mut app, key(KeyCode::Char('d')));
    press(&mut app, key(KeyCode::Char('y')));
    match press(&mut app, key(KeyCode::Enter)) {
        Action::Notify(n) => assert_eq!(n.title, "Cannot delete"),
        _ => panic!("expected a warning"),
    }
    assert_eq!(children(&app, "0"), vec![s("a"), s("b"), s("c")]);
}

#[test]
fn delete_needs_y() {
    let mut app = sample();
    press(&mut app, key(KeyCode::Char('d')));
    press(&mut app, key(KeyCode::Char('n')));
    press(&mut app, key(KeyCode::Enter));
    assert_eq!(app.current_screen, CurrentScreen::Main);
    assert_eq!(children(&app, "0").len(), 3);
}

#[test]
fn delete_on_empty_list_would_fail() {
    let mut app = App::new(Config::default());
    press(&mut app, key(KeyCode::Char('d')));
    press(&mut app, key(KeyCode::Char('y')));
    assert!(app.key_would_panic(&key(KeyCode::Enter)));
}

#[test]
fn escape_cancels_every_prompt() {
    for open in ['s', 'q', 'l', 'd'] {
        let mut app = sample();
        press(&mut app, key(KeyCode::Char(open)));
        assert_ne!(app.current_screen, CurrentScreen::Main);
        assert!(matches!(press(&mut app, key(KeyCode::Esc)), Action::Continue));
        assert_eq!(app.current_screen, CurrentScreen::Main);
        assert_eq!(children(&app, "0"), vec![s("a"), s("b"), s("c")]);
    }
}

#[test]
fn delete_last_keeps_selection_in_list() {
    let mut app = sample();
    press(&mut app, key(KeyCode::Down));
    press(&mut app, key(KeyCode::Down));
    assert_eq!(app.idx_of_now_selected, 2);
    press(&mut app, key(KeyCode::Char('d')));
    press(&mut app, key(KeyCode::Char('y')));
    press(&mut app, key(KeyCode::Enter));
    assert_eq!(children(&app, "0"), vec![s("a"), s("b")]);
    assert_eq!(app.idx_of_now_selected, 1);
    assert_eq!(app.get_id_of_now_selected(), Some(s("b")));
}

#[test]
fn moving_keeps_selection_in_list() {
    let mut app = sample();
    for _ in 0..5 {
        press(&mut app, alt(KeyCode::Down));
    }
    assert_eq!(app.idx_of_now_selected, 2);
    assert_eq!(children(&app, "0"), vec![s("b"), s("c"), s("a")]);
    for _ in 0..5 {
        press(&mut app, alt(KeyCode::Up));
    }
    assert_eq!(app.idx_of_now_selected, 0);
    assert_eq!(children(&app, "0"), vec![s("a"), s("b"), s("c")]);
}

#[test]
fn only_quit_prompt_quits() {
    let codes = [
        KeyCode::Char('q'),
        KeyCode::Char('s'),
        KeyCode::Esc,
        KeyCode::Enter,
        KeyCode::Tab,
        KeyCode::Other,
    ];
    for start in ['n', 's', 'l'] {
        for code in codes {
            let mut app = sample();
            press(&mut app, key(KeyCode::Char(start)));
            if start == 's' {
                app.text_input = String::new();
            }
            let act = press(&mut app, key(code));
            assert!(!matches!(act, Action::Quit));
            assert!(!matches!(act, Action::Save { for_quit: true, .. }));
        }
    }
    let mut app = sample();
    press(&mut app, key(KeyCode::Char('q')));
    assert!(matches!(press(&mut app, key(KeyCode::Esc)), Action::Continue));
    assert_eq!(app.current_screen, CurrentScreen::Main);
}
