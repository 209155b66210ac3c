use vstd::prelude::*;

use crate::app::{
    is_fresh_id, new_todo_started, todo_edit_started, App, CurrentScreen, CurrentlyEditing,
};
use crate::notifications::Notification;
use crate::save::{map_views, NodeView};
use crate::text::{push_char, views};

verus! {

/// The key of a key press, as far as the todo manager tells keys apart.
#[derive(Debug, Clone, Copy, PartialEq, Eq, Structural)]
pub enum KeyCode {
    Char(char),
    Enter,
    Esc,
    Tab,
    Backspace,
    Up,
    Down,
    Left,
    Right,
    Other,
}

/// A key event: the key, whether Alt was held, and whether the key was let go.
#[derive(Debug, Clone, Copy, PartialEq, Eq, Structural)]
pub struct KeyInput {
    pub code: KeyCode,
    pub alt: bool,
    pub released: bool,
}

/// What is left to do after a key was handled.
pub enum Action {
    /// Nothing: draw and wait for the next key.
    Continue,
    /// The program ends.
    Quit,
    /// Save to `path`, then call `finish_save` with whether that worked.
    Save { path: String, for_quit: bool },
    /// Load `path`, then call `finish_load` with whether that worked.
    Load { path: String },
    /// The key goes to the text editor.
    EditText,
    /// The key goes to the type editor.
    EditType,
    /// Show the notification.
    Notify(Notification),
}

/// `String::pop`: removes the last character of `s`, if it has one.
#[verifier::external_body]
fn pop_char(s: &mut String)
    ensures
        final(s)@ == (if old(s)@.len() > 0 {
            old(s)@.drop_last()
        } else {
            old(s)@
        }),
{
    s.pop();
}

/// `i` is the first position of `x` in `s`.
pub open spec fn first_position(s: Seq<Seq<char>>, x: Seq<char>, i: int) -> bool {
    &&& 0 <= i < s.len()
    &&& s[i] == x
    &&& forall|j: int| 0 <= j < i ==> s[j] != x
}

/// `s` with the elements at `i` and `j` swapped.
pub open spec fn swapped<T>(s: Seq<T>, i: int, j: int) -> Seq<T> {
    s.update(i, s[j]).update(j, s[i])
}

/// The tree of `app` with the children of the listed todo at `i` and `j` swapped.
pub open spec fn tree_with_swap(app: App, i: int, j: int) -> Map<Seq<char>, NodeView> {
    let r = app.id_of_now_root@;
    let n = map_views(app.tree@)[r];
    map_views(app.tree@).insert(r, (swapped(n.0, i, j), n.1, n.2))
}

/// `new` differs from `old` at most in the screen and the prompt text.
pub open spec fn only_screen_and_input(old: App, new: App) -> bool {
    new == (App { current_screen: new.current_screen, text_input: new.text_input, ..old })
}

/// Whether handling `key` on the main screen of `app` would fail: reading a
/// node, a position or a todo that is not there, or counting below zero or past
/// the largest index.
pub open spec fn main_key_panics(app: App, key: KeyInput) -> bool {
    let has_root = app.tree@.contains_key(app.id_of_now_root@);
    let n = app.root_children().len();
    let idx = app.idx_of_now_selected;
    if key.code == KeyCode::Char('e') || key.code == KeyCode::Right {
        !app.selection_readable() || (app.selected() matches Some(id) && !app.todos@.contains_key(id))
    } else if key.code == KeyCode::Down {
        if key.alt {
            !has_root || n == 0
        } else {
            !has_root || idx == usize::MAX
        }
    } else if key.code == KeyCode::Up {
        key.alt && idx > 0 && (!has_root || idx >= n)
    } else if key.code == KeyCode::Left {
        !has_root || !app.tree@.contains_key(app.root_node().parent@)
    } else {
        false
    }
}

/// Whether handling `key` on `app` would fail.
pub open spec fn key_panics(app: App, key: KeyInput) -> bool {
    if key.released {
        false
    } else {
        match app.current_screen {
            CurrentScreen::Main => main_key_panics(app, key),
            CurrentScreen::Editing => key.code == KeyCode::Enter && app.currently_editing == Some(
                CurrentlyEditing::TodoType,
            ) && app.is_new && app.id_of_now_root@ != app.id_of_now_editing@ && !app.tree@.contains_key(
                app.id_of_now_root@,
            ),
            CurrentScreen::Deleting => key.code == KeyCode::Enter && app.text_input@ == "y"@ && (
            !app.selection_readable() || app.root_children().len() == 0 || !app.tree@.contains_key(
                app.selected()->0,
            )),
            _ => false,
        }
    }
}

/// What a key does on the main screen.
pub open spec fn main_key_handled(old: App, key: KeyInput, new: App, action: Action) -> bool {
    let n = old.root_children().len();
    let idx = old.idx_of_now_selected;
    if key.code == KeyCode::Char('n') {
        &&& action is Continue
        &&& is_fresh_id(new.id_of_now_editing@)
        &&& new_todo_started(old, new, new.id_of_now_editing@)
    } else if key.code == KeyCode::Char('e') {
        &&& action is Continue
        &&& match old.selected() {
            Some(id) => todo_edit_started(old, new, id),
            None => new == old,
        }
    } else if key.code == KeyCode::Char('q') || key.code == KeyCode::Char('s') {
        &&& action is Continue
        &&& new.current_screen == CurrentScreen::Exiting {
            for_quit: key.code == KeyCode::Char('q'),
        }
        &&& new.text_input@ == old.loaded_file@
        &&& only_screen_and_input(old, new)
    } else if key.code == KeyCode::Char('l') || key.code == KeyCode::Char('d') {
        &&& action is Continue
        &&& new.current_screen == (if key.code == KeyCode::Char('l') {
            CurrentScreen::Loading
        } else {
            CurrentScreen::Deleting
        })
        &&& new.text_input@ == Seq::<char>::empty()
        &&& only_screen_and_input(old, new)
    } else if key.code == KeyCode::Down {
        &&& action is Continue
        &&& if key.alt && idx < n - 1 {
            &&& map_views(new.tree@) == tree_with_swap(old, idx as int, idx + 1)
            &&& new.idx_of_now_selected == idx + 1
            &&& new == (App {
                tree: new.tree,
                idx_of_now_selected: new.idx_of_now_selected,
                ..old
            })
        } else if !key.alt && n > idx + 1 {
            new == (App { idx_of_now_selected: (idx + 1) as usize, ..old })
        } else {
            new == old
        }
    } else if key.code == KeyCode::Up {
        &&& action is Continue
        &&& if key.alt && idx > 0 {
            &&& map_views(new.tree@) == tree_with_swap(old, idx as int, idx - 1)
            &&& new.idx_of_now_selected == idx - 1
            &&& new == (App {
                tree: new.tree,
                idx_of_now_selected: new.idx_of_now_selected,
                ..old
            })
        } else if !key.alt && idx > 0 {
            new == (App { idx_of_now_selected: (idx - 1) as usize, ..old })
        } else {
            new == old
        }
    } else if key.code == KeyCode::Right {
        &&& action is Continue
        &&& match old.selected() {
            Some(id) => {
                &&& new.id_of_now_root@ == id
                &&& new.idx_of_now_selected == 0
                &&& views(new.path_to_now_todo@) == views(old.path_to_now_todo@).push(
                    old.todos@[id].text@,
                )
                &&& new == (App {
                    id_of_now_root: new.id_of_now_root,
                    idx_of_now_selected: 0,
                    path_to_now_todo: new.path_to_now_todo,
                    ..old
                })
            },
            None => new == old,
        }
    } else if key.code == KeyCode::Left {
        let node = old.root_node();
        let siblings = views(old.tree@[node.parent@].children@);
        &&& action is Continue
        &&& new.id_of_now_root@ == node.parent@
        &&& if exists|i: int| first_position(siblings, node.id@, i) {
            first_position(siblings, node.id@, new.idx_of_now_selected as int)
        } else {
            new.idx_of_now_selected == idx
        }
        &&& views(new.path_to_now_todo@) == (if old.path_to_now_todo@.len() > 0 {
            views(old.path_to_now_todo@).drop_last()
        } else {
            views(old.path_to_now_todo@)
        })
        &&& new == (App {
            id_of_now_root: new.id_of_now_root,
            idx_of_now_selected: new.idx_of_now_selected,
            path_to_now_todo: new.path_to_now_todo,
            ..old
        })
    } else {
        action is Continue && new == old
    }
}

/// What a key does on the screen that asks for a file to save to.
pub open spec fn exiting_key_handled(
    old: App,
    for_quit: bool,
    key: KeyInput,
    new: App,
    action: Action,
) -> bool {
    if key.code == KeyCode::Enter || key.code == KeyCode::Char('s') {
        if old.text_input@.len() > 0 {
            &&& action matches Action::Save { path, for_quit: q }
            &&& path@ == old.text_input@
            &&& q == for_quit
            &&& new == old
        } else {
            &&& (if for_quit {
                action is Quit
            } else {
                action is Continue
            })
            &&& new == (App { current_screen: CurrentScreen::Main, ..old })
        }
    } else if key.code == KeyCode::Char('q') {
        if for_quit {
            action is Quit && new == old
        } else {
            action is Continue && new == (App { current_screen: CurrentScreen::Main, ..old })
        }
    } else {
        &&& action is Continue
        &&& prompt_key_handled(old, key, new)
    }
}

/// What a key does to a prompt: a character is typed, Backspace takes the last
/// one back, Esc goes back to the main screen.
pub open spec fn prompt_key_handled(old: App, key: KeyInput, new: App) -> bool {
    match key.code {
        KeyCode::Char(c) => new.text_input@ == old.text_input@.push(c) && only_screen_and_input(
            old,
            new,
        ) && new.current_screen == old.current_screen,
        KeyCode::Backspace => new.text_input@ == (if old.text_input@.len() > 0 {
            old.text_input@.drop_last()
        } else {
            old.text_input@
        }) && only_screen_and_input(old, new) && new.current_screen == old.current_screen,
        KeyCode::Esc => new == (App { current_screen: CurrentScreen::Main, ..old }),
        _ => new == old,
    }
}

/// What a key does on the screen that asks for a file to load.
pub open spec fn loading_key_handled(old: App, key: KeyInput, new: App, action: Action) -> bool {
    if key.code == KeyCode::Enter {
        &&& action matches Action::Load { path }
        &&& path@ == old.text_input@
        &&& new == old
    } else {
        &&& action is Continue
        &&& prompt_key_handled(old, key, new)
    }
}

/// What a key does in the todo editor.
pub open spec fn editing_key_handled(old: App, key: KeyInput, new: App, action: Action) -> bool {
    if key.code == KeyCode::Enter && old.currently_editing == Some(CurrentlyEditing::TodoType) {
        &&& action is Continue
        &&& map_views(new.todos@) == crate::app::saved_todos(old)
        &&& map_views(new.tree@) == crate::app::saved_tree(old)
        &&& new.text_input@ == Seq::<char>::empty()
        &&& crate::editor::textarea_lines(new.todo_type) == seq![
            crate::app::default_todo_type(),
        ]
        &&& new.currently_editing is None
        &&& new.current_screen == CurrentScreen::Main
        &&& new == (App {
            todos: new.todos,
            tree: new.tree,
            text_input: new.text_input,
            todo_type: new.todo_type,
            currently_editing: None,
            current_screen: CurrentScreen::Main,
            ..old
        })
    } else if key.code == KeyCode::Esc {
        &&& action is Continue
        &&& new == (App { current_screen: CurrentScreen::Main, currently_editing: None, ..old })
    } else if key.code == KeyCode::Tab {
        &&& action is Continue
        &&& crate::editor::textarea_lines(new.textarea) == crate::editor::textarea_lines(old.textarea)
        &&& new == (App {
            currently_editing: crate::app::toggled(old.currently_editing),
            textarea: new.textarea,
            ..old
        })
    } else {
        &&& new == old
        &&& match old.currently_editing {
            Some(CurrentlyEditing::TodoText) => action is EditText,
            Some(CurrentlyEditing::TodoType) => action is EditType,
            None => action is Continue,
        }
    }
}

/// What a key does on the screen that asks to confirm a deletion: Enter
/// deletes the selected todo where "y" was typed, and goes back to the main screen.
pub open spec fn deleting_key_handled(old: App, key: KeyInput, new: App, action: Action) -> bool {
    if key.code == KeyCode::Enter {
        if old.text_input@ == "y"@ {
            let id = old.selected()->0;
            if old.tree@[id].children@.len() > 0 {
                &&& action matches Action::Notify(note)
                &&& note.title@ == "Cannot delete"@
                &&& note.message@ == "This todo has subtodos. Delete them first."@
                &&& new == (App { current_screen: CurrentScreen::Main, ..old })
            } else {
                let root = old.id_of_now_root@;
                let idx = old.idx_of_now_selected;
                let rn = map_views(old.tree@)[root];
                &&& action is Continue
                &&& map_views(new.tree@) == map_views(old.tree@).insert(
                    root,
                    (rn.0.remove(idx as int), rn.1, rn.2),
                ).remove(id)
                &&& map_views(new.todos@) == map_views(old.todos@).remove(id)
                &&& new == (App {
                    todos: new.todos,
                    tree: new.tree,
                    idx_of_now_selected: (if idx > 0 {
                        idx - 1
                    } else {
                        0
                    }) as usize,
                    current_screen: CurrentScreen::Main,
                    ..old
                })
            }
        } else {
            action is Continue && new == (App { current_screen: CurrentScreen::Main, ..old })
        }
    } else {
        &&& action is Continue
        &&& prompt_key_handled(old, key, new)
    }
}

/// What a key does: a key that is let go does nothing; otherwise the screen decides.
pub open spec fn key_handled(old: App, key: KeyInput, new: App, action: Action) -> bool {
    if key.released {
        action is Continue && new == old
    } else {
        match old.current_screen {
            CurrentScreen::Main => main_key_handled(old, key, new, action),
            CurrentScreen::Exiting { for_quit } => exiting_key_handled(
                old,
                for_quit,
                key,
                new,
                action,
            ),
            CurrentScreen::Loading => loading_key_handled(old, key, new, action),
            CurrentScreen::Editing => editing_key_handled(old, key, new, action),
            CurrentScreen::Deleting => deleting_key_handled(old, key, new, action),
        }
    }
}

/// The first position of `x` in `v`, if it occurs.
fn position_of(v: &Vec<String>, x: &String) -> (r: Option<usize>)
    ensures
        match r {
            Some(i) => first_position(views(v@), x@, i as int),
            None => !exists|i: int| first_position(views(v@), x@, i),
        },
{
    let mut i: usize = 0;
    while i < v.len()
        invariant
            i <= v@.len(),
            forall|j: int| 0 <= j < i ==> (#[trigger] v@[j])@ != x@,
        decreases v@.len() - i,
    {
        if v[i] == *x {
            return Some(i);
        }
        i = i + 1;
    }
    proof {
        if exists|i: int| first_position(views(v@), x@, i) {
            let i = choose|i: int| first_position(views(v@), x@, i);
            assert(v@[i]@ == x@);
        }
    }
    None
}

impl App {
    /// Whether handling `key` would fail, as the checks of `handle_key` ask.
    pub fn key_would_panic(&self, key: &KeyInput) -> (r: bool)
        ensures
            r == key_panics(*self, *key),
    {
        if key.released {
            return false;
        }
        let has_root = self.tree.contains_key(&self.id_of_now_root);
        match self.current_screen {
            CurrentScreen::Main => {
                if key.code == KeyCode::Char('e') || key.code == KeyCode::Right {
                    if !has_root {
                        return true;
                    }
                    let n = self.tree.get(&self.id_of_now_root).unwrap().children.len();
                    if n > 0 && self.idx_of_now_selected >= n {
                        return true;
                    }
                    match self.get_id_of_now_selected() {
                        Some(id) => !self.todos.contains_key(&id),
                        None => false,
                    }
                } else if key.code == KeyCode::Down {
                    if !has_root {
                        return true;
                    }
                    if key.alt {
                        self.tree.get(&self.id_of_now_root).unwrap().children.len() == 0
                    } else {
                        self.idx_of_now_selected == usize::MAX
                    }
                } else if key.code == KeyCode::Up {
                    if !(key.alt && self.idx_of_now_selected > 0) {
                        return false;
                    }
                    if !has_root {
                        return true;
                    }
                    self.idx_of_now_selected >= self.tree.get(
                        &self.id_of_now_root,
                    ).unwrap().children.len()
                } else if key.code == KeyCode::Left {
                    if !has_root {
                        return true;
                    }
                    let parent = &self.tree.get(&self.id_of_now_root).unwrap().parent;
                    !self.tree.contains_key(parent)
                } else {
                    false
                }
            },
            CurrentScreen::Editing => {
                key.code == KeyCode::Enter && self.currently_editing == Some(
                    CurrentlyEditing::TodoType,
                ) && self.is_new && !(self.id_of_now_root == self.id_of_now_editing) && !has_root
            },
            CurrentScreen::Deleting => {
                if !(key.code == KeyCode::Enter && self.text_input == "y".to_owned()) {
                    return false;
                }
                if !has_root {
                    return true;
                }
                let n = self.tree.get(&self.id_of_now_root).unwrap().children.len();
                if n == 0 || self.idx_of_now_selected >= n {
                    return true;
                }
                let id = self.get_id_of_now_selected().unwrap();
                !self.tree.contains_key(&id)
            },
            _ => false,
        }
    }

    fn main_key(&mut self, key: KeyInput) -> (action: Action)
        requires
            !main_key_panics(*old(self), key),
        ensures
            main_key_handled(*old(self), key, *final(self), action),
    {
        let ghost old_app = *self;
        match key.code {
            KeyCode::Char('n') => {
                self.start_edit_of_new_todo();
            },
            KeyCode::Char('e') => {
                if let Some(id) = self.get_id_of_now_selected() {
                    self.start_edit_of_todo(id);
                }
            },
            KeyCode::Char('q') | KeyCode::Char('s') => {
                self.current_screen = CurrentScreen::Exiting {
                    for_quit: key.code == KeyCode::Char('q'),
                };
                self.text_input = self.loaded_file.clone();
            },
            KeyCode::Char('l') => {
                self.current_screen = CurrentScreen::Loading;
                self.text_input = String::new();
            },
            KeyCode::Char('d') => {
                self.current_screen = CurrentScreen::Deleting;
                self.text_input = String::new();
            },
            KeyCode::Down => {
                let n = self.tree.get(&self.id_of_now_root).unwrap().children.len();
                if key.alt {
                    if self.idx_of_now_selected < n - 1 {
                        let i = self.idx_of_now_selected;
                        self.swap_children(i, i + 1);
                        self.idx_of_now_selected = i + 1;
                    }
                } else {
                    if n > self.idx_of_now_selected + 1 {
                        self.idx_of_now_selected = self.idx_of_now_selected + 1;
                    }
                }
            },
            KeyCode::Up => {
                if key.alt {
                    if self.idx_of_now_selected > 0 {
                        let i = self.idx_of_now_selected;
                        self.swap_children(i, i - 1);
                        self.idx_of_now_selected = i - 1;
                    }
                } else {
                    if self.idx_of_now_selected > 0 {
                        self.idx_of_now_selected = self.idx_of_now_selected - 1;
                    }
                }
            },
            KeyCode::Right => {
                if let Some(id) = self.get_id_of_now_selected() {
                    let text = self.todos.get(&id).unwrap().text.clone();
                    self.id_of_now_root = id;
                    self.idx_of_now_selected = 0;
                    self.path_to_now_todo.push(text);
                    proof {
                        assert(views(self.path_to_now_todo@) =~= views(
                            old_app.path_to_now_todo@,
                        ).push(text@));
                    }
                }
            },
            KeyCode::Left => {
                let node = self.tree.get(&self.id_of_now_root).unwrap();
                let parent_id = node.parent.clone();
                let my_id = node.id.clone();
                let siblings = &self.tree.get(&parent_id).unwrap().children;
                if let Some(a) = position_of(siblings, &my_id) {
                    self.idx_of_now_selected = a;
                }
                self.id_of_now_root = parent_id;
                self.path_to_now_todo.pop();
                proof {
                    if old_app.path_to_now_todo@.len() > 0 {
                        assert(views(self.path_to_now_todo@) =~= views(
                            old_app.path_to_now_todo@,
                        ).drop_last());
                    } else {
                        assert(views(self.path_to_now_todo@) =~= views(old_app.path_to_now_todo@));
                    }
                }
            },
            _ => {},
        }
        Action::Continue
    }

    /// Swaps the children of the listed todo at `i` and `j`.
    fn swap_children(&mut self, i: usize, j: usize)
        requires
            old(self).tree@.contains_key(old(self).id_of_now_root@),
            i < old(self).root_children().len(),
            j < old(self).root_children().len(),
        ensures
            map_views(final(self).tree@) == tree_with_swap(*old(self), i as int, j as int),
            *final(self) == (App { tree: final(self).tree, ..*old(self) }),
    {
        let ghost old_app = *self;
        let root = self.id_of_now_root.clone();
        let mut node = self.tree.remove(&root).unwrap();
        let a = node.children[i].clone();
        let b = node.children[j].clone();
        node.children.set(i, b);
        node.children.set(j, a);
        proof {
            let n = map_views(old_app.tree@)[root@];
            assert(views(node.children@) =~= swapped(n.0, i as int, j as int));
        }
        self.tree.insert(root, node);
        proof {
            assert(map_views(self.tree@) =~= tree_with_swap(old_app, i as int, j as int));
        }
    }

    /// Handles a key on a prompt: a character is typed, Backspace takes the last
    /// one back, Esc goes back to the main screen.
    fn prompt_key(&mut self, key: KeyInput)
        ensures
            prompt_key_handled(*old(self), key, *final(self)),
    {
        match key.code {
            KeyCode::Char(c) => push_char(&mut self.text_input, c),
            KeyCode::Backspace => pop_char(&mut self.text_input),
            KeyCode::Esc => {
                self.current_screen = CurrentScreen::Main;
            },
            _ => {},
        }
    }

    fn exiting_key(&mut self, for_quit: bool, key: KeyInput) -> (action: Action)
        ensures
            exiting_key_handled(*old(self), for_quit, key, *final(self), action),
    {
        match key.code {
            KeyCode::Enter | KeyCode::Char('s') => {
                if !self.text_input.as_str().is_empty() {
                    Action::Save { path: self.text_input.clone(), for_quit }
                } else {
                    self.current_screen = CurrentScreen::Main;
                    if for_quit {
                        Action::Quit
                    } else {
                        Action::Continue
                    }
                }
            },
            KeyCode::Char('q') => {
                if for_quit {
                    return Action::Quit;
                }
                self.current_screen = CurrentScreen::Main;
                Action::Continue
            },
            _ => {
                self.prompt_key(key);
                Action::Continue
            },
        }
    }

    fn loading_key(&mut self, key: KeyInput) -> (action: Action)
        ensures
            loading_key_handled(*old(self), key, *final(self), action),
    {
        match key.code {
            KeyCode::Enter => Action::Load { path: self.text_input.clone() },
            _ => {
                self.prompt_key(key);
                Action::Continue
            },
        }
    }

    fn editing_key(&mut self, key: KeyInput) -> (action: Action)
        requires
            !(key.code == KeyCode::Enter && old(self).currently_editing == Some(
                CurrentlyEditing::TodoType,
            ) && old(self).is_new && old(self).id_of_now_root@ != old(self).id_of_now_editing@
                && !old(self).tree@.contains_key(old(self).id_of_now_root@)),
        ensures
            editing_key_handled(*old(self), key, *final(self), action),
    {
        if key.code == KeyCode::Enter && self.currently_editing == Some(CurrentlyEditing::TodoType) {
            self.save_todo();
            self.current_screen = CurrentScreen::Main;
            Action::Continue
        } else if key.code == KeyCode::Esc {
            self.current_screen = CurrentScreen::Main;
            self.currently_editing = None;
            Action::Continue
        } else if key.code == KeyCode::Tab {
            self.toggle_editing();
            Action::Continue
        } else {
            match self.currently_editing {
                Some(CurrentlyEditing::TodoText) => Action::EditText,
                Some(CurrentlyEditing::TodoType) => Action::EditType,
                None => Action::Continue,
            }
        }
    }

    fn deleting_key(&mut self, key: KeyInput) -> (action: Action)
        requires
            !(key.code == KeyCode::Enter && old(self).text_input@ == "y"@ && (
            !old(self).selection_readable() || old(self).root_children().len() == 0
                || !old(self).tree@.contains_key(old(self).selected()->0))),
        ensures
            deleting_key_handled(*old(self), key, *final(self), action),
    {
        match key.code {
            KeyCode::Enter => {
                let mut action = Action::Continue;
                if self.text_input == "y".to_owned() {
                    match self.delete_now_todo() {
                        Ok(()) => {},
                        Err(note) => {
                            action = Action::Notify(note);
                        },
                    }
                }
                self.current_screen = CurrentScreen::Main;
                action
            },
            _ => {
                self.prompt_key(key);
                Action::Continue
            },
        }
    }

    /// Handles one key event: changes the state as the current screen says, and
    /// tells what is left to do.
    pub fn handle_key(&mut self, key: KeyInput) -> (action: Action)
        requires
            !key_panics(*old(self), key),
        ensures
            key_handled(*old(self), key, *final(self), action),
    {
        if key.released {
            return Action::Continue;
        }
        match self.current_screen {
            CurrentScreen::Main => self.main_key(key),
            CurrentScreen::Exiting { for_quit } => self.exiting_key(for_quit, key),
            CurrentScreen::Loading => self.loading_key(key),
            CurrentScreen::Editing => self.editing_key(key),
            CurrentScreen::Deleting => self.deleting_key(key),
        }
    }

    /// After the save that `Action::Save` asked for: where it worked, back to the
    /// main screen, and the result tells whether the program ends.
    pub fn finish_save(&mut self, saved: bool, for_quit: bool) -> (quit: bool)
        ensures
            quit == (saved && for_quit),
            *final(self) == (if saved {
                App { current_screen: CurrentScreen::Main, ..*old(self) }
            } else {
                *old(self)
            }),
    {
        if saved {
            self.current_screen = CurrentScreen::Main;
            for_quit
        } else {
            false
        }
    }

    /// After the load that `Action::Load` asked for: where it worked, back to the main screen.
    pub fn finish_load(&mut self, loaded: bool)
        ensures
            *final(self) == (if loaded {
                App { current_screen: CurrentScreen::Main, ..*old(self) }
            } else {
                *old(self)
            }),
    {
        if loaded {
            self.current_screen = CurrentScreen::Main;
        }
    }
}

} // verus!
