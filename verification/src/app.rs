use vstd::prelude::*;

use crate::config::Config;
use crate::editor::{
    cleared_lines, lines_or_empty, textarea_block, textarea_clear, textarea_cursor,
    textarea_default, textarea_insert_str, textarea_lines, textarea_lines_of, textarea_move_cursor,
    textarea_new, textarea_selecting, textarea_set_titled_block, CursorTarget, TextBox,
};
use crate::keymap::StrMap;
use crate::notifications::{warning, Notification};
use crate::save::{
    detect_version, format_of_version, latest_of, map_views, migrate_to_latest, version_format,
    NodeView, OnlyVersion, SaveFormat, SaveStruct04, TodoView, VersionedData,
    VERSION_NOW,
};
use crate::text::{join, join_with, lines_of, split_newline_strip_cr, starts_with_dollar, std_lines, views};
use crate::todo::{Id, Todo, TodoNode};

verus! {

/// The screen the user is looking at, which decides what is drawn and what keys do.
#[derive(Debug, Clone, Copy, PartialEq, Eq, Structural)]
pub enum CurrentScreen {
    Main,
    Editing,
    /// Asking for the file to save to; `for_quit` when the program ends after saving.
    Exiting { for_quit: bool },
    Loading,
    Deleting,
}

/// Which field of the todo editor has the keys.
#[derive(Debug, Clone, Copy, PartialEq, Eq, Structural)]
pub enum CurrentlyEditing {
    TodoText,
    TodoType,
}

/// The state of the todo manager.
pub struct App {
    /// The editor of the type of the todo being edited.
    pub todo_type: TextBox,
    pub all_todo_types: Vec<String>,
    /// What is typed in the prompts for a file name and for the delete confirmation.
    pub text_input: String,
    pub current_screen: CurrentScreen,
    pub currently_editing: Option<CurrentlyEditing>,
    /// The todo whose children are listed.
    pub id_of_now_root: Id,
    /// The position of the selected child in that list.
    pub idx_of_now_selected: usize,
    pub id_of_now_editing: Id,
    pub todos: StrMap<Todo>,
    pub tree: StrMap<TodoNode>,
    /// Whether the todo being edited is a new one.
    pub is_new: bool,
    pub config: Config,
    pub loaded_file: String,
    /// The texts of the todos entered from the top, one per level.
    pub path_to_now_todo: Vec<String>,
    /// The editor of the text of the todo being edited.
    pub textarea: TextBox,
}

/// Whether `c` is one of the characters of the identifiers of new todos.
pub open spec fn is_id_char(c: char) -> bool {
    ||| c == '_'
    ||| c == '-'
    ||| ('0' as int) <= (c as int) <= ('9' as int)
    ||| ('a' as int) <= (c as int) <= ('z' as int)
    ||| ('A' as int) <= (c as int) <= ('Z' as int)
}

/// Whether `s` has the shape of the identifier of a new todo: 21 such characters.
pub open spec fn is_fresh_id(s: Seq<char>) -> bool {
    s.len() == 21 && forall|i: int| 0 <= i < s.len() ==> is_id_char(#[trigger] s[i])
}

/// `nanoid::format` with the default random source, the URL-safe alphabet and
/// length 21, as `nanoid!()` calls it: a random identifier of 21 characters
/// from that alphabet. Which identifier comes out is chance, and unstated.
#[verifier::external_body]
fn new_todo_id() -> (r: String)
    ensures
        is_fresh_id(r@),
{
    nanoid::format(nanoid::rngs::default, &nanoid::alphabet::SAFE, 21)
}

/// The todo type that a new todo starts with.
pub open spec fn default_todo_type() -> Seq<char> {
    "Todo: Todo"@
}

/// The todo types offered.
pub open spec fn all_todo_types_list() -> Seq<Seq<char>> {
    seq!["Todo: Todo"@, "Todo: Done"@, "Todo: WIP"@]
}

/// `new` and `old` hold the same todos, tree, view, settings and file.
pub open spec fn keeps_data(old: App, new: App) -> bool {
    &&& new.all_todo_types == old.all_todo_types
    &&& new.id_of_now_root == old.id_of_now_root
    &&& new.idx_of_now_selected == old.idx_of_now_selected
    &&& new.todos == old.todos
    &&& new.tree == old.tree
    &&& new.config == old.config
    &&& new.loaded_file == old.loaded_file
    &&& new.path_to_now_todo == old.path_to_now_todo
}

/// `new` is `old` with the editor opened on a new todo with identifier `id`. The
/// text editor holds what clearing it leaves (one empty line, unless a selection
/// was under way, see `lines_after_clear`), with the cursor at the start.
pub open spec fn new_todo_started(old: App, new: App, id: Seq<char>) -> bool {
    &&& new.is_new
    &&& new.current_screen == CurrentScreen::Editing
    &&& new.currently_editing == Some(CurrentlyEditing::TodoText)
    &&& new.text_input@ == Seq::<char>::empty()
    &&& textarea_lines(new.todo_type) == seq![default_todo_type()]
    &&& new.id_of_now_editing@ == id
    &&& cleared_lines(old.textarea) matches Some(l) ==> textarea_lines(new.textarea) == l
    &&& !textarea_selecting(new.textarea)
    &&& textarea_cursor(new.textarea) == (0nat, 0nat)
    &&& textarea_block(new.textarea) == textarea_block(old.textarea)
    &&& keeps_data(old, new)
}

/// `new` is `old` with the editor opened on the todo `id`, which `old` holds. The
/// text editor holds the todo's text where clearing it leaves one empty line
/// (see `lines_after_clear`), with the cursor at the start.
pub open spec fn todo_edit_started(old: App, new: App, id: Seq<char>) -> bool {
    let t = old.todos@[id];
    &&& !new.is_new
    &&& new.current_screen == CurrentScreen::Editing
    &&& new.currently_editing == Some(CurrentlyEditing::TodoText)
    &&& new.text_input@ == t.text@
    &&& textarea_lines(new.todo_type) == lines_or_empty(std_lines(t.todo_type@))
    &&& new.id_of_now_editing@ == id
    &&& cleared_lines(old.textarea) == Some(seq![Seq::<char>::empty()]) ==> textarea_lines(
        new.textarea,
    ) == split_newline_strip_cr(t.text@)
    &&& !textarea_selecting(new.textarea)
    &&& textarea_cursor(new.textarea) == (0nat, 0nat)
    &&& textarea_block(new.textarea) == textarea_block(old.textarea)
    &&& keeps_data(old, new)
}

/// The field of the editor that has the keys after switching from `e`.
pub open spec fn toggled(e: Option<CurrentlyEditing>) -> Option<CurrentlyEditing> {
    match e {
        Some(CurrentlyEditing::TodoText) => Some(CurrentlyEditing::TodoType),
        Some(CurrentlyEditing::TodoType) => Some(CurrentlyEditing::TodoText),
        None => Some(CurrentlyEditing::TodoText),
    }
}

/// The todos after `save_todo` on `old`.
pub open spec fn saved_todos(old: App) -> Map<Seq<char>, TodoView> {
    let e = old.id_of_now_editing@;
    let todos1 = if old.is_new {
        map_views(old.todos@).insert(e, (default_todo_type(), Seq::<char>::empty(), e))
    } else {
        map_views(old.todos@)
    };
    if todos1.contains_key(e) {
        todos1.insert(
            e,
            (
                join(textarea_lines(old.todo_type), "\n"@),
                join(textarea_lines(old.textarea), "\n"@),
                todos1[e].2,
            ),
        )
    } else {
        todos1
    }
}

/// The tree after `save_todo` on `old`.
pub open spec fn saved_tree(old: App) -> Map<Seq<char>, NodeView> {
    let e = old.id_of_now_editing@;
    let r = old.id_of_now_root@;
    if old.is_new {
        let tree1 = map_views(old.tree@).insert(e, (Seq::<Seq<char>>::empty(), r, e));
        tree1.insert(r, (tree1[r].0.push(e), tree1[r].1, tree1[r].2))
    } else {
        map_views(old.tree@)
    }
}

/// What `resolve_path` gives for `path`: a path that starts with `$` names a
/// project by its alias, the part after the `$`, and stands for the path that the
/// settings give that alias; where they give none, it is an error ("No Project "
/// and the path as typed). Any other path names itself.
pub open spec fn resolved_path(config: Config, path: Seq<char>) -> Result<Seq<char>, Seq<char>> {
    if path.len() > 0 && path[0] == '$' {
        let alias = path.subrange(1, path.len() as int);
        if config.projects@.contains_key(alias) {
            Ok(config.projects@[alias]@)
        } else {
            Err("No Project "@ + path)
        }
    } else {
        Ok(path)
    }
}

/// The warning shown when the path of a file to load does not resolve.
pub fn unresolved_path_warning(raw: &str) -> (r: Notification)
    ensures
        r.level == crate::notifications::NotificationLevel::Warning,
        r.title@ == "Path error"@,
        r.message@ == "Could not resolve '"@ + raw@ + "'"@,
{
    let mut message = "Could not resolve '".to_owned();
    message.append(raw);
    message.append("'");
    warning("Path error", message.as_str())
}

impl App {
    /// The node of the todo whose children are listed.
    pub open spec fn root_node(self) -> TodoNode {
        self.tree@[self.id_of_now_root@]
    }

    /// The ids of the listed todos.
    pub open spec fn root_children(self) -> Seq<Seq<char>> {
        views(self.root_node().children@)
    }

    /// The id of the selected todo, where the list is not empty.
    pub open spec fn selected(self) -> Option<Seq<char>> {
        if self.root_children().len() == 0 {
            None
        } else {
            Some(self.root_children()[self.idx_of_now_selected as int])
        }
    }

    /// Whether the listed todos and the selection can be read: the node of the
    /// listed todo exists and the selection is inside its children.
    pub open spec fn selection_readable(self) -> bool {
        &&& self.tree@.contains_key(self.id_of_now_root@)
        &&& self.root_children().len() > 0 ==> self.idx_of_now_selected < self.root_children().len()
    }

    /// A new todo manager, with the given settings, that holds the root todo alone.
    pub fn new(config: Config) -> (r: App)
        ensures
            map_views(r.todos@) == map![
                "0"@ => ("Todo: Done"@, "RootOfAll 1"@, "0"@),
            ],
            map_views(r.tree@) == map!["0"@ => (Seq::<Seq<char>>::empty(), "0"@, "0"@)],
            views(r.all_todo_types@) == all_todo_types_list(),
            r.text_input@ == Seq::<char>::empty(),
            textarea_lines(r.todo_type) == seq![default_todo_type()],
            r.current_screen == CurrentScreen::Main,
            r.currently_editing is None,
            r.id_of_now_root@ == "0"@,
            r.id_of_now_editing@ == "0"@,
            r.idx_of_now_selected == 0,
            !r.is_new,
            r.config == config,
            r.loaded_file@ == Seq::<char>::empty(),
            r.path_to_now_todo@.len() == 0,
            textarea_lines(r.textarea) == seq![Seq::<char>::empty()],
            !textarea_selecting(r.textarea),
            textarea_cursor(r.textarea) == (0nat, 0nat),
            textarea_block(r.textarea) is None,
    {
        let mut hash: StrMap<Todo> = StrMap::new();
        let mut tree: StrMap<TodoNode> = StrMap::new();
        let root_id: String = "0".to_owned();
        hash.insert(root_id.clone(), Todo::make_root());
        tree.insert(root_id.clone(), TodoNode::make_root());
        let mut all_todo_types: Vec<String> = Vec::new();
        all_todo_types.push("Todo: Todo".to_owned());
        all_todo_types.push("Todo: Done".to_owned());
        all_todo_types.push("Todo: WIP".to_owned());
        let mut type_lines: Vec<String> = Vec::new();
        type_lines.push("Todo: Todo".to_owned());
        let r = App {
            text_input: String::new(),
            all_todo_types,
            todo_type: textarea_new(type_lines),
            current_screen: CurrentScreen::Main,
            currently_editing: None,
            id_of_now_root: root_id.clone(),
            id_of_now_editing: root_id,
            idx_of_now_selected: 0,
            todos: hash,
            tree,
            is_new: false,
            config,
            loaded_file: String::new(),
            path_to_now_todo: Vec::new(),
            textarea: textarea_default(),
        };
        proof {
            assert(map_views(r.todos@) =~= map!["0"@ => ("Todo: Done"@, "RootOfAll 1"@, "0"@)]);
            assert(views(r.tree@["0"@].children@) =~= Seq::<Seq<char>>::empty());
            assert(map_views(r.tree@) =~= map![
                "0"@ => (Seq::<Seq<char>>::empty(), "0"@, "0"@),
            ]);
            assert(views(r.all_todo_types@) =~= all_todo_types_list());
            assert(views(type_lines@) =~= seq![default_todo_type()]);
        }
        r
    }

    /// Clears the text editor and puts `text` in it, with the cursor at its start.
    /// With a selection under way, clearing deletes only the text up to where the
    /// selection started (see `lines_after_clear`); the selection ends either way.
    fn reset_textarea(&mut self, text: &str)
        ensures
            cleared_lines(old(self).textarea) == Some(seq![Seq::<char>::empty()])
                ==> textarea_lines(final(self).textarea) == split_newline_strip_cr(text@),
            text@.len() == 0 ==> (cleared_lines(old(self).textarea) matches Some(l)
                ==> textarea_lines(final(self).textarea) == l),
            !textarea_selecting(final(self).textarea),
            textarea_cursor(final(self).textarea) == (0nat, 0nat),
            textarea_block(final(self).textarea) == textarea_block(old(self).textarea),
            final(self).todo_type == old(self).todo_type,
            final(self).all_todo_types == old(self).all_todo_types,
            final(self).text_input == old(self).text_input,
            final(self).current_screen == old(self).current_screen,
            final(self).currently_editing == old(self).currently_editing,
            final(self).id_of_now_root == old(self).id_of_now_root,
            final(self).idx_of_now_selected == old(self).idx_of_now_selected,
            final(self).id_of_now_editing == old(self).id_of_now_editing,
            final(self).todos == old(self).todos,
            final(self).tree == old(self).tree,
            final(self).is_new == old(self).is_new,
            final(self).config == old(self).config,
            final(self).loaded_file == old(self).loaded_file,
            final(self).path_to_now_todo == old(self).path_to_now_todo,
    {
        let ghost before = self.textarea;
        textarea_clear(&mut self.textarea);
        proof {
            if text@.len() == 0 {
                assert(text@ =~= Seq::<char>::empty());
                assert(split_newline_strip_cr(text@) =~= seq![Seq::<char>::empty()]);
            }
        }
        textarea_insert_str(&mut self.textarea, text);
        textarea_move_cursor(&mut self.textarea, CursorTarget::Top);
        textarea_move_cursor(&mut self.textarea, CursorTarget::Head);
    }

    /// Opens the editor on a new todo with the identifier `id`.
    pub fn start_edit_of_new_todo_with_id(&mut self, id: Id)
        ensures
            new_todo_started(*old(self), *final(self), id@),
    {
        self.is_new = true;
        self.current_screen = CurrentScreen::Editing;
        self.currently_editing = Some(CurrentlyEditing::TodoText);
        self.text_input = String::new();
        let mut type_lines: Vec<String> = Vec::new();
        type_lines.push("Todo: Todo".to_owned());
        proof {
            assert(views(type_lines@) =~= seq![default_todo_type()]);
        }
        self.todo_type = textarea_new(type_lines);
        self.id_of_now_editing = id;
        let text = self.text_input.clone();
        self.reset_textarea(text.as_str());
        proof {
            assert(split_newline_strip_cr(Seq::<char>::empty()) =~= seq![Seq::<char>::empty()]);
        }
    }

    /// Opens the editor on a new todo, with a fresh random identifier.
    pub fn start_edit_of_new_todo(&mut self)
        ensures
            is_fresh_id(final(self).id_of_now_editing@),
            new_todo_started(*old(self), *final(self), final(self).id_of_now_editing@),
    {
        let id = new_todo_id();
        self.start_edit_of_new_todo_with_id(id);
    }

    /// Opens the editor on the todo `id`.
    pub fn start_edit_of_todo(&mut self, id: Id)
        requires
            old(self).todos@.contains_key(id@),
        ensures
            todo_edit_started(*old(self), *final(self), id@),
    {
        let t = self.todos.get(&id).unwrap();
        let text = t.text.clone();
        let todo_type = t.todo_type.clone();
        self.is_new = false;
        self.current_screen = CurrentScreen::Editing;
        self.currently_editing = Some(CurrentlyEditing::TodoText);
        self.text_input = text;
        self.todo_type = textarea_new(lines_of(todo_type.as_str()));
        self.id_of_now_editing = id;
        let text = self.text_input.clone();
        self.reset_textarea(text.as_str());
    }

    /// Stores what the editor holds: a new todo is first added as a child of the
    /// listed todo; the edited todo then takes the editor's text and type, their
    /// lines joined by newlines. The editor is reset and closed.
    pub fn save_todo(&mut self)
        requires
            old(self).is_new ==> old(self).id_of_now_root@ == old(self).id_of_now_editing@
                || old(self).tree@.contains_key(old(self).id_of_now_root@),
        ensures
            map_views(final(self).todos@) == saved_todos(*old(self)),
            map_views(final(self).tree@) == saved_tree(*old(self)),
            final(self).text_input@ == Seq::<char>::empty(),
            textarea_lines(final(self).todo_type) == seq![default_todo_type()],
            final(self).currently_editing is None,
            final(self).is_new == old(self).is_new,
            final(self).current_screen == old(self).current_screen,
            final(self).textarea == old(self).textarea,
            final(self).id_of_now_editing == old(self).id_of_now_editing,
            final(self).all_todo_types == old(self).all_todo_types,
            final(self).id_of_now_root == old(self).id_of_now_root,
            final(self).idx_of_now_selected == old(self).idx_of_now_selected,
            final(self).config == old(self).config,
            final(self).loaded_file == old(self).loaded_file,
            final(self).path_to_now_todo == old(self).path_to_now_todo,
    {
        let ghost old_app = *self;
        let editing = self.id_of_now_editing.clone();
        let root = self.id_of_now_root.clone();
        if self.is_new {
            self.tree.insert(
                editing.clone(),
                TodoNode::new(editing.clone(), root.clone(), Vec::new()),
            );
            self.todos.insert(
                editing.clone(),
                Todo::new(String::new(), "Todo: Todo".to_owned(), editing.clone()),
            );
        }
        let ghost tree1 = map_views(self.tree@);
        let ghost todos1 = map_views(self.todos@);
        proof {
            if old_app.is_new {
                assert(views(self.tree@[editing@].children@) =~= Seq::<Seq<char>>::empty());
                assert(tree1 =~= map_views(old_app.tree@).insert(
                    editing@,
                    (Seq::<Seq<char>>::empty(), root@, editing@),
                ));
                assert(todos1 =~= map_views(old_app.todos@).insert(
                    editing@,
                    (default_todo_type(), Seq::<char>::empty(), editing@),
                ));
            } else {
                assert(tree1 =~= map_views(old_app.tree@));
                assert(todos1 =~= map_views(old_app.todos@));
            }
        }
        match self.todos.remove(&editing) {
            Some(mut refer) => {
                refer.text = join_with(&textarea_lines_of(&self.textarea), "\n");
                refer.todo_type = join_with(&textarea_lines_of(&self.todo_type), "\n");
                self.todos.insert(editing.clone(), refer);
                proof {
                    assert(map_views(self.todos@) =~= saved_todos(old_app));
                }
            },
            None => {
                proof {
                    assert(map_views(self.todos@) =~= saved_todos(old_app));
                }
            },
        }
        if self.is_new {
            let mut node = self.tree.remove(&root).unwrap();
            node.children.push(editing.clone());
            proof {
                assert(views(node.children@) =~= tree1[root@].0.push(editing@));
            }
            self.tree.insert(root.clone(), node);
            proof {
                assert(map_views(self.tree@) =~= saved_tree(old_app));
            }
        } else {
            proof {
                assert(map_views(self.tree@) =~= saved_tree(old_app));
            }
        }
        self.text_input = String::new();
        let mut type_lines: Vec<String> = Vec::new();
        type_lines.push("Todo: Todo".to_owned());
        proof {
            assert(views(type_lines@) =~= seq![default_todo_type()]);
        }
        self.todo_type = textarea_new(type_lines);
        self.currently_editing = None;
    }

    /// Switches the editor between the text and the type field; where the editor
    /// was closed, it opens on the text field, which is framed and titled "Text".
    pub fn toggle_editing(&mut self)
        ensures
            textarea_lines(final(self).textarea) == textarea_lines(old(self).textarea),
            textarea_selecting(final(self).textarea) == textarea_selecting(old(self).textarea),
            textarea_cursor(final(self).textarea) == textarea_cursor(old(self).textarea),
            old(self).currently_editing is None ==> textarea_block(final(self).textarea) == Some(
                (true, "Text"@),
            ),
            final(self).currently_editing == toggled(old(self).currently_editing),
            *final(self) == (App {
                currently_editing: final(self).currently_editing,
                textarea: final(self).textarea,
                ..*old(self)
            }),
            old(self).currently_editing is Some ==> final(self).textarea == old(self).textarea,
    {
        match self.currently_editing {
            Some(CurrentlyEditing::TodoText) => {
                self.currently_editing = Some(CurrentlyEditing::TodoType);
            },
            Some(CurrentlyEditing::TodoType) => {
                self.currently_editing = Some(CurrentlyEditing::TodoText);
            },
            None => {
                textarea_set_titled_block(&mut self.textarea, "Text");
                self.currently_editing = Some(CurrentlyEditing::TodoText);
            },
        }
    }

    /// The id of the selected todo, or `None` where the listed todo has no children.
    pub fn get_id_of_now_selected(&self) -> (r: Option<Id>)
        requires
            self.selection_readable(),
        ensures
            match r {
                Some(id) => self.selected() == Some(id@),
                None => self.selected() is None,
            },
    {
        let node = self.tree.get(&self.id_of_now_root).unwrap();
        if node.children.len() == 0 {
            None
        } else {
            Some(node.children[self.idx_of_now_selected].clone())
        }
    }

    /// The file that `path` names: a path that starts with `$` names a project by
    /// its alias, the part after the `$`, and stands for the path the settings give
    /// it; it is an error ("No Project " and the path) where there is no such project.
    pub fn resolve_path(&self, path: String) -> (r: Result<String, String>)
        ensures
            match resolved_path(self.config, path@) {
                Ok(p) => r is Ok && r->Ok_0@ == p,
                Err(e) => r is Err && r->Err_0@ == e,
            },
    {
        if starts_with_dollar(path.as_str()) {
            let n: usize = path.as_str().unicode_len();
            let alias: &str = path.as_str().substring_char(1, n);
            match self.config.get_project(alias) {
                Some(s) => Ok(s.clone()),
                None => {
                    let mut e = "No Project ".to_owned();
                    e.append(path.as_str());
                    Err(e)
                },
            }
        } else {
            Ok(path)
        }
    }

    /// Resolves the file to save to and remembers it as the loaded file; the
    /// result is the resolved path, or the error of resolving, in which case
    /// nothing changes.
    pub fn prepare_save(&mut self, path: String) -> (r: Result<String, String>)
        ensures
            match resolved_path(old(self).config, path@) {
                Ok(p) => r is Ok && r->Ok_0@ == p && final(self).loaded_file@ == p
                    && *final(self) == (App { loaded_file: final(self).loaded_file, ..*old(self) }),
                Err(e) => r is Err && r->Err_0@ == e && *final(self) == *old(self),
            },
    {
        match self.resolve_path(path) {
            Ok(p) => {
                self.loaded_file = p.clone();
                Ok(p)
            },
            Err(e) => Err(e),
        }
    }

    /// What is saved: the todos and the tree, in the current format.
    pub fn save_snapshot(&self) -> (r: SaveStruct04)
        ensures
            r@ == (map_views(self.todos@), map_views(self.tree@), "0.5"@),
    {
        let todos = self.todos.clone();
        let tree = self.tree.clone();
        proof {
            assert(map_views(todos@) =~= map_views(self.todos@));
            assert(map_views(tree@) =~= map_views(self.tree@));
        }
        SaveStruct04 { todos, tree, version: VERSION_NOW.to_owned() }
    }

    /// Resolves the file to load and remembers it as the loaded file; the result
    /// is the resolved path, or the error of resolving, in which case nothing changes.
    pub fn prepare_load(&mut self, path: String) -> (r: Result<String, String>)
        ensures
            match resolved_path(old(self).config, path@) {
                Ok(p) => r is Ok && r->Ok_0@ == p && final(self).loaded_file@ == p
                    && *final(self) == (App { loaded_file: final(self).loaded_file, ..*old(self) }),
                Err(e) => r is Err && r->Err_0@ == e && *final(self) == *old(self),
            },
    {
        self.prepare_save(path)
    }

    /// Goes to the top of the tree to read a save file, and tells the format that
    /// the file's version names: `meta` is what the file reads as in the shape of
    /// `OnlyVersion`, if it does.
    pub fn read_version(&mut self, contents: &str, meta: Option<OnlyVersion>) -> (r: Result<
        SaveFormat,
        String,
    >)
        ensures
            final(self).id_of_now_root@ == "0"@,
            final(self).idx_of_now_selected == 0,
            *final(self) == (App {
                id_of_now_root: final(self).id_of_now_root,
                idx_of_now_selected: 0,
                ..*old(self)
            }),
            match meta {
                Some(m) => match format_of_version(m.version@) {
                    Some(f) => r == Ok::<SaveFormat, String>(f),
                    None => r is Err && r->Err_0@ == "Version is corrupted"@,
                },
                None => if crate::save::parses_as_json(contents@) {
                    r == Ok::<SaveFormat, String>(SaveFormat::V01)
                } else {
                    r is Err && r->Err_0@ == "File is not valid JSON"@
                },
            },
    {
        self.id_of_now_root = "0".to_owned();
        self.idx_of_now_selected = 0;
        match detect_version(contents, meta) {
            Ok(v) => version_format(v.as_str()),
            Err(e) => Err(e),
        }
    }

    /// Takes the todos and the tree of a save file, brought to the current format.
    pub fn install_loaded(&mut self, data: VersionedData)
        ensures
            map_views(final(self).todos@) == latest_of(data).0,
            map_views(final(self).tree@) == latest_of(data).1,
            *final(self) == (App { todos: final(self).todos, tree: final(self).tree, ..*old(self) }),
    {
        let save = migrate_to_latest(data);
        self.todos = save.todos;
        self.tree = save.tree;
    }

    /// Deletes the selected todo, which is refused, with a warning, where it has
    /// children. The selection moves up by one, unless it is at the top.
    pub fn delete_now_todo(&mut self) -> (r: Result<(), Notification>)
        requires
            old(self).selection_readable(),
            old(self).root_children().len() > 0,
            old(self).tree@.contains_key(old(self).selected()->0),
        ensures
            ({
                let id = old(self).selected()->0;
                let root = old(self).id_of_now_root@;
                let idx = old(self).idx_of_now_selected;
                if old(self).tree@[id].children@.len() > 0 {
                    &&& r is Err
                    &&& r->Err_0.title@ == "Cannot delete"@
                    &&& r->Err_0.message@ == "This todo has subtodos. Delete them first."@
                    &&& r->Err_0.level == crate::notifications::NotificationLevel::Warning
                    &&& *final(self) == *old(self)
                } else {
                    let rn = map_views(old(self).tree@)[root];
                    &&& r is Ok
                    &&& map_views(final(self).tree@) == map_views(old(self).tree@).insert(
                        root,
                        (rn.0.remove(idx as int), rn.1, rn.2),
                    ).remove(id)
                    &&& map_views(final(self).todos@) == map_views(old(self).todos@).remove(id)
                    &&& final(self).idx_of_now_selected == (if idx > 0 {
                        idx - 1
                    } else {
                        0
                    })
                    &&& *final(self) == (App {
                        todos: final(self).todos,
                        tree: final(self).tree,
                        idx_of_now_selected: final(self).idx_of_now_selected,
                        ..*old(self)
                    })
                }
            }),
    {
        let ghost old_app = *self;
        let id = self.get_id_of_now_selected().unwrap();
        let has_children = self.tree.get(&id).unwrap().children.len() > 0;
        if has_children {
            return Err(warning("Cannot delete", "This todo has subtodos. Delete them first."));
        }
        let root = self.id_of_now_root.clone();
        let mut root_node = self.tree.remove(&root).unwrap();
        let ghost rn = root_node@;
        root_node.children.remove(self.idx_of_now_selected);
        proof {
            assert(views(root_node.children@) =~= rn.0.remove(old_app.idx_of_now_selected as int));
        }
        self.tree.insert(root, root_node);
        if self.idx_of_now_selected > 0 {
            self.idx_of_now_selected = self.idx_of_now_selected - 1;
        }
        self.todos.remove(&id);
        self.tree.remove(&id);
        proof {
            assert(map_views(self.tree@) =~= map_views(old_app.tree@).insert(
                old_app.id_of_now_root@,
                (rn.0.remove(old_app.idx_of_now_selected as int), rn.1, rn.2),
            ).remove(id@));
            assert(map_views(self.todos@) =~= map_views(old_app.todos@).remove(id@));
        }
        Ok(())
    }
}

} // verus!
