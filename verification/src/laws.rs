use vstd::prelude::*;

use crate::app::{
    resolved_path, saved_todos, saved_tree, todo_edit_started, toggled, App, CurrentScreen,
    CurrentlyEditing,
};
use crate::config::Config;
use crate::control::{first_position, key_handled, key_panics, swapped, Action, KeyCode, KeyInput};
use crate::editor::{cleared_lines, lines_or_empty, textarea_lines};
use crate::save::{
    format_of_version, latest_of, latest_of_02, latest_of_03, map_views, todo_type_05,
    SaveFormat, SaveStruct04, Todo02View, Todo03View, TodoView, VersionedData,
};
use crate::text::{
    decimal, join, lemma_decimal_injective, lemma_join_split_newline, lemma_split_newline_nonempty,
    lemma_split_no_cr,
    split_newline, split_newline_strip_cr, std_lines, strip_cr, views,
};

verus! {

/// What is saved loads back: the save data of a todo manager names the current
/// format, and loading it gives back the same todos and the same tree.
pub proof fn law_saved_data_loads_back(app: App, saved: SaveStruct04)
    requires
        saved@ == (map_views(app.todos@), map_views(app.tree@), "0.5"@),
    ensures
        format_of_version(saved.version@) == Some(SaveFormat::V05),
        latest_of(VersionedData::V05(saved)).0 == map_views(app.todos@),
        latest_of(VersionedData::V05(saved)).1 == map_views(app.tree@),
{
    reveal_strlit("0.5");
    reveal_strlit("0.1");
    reveal_strlit("0.2");
    reveal_strlit("0.3");
    reveal_strlit("0.4");
    assert("0.5"@[2] != "0.1"@[2]);
    assert("0.5"@[2] != "0.2"@[2]);
    assert("0.5"@[2] != "0.3"@[2]);
    assert("0.5"@[2] != "0.4"@[2]);
}

/// Bringing 0.3 data to the current format keeps every todo under its key, with
/// its text, its id, its children and its parent.
pub proof fn law_migrating_03_keeps_todos(todos: Map<Seq<char>, Todo03View>)
    ensures
        latest_of_03(todos).0.dom() == todos.dom(),
        latest_of_03(todos).1.dom() == todos.dom(),
        forall|k: Seq<char>| #[trigger]
            todos.contains_key(k) ==> {
                &&& latest_of_03(todos).0[k].1 == todos[k].1
                &&& latest_of_03(todos).0[k].2 == todos[k].4
                &&& latest_of_03(todos).1[k] == (todos[k].2, todos[k].3, todos[k].4)
            },
{
    assert(latest_of_03(todos).0.dom() =~= todos.dom());
    assert(latest_of_03(todos).1.dom() =~= todos.dom());
}

/// Bringing numbered 0.1 or 0.2 data to the current format keeps every todo, under
/// its number written in decimal, with its text, and with its children and parent
/// written in decimal; no other key comes in, and no two todos share a key.
pub proof fn law_migrating_02_keeps_todos(todos: Map<usize, Todo02View>)
    ensures
        forall|k: usize| #[trigger]
            todos.contains_key(k) ==> {
                let s = decimal(k as nat);
                &&& latest_of_02(todos).0.contains_key(s)
                &&& latest_of_02(todos).0[s].1 == todos[k].1
                &&& latest_of_02(todos).1[s] == (
                    todos[k].2.map_values(|c: usize| decimal(c as nat)),
                    decimal(todos[k].3 as nat),
                    decimal(todos[k].4 as nat),
                )
            },
        forall|s: Seq<char>| #[trigger]
            latest_of_02(todos).0.contains_key(s) ==> exists|k: usize|
                todos.contains_key(k) && decimal(k as nat) == s,
        forall|k1: usize, k2: usize|
            k1 != k2 ==> decimal(k1 as nat) != decimal(k2 as nat),
{
    assert forall|k: usize| #[trigger] todos.contains_key(k) implies {
        let s = decimal(k as nat);
        &&& latest_of_02(todos).0.contains_key(s)
        &&& latest_of_02(todos).0[s].1 == todos[k].1
        &&& latest_of_02(todos).1[s] == (
            todos[k].2.map_values(|c: usize| decimal(c as nat)),
            decimal(todos[k].3 as nat),
            decimal(todos[k].4 as nat),
        )
    } by {
        let s = decimal(k as nat);
        assert(todos.contains_key(k) && decimal(k as nat) == s);
        let k2 = choose|k2: usize| #[trigger] todos.contains_key(k2) && decimal(k2 as nat) == s;
        lemma_decimal_injective(k as nat, k2 as nat);
    }
    assert forall|k1: usize, k2: usize| k1 != k2 implies decimal(k1 as nat) != decimal(
        k2 as nat,
    ) by {
        if decimal(k1 as nat) == decimal(k2 as nat) {
            lemma_decimal_injective(k1 as nat, k2 as nat);
        }
    }
}

/// Every todo type that the 0.5 migration gives is one of the three current
/// types, or "PROBLEM" for a type it does not know.
pub proof fn law_migrated_type_is_known(t: Seq<char>)
    ensures
        todo_type_05(t) == "Todo: Done"@ || todo_type_05(t) == "Todo: Todo"@ || todo_type_05(t)
            == "Todo: WIP"@ || todo_type_05(t) == "PROBLEM"@,
{
}

/// A project shortcut, once added, is what `$` followed by its alias resolves to.
pub proof fn law_added_project_resolves(before: Config, after: Config, alias: String, path: String)
    requires
        after.projects@ == before.projects@.insert(alias@, path),
    ensures
        resolved_path(after, seq!['$'] + alias@) == Ok::<Seq<char>, Seq<char>>(path@),
{
    let p = seq!['$'] + alias@;
    assert(p.subrange(1, p.len() as int) =~= alias@);
}

/// A path that does not start with `$` names itself, whatever the settings.
pub proof fn law_plain_path_resolves_to_itself(config: Config, path: Seq<char>)
    requires
        !(path.len() > 0 && path[0] == '$'),
    ensures
        resolved_path(config, path) == Ok::<Seq<char>, Seq<char>>(path),
{
}

/// Switching the editor field twice gives back the field that had the keys.
pub proof fn law_toggle_twice(e: Option<CurrentlyEditing>)
    requires
        e is Some,
    ensures
        toggled(toggled(e)) == e,
{
}

/// Opening the editor on a todo and saving without typing keeps the todo as it
/// was, where clearing the text editor leaves it empty (no text selection was
/// under way, or it started at the very beginning or the very end of the text),
/// the todo's text has no carriage return, and its type has no carriage return
/// and does not end in a newline.
pub proof fn law_unchanged_edit_keeps_todo(before: App, editing: App, id: Seq<char>)
    requires
        before.todos@.contains_key(id),
        todo_edit_started(before, editing, id),
        cleared_lines(before.textarea) == Some(seq![Seq::<char>::empty()]),
        !before.todos@[id].text@.contains('\r'),
        !before.todos@[id].todo_type@.contains('\r'),
        before.todos@[id].todo_type@.len() > 0 ==> before.todos@[id].todo_type@.last() != '\n',
    ensures
        saved_todos(editing) == map_views(before.todos@),
        saved_tree(editing) == map_views(before.tree@),
{
    let t = before.todos@[id];
    lemma_split_no_cr(t.text@);
    lemma_join_split_newline(t.text@);
    let ty = t.todo_type@;
    assert(join(lines_or_empty(std_lines(ty)), "\n"@) == ty) by {
        let p = split_newline(ty);
        lemma_split_no_cr(ty);
        lemma_join_split_newline(ty);
        assert forall|i: int| 0 <= i < p.len() implies strip_cr(#[trigger] p[i]) == p[i] by {
            assert(split_newline_strip_cr(ty)[i] == p[i]);
        }
        if ty.len() > 0 {
            lemma_split_newline_nonempty(ty.drop_last());
            assert(p.last().len() > 0);
            assert(p.drop_last().map_values(|x: Seq<char>| strip_cr(x)) =~= p.drop_last());
            assert(std_lines(ty) =~= p);
        } else {
            assert(std_lines(ty) =~= Seq::<Seq<char>>::empty());
            assert(ty =~= Seq::<char>::empty());
        }
    }
    assert(saved_todos(editing) =~= map_views(before.todos@));
}

/// On the main screen, entering the selected todo and leaving it again comes
/// back to the same list, selection and path, where the selected todo is the
/// child of the listed one that its node says, and is listed once before.
pub proof fn law_enter_then_leave(
    a0: App,
    a1: App,
    a2: App,
    id: Seq<char>,
    act1: Action,
    act2: Action,
    alt1: bool,
    alt2: bool,
)
    requires
        a0.current_screen == CurrentScreen::Main,
        a0.selected() == Some(id),
        a0.tree@.contains_key(id),
        a0.tree@[id].parent@ == a0.id_of_now_root@,
        a0.tree@[id].id@ == id,
        first_position(a0.root_children(), id, a0.idx_of_now_selected as int),
        key_handled(a0, KeyInput { code: KeyCode::Right, alt: alt1, released: false }, a1, act1),
        key_handled(a1, KeyInput { code: KeyCode::Left, alt: alt2, released: false }, a2, act2),
    ensures
        a2.id_of_now_root@ == a0.id_of_now_root@,
        a2.idx_of_now_selected == a0.idx_of_now_selected,
        views(a2.path_to_now_todo@) == views(a0.path_to_now_todo@),
        a2.todos == a0.todos,
        a2.tree == a0.tree,
        a2.current_screen == CurrentScreen::Main,
{
    assert(a1.root_node() == a0.tree@[id]);
    let siblings = views(a1.tree@[a1.root_node().parent@].children@);
    assert(siblings == a0.root_children());
    assert(exists|i: int| first_position(siblings, id, i));
    let j = a2.idx_of_now_selected as int;
    let i = a0.idx_of_now_selected as int;
    if j < i {
        assert(siblings[j] != id);
    } else if i < j {
        assert(siblings[i] != id);
    }
    assert(views(a2.path_to_now_todo@) =~= views(a0.path_to_now_todo@));
}

/// On the main screen, moving the selected todo down and then up again gives
/// back the same order and selection.
pub proof fn law_move_down_then_up(a0: App, a1: App, a2: App, act1: Action, act2: Action)
    requires
        a0.current_screen == CurrentScreen::Main,
        a0.tree@.contains_key(a0.id_of_now_root@),
        a0.idx_of_now_selected + 1 < a0.root_children().len(),
        key_handled(a0, KeyInput { code: KeyCode::Down, alt: true, released: false }, a1, act1),
        key_handled(a1, KeyInput { code: KeyCode::Up, alt: true, released: false }, a2, act2),
    ensures
        map_views(a2.tree@) == map_views(a0.tree@),
        a2.idx_of_now_selected == a0.idx_of_now_selected,
        a2.id_of_now_root == a0.id_of_now_root,
{
    let r = a0.id_of_now_root@;
    let i = a0.idx_of_now_selected as int;
    let n = map_views(a0.tree@)[r];
    assert(map_views(a1.tree@).contains_key(r));
    assert(a1.tree@.contains_key(r));
    assert(map_views(a1.tree@)[r] == a1.tree@[r]@);
    assert(a1.root_children() == swapped(n.0, i, i + 1));
    assert(swapped(swapped(n.0, i, i + 1), i + 1, i) =~= n.0);
    assert(map_views(a2.tree@) =~= map_views(a0.tree@));
}

/// On a prompt, typing a character and taking it back with Backspace gives back
/// the text that was there.
pub proof fn law_type_then_erase(
    a0: App,
    a1: App,
    a2: App,
    c: char,
    act1: Action,
    act2: Action,
    alt1: bool,
    alt2: bool,
)
    requires
        a0.current_screen == CurrentScreen::Loading || a0.current_screen
            == CurrentScreen::Deleting || (a0.current_screen is Exiting && c != 's' && c != 'q'),
        key_handled(a0, KeyInput { code: KeyCode::Char(c), alt: alt1, released: false }, a1, act1),
        key_handled(a1, KeyInput { code: KeyCode::Backspace, alt: alt2, released: false }, a2, act2),
    ensures
        a2.text_input@ == a0.text_input@,
        a2.current_screen == a0.current_screen,
{
    assert(a0.text_input@.push(c).drop_last() =~= a0.text_input@);
}

/// Saving a new todo makes it the last child of the listed todo, with no children
/// of its own, holding what was typed; the other todos and nodes stay as they were.
pub proof fn law_saved_new_todo_is_listed(app: App)
    requires
        app.is_new,
        app.tree@.contains_key(app.id_of_now_root@),
        app.id_of_now_root@ != app.id_of_now_editing@,
    ensures
        ({
            let root = app.id_of_now_root@;
            let e = app.id_of_now_editing@;
            &&& saved_tree(app)[root].0 == app.root_children().push(e)
            &&& saved_tree(app)[e] == (Seq::<Seq<char>>::empty(), root, e)
            &&& saved_todos(app)[e] == (
                join(textarea_lines(app.todo_type), "\n"@),
                join(textarea_lines(app.textarea), "\n"@),
                e,
            )
            &&& forall|k: Seq<char>|
                k != root && k != e ==> #[trigger] saved_tree(app).contains_key(k) == app.tree@.contains_key(k)
                    && (app.tree@.contains_key(k) ==> saved_tree(app)[k] == app.tree@[k]@)
            &&& forall|k: Seq<char>|
                k != e ==> #[trigger] saved_todos(app).contains_key(k) == app.todos@.contains_key(k)
                    && (app.todos@.contains_key(k) ==> saved_todos(app)[k] == app.todos@[k]@)
        }),
{
}

/// Esc on a prompt or in the editor goes back to the main screen, and the todos
/// and the tree stay as they were.
pub proof fn law_escape_cancels(a0: App, a1: App, act: Action, alt: bool)
    requires
        a0.current_screen != CurrentScreen::Main,
        key_handled(a0, KeyInput { code: KeyCode::Esc, alt: alt, released: false }, a1, act),
    ensures
        a1.current_screen == CurrentScreen::Main,
        a1.todos == a0.todos,
        a1.tree == a0.tree,
        act is Continue,
{
}

/// On the main screen, moving the selection or the selected todo up or down
/// keeps the selection inside the list.
pub proof fn law_moves_keep_selection_readable(a0: App, a1: App, key: KeyInput, act: Action)
    requires
        a0.current_screen == CurrentScreen::Main,
        a0.selection_readable(),
        key.code == KeyCode::Up || key.code == KeyCode::Down,
        !key_panics(a0, key),
        key_handled(a0, key, a1, act),
    ensures
        a1.selection_readable(),
        a1.root_children().len() == a0.root_children().len(),
{
    let r = a0.id_of_now_root@;
    let n = a0.root_children().len();
    let idx = a0.idx_of_now_selected;
    assert(map_views(a0.tree@)[r] == a0.tree@[r]@);
    if !key.released && key.alt && ((key.code == KeyCode::Down && idx < n - 1) || (key.code
        == KeyCode::Up && idx > 0)) {
        assert(map_views(a1.tree@).contains_key(r));
        assert(a1.tree@.contains_key(r));
        assert(map_views(a1.tree@)[r] == a1.tree@[r]@);
    }
}

/// Deleting the selected todo on the confirmation screen keeps the selection
/// inside the list, where the selected todo is not the listed one itself.
pub proof fn law_delete_keeps_selection_readable(a0: App, a1: App, act: Action, alt: bool)
    requires
        a0.current_screen == CurrentScreen::Deleting,
        a0.text_input@ == "y"@,
        a0.selection_readable(),
        a0.root_children().len() > 0,
        a0.selected()->0 != a0.id_of_now_root@,
        key_handled(a0, KeyInput { code: KeyCode::Enter, alt: alt, released: false }, a1, act),
    ensures
        a1.selection_readable(),
{
    let r = a0.id_of_now_root@;
    let id = a0.selected()->0;
    assert(map_views(a0.tree@)[r] == a0.tree@[r]@);
    if a0.tree@[id].children@.len() == 0 {
        assert(map_views(a1.tree@).contains_key(r));
        assert(a1.tree@.contains_key(r));
        assert(map_views(a1.tree@)[r] == a1.tree@[r]@);
        assert(a1.root_children().len() == a0.root_children().len() - 1);
    }
}

/// The program ends only from the prompt that asks where to save before
/// quitting: a key asks to quit, or to save and then quit, on that screen alone.
pub proof fn law_only_quit_prompt_ends(a0: App, key: KeyInput, a1: App, act: Action)
    requires
        key_handled(a0, key, a1, act),
    ensures
        act is Quit ==> a0.current_screen == (CurrentScreen::Exiting { for_quit: true }),
        (act matches Action::Save { for_quit, .. } && for_quit) ==> a0.current_screen == (
        CurrentScreen::Exiting { for_quit: true }),
{
}

/// On the prompt before quitting, 'q' ends the program at once, saving nothing;
/// on the prompt before saving, 'q' goes back to the main screen, saving nothing;
/// on either, Esc goes back to the main screen.
pub proof fn law_exit_prompt_keys(a0: App, a1: App, act: Action, c: KeyCode, alt: bool)
    requires
        a0.current_screen is Exiting,
        c == KeyCode::Char('q') || c == KeyCode::Esc,
        key_handled(a0, KeyInput { code: c, alt: alt, released: false }, a1, act),
    ensures
        (c == KeyCode::Char('q') && a0.current_screen == (CurrentScreen::Exiting {
            for_quit: true,
        })) ==> act is Quit && a1 == a0,
        (c == KeyCode::Char('q') && a0.current_screen == (CurrentScreen::Exiting {
            for_quit: false,
        })) ==> act is Continue && a1 == (App { current_screen: CurrentScreen::Main, ..a0 }),
        c == KeyCode::Esc ==> act is Continue && a1 == (App {
            current_screen: CurrentScreen::Main,
            ..a0
        }),
{
}

/// Saving the editor stores what it holds: the edited todo (new, or one that
/// exists) takes the editor's type and text, each the editor's lines joined by
/// newlines, whatever it held before; an existing todo keeps its id, a new one
/// gets the id being edited. No other todo changes.
pub proof fn law_saved_todo_takes_editor(app: App)
    requires
        app.is_new || app.todos@.contains_key(app.id_of_now_editing@),
    ensures
        ({
            let e = app.id_of_now_editing@;
            &&& saved_todos(app).contains_key(e)
            &&& saved_todos(app)[e].0 == join(textarea_lines(app.todo_type), "\n"@)
            &&& saved_todos(app)[e].1 == join(textarea_lines(app.textarea), "\n"@)
            &&& saved_todos(app)[e].2 == (if app.is_new {
                e
            } else {
                app.todos@[e].id@
            })
            &&& forall|k: Seq<char>|
                k != e ==> #[trigger] saved_todos(app).contains_key(k) == app.todos@.contains_key(k)
                    && (app.todos@.contains_key(k) ==> saved_todos(app)[k] == app.todos@[k]@)
        }),
{
}

/// On the delete confirmation, nothing is deleted unless the typed text is
/// exactly "y" and the key is Enter: any other key, or Enter after any other
/// text, leaves every todo and every node as it was.
pub proof fn law_delete_needs_y(a0: App, key: KeyInput, a1: App, act: Action)
    requires
        a0.current_screen == CurrentScreen::Deleting,
        key.code != KeyCode::Enter || a0.text_input@ != "y"@,
        key_handled(a0, key, a1, act),
    ensures
        a1.todos == a0.todos,
        a1.tree == a0.tree,
        key.code == KeyCode::Enter && !key.released ==> a1.current_screen == CurrentScreen::Main
            && act is Continue,
{
}

/// Loading data of any older version brings it to the current version 0.5, in
/// which every todo type is one of "Todo: Done", "Todo: Todo", "Todo: WIP", or
/// "PROBLEM" for a type that is not known.
pub proof fn law_loading_brings_to_current(d: VersionedData)
    requires
        !(d is V05),
    ensures
        latest_of(d).2 == "0.5"@,
        forall|k: Seq<char>| #[trigger]
            latest_of(d).0.contains_key(k) ==> {
                let t = latest_of(d).0[k].0;
                t == "Todo: Done"@ || t == "Todo: Todo"@ || t == "Todo: WIP"@ || t == "PROBLEM"@
            },
{
}

/// Loading 0.3 or 0.4 data keeps every todo under its key, with its text and id,
/// and renames its type: "Done" to "Todo: Done", "Todo" to "Todo: Todo",
/// "WorkInProgress" to "Todo: WIP".
pub proof fn law_loading_renames_types(d: VersionedData)
    requires
        d is V03 || d is V04,
    ensures
        ({
            let old_types: Map<Seq<char>, Seq<char>> = match d {
                VersionedData::V03(s) => s@.0.map_values(|t: Todo03View| t.0),
                VersionedData::V04(s) => s@.0.map_values(|t: TodoView| t.0),
                _ => Map::empty(),
            };
            &&& latest_of(d).0.dom() == old_types.dom()
            &&& forall|k: Seq<char>| #[trigger]
                old_types.contains_key(k) ==> {
                    let n = latest_of(d).0[k].0;
                    &&& old_types[k] == "Done"@ ==> n == "Todo: Done"@
                    &&& old_types[k] == "Todo"@ ==> n == "Todo: Todo"@
                    &&& old_types[k] == "WorkInProgress"@ ==> n == "Todo: WIP"@
                }
        }),
{
    reveal_strlit("Done");
    reveal_strlit("Todo");
    reveal_strlit("WorkInProgress");
    assert("Todo"@[0] != "Done"@[0]);
    assert("WorkInProgress"@[0] != "Done"@[0]);
    assert("WorkInProgress"@[0] != "Todo"@[0]);
    match d {
        VersionedData::V03(s) => {
            assert(latest_of(d).0.dom() =~= s@.0.map_values(|t: Todo03View| t.0).dom());
        },
        VersionedData::V04(s) => {
            assert(latest_of(d).0.dom() =~= s@.0.map_values(|t: TodoView| t.0).dom());
        },
        _ => {},
    }
}

/// On the main screen, 'n' opens the editor on a new todo without moving the
/// view: the listed todo, the selection, the path, the todos and the tree stay
/// as they were, and saving then adds the new todo as the last child of the
/// todo that was listed.
pub proof fn law_new_todo_stays_in_view(a0: App, a1: App, act: Action, alt: bool)
    requires
        a0.current_screen == CurrentScreen::Main,
        a0.tree@.contains_key(a0.id_of_now_root@),
        key_handled(a0, KeyInput { code: KeyCode::Char('n'), alt: alt, released: false }, a1, act),
    ensures
        a1.id_of_now_root == a0.id_of_now_root,
        a1.idx_of_now_selected == a0.idx_of_now_selected,
        a1.path_to_now_todo == a0.path_to_now_todo,
        a1.todos == a0.todos,
        a1.tree == a0.tree,
        a1.is_new,
        a1.current_screen == CurrentScreen::Editing,
        a1.id_of_now_editing@ != a0.id_of_now_root@ ==> saved_tree(a1)[a0.id_of_now_root@].0
            == a0.root_children().push(a1.id_of_now_editing@),
{
}

/// On the main screen, 's' and 'q' both open the prompt for the file to save
/// to, filled with the loaded file; 'q' marks it as the prompt before quitting.
/// Todos and tree stay as they were.
pub proof fn law_save_prompts_start_with_loaded_file(a0: App, a1: App, act: Action, c: char, alt: bool)
    requires
        a0.current_screen == CurrentScreen::Main,
        c == 'q' || c == 's',
        key_handled(a0, KeyInput { code: KeyCode::Char(c), alt: alt, released: false }, a1, act),
    ensures
        a1.text_input@ == a0.loaded_file@,
        a1.current_screen == (CurrentScreen::Exiting { for_quit: c == 'q' }),
        a1.todos == a0.todos,
        a1.tree == a0.tree,
        act is Continue,
{
}

/// With a loaded file, 'q' then Enter on the main screen asks to save to that
/// file and then quit; it does not quit without saving.
pub proof fn law_quit_saves_loaded_file(
    a0: App,
    a1: App,
    a2: App,
    act1: Action,
    act2: Action,
    alt1: bool,
    alt2: bool,
)
    requires
        a0.current_screen == CurrentScreen::Main,
        a0.loaded_file@.len() > 0,
        key_handled(a0, KeyInput { code: KeyCode::Char('q'), alt: alt1, released: false }, a1, act1),
        key_handled(a1, KeyInput { code: KeyCode::Enter, alt: alt2, released: false }, a2, act2),
    ensures
        act2 matches Action::Save { path, for_quit } && path@ == a0.loaded_file@ && for_quit,
        a2.todos == a0.todos,
        a2.tree == a0.tree,
{
}

/// On the delete confirmation, "y" and Enter delete the selected todo where it
/// has no children: it leaves the todos and the tree, and the other todos stay;
/// where it has children, nothing is deleted and a warning is asked for.
pub proof fn law_confirmed_delete_removes_leaf(a0: App, a1: App, act: Action, alt: bool)
    requires
        a0.current_screen == CurrentScreen::Deleting,
        a0.text_input@ == "y"@,
        a0.selection_readable(),
        a0.root_children().len() > 0,
        a0.tree@.contains_key(a0.selected()->0),
        a0.selected()->0 != a0.id_of_now_root@,
        key_handled(a0, KeyInput { code: KeyCode::Enter, alt: alt, released: false }, a1, act),
    ensures
        ({
            let id = a0.selected()->0;
            if a0.tree@[id].children@.len() == 0 {
                &&& !a1.todos@.contains_key(id)
                &&& !a1.tree@.contains_key(id)
                &&& forall|k: Seq<char>|
                    k != id ==> (#[trigger] a1.todos@.contains_key(k) == a0.todos@.contains_key(k))
                &&& forall|k: Seq<char>|
                    k != id ==> (#[trigger] a1.tree@.contains_key(k) == a0.tree@.contains_key(k))
            } else {
                &&& a1.todos == a0.todos
                &&& a1.tree == a0.tree
                &&& act is Notify
            }
        }),
{
    let id = a0.selected()->0;
    if a0.tree@[id].children@.len() == 0 {
        assert(map_views(a1.todos@).dom() =~= a1.todos@.dom());
        assert(map_views(a1.tree@).dom() =~= a1.tree@.dom());
        assert(map_views(a0.todos@).dom() =~= a0.todos@.dom());
        assert(map_views(a0.tree@).dom() =~= a0.tree@.dom());
        assert(!map_views(a1.todos@).contains_key(id));
        assert(!map_views(a1.tree@).contains_key(id));
        assert forall|k: Seq<char>| k != id implies (#[trigger] a1.todos@.contains_key(k)
            == a0.todos@.contains_key(k)) by {
            assert(map_views(a1.todos@).contains_key(k) == map_views(a0.todos@).contains_key(k));
        }
        assert forall|k: Seq<char>| k != id implies (#[trigger] a1.tree@.contains_key(k)
            == a0.tree@.contains_key(k)) by {
            assert(map_views(a1.tree@).contains_key(k) == map_views(a0.tree@).contains_key(k));
        }
    }
}

} // verus!
