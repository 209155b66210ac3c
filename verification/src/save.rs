use vstd::prelude::*;

use crate::keymap::{entries_model, NumMap, StrMap};
use crate::text::{decimal, decimal_string, lemma_decimal_injective, views};
use crate::todo::{Todo, Todo03, TodoNode};

verus! {

/// The values of a map, each taken by its view.
pub open spec fn map_views<K, V: View>(m: Map<K, V>) -> Map<K, V::V> {
    m.map_values(|v: V| v@)
}

/// A todo as the 0.1 and 0.2 save formats store it: numbered, with its place in the tree.
#[derive(Debug)]
pub struct Todo02 {
    pub todo_type: String,
    pub text: String,
    pub children: Vec<usize>,
    pub parent: usize,
    pub id: usize,
}

/// (type, text, children, parent, id)
pub type Todo02View = (Seq<char>, Seq<char>, Seq<usize>, usize, usize);

/// (type, text, children, parent, id)
pub type Todo03View = (Seq<char>, Seq<char>, Seq<Seq<char>>, Seq<char>, Seq<char>);

/// (type, text, id)
pub type TodoView = (Seq<char>, Seq<char>, Seq<char>);

/// (children, parent, id)
pub type NodeView = (Seq<Seq<char>>, Seq<char>, Seq<char>);

/// (todos, tree, version)
pub type Save04View = (Map<Seq<char>, TodoView>, Map<Seq<char>, NodeView>, Seq<char>);

impl View for Todo02 {
    type V = Todo02View;

    open spec fn view(&self) -> Todo02View {
        (self.todo_type@, self.text@, self.children@, self.parent, self.id)
    }
}

/// The 0.2 save format.
pub struct SaveStruct02 {
    pub todos: NumMap<Todo02>,
    pub version: String,
}

/// The 0.3 save format.
pub struct SaveStruct03 {
    pub todos: StrMap<Todo03>,
    pub version: String,
}

/// The 0.4 save format, which 0.5 shares.
pub struct SaveStruct04 {
    pub todos: StrMap<Todo>,
    pub tree: StrMap<TodoNode>,
    pub version: String,
}

/// The save format that is written now.
pub type SaveStruct = SaveStruct04;

/// What the front of any save file is read as: its version alone.
pub struct OnlyVersion {
    pub version: String,
}

impl View for SaveStruct02 {
    type V = (Map<usize, Todo02View>, Seq<char>);

    open spec fn view(&self) -> (Map<usize, Todo02View>, Seq<char>) {
        (map_views(self.todos@), self.version@)
    }
}

impl View for SaveStruct03 {
    type V = (Map<Seq<char>, Todo03View>, Seq<char>);

    open spec fn view(&self) -> (Map<Seq<char>, Todo03View>, Seq<char>) {
        (map_views(self.todos@), self.version@)
    }
}

impl View for SaveStruct04 {
    type V = Save04View;

    open spec fn view(&self) -> Save04View {
        (map_views(self.todos@), map_views(self.tree@), self.version@)
    }
}

/// A save file as read, in the format that its version names.
pub enum VersionedData {
    V01(NumMap<Todo02>),
    V02(SaveStruct02),
    V03(SaveStruct03),
    V04(SaveStruct04),
    V05(SaveStruct04),
}

/// The version that `save` writes.
pub const VERSION_NOW: &'static str = "0.5";

// ---------------------------------------------------------------------------
// What each migration makes of the data.

/// A 0.2 todo in the 0.3 format: every number written in decimal.
pub open spec fn todo03_of_02(t: Todo02View) -> Todo03View {
    (t.0, t.1, t.2.map_values(|c: usize| decimal(c as nat)), decimal(t.3 as nat), decimal(t.4 as nat))
}

/// `m` with every key written in decimal.
pub open spec fn keys_to_decimal<W>(m: Map<usize, W>) -> Map<Seq<char>, W> {
    Map::new(
        |s: Seq<char>| exists|k: usize| #[trigger] m.contains_key(k) && decimal(k as nat) == s,
        |s: Seq<char>| m[choose|k: usize| #[trigger] m.contains_key(k) && decimal(k as nat) == s],
    )
}

/// The todos of the 0.3 format made from those of the 0.2 format.
pub open spec fn todos03_of_02(m: Map<usize, Todo02View>) -> Map<Seq<char>, Todo03View> {
    keys_to_decimal(m).map_values(|t: Todo02View| todo03_of_02(t))
}

/// The todo part of a 0.3 todo.
pub open spec fn todo_of_03(t: Todo03View) -> TodoView {
    (t.0, t.1, t.4)
}

/// The tree part of a 0.3 todo.
pub open spec fn node_of_03(t: Todo03View) -> NodeView {
    (t.2, t.3, t.4)
}

/// The todo types of 0.4 as 0.5 names them.
pub open spec fn todo_type_05(t: Seq<char>) -> Seq<char> {
    if t == "Done"@ {
        "Todo: Done"@
    } else if t == "Todo"@ {
        "Todo: Todo"@
    } else if t == "WorkInProgress"@ {
        "Todo: WIP"@
    } else {
        "PROBLEM"@
    }
}

/// A 0.4 todo in the 0.5 format.
pub open spec fn todo_of_04(t: TodoView) -> TodoView {
    (todo_type_05(t.0), t.1, t.2)
}

/// The 0.5 data made from 0.4 data.
pub open spec fn latest_of_04(
    todos: Map<Seq<char>, TodoView>,
    tree: Map<Seq<char>, NodeView>,
) -> Save04View {
    (todos.map_values(|t: TodoView| todo_of_04(t)), tree, "0.5"@)
}

/// The 0.5 data made from 0.3 data.
pub open spec fn latest_of_03(todos: Map<Seq<char>, Todo03View>) -> Save04View {
    latest_of_04(
        todos.map_values(|t: Todo03View| todo_of_03(t)),
        todos.map_values(|t: Todo03View| node_of_03(t)),
    )
}

/// The 0.5 data made from 0.2 data.
pub open spec fn latest_of_02(todos: Map<usize, Todo02View>) -> Save04View {
    latest_of_03(todos03_of_02(todos))
}

/// The 0.5 data that a save file of any version comes to.
pub open spec fn latest_of(d: VersionedData) -> Save04View {
    match d {
        VersionedData::V01(m) => latest_of_02(map_views(m@)),
        VersionedData::V02(s) => latest_of_02(s@.0),
        VersionedData::V03(s) => latest_of_03(s@.0),
        VersionedData::V04(s) => latest_of_04(s@.0, s@.1),
        VersionedData::V05(s) => s@,
    }
}

proof fn lemma_keys_to_decimal<W>(m: Map<usize, W>, k: usize)
    requires
        m.contains_key(k),
    ensures
        keys_to_decimal(m).contains_key(decimal(k as nat)),
        keys_to_decimal(m)[decimal(k as nat)] == m[k],
{
    let s = decimal(k as nat);
    assert(m.contains_key(k) && decimal(k as nat) == s);
    let k2 = choose|k2: usize| #[trigger] m.contains_key(k2) && decimal(k2 as nat) == s;
    lemma_decimal_injective(k as nat, k2 as nat);
}

// ---------------------------------------------------------------------------
// The migrations.

/// The 0.1 format, a bare map of numbered todos, in the 0.2 format.
pub fn migrate_from_01_to_02(contents: NumMap<Todo02>) -> (r: SaveStruct02)
    ensures
        r.todos@ == contents@,
        r.version@ == "0.2"@,
{
    SaveStruct02 { todos: contents, version: "0.2".to_owned() }
}

/// The numbers in decimal.
fn decimal_list(v: &Vec<usize>) -> (r: Vec<String>)
    ensures
        views(r@) == v@.map_values(|c: usize| decimal(c as nat)),
{
    let mut r: Vec<String> = Vec::new();
    let mut i: usize = 0;
    while i < v.len()
        invariant
            i <= v@.len(),
            r@.len() == i,
            forall|j: int| 0 <= j < i ==> (#[trigger] r@[j])@ == decimal(v@[j] as nat),
        decreases v@.len() - i,
    {
        r.push(decimal_string(v[i]));
        i = i + 1;
    }
    proof {
        assert(views(r@) =~= v@.map_values(|c: usize| decimal(c as nat)));
    }
    r
}

/// The 0.2 format in the 0.3 format: every key, child, parent and id written in decimal.
pub fn migrate_from_02_to_03(contents: SaveStruct02) -> (r: SaveStruct03)
    ensures
        r@ == (todos03_of_02(contents@.0), "0.3"@),
{
    let entries = contents.todos.as_entries();
    let ghost src = contents.todos@;
    let mut todos: StrMap<Todo03> = StrMap::new();
    let mut i: usize = 0;
    while i < entries.len()
        invariant
            i <= entries@.len(),
            entries_model(entries@, src),
            forall|j: int|
                0 <= j < i ==> todos@.contains_key(decimal((#[trigger] entries@[j]).0 as nat))
                    && todos@[decimal(entries@[j].0 as nat)]@ == todo03_of_02(entries@[j].1@),
            forall|s: Seq<char>| #[trigger]
                todos@.contains_key(s) ==> exists|j: int|
                    0 <= j < i && decimal((#[trigger] entries@[j]).0 as nat) == s,
        decreases entries@.len() - i,
    {
        let entry = &entries[i];
        let key = decimal_string(entry.0);
        let t = &entry.1;
        let children = decimal_list(&t.children);
        let todo = Todo03 {
            text: t.text.clone(),
            todo_type: t.todo_type.clone(),
            parent: decimal_string(t.parent),
            id: decimal_string(t.id),
            children,
        };
        proof {
            assert forall|j: int| 0 <= j < i implies decimal((#[trigger] entries@[j]).0 as nat)
                != key@ by {
                assert(entries@[j].0@ != entries@[i as int].0@);
                if decimal(entries@[j].0 as nat) == key@ {
                    lemma_decimal_injective(entries@[j].0 as nat, entries@[i as int].0 as nat);
                }
            }
        }
        todos.insert(key, todo);
        proof {
            assert forall|s: Seq<char>| #[trigger] todos@.contains_key(s) implies exists|j: int|
                0 <= j < i + 1 && decimal((#[trigger] entries@[j]).0 as nat) == s by {
                if s != decimal(entries@[i as int].0 as nat) {
                    let j = choose|j: int| 0 <= j < i && decimal((#[trigger] entries@[j]).0 as nat) == s;
                }
            }
        }
        i = i + 1;
    }
    proof {
        let m = contents@.0;
        let target = todos03_of_02(m);
        assert forall|s: Seq<char>| map_views(todos@).contains_key(s) <==> target.contains_key(s) by {
            if todos@.contains_key(s) {
                let j = choose|j: int| 0 <= j < entries@.len() && decimal((#[trigger] entries@[j]).0 as nat) == s;
                assert(src.contains_key(entries@[j].0));
                lemma_keys_to_decimal(m, entries@[j].0);
            }
            if target.contains_key(s) {
                let k = choose|k: usize| #[trigger] m.contains_key(k) && decimal(k as nat) == s;
                let j = choose|j: int| 0 <= j < entries@.len() && (#[trigger] entries@[j]).0@ == k;
                assert(todos@.contains_key(decimal(entries@[j].0 as nat)));
            }
        }
        assert forall|s: Seq<char>| #[trigger] map_views(todos@).contains_key(s) implies map_views(
            todos@,
        )[s] == target[s] by {
            let j = choose|j: int| 0 <= j < entries@.len() && decimal((#[trigger] entries@[j]).0 as nat) == s;
            let k = entries@[j].0;
            assert(src.contains_key(k) && src[k] == entries@[j].1);
            lemma_keys_to_decimal(m, k);
        }
        assert(map_views(todos@) =~= target);
    }
    SaveStruct03 { todos, version: "0.3".to_owned() }
}


/// The 0.3 format in the 0.4 format: each todo split into what it says and its place in the tree.
pub fn migrate_from_03_to_04(contents: SaveStruct03) -> (r: SaveStruct04)
    ensures
        r@.0 == contents@.0.map_values(|t: Todo03View| todo_of_03(t)),
        r@.1 == contents@.0.map_values(|t: Todo03View| node_of_03(t)),
        r@.2 == "0.4"@,
{
    let entries = contents.todos.as_entries();
    let ghost src = contents.todos@;
    let mut todos: StrMap<Todo> = StrMap::new();
    let mut tree: StrMap<TodoNode> = StrMap::new();
    let mut i: usize = 0;
    while i < entries.len()
        invariant
            i <= entries@.len(),
            entries_model(entries@, src),
            forall|j: int|
                0 <= j < i ==> todos@.contains_key((#[trigger] entries@[j]).0@)
                    && todos@[entries@[j].0@]@ == todo_of_03(entries@[j].1@)
                    && tree@.contains_key(entries@[j].0@)
                    && tree@[entries@[j].0@]@ == node_of_03(entries@[j].1@),
            forall|s: Seq<char>| #[trigger]
                todos@.contains_key(s) ==> exists|j: int|
                    0 <= j < i && (#[trigger] entries@[j]).0@ == s,
            forall|s: Seq<char>| #[trigger]
                tree@.contains_key(s) ==> exists|j: int|
                    0 <= j < i && (#[trigger] entries@[j]).0@ == s,
        decreases entries@.len() - i,
    {
        let entry = &entries[i];
        let t = &entry.1;
        let todo = Todo::new(t.text.clone(), t.todo_type.clone(), t.id.clone());
        let children = t.children.clone();
        proof {
            assert(views(children@) =~= views(t.children@));
        }
        let node = TodoNode::new(t.id.clone(), t.parent.clone(), children);
        proof {
            assert forall|j: int| 0 <= j < i implies (#[trigger] entries@[j]).0@ != entries@[
                i as int
            ].0@ by {}
        }
        todos.insert(entry.0.clone(), todo);
        tree.insert(entry.0.clone(), node);
        proof {
            assert forall|s: Seq<char>| #[trigger] todos@.contains_key(s) implies exists|j: int|
                0 <= j < i + 1 && (#[trigger] entries@[j]).0@ == s by {
                if s != entries@[i as int].0@ {
                    let j = choose|j: int| 0 <= j < i && (#[trigger] entries@[j]).0@ == s;
                }
            }
            assert forall|s: Seq<char>| #[trigger] tree@.contains_key(s) implies exists|j: int|
                0 <= j < i + 1 && (#[trigger] entries@[j]).0@ == s by {
                if s != entries@[i as int].0@ {
                    let j = choose|j: int| 0 <= j < i && (#[trigger] entries@[j]).0@ == s;
                }
            }
        }
        i = i + 1;
    }
    proof {
        let m = contents@.0;
        assert forall|s: Seq<char>| #[trigger] m.contains_key(s) implies todos@.contains_key(s)
            && tree@.contains_key(s) && todos@[s]@ == todo_of_03(m[s]) && tree@[s]@ == node_of_03(
            m[s],
        ) by {
            let j = choose|j: int| 0 <= j < entries@.len() && (#[trigger] entries@[j]).0@ == s;
        }
        assert forall|s: Seq<char>| #[trigger] todos@.contains_key(s) implies m.contains_key(s) by {
            let j = choose|j: int| 0 <= j < entries@.len() && (#[trigger] entries@[j]).0@ == s;
        }
        assert forall|s: Seq<char>| #[trigger] tree@.contains_key(s) implies m.contains_key(s) by {
            let j = choose|j: int| 0 <= j < entries@.len() && (#[trigger] entries@[j]).0@ == s;
        }
        assert(map_views(todos@) =~= m.map_values(|t: Todo03View| todo_of_03(t)));
        assert(map_views(tree@) =~= m.map_values(|t: Todo03View| node_of_03(t)));
    }
    SaveStruct04 { todos, tree, version: "0.4".to_owned() }
}

/// The 0.5 name of a 0.4 todo type.
fn migrate_todo_type(t: &String) -> (r: String)
    ensures
        r@ == todo_type_05(t@),
{
    if *t == "Done".to_owned() {
        "Todo: Done".to_owned()
    } else if *t == "Todo".to_owned() {
        "Todo: Todo".to_owned()
    } else if *t == "WorkInProgress".to_owned() {
        "Todo: WIP".to_owned()
    } else {
        "PROBLEM".to_owned()
    }
}

/// The 0.4 format in the 0.5 format: the todo types renamed, the tree kept.
pub fn migrate_from_04_to_05(contents: SaveStruct04) -> (r: SaveStruct04)
    ensures
        r@ == latest_of_04(contents@.0, contents@.1),
{
    let SaveStruct04 { todos: old_todos, tree, version: _ } = contents;
    let entries = old_todos.as_entries();
    let ghost src = old_todos@;
    let mut todos: StrMap<Todo> = StrMap::new();
    let mut i: usize = 0;
    while i < entries.len()
        invariant
            i <= entries@.len(),
            entries_model(entries@, src),
            forall|j: int|
                0 <= j < i ==> todos@.contains_key((#[trigger] entries@[j]).0@)
                    && todos@[entries@[j].0@]@ == todo_of_04(entries@[j].1@),
            forall|s: Seq<char>| #[trigger]
                todos@.contains_key(s) ==> exists|j: int|
                    0 <= j < i && (#[trigger] entries@[j]).0@ == s,
        decreases entries@.len() - i,
    {
        let entry = &entries[i];
        let t = &entry.1;
        let todo = Todo { id: t.id.clone(), text: t.text.clone(), todo_type: migrate_todo_type(&t.todo_type) };
        proof {
            assert forall|j: int| 0 <= j < i implies (#[trigger] entries@[j]).0@ != entries@[
                i as int
            ].0@ by {}
        }
        todos.insert(entry.0.clone(), todo);
        proof {
            assert forall|s: Seq<char>| #[trigger] todos@.contains_key(s) implies exists|j: int|
                0 <= j < i + 1 && (#[trigger] entries@[j]).0@ == s by {
                if s != entries@[i as int].0@ {
                    let j = choose|j: int| 0 <= j < i && (#[trigger] entries@[j]).0@ == s;
                }
            }
        }
        i = i + 1;
    }
    proof {
        let m = map_views(src);
        assert forall|s: Seq<char>| #[trigger] m.contains_key(s) implies todos@.contains_key(s)
            && todos@[s]@ == todo_of_04(m[s]) by {
            let j = choose|j: int| 0 <= j < entries@.len() && (#[trigger] entries@[j]).0@ == s;
        }
        assert forall|s: Seq<char>| #[trigger] todos@.contains_key(s) implies m.contains_key(s) by {
            let j = choose|j: int| 0 <= j < entries@.len() && (#[trigger] entries@[j]).0@ == s;
        }
        assert(map_views(todos@) =~= m.map_values(|t: TodoView| todo_of_04(t)));
    }
    SaveStruct04 { todos, tree, version: "0.5".to_owned() }
}

/// Brings save data of any version to the current format, one migration after the other.
pub fn migrate_to_latest(data: VersionedData) -> (r: SaveStruct04)
    ensures
        r@ == latest_of(data),
{
    match data {
        VersionedData::V01(todos) => migrate_from_04_to_05(
            migrate_from_03_to_04(migrate_from_02_to_03(migrate_from_01_to_02(todos))),
        ),
        VersionedData::V02(save) => migrate_from_04_to_05(
            migrate_from_03_to_04(migrate_from_02_to_03(save)),
        ),
        VersionedData::V03(save) => migrate_from_04_to_05(migrate_from_03_to_04(save)),
        VersionedData::V04(save) => migrate_from_04_to_05(save),
        VersionedData::V05(save) => save,
    }
}

// ---------------------------------------------------------------------------
// Reading a save file: which format its version names.

/// The formats that a save file can be in.
#[derive(Debug, Clone, Copy, PartialEq, Eq, Structural)]
pub enum SaveFormat {
    V01,
    V02,
    V03,
    V04,
    V05,
}

/// The format that a version string names, if any.
pub open spec fn format_of_version(v: Seq<char>) -> Option<SaveFormat> {
    if v == "0.1"@ {
        Some(SaveFormat::V01)
    } else if v == "0.2"@ {
        Some(SaveFormat::V02)
    } else if v == "0.3"@ {
        Some(SaveFormat::V03)
    } else if v == "0.4"@ {
        Some(SaveFormat::V04)
    } else if v == "0.5"@ {
        Some(SaveFormat::V05)
    } else {
        None
    }
}

/// The message given when a file does not read as the format its version names.
pub open spec fn parse_error_text(f: SaveFormat) -> Seq<char> {
    match f {
        SaveFormat::V01 => "V01 real?"@,
        SaveFormat::V02 => "V02 real?"@,
        SaveFormat::V03 => "V03 real?"@,
        SaveFormat::V04 => "V04 real?"@,
        SaveFormat::V05 => "V05 real?"@,
    }
}

impl SaveFormat {
    /// The message given when a file does not read as this format.
    pub fn parse_error(&self) -> (r: String)
        ensures
            r@ == parse_error_text(*self),
    {
        match self {
            SaveFormat::V01 => "V01 real?".to_owned(),
            SaveFormat::V02 => "V02 real?".to_owned(),
            SaveFormat::V03 => "V03 real?".to_owned(),
            SaveFormat::V04 => "V04 real?".to_owned(),
            SaveFormat::V05 => "V05 real?".to_owned(),
        }
    }
}

/// The format that the version `v` names, or the error "Version is corrupted".
pub fn version_format(v: &str) -> (r: Result<SaveFormat, String>)
    ensures
        match r {
            Ok(f) => format_of_version(v@) == Some(f),
            Err(e) => format_of_version(v@) is None && e@ == "Version is corrupted"@,
        },
{
    let v = v.to_owned();
    if v == "0.1".to_owned() {
        Ok(SaveFormat::V01)
    } else if v == "0.2".to_owned() {
        Ok(SaveFormat::V02)
    } else if v == "0.3".to_owned() {
        Ok(SaveFormat::V03)
    } else if v == "0.4".to_owned() {
        Ok(SaveFormat::V04)
    } else if v == "0.5".to_owned() {
        Ok(SaveFormat::V05)
    } else {
        Err("Version is corrupted".to_owned())
    }
}

/// The shapes that the body of a save file is read in: numbered todos (0.1), the
/// 0.2 struct, the 0.3 struct, and the 0.4 struct, which 0.5 shares.
#[derive(Debug, Clone, Copy, PartialEq, Eq, Structural)]
pub enum SaveShape {
    Numbered,
    Struct02,
    Struct03,
    Struct04,
}

/// The shape that a file in the format `f` is read in.
pub open spec fn shape_of(f: SaveFormat) -> SaveShape {
    match f {
        SaveFormat::V01 => SaveShape::Numbered,
        SaveFormat::V02 => SaveShape::Struct02,
        SaveFormat::V03 => SaveShape::Struct03,
        SaveFormat::V04 => SaveShape::Struct04,
        SaveFormat::V05 => SaveShape::Struct04,
    }
}

impl SaveFormat {
    /// The shape that a file in this format is read in.
    pub fn shape(&self) -> (r: SaveShape)
        ensures
            r == shape_of(*self),
    {
        match self {
            SaveFormat::V01 => SaveShape::Numbered,
            SaveFormat::V02 => SaveShape::Struct02,
            SaveFormat::V03 => SaveShape::Struct03,
            SaveFormat::V04 => SaveShape::Struct04,
            SaveFormat::V05 => SaveShape::Struct04,
        }
    }
}

/// The body of a save file as read in one of the shapes.
pub enum ParsedSave {
    Numbered(NumMap<Todo02>),
    Struct02(SaveStruct02),
    Struct03(SaveStruct03),
    Struct04(SaveStruct04),
}

/// The shape that `p` was read in.
pub open spec fn shape_of_parsed(p: ParsedSave) -> SaveShape {
    match p {
        ParsedSave::Numbered(_) => SaveShape::Numbered,
        ParsedSave::Struct02(_) => SaveShape::Struct02,
        ParsedSave::Struct03(_) => SaveShape::Struct03,
        ParsedSave::Struct04(_) => SaveShape::Struct04,
    }
}

/// The format that the data `d` is in.
pub open spec fn format_of_data(d: VersionedData) -> SaveFormat {
    match d {
        VersionedData::V01(_) => SaveFormat::V01,
        VersionedData::V02(_) => SaveFormat::V02,
        VersionedData::V03(_) => SaveFormat::V03,
        VersionedData::V04(_) => SaveFormat::V04,
        VersionedData::V05(_) => SaveFormat::V05,
    }
}

/// The data of a file in the format `f` whose body was read as `p`, where `p` is in
/// the shape of `f`.
pub open spec fn data_of(f: SaveFormat, p: ParsedSave) -> Option<VersionedData> {
    match (f, p) {
        (SaveFormat::V01, ParsedSave::Numbered(m)) => Some(VersionedData::V01(m)),
        (SaveFormat::V02, ParsedSave::Struct02(s)) => Some(VersionedData::V02(s)),
        (SaveFormat::V03, ParsedSave::Struct03(s)) => Some(VersionedData::V03(s)),
        (SaveFormat::V04, ParsedSave::Struct04(s)) => Some(VersionedData::V04(s)),
        (SaveFormat::V05, ParsedSave::Struct04(s)) => Some(VersionedData::V05(s)),
        _ => None,
    }
}

/// The outcome of reading a file in the format `format`, where `parsed` is its
/// body as read in the shape of that format (`None` where it did not read so):
/// the data, in the variant that names `format`, or the error that names the
/// format. A body in another shape than the format's does not read either.
pub fn load_v(format: SaveFormat, parsed: Option<ParsedSave>) -> (r: Result<VersionedData, String>)
    ensures
        match parsed {
            Some(p) if shape_of_parsed(p) == shape_of(format) => r is Ok && data_of(format, p)
                == Some(r->Ok_0),
            _ => r is Err && r->Err_0@ == parse_error_text(format),
        },
        r is Ok ==> format_of_data(r->Ok_0) == format,
{
    match (format, parsed) {
        (SaveFormat::V01, Some(ParsedSave::Numbered(m))) => Ok(VersionedData::V01(m)),
        (SaveFormat::V02, Some(ParsedSave::Struct02(s))) => Ok(VersionedData::V02(s)),
        (SaveFormat::V03, Some(ParsedSave::Struct03(s))) => Ok(VersionedData::V03(s)),
        (SaveFormat::V04, Some(ParsedSave::Struct04(s))) => Ok(VersionedData::V04(s)),
        (SaveFormat::V05, Some(ParsedSave::Struct04(s))) => Ok(VersionedData::V05(s)),
        _ => Err(format.parse_error()),
    }
}

/// Whether `contents` is a JSON document, as `serde_json` reads JSON.
pub uninterp spec fn parses_as_json(contents: Seq<char>) -> bool;

/// Calls `serde_json::from_str::<serde_json::Value>` and tells whether it succeeded;
/// the contract names that outcome `parses_as_json` and says nothing more of it.
#[verifier::external_body]
fn is_json(contents: &str) -> (r: bool)
    ensures
        r == parses_as_json(contents@),
{
    serde_json::from_str::<serde_json::Value>(contents).is_ok()
}

/// The version of a save file, given what was read of it: the version it declares
/// (`meta`, where it reads as one) and whether it is JSON at all. A JSON file that
/// declares no version is of version "0.1".
pub fn version_from_probe(meta: Option<OnlyVersion>, is_json: bool) -> (r: Result<String, String>)
    ensures
        match meta {
            Some(m) => r == Ok::<String, String>(m.version),
            None => if is_json {
                r is Ok && r->Ok_0@ == "0.1"@
            } else {
                r is Err && r->Err_0@ == "File is not valid JSON"@
            },
        },
{
    match meta {
        Some(m) => Ok(m.version),
        None => if is_json {
            Ok("0.1".to_owned())
        } else {
            Err("File is not valid JSON".to_owned())
        },
    }
}

/// The version of the save file `contents`, where `meta` is what it reads as
/// in the shape of `OnlyVersion`, if it does.
pub fn detect_version(contents: &str, meta: Option<OnlyVersion>) -> (r: Result<String, String>)
    ensures
        match meta {
            Some(m) => r == Ok::<String, String>(m.version),
            None => if parses_as_json(contents@) {
                r is Ok && r->Ok_0@ == "0.1"@
            } else {
                r is Err && r->Err_0@ == "File is not valid JSON"@
            },
        },
{
    match meta {
        Some(m) => version_from_probe(Some(m), true),
        None => version_from_probe(None, is_json(contents)),
    }
}

} // verus!
