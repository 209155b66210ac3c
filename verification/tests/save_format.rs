use todo_manager::save::{
    detect_version, load_v, migrate_from_01_to_02, migrate_from_02_to_03, migrate_from_03_to_04,
    migrate_from_04_to_05, migrate_to_latest, version_format, version_from_probe, OnlyVersion,
    ParsedSave, SaveFormat, SaveShape, SaveStruct02, SaveStruct03, SaveStruct04, Todo02,
    VersionedData,
};
use todo_manager::todo::{Todo, Todo03, TodoNode};
use todo_manager::{NumMap, StrMap};

fn s(x: &str) -> String {
    x.to_string()
}

fn todo02(text: &str, ty: &str, children: Vec<usize>, parent: usize, id: usize) -> Todo02 {
    Todo02 { todo_type: s(ty), text: s(text), children, parent, id }
}

fn v01() -> NumMap<Todo02> {
    let mut m = NumMap::new();
    m.insert(0, todo02("root", "Done", vec![1, 12], 0, 0));
    m.insert(1, todo02("first", "Todo", vec![], 0, 1));
    m.insert(12, todo02("twelfth", "WorkInProgress", vec![], 0, 12));
    m
}

#[test]
fn migrate_01_02_keeps_map() {
    let r = migrate_from_01_to_02(v01());
    assert_eq!(r.version, "0.2");
    assert_eq!(r.todos.len(), 3);
    assert_eq!(r.todos.get(&12).unwrap().text, "twelfth");
}

#[test]
fn migrate_02_03_writes_numbers_in_decimal() {
    let r = migrate_from_02_to_03(SaveStruct02 { todos: v01(), version: s("0.2") });
    assert_eq!(r.version, "0.3");
    assert_eq!(r.todos.len(), 3);
    let root = r.todos.get(&s("0")).unwrap();
    assert_eq!(root.children, vec![s("1"), s("12")]);
    assert_eq!(root.parent, "0");
    assert_eq!(root.id, "0");
    assert_eq!(root.todo_type, "Done");
    let t = r.todos.get(&s("12")).unwrap();
    assert_eq!(t.text, "twelfth");
    assert_eq!(t.id, "12");
    assert!(r.todos.get(&s("2")).is_none());
}

#[test]
fn migrate_03_04_splits_todos() {
    let mut todos = StrMap::new();
    todos.insert(
        s("a"),
        Todo03 { todo_type: s("Todo"), text: s("A"), children: vec![s("b")], parent: s("0"), id: s("a") },
    );
    let r = migrate_from_03_to_04(SaveStruct03 { todos, version: s("0.3") });
    assert_eq!(r.version, "0.4");
    let t = r.todos.get(&s("a")).unwrap();
    assert_eq!((t.text.as_str(), t.todo_type.as_str(), t.id.as_str()), ("A", "Todo", "a"));
    let n = r.tree.get(&s("a")).unwrap();
    assert_eq!(n.children, vec![s("b")]);
    assert_eq!(n.parent, "0");
    assert_eq!(n.id, "a");
}

#[test]
fn migrate_04_05_renames_types() {
    let mut todos = StrMap::new();
    let mut tree = StrMap::new();
    for (id, ty) in [("1", "Done"), ("2", "Todo"), ("3", "WorkInProgress"), ("4", "Later")] {
        todos.insert(s(id), Todo::new(s("t"), s(ty), s(id)));
        tree.insert(s(id), TodoNode::new(s(id), s("0"), vec![]));
    }
    let r = migrate_from_04_to_05(SaveStruct04 { todos, tree, version: s("0.4") });
    assert_eq!(r.version, "0.5");
    assert_eq!(r.todos.get(&s("1")).unwrap().todo_type, "Todo: Done");
    assert_eq!(r.todos.get(&s("2")).unwrap().todo_type, "Todo: Todo");
    assert_eq!(r.todos.get(&s("3")).unwrap().todo_type, "Todo: WIP");
    assert_eq!(r.todos.get(&s("4")).unwrap().todo_type, "PROBLEM");
    assert_eq!(r.tree.len(), 4);
}

#[test]
fn migrate_01_to_latest() {
    let r = migrate_to_latest(VersionedData::V01(v01()));
    assert_eq!(r.version, "0.5");
    assert_eq!(r.todos.get(&s("0")).unwrap().todo_type, "Todo: Done");
    assert_eq!(r.todos.get(&s("1")).unwrap().todo_type, "Todo: Todo");
    assert_eq!(r.todos.get(&s("12")).unwrap().todo_type, "Todo: WIP");
    assert_eq!(r.tree.get(&s("0")).unwrap().children, vec![s("1"), s("12")]);
}

#[test]
fn latest_data_passes_unchanged() {
    let mut todos = StrMap::new();
    let mut tree = StrMap::new();
    todos.insert(s("0"), Todo::make_root());
    tree.insert(s("0"), TodoNode::make_root());
    let r = migrate_to_latest(VersionedData::V05(SaveStruct04 { todos, tree, version: s("0.5") }));
    assert_eq!(r.todos.get(&s("0")).unwrap().todo_type, "Todo: Done");
    assert_eq!(r.todos.len(), 1);
}

#[test]
fn version_names_format() {
    assert_eq!(version_format("0.1"), Ok(SaveFormat::V01));
    assert_eq!(version_format("0.2"), Ok(SaveFormat::V02));
    assert_eq!(version_format("0.3"), Ok(SaveFormat::V03));
    assert_eq!(version_format("0.4"), Ok(SaveFormat::V04));
    assert_eq!(version_format("0.5"), Ok(SaveFormat::V05));
    assert_eq!(version_format("0.6"), Err(s("Version is corrupted")));
    assert_eq!(version_format(""), Err(s("Version is corrupted")));
}

#[test]
fn parse_error_names_format() {
    assert_eq!(SaveFormat::V01.parse_error(), "V01 real?");
    assert_eq!(SaveFormat::V05.parse_error(), "V05 real?");
    assert_eq!(load_v(SaveFormat::V03, None).err(), Some(s("V03 real?")));
    let ok = load_v(SaveFormat::V01, Some(ParsedSave::Numbered(NumMap::new())));
    assert!(matches!(ok, Ok(VersionedData::V01(_))));
}

fn one_todo_04(version: &str) -> SaveStruct04 {
    let mut todos = StrMap::new();
    todos.insert(s("a"), Todo::new(s("x"), s("Done"), s("a")));
    SaveStruct04 { todos, tree: StrMap::new(), version: s(version) }
}

#[test]
fn load_v_takes_variant_from_format() {
    match load_v(SaveFormat::V04, Some(ParsedSave::Struct04(one_todo_04("0.4")))) {
        Ok(VersionedData::V04(d)) => {
            assert_eq!(d.version, "0.4");
            assert_eq!(d.todos.len(), 1);
            assert_eq!(d.todos.get(&s("a")).unwrap().todo_type, "Done");
            assert_eq!(d.tree.len(), 0);
        }
        _ => panic!("a 0.4 file reads as 0.4 data"),
    }
    assert!(matches!(
        load_v(SaveFormat::V05, Some(ParsedSave::Struct04(one_todo_04("0.5")))),
        Ok(VersionedData::V05(_))
    ));
    let s02 = SaveStruct02 { todos: NumMap::new(), version: s("0.2") };
    assert!(matches!(load_v(SaveFormat::V02, Some(ParsedSave::Struct02(s02))), Ok(VersionedData::V02(_))));
    let s03 = SaveStruct03 { todos: StrMap::new(), version: s("0.3") };
    assert!(matches!(load_v(SaveFormat::V03, Some(ParsedSave::Struct03(s03))), Ok(VersionedData::V03(_))));
}

#[test]
fn load_v_refuses_other_shape() {
    assert_eq!(
        load_v(SaveFormat::V02, Some(ParsedSave::Struct04(one_todo_04("0.4")))).err(),
        Some(s("V02 real?"))
    );
    assert_eq!(
        load_v(SaveFormat::V01, Some(ParsedSave::Struct04(one_todo_04("0.5")))).err(),
        Some(s("V01 real?"))
    );
    assert_eq!(load_v(SaveFormat::V05, None).err(), Some(s("V05 real?")));
}

#[test]
fn format_shapes() {
    assert_eq!(SaveFormat::V01.shape(), SaveShape::Numbered);
    assert_eq!(SaveFormat::V02.shape(), SaveShape::Struct02);
    assert_eq!(SaveFormat::V03.shape(), SaveShape::Struct03);
    assert_eq!(SaveFormat::V04.shape(), SaveShape::Struct04);
    assert_eq!(SaveFormat::V05.shape(), SaveShape::Struct04);
}

#[test]
fn version_from_what_was_read() {
    assert_eq!(version_from_probe(Some(OnlyVersion { version: s("0.4") }), false), Ok(s("0.4")));
    assert_eq!(version_from_probe(None, true), Ok(s("0.1")));
    assert_eq!(version_from_probe(None, false), Err(s("File is not valid JSON")));
}

#[test]
fn detect_version_of_files() {
    assert_eq!(detect_version("{\"version\":\"0.3\"}", Some(OnlyVersion { version: s("0.3") })), Ok(s("0.3")));
    assert_eq!(detect_version("{\"1\": {}}", None), Ok(s("0.1")));
    assert_eq!(detect_version("[1, 2]", None), Ok(s("0.1")));
    assert_eq!(detect_version("not json", None), Err(s("File is not valid JSON")));
    assert_eq!(detect_version("{\"a\": ", None), Err(s("File is not valid JSON")));
}
