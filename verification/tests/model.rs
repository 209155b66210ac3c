use todo_manager::text::{decimal_string, join_with, lines_of, starts_with_dollar};
use todo_manager::todo::{Todo, Todo03, TodoNode};
use todo_manager::{NumMap, StrMap};

fn s(x: &str) -> String {
    x.to_string()
}

#[test]
fn map_insert_get_remove() {
    let mut m: StrMap<u32> = StrMap::new();
    assert_eq!(m.len(), 0);
    m.insert(s("a"), 1);
    m.insert(s("b"), 2);
    m.insert(s("a"), 3);
    assert_eq!(m.len(), 2);
    assert_eq!(m.get(&s("a")), Some(&3));
    assert_eq!(m.get(&s("b")), Some(&2));
    assert_eq!(m.get(&s("c")), None);
    assert!(m.contains_key(&s("b")));
    assert_eq!(m.remove(&s("a")), Some(3));
    assert_eq!(m.remove(&s("a")), None);
    assert_eq!(m.len(), 1);
    assert!(!m.contains_key(&s("a")));
}

#[test]
fn map_keys_each_once() {
    let mut m: StrMap<u32> = StrMap::new();
    m.insert(s("x"), 1);
    m.insert(s("y"), 2);
    m.insert(s("x"), 5);
    let mut keys: Vec<String> = m.keys().into_iter().cloned().collect();
    keys.sort();
    assert_eq!(keys, vec![s("x"), s("y")]);
}

#[test]
fn map_clone_is_equal() {
    let mut m: StrMap<String> = StrMap::new();
    m.insert(s("k"), s("v"));
    let c = m.clone();
    m.insert(s("k"), s("w"));
    assert_eq!(c.get(&s("k")), Some(&s("v")));
    assert_eq!(m.get(&s("k")), Some(&s("w")));
}

#[test]
fn num_map_entries() {
    let mut m: NumMap<&str> = NumMap::new();
    m.insert(7, "seven");
    m.insert(3, "three");
    m.insert(7, "SEVEN");
    let entries = m.into_entries();
    assert_eq!(entries.len(), 2);
    assert!(entries.contains(&(7, "SEVEN")));
    assert!(entries.contains(&(3, "three")));
}

#[test]
fn lines_like_str_lines() {
    for text in ["", "a", "a\n", "a\nb", "a\r\nb\r\n", "\n", "a\n\nb", "x\r", "\r\n\r\n", "one\ntwo\n\n"] {
        let expected: Vec<String> = text.lines().map(|l| l.to_string()).collect();
        assert_eq!(lines_of(text), expected, "lines of {:?}", text);
    }
}

#[test]
fn join_lines() {
    assert_eq!(join_with(&vec![], "\n"), "");
    assert_eq!(join_with(&vec![s("a")], "\n"), "a");
    assert_eq!(join_with(&vec![s("a"), s(""), s("c")], "/"), "a//c");
}

#[test]
fn decimal_like_to_string() {
    for n in [0usize, 1, 9, 10, 11, 99, 100, 12345, 1000000, usize::MAX] {
        assert_eq!(decimal_string(n), n.to_string());
    }
}

#[test]
fn dollar_prefix() {
    assert!(starts_with_dollar("$work"));
    assert!(starts_with_dollar("$"));
    assert!(!starts_with_dollar(""));
    assert!(!starts_with_dollar("work$"));
}

#[test]
fn root_todo_and_node() {
    let t = Todo::make_root();
    assert_eq!(t.todo_type, "Todo: Done");
    assert_eq!(t.text, "RootOfAll 1");
    assert_eq!(t.id, "0");
    let n = TodoNode::make_root();
    assert!(n.children.is_empty());
    assert_eq!(n.parent, "0");
    assert_eq!(n.id, "0");
}

#[test]
fn todo_constructors() {
    let t = Todo::new(s("buy milk"), s("Todo: Todo"), s("abc"));
    assert_eq!(t.text, "buy milk");
    assert_eq!(t.todo_type, "Todo: Todo");
    assert_eq!(t.id, "abc");
    let n = TodoNode::new(s("abc"), s("0"), vec![s("d")]);
    assert_eq!(n.id, "abc");
    assert_eq!(n.parent, "0");
    assert_eq!(n.children, vec![s("d")]);
    let c = t.clone();
    assert_eq!(c.text, t.text);
    let t3 = Todo03 { todo_type: s("Done"), text: s("x"), children: vec![], parent: s("0"), id: s("1") };
    assert_eq!(t3.clone().id, "1");
}

#[test]
fn todo_display_string() {
    let t = Todo::new(s("buy milk"), s("Todo: WIP"), s("1"));
    assert_eq!(t.display_string(), "Todo: WIP;buy milk");
}
