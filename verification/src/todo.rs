use vstd::prelude::*;

use crate::text::views;

verus! {

/// The identifier of a todo.
pub type Id = String;

/// What a todo says: its type (such as "Todo: Done"), its text, and its id.
#[derive(Debug)]
pub struct Todo {
    pub todo_type: String,
    pub text: String,
    pub id: Id,
}

/// A todo as the 0.3 save format stores it: with its place in the tree.
#[derive(Debug)]
pub struct Todo03 {
    pub todo_type: String,
    pub text: String,
    pub children: Vec<Id>,
    pub parent: Id,
    pub id: Id,
}

/// The place of a todo in the tree: the ids of its children, in order, and of its parent.
#[derive(Debug)]
pub struct TodoNode {
    pub children: Vec<Id>,
    pub parent: Id,
    pub id: Id,
}

impl View for Todo {
    /// (type, text, id)
    type V = (Seq<char>, Seq<char>, Seq<char>);

    open spec fn view(&self) -> (Seq<char>, Seq<char>, Seq<char>) {
        (self.todo_type@, self.text@, self.id@)
    }
}

impl View for TodoNode {
    /// (children, parent, id)
    type V = (Seq<Seq<char>>, Seq<char>, Seq<char>);

    open spec fn view(&self) -> (Seq<Seq<char>>, Seq<char>, Seq<char>) {
        (views(self.children@), self.parent@, self.id@)
    }
}

impl View for Todo03 {
    /// (type, text, children, parent, id)
    type V = (Seq<char>, Seq<char>, Seq<Seq<char>>, Seq<char>, Seq<char>);

    open spec fn view(&self) -> (Seq<char>, Seq<char>, Seq<Seq<char>>, Seq<char>, Seq<char>) {
        (self.todo_type@, self.text@, views(self.children@), self.parent@, self.id@)
    }
}

impl Clone for Todo {
    fn clone(&self) -> (r: Self)
        ensures
            r == *self,
    {
        Todo { todo_type: self.todo_type.clone(), text: self.text.clone(), id: self.id.clone() }
    }
}

impl Clone for TodoNode {
    fn clone(&self) -> (r: Self)
        ensures
            r@ == self@,
    {
        let children = self.children.clone();
        proof {
            assert(views(children@) =~= views(self.children@));
        }
        TodoNode { children, parent: self.parent.clone(), id: self.id.clone() }
    }
}

impl Clone for Todo03 {
    fn clone(&self) -> (r: Self)
        ensures
            r@ == self@,
    {
        let children = self.children.clone();
        proof {
            assert(views(children@) =~= views(self.children@));
        }
        Todo03 {
            todo_type: self.todo_type.clone(),
            text: self.text.clone(),
            children,
            parent: self.parent.clone(),
            id: self.id.clone(),
        }
    }
}

impl TodoNode {
    /// The node of the root todo: id "0", its own parent, no children.
    pub fn make_root() -> (r: Self)
        ensures
            r.children@.len() == 0,
            r.parent@ == "0"@,
            r.id@ == "0"@,
    {
        TodoNode { children: Vec::new(), parent: "0".to_owned(), id: "0".to_owned() }
    }

    /// A node with the given id, parent and children.
    pub fn new(id: Id, parent: Id, children: Vec<Id>) -> (r: TodoNode)
        ensures
            r.id == id,
            r.parent == parent,
            r.children == children,
    {
        TodoNode { id, children, parent }
    }
}

impl Todo {
    /// The root todo: type "Todo: Done", text "RootOfAll 1", id "0".
    pub fn make_root() -> (r: Self)
        ensures
            r.todo_type@ == "Todo: Done"@,
            r.text@ == "RootOfAll 1"@,
            r.id@ == "0"@,
    {
        Todo {
            todo_type: "Todo: Done".to_owned(),
            text: "RootOfAll 1".to_owned(),
            id: "0".to_owned(),
        }
    }

    /// A todo with the given text, type and id.
    pub fn new(text: String, todo_type: String, id: Id) -> (r: Self)
        ensures
            r.text == text,
            r.todo_type == todo_type,
            r.id == id,
    {
        Todo { todo_type, text, id }
    }

    /// The todo as it is shown: its type, a semicolon, and its text.
    pub fn display_string(&self) -> (r: String)
        ensures
            r@ == self.todo_type@ + ";"@ + self.text@,
    {
        let mut r = self.todo_type.clone();
        r.append(";");
        r.append(self.text.as_str());
        r
    }
}

} // verus!
