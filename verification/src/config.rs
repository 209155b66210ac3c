use vstd::prelude::*;

use crate::keymap::StrMap;

verus! {

/// Maps a project alias to the path of its todo file.
pub type ProjectShortcuts = StrMap<String>;

/// The user's settings: the project shortcuts.
pub struct Config {
    pub projects: ProjectShortcuts,
}

impl Default for Config {
    /// The settings with no project shortcut.
    fn default() -> (r: Self)
        ensures
            r.projects@ == Map::<Seq<char>, String>::empty(),
    {
        Config { projects: StrMap::new() }
    }
}

impl Config {
    /// Adds or updates a project shortcut.
    pub fn add_project(&mut self, alias: String, path: String)
        ensures
            final(self).projects@ == old(self).projects@.insert(alias@, path),
    {
        self.projects.insert(alias, path);
    }

    /// The path for a project alias, if there is one.
    pub fn get_project(&self, alias: &str) -> (r: Option<&String>)
        ensures
            match r {
                Some(p) => self.projects@.contains_key(alias@) && *p == self.projects@[alias@],
                None => !self.projects@.contains_key(alias@),
            },
    {
        let key: String = alias.to_owned();
        self.projects.get(&key)
    }

    /// All project aliases, each once.
    pub fn list_projects(&self) -> (r: Vec<&String>)
        ensures
            r@.len() == self.projects@.len(),
            forall|i: int, j: int| 0 <= i < j < r@.len() ==> (#[trigger] r@[i])@ != (#[trigger] r@[j])@,
            forall|i: int| 0 <= i < r@.len() ==> self.projects@.contains_key((#[trigger] r@[i])@),
            forall|k: Seq<char>| #[trigger] self.projects@.contains_key(k) ==> exists|i: int|
                0 <= i < r@.len() && (#[trigger] r@[i])@ == k,
    {
        self.projects.keys()
    }
}

} // verus!
