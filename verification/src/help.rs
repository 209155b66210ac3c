use vstd::prelude::*;

verus! {

/// The keys of the main screen.
pub const MAIN_SCREEN: &'static str = "(q) quit /(s) save withuot quit /(l) load / (n) new / (e) edit / (d) delete /(\u{2191}\u{2193}) select / (\u{2190}\u{2192}) navigate";

/// The keys of the todo editor.
pub const EDIT_SCREEN: &'static str = "(Esc) cancel / (Tab) switch fields / (\u{2191}\u{2193}) change type / (Enter on type field) save";

/// The keys of the prompt that saves.
pub const SAVE_EXIT: &'static str = "(Enter/s) save / (q) discard / (Esc) cancel \u{2014} type filename or $project_alias";

/// The keys of the prompt that saves and quits.
pub const QUIT_EXIT: &'static str = "(Enter/s) save & quit / (q) quit now / (Esc) cancel \u{2014} type filename or $project_alias";

/// The keys of the prompt that loads.
pub const LOADING: &'static str = "(Enter) load / (Esc) cancel \u{2014} type filename or $project_alias";

/// The keys of the prompt that confirms a deletion.
pub const DELETING: &'static str = "Type 'y' then (Enter) to confirm / (Esc) cancel";

} // verus!
