use vstd::prelude::*;

use ratatui::layout::{Constraint, Direction, Layout, Rect};

use crate::app::{App, CurrentScreen};
use crate::text::{join, join_with, views};

verus! {

/// The title line: "Todo Manager : " and the path to the listed todo, joined by "/".
pub fn title_text(path: &Vec<String>) -> (r: String)
    ensures
        r@ == "Todo Manager : "@ + join(views(path@), "/"@),
{
    let mut r = "Todo Manager : ".to_owned();
    let joined = join_with(path, "/");
    r.append(joined.as_str());
    r
}

/// The key hint shown at the bottom of a screen.
pub open spec fn key_hint_text(screen: CurrentScreen) -> Seq<char> {
    match screen {
        CurrentScreen::Main => "(q/s) to quit or save /(l) to load / (n) to make new pair/(d) to delete"@,
        CurrentScreen::Editing => "(ESC) to cancel/(Tab) to switch boxes/enter to complete"@,
        CurrentScreen::Exiting { .. } => "(enter) to confirm the operation, (ESC) to cancel"@,
        CurrentScreen::Loading => "(enter) to confirm the operation, (ESC) to cancel"@,
        CurrentScreen::Deleting => "(ESC) to cancel/(Tab) to switch boxes, are you sure you want to delete?"@,
    }
}

/// The key hint shown at the bottom of a screen.
pub fn key_hint(screen: CurrentScreen) -> (r: &'static str)
    ensures
        r@ == key_hint_text(screen),
{
    match screen {
        CurrentScreen::Main => "(q/s) to quit or save /(l) to load / (n) to make new pair/(d) to delete",
        CurrentScreen::Editing => "(ESC) to cancel/(Tab) to switch boxes/enter to complete",
        CurrentScreen::Exiting { .. } => "(enter) to confirm the operation, (ESC) to cancel",
        CurrentScreen::Loading => "(enter) to confirm the operation, (ESC) to cancel",
        CurrentScreen::Deleting => "(ESC) to cancel/(Tab) to switch boxes, are you sure you want to delete?",
    }
}

/// The title and text of the prompt drawn over a screen, if one is: on the
/// screens that ask for a file name, what is asked and what was typed.
pub open spec fn prompt_of(screen: CurrentScreen, input: Seq<char>) -> Option<(Seq<char>, Seq<char>)> {
    match screen {
        CurrentScreen::Exiting { for_quit } => Some(
            (
                if for_quit {
                    "Quit"@
                } else {
                    "Save as"@
                },
                "Would you like to save a todo list?(enter to save,escape to abort)\n"@ + input,
            ),
        ),
        CurrentScreen::Loading => Some(
            (
                "Loading"@,
                "Would you like to load a todo list?(enter to load,escape to abort)\n"@ + input,
            ),
        ),
        _ => None,
    }
}

/// The title and text of the prompt drawn over a screen, if one is.
pub fn prompt(screen: CurrentScreen, input: &str) -> (r: Option<(String, String)>)
    ensures
        match prompt_of(screen, input@) {
            Some((title, text)) => r matches Some(p) && p.0@ == title && p.1@ == text,
            None => r is None,
        },
{
    match screen {
        CurrentScreen::Exiting { for_quit } => {
            let title = if for_quit {
                "Quit".to_owned()
            } else {
                "Save as".to_owned()
            };
            let mut text =
                "Would you like to save a todo list?(enter to save,escape to abort)\n".to_owned();
            text.append(input);
            Some((title, text))
        },
        CurrentScreen::Loading => {
            let mut text =
                "Would you like to load a todo list?(enter to load,escape to abort)\n".to_owned();
            text.append(input);
            Some(("Loading".to_owned(), text))
        },
        _ => None,
    }
}

/// The percentages of the three parts that center a part of `percent` percent:
/// the rest split evenly before and after it.
pub fn centered_percentages(percent: u16) -> (r: (u16, u16, u16))
    requires
        percent <= 100,
    ensures
        r.0 == (100 - percent) / 2,
        r.1 == percent,
        r.2 == (100 - percent) / 2,
{
    ((100 - percent) / 2, percent, (100 - percent) / 2)
}

/// A rectangle of the screen: its top left corner, its width and its height.
#[derive(Debug, Clone, Copy, PartialEq, Eq, Structural)]
pub struct Area {
    pub x: u16,
    pub y: u16,
    pub width: u16,
    pub height: u16,
}

/// The direction in which an area is cut into parts.
#[derive(Debug, Clone, Copy, PartialEq, Eq, Structural)]
pub enum SplitAxis {
    /// Into parts one above the other.
    Vertical,
    /// Into parts side by side.
    Horizontal,
}

/// The middle one of the three parts that `ratatui`'s `Layout` cuts `area` into,
/// along `axis`, for the constraints `Percentage(first)`, `Percentage(middle)` and
/// `Percentage(last)`.
pub uninterp spec fn layout_middle(area: Area, axis: SplitAxis, first: u16, middle: u16, last: u16) -> Area;

/// `Layout::default().direction(..).constraints([Percentage(first),
/// Percentage(middle), Percentage(last)]).split(area)[1]`: the middle part that
/// the layout solver gives. Its result depends on the arguments alone (the
/// solver's cache is keyed on them) and is named `layout_middle`; nothing more of
/// it is stated.
#[verifier::external_body]
fn split_middle(area: Area, axis: SplitAxis, first: u16, middle: u16, last: u16) -> (r: Area)
    ensures
        r == layout_middle(area, axis, first, middle, last),
{
    let direction = match axis {
        SplitAxis::Vertical => Direction::Vertical,
        SplitAxis::Horizontal => Direction::Horizontal,
    };
    let rect = Rect { x: area.x, y: area.y, width: area.width, height: area.height };
    let parts = Layout::default().direction(direction).constraints(
        [Constraint::Percentage(first), Constraint::Percentage(middle), Constraint::Percentage(last)],
    ).split(rect);
    Area { x: parts[1].x, y: parts[1].y, width: parts[1].width, height: parts[1].height }
}

/// The area of `percent_x` percent of the width and `percent_y` percent of the
/// height of `r`, in its middle: `r` is cut into three rows that center the
/// middle one, and that row into three columns that center the middle one.
pub fn centered_rect(percent_x: u16, percent_y: u16, r: Area) -> (c: Area)
    requires
        percent_x <= 100,
        percent_y <= 100,
    ensures
        c == layout_middle(
            layout_middle(
                r,
                SplitAxis::Vertical,
                ((100 - percent_y) / 2) as u16,
                percent_y,
                ((100 - percent_y) / 2) as u16,
            ),
            SplitAxis::Horizontal,
            ((100 - percent_x) / 2) as u16,
            percent_x,
            ((100 - percent_x) / 2) as u16,
        ),
{
    let (top, middle, bottom) = centered_percentages(percent_y);
    let row = split_middle(r, SplitAxis::Vertical, top, middle, bottom);
    let (left, center, right) = centered_percentages(percent_x);
    split_middle(row, SplitAxis::Horizontal, left, center, right)
}

impl App {
    /// Whether the rows of the list can be read: the node of the listed todo
    /// exists, and so does the todo of each of its children.
    pub fn table_rows_readable(&self) -> (r: bool)
        ensures
            r == (self.tree@.contains_key(self.id_of_now_root@) && forall|i: int|
                0 <= i < self.root_children().len() ==> self.todos@.contains_key(
                    #[trigger] self.root_children()[i],
                )),
    {
        match self.tree.get(&self.id_of_now_root) {
            None => false,
            Some(node) => {
                let mut i: usize = 0;
                while i < node.children.len()
                    invariant
                        i <= node.children@.len(),
                        views(node.children@) == self.root_children(),
                        forall|j: int|
                            0 <= j < i ==> self.todos@.contains_key(#[trigger] self.root_children()[j]),
                    decreases node.children@.len() - i,
                {
                    proof {
                        assert(self.root_children()[i as int] == node.children@[i as int]@);
                    }
                    if !self.todos.contains_key(&node.children[i]) {
                        return false;
                    }
                    i = i + 1;
                }
                true
            },
        }
    }

    /// The rows of the list: the text and the type of each child of the listed todo, in order.
    pub fn table_rows(&self) -> (r: Vec<(String, String)>)
        requires
            self.tree@.contains_key(self.id_of_now_root@),
            forall|i: int|
                0 <= i < self.root_children().len() ==> self.todos@.contains_key(
                    #[trigger] self.root_children()[i],
                ),
        ensures
            r@.len() == self.root_children().len(),
            forall|i: int|
                0 <= i < r@.len() ==> {
                    let t = self.todos@[self.root_children()[i]];
                    &&& (#[trigger] r@[i]).0@ == t.text@
                    &&& r@[i].1@ == t.todo_type@
                },
    {
        let children = &self.tree.get(&self.id_of_now_root).unwrap().children;
        let mut rows: Vec<(String, String)> = Vec::new();
        let mut i: usize = 0;
        while i < children.len()
            invariant
                i <= children@.len(),
                views(children@) == self.root_children(),
                forall|j: int|
                    0 <= j < self.root_children().len() ==> self.todos@.contains_key(
                        #[trigger] self.root_children()[j],
                    ),
                rows@.len() == i,
                forall|j: int|
                    0 <= j < i ==> {
                        let t = self.todos@[self.root_children()[j]];
                        &&& (#[trigger] rows@[j]).0@ == t.text@
                        &&& rows@[j].1@ == t.todo_type@
                    },
            decreases children@.len() - i,
        {
            proof {
                assert(self.root_children()[i as int] == children@[i as int]@);
            }
            let t = self.todos.get(&children[i]).unwrap();
            rows.push((t.text.clone(), t.todo_type.clone()));
            i = i + 1;
        }
        rows
    }
}

} // verus!
