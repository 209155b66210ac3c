use vstd::prelude::*;

use ratatui::widgets::{Block, Borders};
use ratatui_textarea::{CursorMove, Input, TextArea};

use crate::text::{split_newline_strip_cr, views};

verus! {

/// A text area of `ratatui_textarea`, the editor in which a todo's text and type
/// are typed. Its lines are named by `textarea_lines`, its cursor by
/// `textarea_cursor`, where a text selection started by
/// `textarea_selection_start`, and the frame it is drawn in by `textarea_block`;
/// the undo history, the yanked text and the styles are not followed.
#[verifier::external_body]
pub struct TextBox {
    area: TextArea<'static>,
}

#[verifier::external_type_specification]
#[verifier::external_body]
pub struct ExInput(Input);

/// The lines of text that a text area holds.
pub uninterp spec fn textarea_lines(t: TextBox) -> Seq<Seq<char>>;

/// The cursor of a text area: its line and its column, counted in characters.
pub uninterp spec fn textarea_cursor(t: TextBox) -> (nat, nat);

/// Where the text selection under way in a text area started (its line and its
/// column, counted in characters), or `None` where no selection is under way.
pub uninterp spec fn textarea_selection_start(t: TextBox) -> Option<(nat, nat)>;

/// The frame that a text area is drawn in: `None` where it has none, else
/// whether the frame has borders on all sides, and its title.
pub uninterp spec fn textarea_block(t: TextBox) -> Option<(bool, Seq<char>)>;

/// Whether a text selection is under way in a text area (`TextArea::is_selecting`).
pub open spec fn textarea_selecting(t: TextBox) -> bool {
    textarea_selection_start(t) is Some
}

/// The lines that a text area made from `lines` holds: those lines, or one
/// empty line where there are none.
pub open spec fn lines_or_empty(lines: Seq<Seq<char>>) -> Seq<Seq<char>> {
    if lines.len() == 0 {
        seq![Seq::<char>::empty()]
    } else {
        lines
    }
}

/// What `TextArea::clear` leaves of `lines`, where the selection under way started
/// at `start`: one empty line where no selection is under way or it started at
/// the very beginning; else the text after where the selection started (the
/// clear moves the cursor to the beginning, which stretches the selection, and
/// deletes the selected text). `None` where the start lies outside the text.
pub open spec fn lines_after_clear(lines: Seq<Seq<char>>, start: Option<(nat, nat)>) -> Option<
    Seq<Seq<char>>,
> {
    match start {
        None => Some(seq![Seq::<char>::empty()]),
        Some((r, c)) => if r == 0 && c == 0 {
            Some(seq![Seq::<char>::empty()])
        } else if r < lines.len() && c <= lines[r as int].len() {
            Some(
                seq![lines[r as int].subrange(c as int, lines[r as int].len() as int)]
                    + lines.subrange(r as int + 1, lines.len() as int),
            )
        } else {
            None
        },
    }
}

/// What `TextArea::clear` leaves in the text area `t`.
pub open spec fn cleared_lines(t: TextBox) -> Option<Seq<Seq<char>>> {
    lines_after_clear(textarea_lines(t), textarea_selection_start(t))
}

/// Where the cursor of a text area is moved to.
pub enum CursorTarget {
    /// The first line, keeping the column where that line is long enough.
    Top,
    /// The start of the line.
    Head,
}

/// The cursor after moving the cursor `at` of a text area that holds `lines` to `target`.
pub open spec fn moved_cursor(lines: Seq<Seq<char>>, at: (nat, nat), target: CursorTarget) -> (
    nat,
    nat,
) {
    match target {
        CursorTarget::Top => (0, if at.1 <= lines[0].len() {
            at.1
        } else {
            lines[0].len()
        }),
        CursorTarget::Head => (at.0, 0),
    }
}

/// `TextArea::new`: a text area that holds the given lines, or one empty line
/// where none are given, with the cursor at the start, no selection and no frame.
#[verifier::external_body]
pub fn textarea_new(lines: Vec<String>) -> (r: TextBox)
    ensures
        textarea_lines(r) == lines_or_empty(views(lines@)),
        textarea_cursor(r) == (0nat, 0nat),
        textarea_selection_start(r) is None,
        textarea_block(r) is None,
{
    TextBox { area: TextArea::new(lines) }
}

/// `TextArea::default`: a text area that holds one empty line, with the cursor at
/// the start, no selection and no frame.
#[verifier::external_body]
pub fn textarea_default() -> (r: TextBox)
    ensures
        textarea_lines(r) == seq![Seq::<char>::empty()],
        textarea_cursor(r) == (0nat, 0nat),
        textarea_selection_start(r) is None,
        textarea_block(r) is None,
{
    TextBox { area: TextArea::default() }
}

/// `TextArea::clear`: the text area afterwards holds `cleared_lines` of what it
/// held, where that is stated. Where it held more than one empty line, the
/// selection has ended; where it held one empty line, nothing changes. Where a
/// selection started outside the text, the outcome is left unstated. The frame
/// stays as it is.
#[verifier::external_body]
pub fn textarea_clear(t: &mut TextBox)
    ensures
        cleared_lines(*old(t)) matches Some(l) ==> textarea_lines(*final(t)) == l,
        textarea_lines(*old(t)) != seq![Seq::<char>::empty()] && cleared_lines(*old(t)) is Some
            ==> textarea_selection_start(*final(t)) is None,
        textarea_block(*final(t)) == textarea_block(*old(t)),
{
    t.area.clear();
}

/// `TextArea::insert_str`: into a text area that holds one empty line, inserting
/// `s` gives the pieces of `s` between newlines, each without one carriage return
/// at its end; inserting nothing where no selection is under way changes no line.
/// Into a text area with text the result depends on the cursor, and is left
/// unstated. The call first deletes the selected text, if any, and ends the
/// selection; the frame stays as it is.
#[verifier::external_body]
pub fn textarea_insert_str(t: &mut TextBox, s: &str)
    ensures
        textarea_lines(*old(t)) == seq![Seq::<char>::empty()] ==> textarea_lines(*final(t))
            == split_newline_strip_cr(s@),
        s@.len() == 0 && textarea_selection_start(*old(t)) is None ==> textarea_lines(*final(t))
            == textarea_lines(*old(t)),
        textarea_selection_start(*final(t)) is None,
        textarea_block(*final(t)) == textarea_block(*old(t)),
{
    t.area.insert_str(s);
}

/// `TextArea::move_cursor` with `CursorMove::Top` or `CursorMove::Head`: the
/// cursor moves as `moved_cursor` says; the lines, the frame and the selection
/// stay as they are.
#[verifier::external_body]
pub fn textarea_move_cursor(t: &mut TextBox, target: CursorTarget)
    ensures
        textarea_cursor(*final(t)) == moved_cursor(
            textarea_lines(*old(t)),
            textarea_cursor(*old(t)),
            target,
        ),
        textarea_lines(*final(t)) == textarea_lines(*old(t)),
        textarea_selection_start(*final(t)) == textarea_selection_start(*old(t)),
        textarea_block(*final(t)) == textarea_block(*old(t)),
{
    t.area.move_cursor(
        match target {
            CursorTarget::Top => CursorMove::Top,
            CursorTarget::Head => CursorMove::Head,
        },
    );
}

/// `TextArea::lines`: the lines that the text area holds.
#[verifier::external_body]
pub fn textarea_lines_of(t: &TextBox) -> (r: Vec<String>)
    ensures
        views(r@) == textarea_lines(*t),
{
    t.area.lines().to_vec()
}

/// `TextArea::input`: the text area handles a key as an editor does. What that
/// does to the lines, the cursor and the selection depends on the key and the
/// editor's key bindings, and is left unstated.
#[verifier::external_body]
pub fn textarea_input(t: &mut TextBox, input: Input) {
    t.area.input(input);
}

/// `TextArea::set_block` with `Block::default().title(title).borders(Borders::ALL)`:
/// the text area is drawn in a frame with borders on all sides and that title;
/// the lines, the cursor and the selection stay as they are.
#[verifier::external_body]
pub fn textarea_set_titled_block(t: &mut TextBox, title: &'static str)
    ensures
        textarea_block(*final(t)) == Some((true, title@)),
        textarea_lines(*final(t)) == textarea_lines(*old(t)),
        textarea_cursor(*final(t)) == textarea_cursor(*old(t)),
        textarea_selection_start(*final(t)) == textarea_selection_start(*old(t)),
{
    t.area.set_block(Block::default().title(title).borders(Borders::ALL));
}

} // verus!
