//! The text editors of the request pane (`tui_textarea::TextArea`), seen by
//! the library through the lines they hold.
use vstd::prelude::*;

use ratatui::style::{Modifier, Style};
use tui_textarea::TextArea;

use crate::text::string_views;

verus! {

/// A text editor of the request pane: a `tui_textarea::TextArea` (which
/// Verus cannot declare), whose text the library reads as lines. The
/// terminal front end reaches the widget itself through the field.
#[verifier::external_body]
pub struct Editor<'a>(pub TextArea<'a>);

/// `ratatui::style::Style`, carried through to the editors unread.
#[verifier::external_type_specification]
#[verifier::external_body]
pub struct ExStyle(Style);

/// The lines an editor holds (what `TextArea::lines` returns).
pub uninterp spec fn editor_lines(t: Editor) -> Seq<Seq<char>>;

/// The lines an editor made from `lines` holds: `TextArea::new` adds one
/// empty line to an empty list.
pub open spec fn new_editor_lines(lines: Seq<Seq<char>>) -> Seq<Seq<char>> {
    if lines.len() == 0 {
        seq![Seq::<char>::empty()]
    } else {
        lines
    }
}

/// Calls `TextArea::new`. Trusted: the editor holds `lines`, or one empty
/// line where `lines` is empty (as its source shows).
#[verifier::external_body]
pub(crate) fn editor_new<'a>(lines: Vec<String>) -> (t: Editor<'a>)
    ensures
        editor_lines(t) == new_editor_lines(string_views(lines@)),
{
    Editor(TextArea::new(lines))
}

/// Calls `TextArea::default`. Trusted: the editor holds one empty line.
#[verifier::external_body]
pub(crate) fn editor_default<'a>() -> (t: Editor<'a>)
    ensures
        editor_lines(t) == seq![Seq::<char>::empty()],
{
    Editor(TextArea::default())
}

/// Calls `TextArea::lines` and copies the lines out. Trusted: the copy holds
/// the editor's lines, of which there is at least one (its documentation
/// says the slice is never empty).
#[verifier::external_body]
pub(crate) fn editor_text_lines(t: &Editor) -> (r: Vec<String>)
    ensures
        string_views(r@) == editor_lines(*t),
        r@.len() > 0,
{
    t.0.lines().to_vec()
}

/// Calls `TextArea::set_cursor_line_style`. Trusted: the lines stay as
/// they were (the method only stores the style).
#[verifier::external_body]
pub(crate) fn editor_set_cursor_line_style(t: &mut Editor, style: Style)
    ensures
        editor_lines(*final(t)) == editor_lines(*old(t)),
{
    t.0.set_cursor_line_style(style);
}

/// Calls `TextArea::set_cursor_style`. Trusted: the lines stay as they
/// were (the method only stores the style).
#[verifier::external_body]
pub(crate) fn editor_set_cursor_style(t: &mut Editor, style: Style)
    ensures
        editor_lines(*final(t)) == editor_lines(*old(t)),
{
    t.0.set_cursor_style(style);
}

/// Calls `Style::default`, the style that adds nothing. Nothing about the
/// style is stated.
#[verifier::external_body]
pub(crate) fn plain_style() -> Style {
    Style::default()
}

/// Calls `Style::add_modifier` with `Modifier::REVERSED`. Nothing about the
/// style is stated.
#[verifier::external_body]
pub(crate) fn reversed(style: Style) -> Style {
    style.add_modifier(Modifier::REVERSED)
}

} // verus!
