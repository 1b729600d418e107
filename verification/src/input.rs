//! Keys as the terminal editors see them, and what a key press asks of the
//! program around an editor.

use vstd::prelude::*;

verus! {

/// A pressed key.
#[derive(Clone, Copy, PartialEq, Eq, Structural, Debug)]
pub enum Key {
    Char(char),
    Enter,
    Esc,
    Backspace,
    Tab,
    Up,
    Down,
    Left,
    Right,
    Insert,
    Delete,
    Other,
}

/// What the program around an editor does after a key press.
#[derive(Clone, Copy, PartialEq, Eq, Structural, Debug)]
pub enum KeyAction {
    /// Nothing beyond redrawing.
    Continue,
    /// Leave the program.
    Quit,
    /// Write the configuration files.
    Save,
    /// Load the preview images of the selected entry again.
    ReloadImages,
}

} // verus!

verus! {

/// How a line of a details panel is drawn.
#[derive(Clone, Copy, PartialEq, Eq, Structural, Debug)]
pub enum LineMark {
    /// Not selected.
    Plain,
    /// Selected, showing its value.
    Selected,
    /// Selected and being edited, showing the edit text.
    Editing,
}

/// The mark of a line that is selected or not while editing goes on or not.
pub open spec fn mark_for(selected: bool, editing: bool) -> LineMark {
    if selected && editing {
        LineMark::Editing
    } else if selected {
        LineMark::Selected
    } else {
        LineMark::Plain
    }
}

/// The mark of a line that is selected or not while editing goes on or not.
pub fn line_mark(selected: bool, editing: bool) -> (m: LineMark)
    ensures
        m == mark_for(selected, editing),
{
    if selected && editing {
        LineMark::Editing
    } else if selected {
        LineMark::Selected
    } else {
        LineMark::Plain
    }
}

} // verus!
