//! The mouse cursor over the map: the blocked cursor over road tiles, the
//! normal one elsewhere and over the interface, and when it is swapped.

use vstd::prelude::*;

verus! {

/// Which cursor is shown.
#[derive(Clone, Copy, PartialEq, Eq, Structural, Debug)]
pub enum CursorState {
    Normal,
    Blocked,
}

/// The cursor wanted for the pointer's place: the normal one over the
/// interface, the blocked one over a road tile, else the normal one.
pub open spec fn wanted_cursor(over_ui: bool, on_road: bool) -> CursorState {
    if over_ui {
        CursorState::Normal
    } else if on_road {
        CursorState::Blocked
    } else {
        CursorState::Normal
    }
}

/// The cursor wanted for the pointer's place.
pub fn desired_cursor(over_ui: bool, on_road: bool) -> (r: CursorState)
    ensures
        r == wanted_cursor(over_ui, on_road),
{
    if over_ui {
        CursorState::Normal
    } else if on_road {
        CursorState::Blocked
    } else {
        CursorState::Normal
    }
}

/// The picture of a cursor and its hot spot.
pub fn cursor_image(state: CursorState) -> (r: (&'static str, (u32, u32)))
    ensures
        r.0@ == match state {
            CursorState::Normal => "UI Elements/UI Elements/Cursors/Cursor_02.png"@,
            CursorState::Blocked => "UI Elements/UI Elements/Cursors/Cursor_03.png"@,
        },
        r.1 == match state {
            CursorState::Normal => (24u32, 20u32),
            CursorState::Blocked => (32u32, 29u32),
        },
{
    match state {
        CursorState::Normal => ("UI Elements/UI Elements/Cursors/Cursor_02.png", (24, 20)),
        CursorState::Blocked => ("UI Elements/UI Elements/Cursors/Cursor_03.png", (32, 29)),
    }
}

/// Brings the shown cursor in line with the pointer's place. Returns the
/// cursor to put up when it changes, and nothing when it stays.
pub fn update_cursor(current: &mut CursorState, over_ui: bool, on_road: bool) -> (change: Option<CursorState>)
    ensures
        *final(current) == wanted_cursor(over_ui, on_road),
        change == if *old(current) == wanted_cursor(over_ui, on_road) {
            None
        } else {
            Some(wanted_cursor(over_ui, on_road))
        },
{
    let desired = desired_cursor(over_ui, on_road);
    if *current != desired {
        *current = desired;
        Some(desired)
    } else {
        None
    }
}

} // verus!
