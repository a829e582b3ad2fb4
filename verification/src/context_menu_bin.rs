//! When a widget with a context menu opens it, and where.

use vstd::prelude::*;

verus! {

/// The rectangle that the context menu points to.
#[derive(Debug, Clone, Copy, PartialEq, Eq, Structural)]
pub struct Rectangle {
    pub x: i32,
    pub y: i32,
    pub width: i32,
    pub height: i32,
}

/// A widget with a context menu; its logic does not depend on the widget.
pub struct ContextMenuBin;

impl ContextMenuBin {
    /// Whether a release of the click gesture opens the menu: only a single
    /// press does.
    pub fn opens_on_release(n_press: i32) -> (opens: bool)
        ensures
            opens == (n_press <= 1),
    {
        !(n_press > 1)
    }

    /// Where the menu opened at the given position points to: nowhere when
    /// there is no menu, else to the empty rectangle at that position.
    pub fn open_menu_at(has_menu: bool, x: i32, y: i32) -> (pointing_to: Option<Rectangle>)
        ensures
            !has_menu ==> pointing_to is None,
            has_menu ==> pointing_to == Some(Rectangle { x, y, width: 0, height: 0 }),
    {
        if !has_menu {
            return None;
        }
        Some(Rectangle { x, y, width: 0, height: 0 })
    }
}

} // verus!
