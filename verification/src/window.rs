//! Placement and style of the main window.

use vstd::prelude::*;

verus! {

/// Where the main window goes when it is shown.
#[derive(Debug, Clone, Copy, PartialEq, Eq, Structural)]
pub enum WindowPlacement {
    /// Maximize it.
    Maximize,
    /// Move it to the given position.
    MoveTo(i32, i32),
    /// Leave the position to the window manager.
    Default,
}

/// Where the main window goes, from its saved state: maximized if it was,
/// else at its saved position when both coordinates are positive.
pub fn window_placement(is_maximized: bool, x: i32, y: i32) -> (placement: WindowPlacement)
    ensures
        placement == (if is_maximized {
            WindowPlacement::Maximize
        } else if x > 0 && y > 0 {
            WindowPlacement::MoveTo(x, y)
        } else {
            WindowPlacement::Default
        }),
{
    if is_maximized {
        WindowPlacement::Maximize
    } else if x > 0 && y > 0 {
        WindowPlacement::MoveTo(x, y)
    } else {
        WindowPlacement::Default
    }
}

/// The suffix of the application id of development builds.
pub open spec fn devel_suffix() -> Seq<char> {
    seq!['D', 'e', 'v', 'e', 'l']
}

/// Whether `s` ends with `suffix`.
pub open spec fn ends_with(s: Seq<char>, suffix: Seq<char>) -> bool {
    s.len() >= suffix.len() && s.skip(s.len() - suffix.len()) == suffix
}

/// Whether the application is a development build, whose window gets the
/// `devel` style: its id ends with `Devel`.
pub fn is_devel_build(application_id: Option<&str>) -> (devel: bool)
    ensures
        devel == (application_id matches Some(id) && ends_with(id@, devel_suffix())),
{
    match application_id {
        Some(id) => {
            let len = id.unicode_len();
            if len < 5 {
                return false;
            }
            let tail = id.substring_char(len - 5, len);
            let matches = tail.get_char(0) == 'D' && tail.get_char(1) == 'e' && tail.get_char(2)
                == 'v' && tail.get_char(3) == 'e' && tail.get_char(4) == 'l';
            assert(tail@ == id@.skip(len - 5));
            if matches {
                assert(tail@ =~= devel_suffix());
            } else {
                assert(tail@ != devel_suffix()) by {
                    if tail@ == devel_suffix() {
                        assert(tail@[0] == 'D' && tail@[1] == 'e' && tail@[2] == 'v' && tail@[3]
                            == 'e' && tail@[4] == 'l');
                    }
                }
            }
            matches
        },
        None => false,
    }
}

} // verus!
