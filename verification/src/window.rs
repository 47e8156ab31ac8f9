//! The two windows that are laid out, and what is known of one of them.

use vstd::prelude::*;
use crate::geometry::Size;
use crate::quadrant::Quadrant;

verus! {

/// Which of the two windows.
#[derive(Clone, Copy, Debug, PartialEq, Eq)]
pub enum Role {
    Editor,
    Viewer,
}

/// What the windowing system says of one window when the layout is planned.
#[derive(Clone, Copy, Debug, PartialEq, Eq)]
pub enum WindowState {
    /// No window of that name exists.
    Absent,
    /// The window exists. `outer_size` is its size with decorations, or
    /// `None` where the size could not be read.
    Present { outer_size: Option<Size> },
}

impl Role {
    /// The characters of [`Role::label`].
    pub open spec fn spec_label(self) -> Seq<char> {
        match self {
            Role::Editor => "editor"@,
            Role::Viewer => "viewer"@,
        }
    }

    /// The name under which the windowing system knows the window.
    pub fn label(self) -> (name: &'static str)
        ensures
            name@ == self.spec_label(),
    {
        match self {
            Role::Editor => "editor",
            Role::Viewer => "viewer",
        }
    }

    /// [`Role::quadrant`] in contracts.
    pub open spec fn spec_quadrant(self) -> Quadrant {
        match self {
            Role::Editor => Quadrant::BottomRight,
            Role::Viewer => Quadrant::TopRight,
        }
    }

    /// The quadrant that the window takes when the windows are tiled: the
    /// viewer above, the editor below, both in the right half.
    #[verifier::when_used_as_spec(spec_quadrant)]
    pub fn quadrant(self) -> (q: Quadrant)
        ensures
            q == self.spec_quadrant(),
    {
        match self {
            Role::Editor => Quadrant::BottomRight,
            Role::Viewer => Quadrant::TopRight,
        }
    }
}

} // verus!
