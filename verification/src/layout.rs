//! The plan for both windows.

use vstd::prelude::*;
use crate::geometry::{Extent, Monitor, Rect, Size};
use crate::mode::LayoutMode;
use crate::placement::Placement;
use crate::quadrant::{
    lemma_quadrants_equal_and_apart, lemma_tiled_exact, quadrant_rect, tile_placement, tiled,
    Quadrant,
};
use crate::side_by_side::{
    lemma_side_by_side_exact, lemma_side_by_side_meets_at_center, side_by_side,
    side_by_side_frame, side_by_side_origin, side_by_side_placement,
};
use crate::window::{Role, WindowState};

verus! {

/// What is to be done with each window. `None` leaves a window untouched.
#[derive(Clone, Copy, Debug, PartialEq, Eq)]
pub struct Layout {
    pub editor: Option<Placement>,
    pub viewer: Option<Placement>,
}

/// The placement of one window.
///
/// An absent window is left out. Side by side, so is a window whose size
/// could not be read, since its place depends on its size. Tiled, a window
/// needs only to exist. In either mode a window whose corner would not be a
/// position is left out.
pub open spec fn planned(
    mode: LayoutMode,
    monitor: Monitor,
    role: Role,
    window: WindowState,
) -> Option<Placement> {
    match window {
        WindowState::Absent => None,
        WindowState::Present { outer_size } => match mode {
            LayoutMode::SideBySide => match outer_size {
                Some(outer) => side_by_side(monitor, role, outer),
                None => None,
            },
            LayoutMode::QuadrantTile => tiled(monitor, role.quadrant()),
        },
    }
}

/// The rectangle that a window is meant to cover: beside the centre line
/// with the size it has, or its quadrant.
pub open spec fn target_frame(mode: LayoutMode, monitor: Rect, role: Role, outer: Extent) -> Rect {
    match mode {
        LayoutMode::SideBySide => side_by_side_frame(monitor, role, outer),
        LayoutMode::QuadrantTile => quadrant_rect(monitor, role.quadrant()),
    }
}

/// The plan for both windows: each is placed by [`planned`], on its own.
pub open spec fn plan(
    mode: LayoutMode,
    monitor: Monitor,
    editor: WindowState,
    viewer: WindowState,
) -> Layout {
    Layout {
        editor: planned(mode, monitor, Role::Editor, editor),
        viewer: planned(mode, monitor, Role::Viewer, viewer),
    }
}

/// Places one window on `monitor`.
pub fn place_window(
    mode: LayoutMode,
    monitor: &Monitor,
    role: Role,
    window: WindowState,
) -> (r: Option<Placement>)
    ensures
        r == planned(mode, *monitor, role, window),
{
    match window {
        WindowState::Absent => None,
        WindowState::Present { outer_size } => match mode {
            LayoutMode::SideBySide => match outer_size {
                Some(outer) => side_by_side_placement(monitor, role, outer),
                None => None,
            },
            LayoutMode::QuadrantTile => tile_placement(monitor, role.quadrant()),
        },
    }
}

/// Plans both windows on `monitor`. Both placements are computed before
/// either is handed out, and neither depends on the other window.
pub fn plan_layout(
    mode: LayoutMode,
    monitor: &Monitor,
    editor: WindowState,
    viewer: WindowState,
) -> (layout: Layout)
    ensures
        layout == plan(mode, *monitor, editor, viewer),
{
    Layout {
        editor: place_window(mode, monitor, Role::Editor, editor),
        viewer: place_window(mode, monitor, Role::Viewer, viewer),
    }
}

/// A window is placed exactly where it exists, its size is known if the
/// mode needs it, and its corner is a position.
pub proof fn lemma_planned_exact(
    mode: LayoutMode,
    monitor: Monitor,
    role: Role,
    window: WindowState,
)
    ensures
        planned(mode, monitor, role, window) is Some <==> match (mode, window) {
            (_, WindowState::Absent) => false,
            (LayoutMode::SideBySide, WindowState::Present { outer_size: None }) => false,
            (LayoutMode::SideBySide, WindowState::Present { outer_size: Some(outer) }) =>
                side_by_side_origin(monitor@, role, outer@).representable(),
            (LayoutMode::QuadrantTile, WindowState::Present { .. }) => quadrant_rect(
                monitor@,
                role.quadrant(),
            ).origin.representable(),
        },
{
}

/// A window that is placed covers its target frame once the placement is
/// applied. Side by side it keeps its size; tiled it is given the size of
/// its quadrant, half the monitor's each way.
pub proof fn lemma_planned_covers_target(
    mode: LayoutMode,
    monitor: Monitor,
    role: Role,
    outer: Size,
)
    ensures
        planned(mode, monitor, role, WindowState::Present { outer_size: Some(outer) })
            matches Some(placement) ==> {
            &&& placement.frame(outer@) == target_frame(mode, monitor@, role, outer@)
            &&& placement.size == match mode {
                LayoutMode::SideBySide => None,
                LayoutMode::QuadrantTile => Some(monitor.size.halved()),
            }
        },
{
    lemma_side_by_side_exact(monitor, role, outer);
    lemma_tiled_exact(monitor, role.quadrant(), outer@);
}

/// What is planned for one window does not depend on the other window:
/// not on whether it exists, nor on its size. An absent window is left out,
/// and the other is planned all the same.
pub proof fn lemma_windows_planned_independently(
    mode: LayoutMode,
    monitor: Monitor,
    editor: WindowState,
    viewer: WindowState,
    other: WindowState,
)
    ensures
        plan(mode, monitor, editor, viewer).editor == plan(mode, monitor, editor, other).editor,
        plan(mode, monitor, editor, viewer).viewer == plan(mode, monitor, other, viewer).viewer,
        plan(mode, monitor, WindowState::Absent, viewer).editor is None,
        plan(mode, monitor, editor, WindowState::Absent).viewer is None,
{
}

/// In either mode the two target frames share no pixel: side by side the
/// centre line parts them, tiled they are two quadrants. So two windows
/// that are placed do not overlap.
pub proof fn lemma_planned_frames_apart(
    mode: LayoutMode,
    monitor: Monitor,
    editor: Size,
    viewer: Size,
)
    ensures
        !target_frame(mode, monitor@, Role::Editor, editor@).overlaps(
            target_frame(mode, monitor@, Role::Viewer, viewer@),
        ),
        ({
            let layout = plan(
                mode,
                monitor,
                WindowState::Present { outer_size: Some(editor) },
                WindowState::Present { outer_size: Some(viewer) },
            );
            layout.editor matches Some(e) ==> (layout.viewer matches Some(v) ==> !e.frame(
                editor@,
            ).overlaps(v.frame(viewer@)))
        }),
{
    lemma_planned_covers_target(mode, monitor, Role::Editor, editor);
    lemma_planned_covers_target(mode, monitor, Role::Viewer, viewer);
    match mode {
        LayoutMode::SideBySide => {
            lemma_side_by_side_meets_at_center(monitor, editor, viewer);
        },
        LayoutMode::QuadrantTile => {
            lemma_quadrants_equal_and_apart(monitor, Quadrant::BottomRight, Quadrant::TopRight);
        },
    }
}

} // verus!
