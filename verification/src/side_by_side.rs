//! Side by side: the editor left of the monitor's centre line, the viewer
//! right of it, both centred vertically. Neither window is resized.

use vstd::prelude::*;
use crate::geometry::{Extent, Monitor, Point, Position, Rect, Size};
use crate::placement::Placement;
use crate::window::Role;

verus! {

/// The top-left corner of a window of size `outer` on `monitor`.
///
/// The editor's right edge and the viewer's left edge lie on the centre
/// line. The window's middle row lies on the monitor's; both halves round
/// down, so a window may stand one pixel off the exact centre.
pub open spec fn side_by_side_origin(monitor: Rect, role: Role, outer: Extent) -> Point {
    Point {
        x: match role {
            Role::Editor => monitor.center_x() - outer.width,
            Role::Viewer => monitor.center_x(),
        },
        y: monitor.center_y() - outer.height / 2,
    }
}

/// The rectangle that the window covers there.
pub open spec fn side_by_side_frame(monitor: Rect, role: Role, outer: Extent) -> Rect {
    Rect { origin: side_by_side_origin(monitor, role, outer), extent: outer }
}

/// The placement of the window: a move to its corner, where the corner is a
/// position, and nothing where it is not.
pub open spec fn side_by_side(monitor: Monitor, role: Role, outer: Size) -> Option<Placement> {
    match side_by_side_origin(monitor@, role, outer@).to_position() {
        Some(position) => Some(Placement { position, size: None }),
        None => None,
    }
}

/// Places one window of outer size `outer` beside the centre line of
/// `monitor`.
pub fn side_by_side_placement(monitor: &Monitor, role: Role, outer: Size) -> (r: Option<Placement>)
    ensures
        r == side_by_side(*monitor, role, outer),
{
    let center_x: i64 = monitor.center_x();
    let x: i64 = match role {
        Role::Editor => center_x - outer.width as i64,
        Role::Viewer => center_x,
    };
    let y: i64 = monitor.center_y() - (outer.height / 2) as i64;
    match Position::from_wide(x, y) {
        Some(position) => Some(Placement { position, size: None }),
        None => None,
    }
}

/// Side by side, the editor ends on the monitor's centre line and the viewer
/// begins on it: no pixel lies in both windows and none between them. This
/// holds of windows of every size.
pub proof fn lemma_side_by_side_meets_at_center(monitor: Monitor, editor: Size, viewer: Size)
    ensures
        side_by_side_frame(monitor@, Role::Editor, editor@).right() == monitor@.center_x(),
        side_by_side_frame(monitor@, Role::Viewer, viewer@).left() == monitor@.center_x(),
        !side_by_side_frame(monitor@, Role::Editor, editor@).overlaps(
            side_by_side_frame(monitor@, Role::Viewer, viewer@),
        ),
{
}

/// A window is centred vertically up to one pixel: the margin above it and
/// the margin below it differ by one at most. A window no taller than the
/// monitor stands within the monitor's rows.
pub proof fn lemma_side_by_side_centered(monitor: Monitor, role: Role, outer: Size)
    ensures
        ({
            let frame = side_by_side_frame(monitor@, role, outer@);
            let above = frame.top() - monitor@.top();
            let below = monitor@.bottom() - frame.bottom();
            &&& -1 <= below - above <= 1
            &&& outer.height <= monitor.size.height ==> above >= 0 && below >= 0
        }),
{
}

/// A placement that exists stands exactly where the geometry says, and
/// leaves the window's size alone.
pub proof fn lemma_side_by_side_exact(monitor: Monitor, role: Role, outer: Size)
    ensures
        side_by_side(monitor, role, outer) is Some
            <==> side_by_side_origin(monitor@, role, outer@).representable(),
        side_by_side(monitor, role, outer) matches Some(placement) ==> {
            &&& placement.size is None
            &&& placement.frame(outer@) == side_by_side_frame(monitor@, role, outer@)
        },
{
}

/// On a monitor whose far corner is a position, a window no taller than the
/// monitor and no wider than half of it is always placed, and stands within
/// the monitor.
pub proof fn lemma_side_by_side_fits(monitor: Monitor, role: Role, outer: Size)
    requires
        monitor@.right() <= i32::MAX,
        monitor@.bottom() <= i32::MAX,
        outer.width <= monitor.size.width / 2,
        outer.height <= monitor.size.height,
    ensures
        side_by_side(monitor, role, outer) is Some,
        monitor@.encloses(side_by_side_frame(monitor@, role, outer@)),
{
}

} // verus!
