//! Tiling: the monitor is cut along its two centre lines into four
//! quadrants of one size, and a window is resized to one of them.

use vstd::prelude::*;
use crate::geometry::{Extent, Monitor, Point, Position, Rect};
use crate::placement::Placement;

verus! {

/// One of the four quadrants of a monitor.
#[derive(Clone, Copy, Debug, PartialEq, Eq)]
pub enum Quadrant {
    TopLeft,
    TopRight,
    BottomLeft,
    BottomRight,
}

impl Quadrant {
    /// [`Quadrant::is_right`] in contracts.
    pub open spec fn spec_is_right(self) -> bool {
        self is TopRight || self is BottomRight
    }

    /// [`Quadrant::is_bottom`] in contracts.
    pub open spec fn spec_is_bottom(self) -> bool {
        self is BottomLeft || self is BottomRight
    }

    /// The quadrant begins on the vertical centre line.
    #[verifier::when_used_as_spec(spec_is_right)]
    pub fn is_right(self) -> (b: bool)
        ensures
            b == self.spec_is_right(),
    {
        match self {
            Quadrant::TopRight | Quadrant::BottomRight => true,
            Quadrant::TopLeft | Quadrant::BottomLeft => false,
        }
    }

    /// The quadrant begins on the horizontal centre line.
    #[verifier::when_used_as_spec(spec_is_bottom)]
    pub fn is_bottom(self) -> (b: bool)
        ensures
            b == self.spec_is_bottom(),
    {
        match self {
            Quadrant::BottomLeft | Quadrant::BottomRight => true,
            Quadrant::TopLeft | Quadrant::TopRight => false,
        }
    }
}

/// The rectangle of one quadrant of `monitor`.
///
/// Every quadrant is half the monitor wide and half the monitor high, both
/// rounded down. The left ones begin at the monitor's left edge and the
/// right ones on its vertical centre line; the top ones begin at its top
/// edge and the bottom ones on its horizontal centre line.
pub open spec fn quadrant_rect(monitor: Rect, quadrant: Quadrant) -> Rect {
    Rect {
        origin: Point {
            x: if quadrant.is_right() {
                monitor.center_x()
            } else {
                monitor.left()
            },
            y: if quadrant.is_bottom() {
                monitor.center_y()
            } else {
                monitor.top()
            },
        },
        extent: monitor.extent.halved(),
    }
}

/// The part of `monitor` from its vertical centre line on.
pub open spec fn right_half(monitor: Rect) -> Rect {
    Rect {
        origin: Point { x: monitor.center_x(), y: monitor.top() },
        extent: Extent {
            width: (monitor.extent.width - monitor.extent.width / 2) as nat,
            height: monitor.extent.height,
        },
    }
}

/// The placement that fills a quadrant: a resize to the quadrant's size and
/// a move to its corner, where the corner is a position, and nothing where
/// it is not.
pub open spec fn tiled(monitor: Monitor, quadrant: Quadrant) -> Option<Placement> {
    match quadrant_rect(monitor@, quadrant).origin.to_position() {
        Some(position) => Some(
            Placement {
                position,
                size: Some(monitor.size.halved()),
            },
        ),
        None => None,
    }
}

/// Places one window on a quadrant of `monitor`.
pub fn tile_placement(monitor: &Monitor, quadrant: Quadrant) -> (r: Option<Placement>)
    ensures
        r == tiled(*monitor, quadrant),
{
    let x: i64 = if quadrant.is_right() {
        monitor.center_x()
    } else {
        monitor.position.x as i64
    };
    let y: i64 = if quadrant.is_bottom() {
        monitor.center_y()
    } else {
        monitor.position.y as i64
    };
    match Position::from_wide(x, y) {
        Some(position) => Some(Placement { position, size: Some(monitor.size.halved()) }),
        None => None,
    }
}

/// The four quadrants of a monitor have one size, half the monitor's each
/// way, and so one area; each lies within the monitor; and no pixel lies in
/// two of them.
pub proof fn lemma_quadrants_equal_and_apart(monitor: Monitor, a: Quadrant, b: Quadrant)
    ensures
        quadrant_rect(monitor@, a).extent == monitor@.extent.halved(),
        quadrant_rect(monitor@, a).area() == quadrant_rect(monitor@, b).area(),
        monitor@.encloses(quadrant_rect(monitor@, a)),
        a != b ==> !quadrant_rect(monitor@, a).overlaps(quadrant_rect(monitor@, b)),
{
}

/// The two right quadrants lie within the monitor's right half, the top one
/// above the bottom one.
pub proof fn lemma_right_quadrants_in_right_half(monitor: Monitor)
    ensures
        right_half(monitor@).encloses(quadrant_rect(monitor@, Quadrant::TopRight)),
        right_half(monitor@).encloses(quadrant_rect(monitor@, Quadrant::BottomRight)),
        quadrant_rect(monitor@, Quadrant::TopRight).bottom() == quadrant_rect(
            monitor@,
            Quadrant::BottomRight,
        ).top(),
{
}

/// On a monitor of even width and even height the two right quadrants cover
/// the right half: each of its pixels lies in one of them.
pub proof fn lemma_right_quadrants_cover_right_half(monitor: Monitor, p: Point)
    requires
        monitor.size.width % 2 == 0,
        monitor.size.height % 2 == 0,
    ensures
        right_half(monitor@).contains(p) <==> (quadrant_rect(monitor@, Quadrant::TopRight).contains(
            p,
        ) || quadrant_rect(monitor@, Quadrant::BottomRight).contains(p)),
{
}

/// A placement that exists fills its quadrant exactly, whatever size the
/// window had before.
pub proof fn lemma_tiled_exact(monitor: Monitor, quadrant: Quadrant, outer: Extent)
    ensures
        tiled(monitor, quadrant) is Some <==> quadrant_rect(
            monitor@,
            quadrant,
        ).origin.representable(),
        tiled(monitor, quadrant) matches Some(placement) ==> placement.frame(outer)
            == quadrant_rect(monitor@, quadrant),
{
}

/// On a monitor whose far corner is a position every quadrant is filled.
pub proof fn lemma_tiled_fits(monitor: Monitor, quadrant: Quadrant)
    requires
        monitor@.right() <= i32::MAX,
        monitor@.bottom() <= i32::MAX,
    ensures
        tiled(monitor, quadrant) is Some,
{
}

} // verus!
