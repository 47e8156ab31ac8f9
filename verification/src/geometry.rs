//! Points, sizes and rectangles in physical pixels, origin at the top left.

use vstd::prelude::*;

verus! {

/// A point of the plane, with unbounded coordinates.
pub struct Point {
    pub x: int,
    pub y: int,
}

/// The width and height of a rectangle, with unbounded lengths.
pub struct Extent {
    pub width: nat,
    pub height: nat,
}

/// An axis-aligned rectangle: its top-left corner and its extent.
///
/// The rectangle holds the pixels `(x, y)` with `left <= x < right` and
/// `top <= y < bottom`.
pub struct Rect {
    pub origin: Point,
    pub extent: Extent,
}

impl Point {
    /// Both coordinates fit a window position.
    pub open spec fn representable(self) -> bool {
        &&& i32::MIN <= self.x <= i32::MAX
        &&& i32::MIN <= self.y <= i32::MAX
    }

    /// The window position at this point, where there is one.
    pub open spec fn to_position(self) -> Option<Position> {
        if self.representable() {
            Some(Position { x: self.x as i32, y: self.y as i32 })
        } else {
            None
        }
    }
}

impl Extent {
    /// The number of pixels of a rectangle of this extent.
    pub open spec fn area(self) -> nat {
        self.width * self.height
    }

    /// Half the width and half the height, each rounded down.
    pub open spec fn halved(self) -> Extent {
        Extent { width: self.width / 2, height: self.height / 2 }
    }
}

impl Rect {
    /// The first column of the rectangle.
    pub open spec fn left(self) -> int {
        self.origin.x
    }

    /// The first row of the rectangle.
    pub open spec fn top(self) -> int {
        self.origin.y
    }

    /// The first column to the right of the rectangle.
    pub open spec fn right(self) -> int {
        self.origin.x + self.extent.width
    }

    /// The first row below the rectangle.
    pub open spec fn bottom(self) -> int {
        self.origin.y + self.extent.height
    }

    /// The column of the vertical centre line. With an odd width the part
    /// left of the line is one pixel narrower than the part from it on.
    pub open spec fn center_x(self) -> int {
        self.origin.x + self.extent.width / 2
    }

    /// The row of the horizontal centre line.
    pub open spec fn center_y(self) -> int {
        self.origin.y + self.extent.height / 2
    }

    /// The number of pixels in the rectangle.
    pub open spec fn area(self) -> nat {
        self.extent.area()
    }

    /// The pixel at `p` lies in the rectangle.
    pub open spec fn contains(self, p: Point) -> bool {
        &&& self.left() <= p.x < self.right()
        &&& self.top() <= p.y < self.bottom()
    }

    /// Some pixel lies in both rectangles.
    pub open spec fn overlaps(self, other: Rect) -> bool {
        exists|p: Point| #![trigger self.contains(p)] self.contains(p) && other.contains(p)
    }

    /// Every pixel of `inner` lies in this rectangle.
    pub open spec fn encloses(self, inner: Rect) -> bool {
        forall|p: Point| #![trigger inner.contains(p)] inner.contains(p) ==> self.contains(p)
    }
}

/// The position of a window or monitor: its top-left corner.
#[derive(Clone, Copy, Debug, PartialEq, Eq)]
pub struct Position {
    pub x: i32,
    pub y: i32,
}

/// The size of a window or monitor.
#[derive(Clone, Copy, Debug, PartialEq, Eq)]
pub struct Size {
    pub width: u32,
    pub height: u32,
}

/// A monitor as the display system reports it.
#[derive(Clone, Copy, Debug, PartialEq, Eq)]
pub struct Monitor {
    pub position: Position,
    pub size: Size,
}

impl View for Position {
    type V = Point;

    open spec fn view(&self) -> Point {
        Point { x: self.x as int, y: self.y as int }
    }
}

impl View for Size {
    type V = Extent;

    open spec fn view(&self) -> Extent {
        Extent { width: self.width as nat, height: self.height as nat }
    }
}

impl View for Monitor {
    type V = Rect;

    open spec fn view(&self) -> Rect {
        Rect { origin: self.position@, extent: self.size@ }
    }
}

impl Position {
    /// The position at `(x, y)` where both coordinates fit, `None` where one
    /// does not.
    pub fn from_wide(x: i64, y: i64) -> (r: Option<Position>)
        ensures
            r == (Point { x: x as int, y: y as int }).to_position(),
    {
        let least: i64 = i32::MIN as i64;
        let most: i64 = i32::MAX as i64;
        if least <= x && x <= most && least <= y && y <= most {
            Some(Position { x: x as i32, y: y as i32 })
        } else {
            None
        }
    }
}

impl Size {
    /// [`Size::halved`] in contracts.
    pub open spec fn spec_halved(self) -> Size {
        Size { width: self.width / 2, height: self.height / 2 }
    }

    /// Half the width and half the height, each rounded down.
    #[verifier::when_used_as_spec(spec_halved)]
    pub fn halved(self) -> (r: Size)
        ensures
            r == self.spec_halved(),
            r@ == self@.halved(),
    {
        Size { width: self.width / 2, height: self.height / 2 }
    }
}

impl Monitor {
    /// The column of the vertical centre line.
    pub fn center_x(&self) -> (x: i64)
        ensures
            x == self@.center_x(),
    {
        self.position.x as i64 + (self.size.width / 2) as i64
    }

    /// The row of the horizontal centre line.
    pub fn center_y(&self) -> (y: i64)
        ensures
            y == self@.center_y(),
    {
        self.position.y as i64 + (self.size.height / 2) as i64
    }
}

} // verus!
