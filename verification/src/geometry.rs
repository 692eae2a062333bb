//! Where a web view stands in its parent, in the two coordinate systems at hand.
//!
//! Callers measure from the top-left corner with `y` growing downwards; AppKit measures from the
//! bottom-left corner with `y` growing upwards. Coordinates that the platform holds as doubles are
//! carried by their bits: the library says which lengths are subtracted from which and in what
//! order, and whoever talks to the platform evaluates the difference.

use vstd::prelude::*;

verus! {

/// A double, by the bits of its IEEE 754 binary64 encoding.
#[derive(Debug, Clone, Copy, PartialEq, Eq, Structural)]
pub struct Double {
    pub bits: u64,
}

/// A single-precision number, by the bits of its IEEE 754 binary32 encoding.
#[derive(Debug, Clone, Copy, PartialEq, Eq, Structural)]
pub struct Single {
    pub bits: u32,
}

/// A length on one axis, as the platform or the caller gave it.
#[derive(Debug, Clone, Copy, PartialEq, Eq, Structural)]
pub enum Length {
    Whole(i64),
    Double(Double),
}

/// The length `(whole - first) - second`.
#[derive(Debug, Clone, Copy, PartialEq, Eq, Structural)]
pub struct Difference {
    pub whole: Length,
    pub first: Length,
    pub second: Length,
}

/// A point whose height is measured from the far edge of the parent.
#[derive(Debug, Clone, Copy, PartialEq, Eq, Structural)]
pub struct FlippedPoint {
    pub x: Length,
    pub y: Difference,
}

/// A frame as a view reports it.
#[derive(Debug, Clone, Copy, PartialEq, Eq, Structural)]
pub struct ViewFrame {
    pub x: Double,
    pub y: Double,
    pub width: Double,
    pub height: Double,
}

/// The bounds of a web view, from the top-left corner of its parent.
#[derive(Debug, Clone, Copy, PartialEq, Eq, Structural)]
pub struct Rect {
    pub position: FlippedPoint,
    pub width: Double,
    pub height: Double,
}

/// Where callers want a child web view, in whole logical pixels from the top-left corner of its
/// parent, and how high the parent is.
#[derive(Debug, Clone, Copy, PartialEq, Eq, Structural)]
pub struct Placement {
    pub x: i32,
    pub y: i32,
    pub width: i32,
    pub height: i32,
    pub parent_height: Double,
}

/// Where a new frame starts, in AppKit's coordinates.
#[derive(Debug, Clone, Copy, PartialEq, Eq, Structural)]
pub enum Origin {
    /// A point given outright.
    At { x: i32, y: i32 },
    /// A point of the parent, seen from its bottom-left corner.
    Flipped(FlippedPoint),
}

/// A frame to give to a view.
#[derive(Debug, Clone, Copy, PartialEq, Eq, Structural)]
pub struct Frame {
    pub origin: Origin,
    pub width: i64,
    pub height: i64,
}

impl Length {
    /// The number that a length denotes, given the number that each double denotes.
    pub open spec fn value(self, read: spec_fn(Double) -> int) -> int {
        match self {
            Length::Whole(n) => n as int,
            Length::Double(d) => read(d),
        }
    }
}

impl Difference {
    /// The number that a difference denotes in exact arithmetic.
    pub open spec fn value(self, read: spec_fn(Double) -> int) -> int {
        self.whole.value(read) - self.first.value(read) - self.second.value(read)
    }
}

impl Origin {
    /// The point that an origin denotes in AppKit's coordinates, in exact arithmetic.
    pub open spec fn place(self, read: spec_fn(Double) -> int) -> (int, int) {
        match self {
            Origin::At { x, y } => (x as int, y as int),
            Origin::Flipped(point) => (point.x.value(read), point.y.value(read)),
        }
    }
}

/// A point of a view in AppKit's coordinates: its distance from the bottom edge is the view's
/// height, less `y`, less the height of what is placed there.
pub open spec fn flipped(view_height: Double, x: i32, y: i32, height: i64) -> FlippedPoint {
    FlippedPoint {
        x: Length::Whole(x as i64),
        y: Difference {
            whole: Length::Double(view_height),
            first: Length::Whole(y as i64),
            second: Length::Whole(height),
        },
    }
}

/// Converts a point of a view from the callers' coordinates to AppKit's: `view_height` is the
/// height of the view, and `height` that of what is placed at the point.
pub fn window_position(view_height: Double, x: i32, y: i32, height: i64) -> (r: FlippedPoint)
    ensures
        r == flipped(view_height, x, y, height),
{
    FlippedPoint {
        x: Length::Whole(x as i64),
        y: Difference {
            whole: Length::Double(view_height),
            first: Length::Whole(y as i64),
            second: Length::Whole(height),
        },
    }
}

/// The bounds of a view in its parent, in the callers' coordinates.
pub fn bounds_in_parent(parent: ViewFrame, view: ViewFrame) -> (r: Rect)
    ensures
        r == bounds_of(parent, view),
{
    Rect {
        position: FlippedPoint {
            x: Length::Double(view.x),
            y: Difference {
                whole: Length::Double(parent.height),
                first: Length::Double(view.y),
                second: Length::Double(view.height),
            },
        },
        width: view.width,
        height: view.height,
    }
}

/// The bounds of a view whose frame, and whose parent's frame, are given: the distance from the
/// top edge is the parent's height, less the view's `y`, less the view's height.
pub open spec fn bounds_of(parent: ViewFrame, view: ViewFrame) -> Rect {
    Rect {
        position: FlippedPoint {
            x: Length::Double(view.x),
            y: Difference {
                whole: Length::Double(parent.height),
                first: Length::Double(view.y),
                second: Length::Double(view.height),
            },
        },
        width: view.width,
        height: view.height,
    }
}

} // verus!
