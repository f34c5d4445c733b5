//! Shapes that make up a face, in integer screen geometry. Angles are in
//! milliradians.

use crate::geometry::{Point, Size};
use vstd::prelude::*;

verus! {

/// A straight line between two points.
#[derive(Clone, Copy, PartialEq, Eq, Structural, Debug)]
pub struct Line {
    pub start: Point,
    pub end: Point,
}

/// An ellipse inscribed in a box.
#[derive(Clone, Copy, PartialEq, Eq, Structural, Debug)]
pub struct Ellipse {
    /// Top-left corner of the bounding box.
    pub top_left: Point,
    /// Extent of the bounding box.
    pub size: Size,
}

/// A circle inscribed in a square box.
#[derive(Clone, Copy, PartialEq, Eq, Structural, Debug)]
pub struct Circle {
    /// Top-left corner of the bounding box.
    pub top_left: Point,
    /// Diameter of the circle.
    pub diameter: u32,
}

/// A filled slice of a circle.
#[derive(Clone, Copy, PartialEq, Eq, Structural, Debug)]
pub struct ConstSector {
    /// Top-left corner of the bounding box of the supporting circle.
    pub top_left: Point,
    /// Diameter of the supporting circle.
    pub diameter: u32,
    /// Angle at which the sector starts, in milliradians.
    pub angle_start: i32,
    /// Angle swept from the start, in milliradians.
    pub angle_sweep: i32,
}

/// A stretch of the outline of a circle.
#[derive(Clone, Copy, PartialEq, Eq, Structural, Debug)]
pub struct ConstArc {
    /// Top-left corner of the bounding box of the supporting circle.
    pub top_left: Point,
    /// Diameter of the supporting circle.
    pub diameter: u32,
    /// Angle at which the arc starts, in milliradians.
    pub angle_start: i32,
    /// Angle swept from the start, in milliradians.
    pub angle_sweep: i32,
}

/// A spiral drawn inside a circle.
#[derive(Clone, Copy, PartialEq, Eq, Structural, Debug)]
pub struct Swirl {
    /// Rotation of the spiral, in milliradians.
    pub angle: i32,
    /// The circle the spiral fills.
    pub circle: Circle,
}

/// How far the top-left corner of a box lies before its centre along an
/// axis of the given extent: half of one less than the extent, rounded down.
pub open spec fn center_offset(extent: u32) -> int {
    if extent == 0 {
        0
    } else {
        (extent - 1) / 2
    }
}

/// A box of `size` centred on `center` can be placed without leaving the
/// coordinate range.
pub open spec fn can_center(center: Point, size: Size) -> bool {
    center.x - center_offset(size.width) >= i32::MIN && center.y - center_offset(size.height)
        >= i32::MIN
}

/// The top-left corner of a box of `size` centred on `center`.
pub open spec fn centered(center: Point, size: Size) -> Point {
    Point {
        x: (center.x - center_offset(size.width)) as i32,
        y: (center.y - center_offset(size.height)) as i32,
    }
}

/// Relies on `embedded_graphics::primitives::Rectangle::with_center`: the
/// top-left corner of a box centred on a point lies half of one less than
/// each extent, rounded down, before the centre.
#[verifier::external_body]
fn centered_top_left(center: Point, size: Size) -> (r: Point)
    requires
        can_center(center, size),
    ensures
        r == centered(center, size),
{
    let rect = embedded_graphics::primitives::Rectangle::with_center(
        embedded_graphics::prelude::Point::new(center.x, center.y),
        embedded_graphics::prelude::Size::new(size.width, size.height),
    );
    Point { x: rect.top_left.x, y: rect.top_left.y }
}

/// `p` moved by `by`.
pub open spec fn translated(p: Point, by: Point) -> Point {
    Point { x: (p.x + by.x) as i32, y: (p.y + by.y) as i32 }
}

impl Line {
    /// Creates a line.
    pub fn new(start: Point, end: Point) -> (r: Line)
        ensures
            r.start == start,
            r.end == end,
    {
        Line { start, end }
    }
}

impl Ellipse {
    /// Creates an ellipse from its bounding box.
    pub fn new(top_left: Point, size: Size) -> (r: Ellipse)
        ensures
            r.top_left == top_left,
            r.size == size,
    {
        Ellipse { top_left, size }
    }

    /// Creates an ellipse of `size` centred on `center`.
    pub fn with_center(center: Point, size: Size) -> (r: Ellipse)
        requires
            can_center(center, size),
        ensures
            r.top_left == centered(center, size),
            r.size == size,
    {
        Ellipse { top_left: centered_top_left(center, size), size }
    }
}

impl Circle {
    /// Creates a circle from its bounding box.
    pub fn new(top_left: Point, diameter: u32) -> (r: Circle)
        ensures
            r.top_left == top_left,
            r.diameter == diameter,
    {
        Circle { top_left, diameter }
    }

    /// Creates a circle of `diameter` centred on `center`.
    pub fn with_center(center: Point, diameter: u32) -> (r: Circle)
        requires
            can_center(center, Size { width: diameter, height: diameter }),
        ensures
            r.top_left == centered(center, Size { width: diameter, height: diameter }),
            r.diameter == diameter,
    {
        Circle { top_left: centered_top_left(center, Size::new_equal(diameter)), diameter }
    }
}

impl ConstSector {
    /// Creates a sector from the bounding box of its circle and its angles.
    pub fn new(top_left: Point, diameter: u32, angle_start: i32, angle_sweep: i32) -> (r:
        ConstSector)
        ensures
            r == (ConstSector { top_left, diameter, angle_start, angle_sweep }),
    {
        ConstSector { top_left, diameter, angle_start, angle_sweep }
    }

    /// Creates a sector whose circle is centred on `center`.
    pub fn with_center(center: Point, diameter: u32, angle_start: i32, angle_sweep: i32) -> (r:
        ConstSector)
        requires
            can_center(center, Size { width: diameter, height: diameter }),
        ensures
            r == (ConstSector {
                top_left: centered(center, Size { width: diameter, height: diameter }),
                diameter,
                angle_start,
                angle_sweep,
            }),
    {
        let top_left = centered_top_left(center, Size::new_equal(diameter));
        ConstSector { top_left, diameter, angle_start, angle_sweep }
    }
}

impl ConstArc {
    /// Creates an arc from the bounding box of its circle and its angles.
    pub fn new(top_left: Point, diameter: u32, angle_start: i32, angle_sweep: i32) -> (r:
        ConstArc)
        ensures
            r == (ConstArc { top_left, diameter, angle_start, angle_sweep }),
    {
        ConstArc { top_left, diameter, angle_start, angle_sweep }
    }

    /// Creates an arc whose circle is centred on `center`.
    pub fn with_center(center: Point, diameter: u32, angle_start: i32, angle_sweep: i32) -> (r:
        ConstArc)
        requires
            can_center(center, Size { width: diameter, height: diameter }),
        ensures
            r == (ConstArc {
                top_left: centered(center, Size { width: diameter, height: diameter }),
                diameter,
                angle_start,
                angle_sweep,
            }),
    {
        Self::from_circle(Circle::with_center(center, diameter), angle_start, angle_sweep)
    }

    /// Creates an arc along the outline of `circle`.
    pub fn from_circle(circle: Circle, angle_start: i32, angle_sweep: i32) -> (r: ConstArc)
        ensures
            r == (ConstArc {
                top_left: circle.top_left,
                diameter: circle.diameter,
                angle_start,
                angle_sweep,
            }),
    {
        ConstArc { top_left: circle.top_left, diameter: circle.diameter, angle_start, angle_sweep }
    }
}

impl Swirl {
    /// Creates a swirl in the circle with the given bounding box.
    pub fn new(top_left: Point, angle: i32, diameter: u32) -> (r: Swirl)
        ensures
            r == (Swirl { angle, circle: Circle { top_left, diameter } }),
    {
        Swirl { angle, circle: Circle::new(top_left, diameter) }
    }

    /// Creates a swirl in a circle centred on `center`.
    pub fn with_center(center: Point, angle: i32, diameter: u32) -> (r: Swirl)
        requires
            can_center(center, Size { width: diameter, height: diameter }),
        ensures
            r == (Swirl {
                angle,
                circle: Circle {
                    top_left: centered(center, Size { width: diameter, height: diameter }),
                    diameter,
                },
            }),
    {
        Swirl { angle, circle: Circle::with_center(center, diameter) }
    }
}

} // verus!
