//! Preset eyes, the neutral face, and builders that change parts of a face.

use crate::element::{
    EyeState, EyebrowState, KerfurElements, KerfurEyeType, MouthState, WhiskerState,
};
use crate::geometry::{Point, Size};
use crate::layout::{pct, CANVAS, FRAC_PI_2, FRAC_PI_4, FRAC_PI_6, PI};
use crate::primitive::{centered, translated, ConstArc, ConstSector, Ellipse, Line};
use vstd::prelude::*;

verus! {

/// The point `(x, y)`.
pub open spec fn pt(x: int, y: int) -> Point {
    Point { x: x as i32, y: y as i32 }
}

/// The line from `(x1, y1)` to `(x2, y2)`.
pub open spec fn line_of(x1: int, y1: int, x2: int, y2: int) -> Line {
    Line { start: pt(x1, y1), end: pt(x2, y2) }
}

/// A circle-sized ellipse of diameter `d` centred on `center`.
pub open spec fn round_ellipse(center: Point, d: u32) -> Ellipse {
    let size = Size { width: d, height: d };
    Ellipse { top_left: centered(center, size), size }
}

/// A sector of diameter `d` centred on `center`.
pub open spec fn sector_at(center: Point, d: u32, start: int, sweep: int) -> ConstSector {
    ConstSector {
        top_left: centered(center, Size { width: d, height: d }),
        diameter: d,
        angle_start: start as i32,
        angle_sweep: sweep as i32,
    }
}

/// An arc of diameter `d` centred on `center`.
pub open spec fn arc_at(center: Point, d: u32, start: int, sweep: int) -> ConstArc {
    ConstArc {
        top_left: centered(center, Size { width: d, height: d }),
        diameter: d,
        angle_start: start as i32,
        angle_sweep: sweep as i32,
    }
}

/// The open left eye: an outer ellipse and a pupil around one centre.
pub open spec fn neutral_left_eye() -> KerfurEyeType {
    KerfurEyeType::Ellipse(
        round_ellipse(pt(pct(24), 240), pct(32) as u32),
        round_ellipse(pt(pct(24), 240), pct(22) as u32),
    )
}

/// The open right eye.
pub open spec fn neutral_right_eye() -> KerfurEyeType {
    KerfurEyeType::Ellipse(
        round_ellipse(pt(pct(76), 240), pct(32) as u32),
        round_ellipse(pt(pct(76), 240), pct(22) as u32),
    )
}

/// The closed left eye: a horizontal line.
pub open spec fn blink_left_eye() -> KerfurEyeType {
    KerfurEyeType::Line(line_of(pct(8), 240, pct(40), 240))
}

/// The closed right eye.
pub open spec fn blink_right_eye() -> KerfurEyeType {
    KerfurEyeType::Line(line_of(pct(60), 240, pct(92), 240))
}

/// The neutral face.
pub open spec fn neutral_face() -> KerfurElements {
    KerfurElements {
        eye: EyeState { left: neutral_left_eye(), right: neutral_right_eye() },
        eyebrow: EyebrowState {
            left: line_of(pct(42), pct(29), pct(35), pct(29)),
            right: line_of(pct(58), pct(29), pct(65), pct(29)),
        },
        mouth: MouthState {
            nose: sector_at(pt(240, pct(58)), 40, 3 * FRAC_PI_2 - FRAC_PI_4, 2 * FRAC_PI_4),
            mouth_left: arc_at(pt(225, pct(59)), 30, 0, PI as int),
            mouth_right: arc_at(pt(255, pct(59)), 30, PI as int, -PI),
            mouth_bottom: arc_at(pt(240, pct(64)), 20, -FRAC_PI_6, 0),
        },
        whisker: WhiskerState {
            left: line_of(pct(7), pct(63), pct(0), pct(63)),
            right: line_of(pct(93), pct(63), pct(100), pct(63)),
            offset: pt(0, 24),
            count: 2,
        },
    }
}

/// `eye` with its pupil moved by `by`; other eyes unchanged.
pub open spec fn pupil_translated(eye: KerfurEyeType, by: Point) -> KerfurEyeType {
    match eye {
        KerfurEyeType::Ellipse(outer, inner) => KerfurEyeType::Ellipse(
            outer,
            Ellipse { top_left: translated(inner.top_left, by), size: inner.size },
        ),
        _ => eye,
    }
}

/// `extent + by` where that is a valid extent, else zero.
pub open spec fn resized_extent(extent: u32, by: i32) -> u32 {
    let v = extent + by;
    if 0 <= v <= u32::MAX {
        v as u32
    } else {
        0
    }
}

/// `eye` with its pupil grown by `by` (shrunk where negative), its corner
/// moved back by half of `by`, rounded towards zero, so that it stays
/// centred; an extent that would leave the valid range becomes zero.
pub open spec fn pupil_resized(eye: KerfurEyeType, by: Point) -> KerfurEyeType {
    match eye {
        KerfurEyeType::Ellipse(outer, inner) => KerfurEyeType::Ellipse(
            outer,
            Ellipse {
                top_left: Point {
                    x: (inner.top_left.x - half_toward_zero(by.x as int)) as i32,
                    y: (inner.top_left.y - half_toward_zero(by.y as int)) as i32,
                },
                size: Size {
                    width: resized_extent(inner.size.width, by.x),
                    height: resized_extent(inner.size.height, by.y),
                },
            },
        ),
        _ => eye,
    }
}

/// `v / 2` rounded towards zero.
pub open spec fn half_toward_zero(v: int) -> int {
    if v >= 0 {
        v / 2
    } else {
        -((-v) / 2)
    }
}

pub open spec fn is_ellipse(eye: KerfurEyeType) -> bool {
    eye is Ellipse
}

fn half_i32(v: i32) -> (r: i32)
    ensures
        r == half_toward_zero(v as int),
{
    if v >= 0 {
        v / 2
    } else {
        -(((-(v as i64)) / 2) as i32)
    }
}

fn resize_extent(extent: u32, by: i32) -> (r: u32)
    ensures
        r == resized_extent(extent, by),
{
    let v: i64 = extent as i64 + by as i64;
    if 0 <= v && v <= u32::MAX as i64 {
        v as u32
    } else {
        0
    }
}

impl KerfurEyeType {
    /// The open left eye.
    pub fn neutral_left() -> (r: KerfurEyeType)
        ensures
            r == neutral_left_eye(),
    {
        let center = Point::new(CANVAS * 24 / 100, 240);
        KerfurEyeType::Ellipse(
            Ellipse::with_center(center, Size::new_equal((CANVAS * 32 / 100) as u32)),
            Ellipse::with_center(center, Size::new_equal((CANVAS * 22 / 100) as u32)),
        )
    }

    /// The open right eye.
    pub fn neutral_right() -> (r: KerfurEyeType)
        ensures
            r == neutral_right_eye(),
    {
        let center = Point::new(CANVAS * 76 / 100, 240);
        KerfurEyeType::Ellipse(
            Ellipse::with_center(center, Size::new_equal((CANVAS * 32 / 100) as u32)),
            Ellipse::with_center(center, Size::new_equal((CANVAS * 22 / 100) as u32)),
        )
    }

    /// The closed left eye.
    pub fn blink_left() -> (r: KerfurEyeType)
        ensures
            r == blink_left_eye(),
    {
        KerfurEyeType::Line(
            Line::new(Point::new(CANVAS * 8 / 100, 240), Point::new(CANVAS * 40 / 100, 240)),
        )
    }

    /// The closed right eye.
    pub fn blink_right() -> (r: KerfurEyeType)
        ensures
            r == blink_right_eye(),
    {
        KerfurEyeType::Line(
            Line::new(Point::new(CANVAS * 60 / 100, 240), Point::new(CANVAS * 92 / 100, 240)),
        )
    }

    /// The eye with its pupil moved by `by`. Only an ellipse eye has a
    /// pupil.
    pub fn with_pupil_translated(self, by: Point) -> (r: Self)
        requires
            is_ellipse(self),
            i32::MIN <= self->Ellipse_1.top_left.x + by.x <= i32::MAX,
            i32::MIN <= self->Ellipse_1.top_left.y + by.y <= i32::MAX,
        ensures
            r == pupil_translated(self, by),
    {
        match self {
            KerfurEyeType::Ellipse(outer, inner) => {
                let top_left = Point::new(inner.top_left.x + by.x, inner.top_left.y + by.y);
                KerfurEyeType::Ellipse(outer, Ellipse { top_left, size: inner.size })
            },
            _ => self,
        }
    }

    /// The eye with its pupil grown by `by` and kept centred. Only an
    /// ellipse eye has a pupil.
    pub fn with_pupil_resized(self, by: Point) -> (r: Self)
        requires
            is_ellipse(self),
            i32::MIN <= self->Ellipse_1.top_left.x - half_toward_zero(by.x as int) <= i32::MAX,
            i32::MIN <= self->Ellipse_1.top_left.y - half_toward_zero(by.y as int) <= i32::MAX,
        ensures
            r == pupil_resized(self, by),
    {
        match self {
            KerfurEyeType::Ellipse(outer, inner) => {
                let top_left = Point::new(
                    inner.top_left.x - half_i32(by.x),
                    inner.top_left.y - half_i32(by.y),
                );
                let size = Size::new(
                    resize_extent(inner.size.width, by.x),
                    resize_extent(inner.size.height, by.y),
                );
                KerfurEyeType::Ellipse(outer, Ellipse { top_left, size })
            },
            _ => self,
        }
    }
}

impl KerfurElements {
    /// The neutral face.
    pub fn new() -> (r: Self)
        ensures
            r == neutral_face(),
    {
        KerfurElements {
            eye: EyeState {
                left: KerfurEyeType::neutral_left(),
                right: KerfurEyeType::neutral_right(),
            },
            eyebrow: EyebrowState {
                left: Line::new(
                    Point::new(CANVAS * 42 / 100, CANVAS * 29 / 100),
                    Point::new(CANVAS * 35 / 100, CANVAS * 29 / 100),
                ),
                right: Line::new(
                    Point::new(CANVAS * 58 / 100, CANVAS * 29 / 100),
                    Point::new(CANVAS * 65 / 100, CANVAS * 29 / 100),
                ),
            },
            mouth: MouthState {
                nose: ConstSector::with_center(
                    Point::new(240, CANVAS * 58 / 100),
                    40,
                    3 * FRAC_PI_2 - FRAC_PI_4,
                    2 * FRAC_PI_4,
                ),
                mouth_left: ConstArc::with_center(Point::new(225, CANVAS * 59 / 100), 30, 0, PI),
                mouth_right: ConstArc::with_center(Point::new(255, CANVAS * 59 / 100), 30, PI, -PI),
                mouth_bottom: ConstArc::with_center(
                    Point::new(240, CANVAS * 64 / 100),
                    20,
                    -FRAC_PI_6,
                    0,
                ),
            },
            whisker: WhiskerState {
                left: Line::new(
                    Point::new(CANVAS * 7 / 100, CANVAS * 63 / 100),
                    Point::new(CANVAS * 0 / 100, CANVAS * 63 / 100),
                ),
                right: Line::new(
                    Point::new(CANVAS * 93 / 100, CANVAS * 63 / 100),
                    Point::new(CANVAS * 100 / 100, CANVAS * 63 / 100),
                ),
                offset: Point::new(0, 24),
                count: 2,
            },
        }
    }

    /// The face with the given eyes.
    pub fn with_eyes(self, left: KerfurEyeType, right: KerfurEyeType) -> (r: Self)
        ensures
            r == (KerfurElements { eye: EyeState { left, right }, ..self }),
    {
        let mut r = self;
        r.eye.left = left;
        r.eye.right = right;
        r
    }

    /// The face with the given eyebrows.
    pub fn with_eyebrows(self, left: Line, right: Line) -> (r: Self)
        ensures
            r == (KerfurElements { eyebrow: EyebrowState { left, right }, ..self }),
    {
        let mut r = self;
        r.eyebrow.left = left;
        r.eyebrow.right = right;
        r
    }

    /// The face with the given nose.
    pub fn with_nose(self, nose: ConstSector) -> (r: Self)
        ensures
            r == (KerfurElements { mouth: MouthState { nose, ..self.mouth }, ..self }),
    {
        let mut r = self;
        r.mouth.nose = nose;
        r
    }

    /// The face with the given sides of the mouth.
    pub fn with_mouth_sides(self, mouth_left: ConstArc, mouth_right: ConstArc) -> (r: Self)
        ensures
            r == (KerfurElements {
                mouth: MouthState { mouth_left, mouth_right, ..self.mouth },
                ..self
            }),
    {
        let mut r = self;
        r.mouth.mouth_left = mouth_left;
        r.mouth.mouth_right = mouth_right;
        r
    }

    /// The face with the given bottom of the mouth.
    pub fn with_mouth_bottom(self, mouth_bottom: ConstArc) -> (r: Self)
        ensures
            r == (KerfurElements { mouth: MouthState { mouth_bottom, ..self.mouth }, ..self }),
    {
        let mut r = self;
        r.mouth.mouth_bottom = mouth_bottom;
        r
    }

    /// The face with the given whisker base lines.
    pub fn with_whiskers(self, left: Line, right: Line) -> (r: Self)
        ensures
            r == (KerfurElements { whisker: WhiskerState { left, right, ..self.whisker }, ..self }),
    {
        let mut r = self;
        r.whisker.left = left;
        r.whisker.right = right;
        r
    }

    /// The face with the given whisker fan settings.
    pub fn with_whisker_settings(self, offset: Point, count: u32) -> (r: Self)
        ensures
            r == (KerfurElements {
                whisker: WhiskerState { offset, count, ..self.whisker },
                ..self
            }),
    {
        let mut r = self;
        r.whisker.offset = offset;
        r.whisker.count = count;
        r
    }
}


} // verus!
