//! The facial elements of a face, and how each one eases towards a target.

use crate::geometry::{
    between, eased_angle, eased_diameter, eased_point, eased_size, interp_angle, interp_diameter,
    interp_point, interp_size, lemma_eased_at_target, lemma_eased_point_between, Point, Size,
};
use crate::drawing::{fan_fits, lemma_copies_fit_between};
use crate::primitive::{Circle, ConstArc, ConstSector, Ellipse, Line, Swirl};
use vstd::prelude::*;

verus! {


/// The shape of one eye.
#[derive(Clone, Copy, PartialEq, Eq, Structural, Debug)]
pub enum KerfurEyeType {
    /// An outer and an inner ellipse (the pupil).
    Ellipse(Ellipse, Ellipse),
    /// An outer and an inner sector.
    Arrow(ConstSector, ConstSector),
    /// A line.
    Line(Line),
    /// A swirl.
    Swirl(Swirl),
}

/// Both eyes.
#[derive(Clone, Copy, PartialEq, Eq, Structural, Debug)]
pub struct EyeState {
    pub left: KerfurEyeType,
    pub right: KerfurEyeType,
}

/// Both eyebrows.
#[derive(Clone, Copy, PartialEq, Eq, Structural, Debug)]
pub struct EyebrowState {
    pub left: Line,
    pub right: Line,
}

/// The nose and the three strokes of the mouth.
#[derive(Clone, Copy, PartialEq, Eq, Structural, Debug)]
pub struct MouthState {
    pub nose: ConstSector,
    pub mouth_left: ConstArc,
    pub mouth_right: ConstArc,
    pub mouth_bottom: ConstArc,
}

/// The whiskers: on each side a base line drawn `count` times, each copy
/// moved by `offset` from the one before.
#[derive(Clone, Copy, PartialEq, Eq, Structural, Debug)]
pub struct WhiskerState {
    pub left: Line,
    pub right: Line,
    pub offset: Point,
    pub count: u32,
}

/// A complete face: one value for every facial element.
#[derive(Clone, Copy, PartialEq, Eq, Structural, Debug)]
pub struct KerfurElements {
    pub eye: EyeState,
    pub eyebrow: EyebrowState,
    pub mouth: MouthState,
    pub whisker: WhiskerState,
}

// ---------------------------------------------------------------------------
// Easing

/// One step of a line: each end eases on its own.
pub open spec fn eased_line(a: Line, b: Line, t: int) -> Line {
    Line { start: eased_point(a.start, b.start, t), end: eased_point(a.end, b.end, t) }
}

/// One step of an ellipse: its size, then its corner.
pub open spec fn eased_ellipse(a: Ellipse, b: Ellipse, t: int) -> Ellipse {
    Ellipse { top_left: eased_point(a.top_left, b.top_left, t), size: eased_size(a.size, b.size, t) }
}

/// One step of a sector: corner, both angles and diameter.
pub open spec fn eased_sector(a: ConstSector, b: ConstSector, t: int) -> ConstSector {
    ConstSector {
        top_left: eased_point(a.top_left, b.top_left, t),
        diameter: eased_diameter(a.diameter, b.diameter, t),
        angle_start: eased_angle(a.angle_start as int, b.angle_start as int, t) as i32,
        angle_sweep: eased_angle(a.angle_sweep as int, b.angle_sweep as int, t) as i32,
    }
}

/// One step of an arc: corner, both angles and diameter.
pub open spec fn eased_arc(a: ConstArc, b: ConstArc, t: int) -> ConstArc {
    ConstArc {
        top_left: eased_point(a.top_left, b.top_left, t),
        diameter: eased_diameter(a.diameter, b.diameter, t),
        angle_start: eased_angle(a.angle_start as int, b.angle_start as int, t) as i32,
        angle_sweep: eased_angle(a.angle_sweep as int, b.angle_sweep as int, t) as i32,
    }
}

/// One step of a swirl: the corner and diameter of its circle, and its
/// rotation.
pub open spec fn eased_swirl(a: Swirl, b: Swirl, t: int) -> Swirl {
    Swirl {
        angle: eased_angle(a.angle as int, b.angle as int, t) as i32,
        circle: Circle {
            top_left: eased_point(a.circle.top_left, b.circle.top_left, t),
            diameter: eased_diameter(a.circle.diameter, b.circle.diameter, t),
        },
    }
}

/// Two eyes have the same shape kind.
pub open spec fn same_kind(a: KerfurEyeType, b: KerfurEyeType) -> bool {
    match (a, b) {
        (KerfurEyeType::Ellipse(_, _), KerfurEyeType::Ellipse(_, _)) => true,
        (KerfurEyeType::Arrow(_, _), KerfurEyeType::Arrow(_, _)) => true,
        (KerfurEyeType::Line(_), KerfurEyeType::Line(_)) => true,
        (KerfurEyeType::Swirl(_), KerfurEyeType::Swirl(_)) => true,
        _ => false,
    }
}

/// One step of an eye. Eyes of the same kind ease part by part; an eye of
/// another kind than its target becomes the target at once.
pub open spec fn eased_eye(a: KerfurEyeType, b: KerfurEyeType, t: int) -> KerfurEyeType {
    match (a, b) {
        (KerfurEyeType::Ellipse(a1, a2), KerfurEyeType::Ellipse(b1, b2)) => KerfurEyeType::Ellipse(
            eased_ellipse(a1, b1, t),
            eased_ellipse(a2, b2, t),
        ),
        (KerfurEyeType::Line(a1), KerfurEyeType::Line(b1)) => KerfurEyeType::Line(
            eased_line(a1, b1, t),
        ),
        (KerfurEyeType::Arrow(a1, a2), KerfurEyeType::Arrow(b1, b2)) => KerfurEyeType::Arrow(
            eased_sector(a1, b1, t),
            eased_sector(a2, b2, t),
        ),
        (KerfurEyeType::Swirl(a1), KerfurEyeType::Swirl(b1)) => KerfurEyeType::Swirl(
            eased_swirl(a1, b1, t),
        ),
        _ => b,
    }
}

/// One step of a whole face towards `b`. The whisker lines ease; the
/// whisker offset and count are not animated.
pub open spec fn eased_elements(a: KerfurElements, b: KerfurElements, t: int) -> KerfurElements {
    KerfurElements {
        eye: EyeState {
            left: eased_eye(a.eye.left, b.eye.left, t),
            right: eased_eye(a.eye.right, b.eye.right, t),
        },
        eyebrow: EyebrowState {
            left: eased_line(a.eyebrow.left, b.eyebrow.left, t),
            right: eased_line(a.eyebrow.right, b.eyebrow.right, t),
        },
        mouth: MouthState {
            nose: eased_sector(a.mouth.nose, b.mouth.nose, t),
            mouth_left: eased_arc(a.mouth.mouth_left, b.mouth.mouth_left, t),
            mouth_right: eased_arc(a.mouth.mouth_right, b.mouth.mouth_right, t),
            mouth_bottom: eased_arc(a.mouth.mouth_bottom, b.mouth.mouth_bottom, t),
        },
        whisker: WhiskerState {
            left: eased_line(a.whisker.left, b.whisker.left, t),
            right: eased_line(a.whisker.right, b.whisker.right, t),
            offset: a.whisker.offset,
            count: a.whisker.count,
        },
    }
}

/// Moves both ends of a line one clamped step towards `b`.
pub fn interp_line(a: Line, b: Line, t: u32) -> (r: Line)
    ensures
        r == eased_line(a, b, t as int),
        between(a.start.x as int, r.start.x as int, b.start.x as int),
        between(a.start.y as int, r.start.y as int, b.start.y as int),
        between(a.end.x as int, r.end.x as int, b.end.x as int),
        between(a.end.y as int, r.end.y as int, b.end.y as int),
{
    Line { start: interp_point(a.start, b.start, t), end: interp_point(a.end, b.end, t) }
}

fn interp_ellipse(a: Ellipse, b: Ellipse, t: u32) -> (r: Ellipse)
    ensures
        r == eased_ellipse(a, b, t as int),
{
    let size = interp_size(a.size, b.size, t);
    let top_left = interp_point(a.top_left, b.top_left, t);
    Ellipse { top_left, size }
}

fn interp_sector(a: ConstSector, b: ConstSector, t: u32) -> (r: ConstSector)
    ensures
        r == eased_sector(a, b, t as int),
{
    ConstSector {
        top_left: interp_point(a.top_left, b.top_left, t),
        angle_start: interp_angle(a.angle_start, b.angle_start, t),
        angle_sweep: interp_angle(a.angle_sweep, b.angle_sweep, t),
        diameter: interp_diameter(a.diameter, b.diameter, t),
    }
}

fn interp_arc(a: ConstArc, b: ConstArc, t: u32) -> (r: ConstArc)
    ensures
        r == eased_arc(a, b, t as int),
{
    ConstArc {
        top_left: interp_point(a.top_left, b.top_left, t),
        angle_start: interp_angle(a.angle_start, b.angle_start, t),
        angle_sweep: interp_angle(a.angle_sweep, b.angle_sweep, t),
        diameter: interp_diameter(a.diameter, b.diameter, t),
    }
}

fn interp_swirl(a: Swirl, b: Swirl, t: u32) -> (r: Swirl)
    ensures
        r == eased_swirl(a, b, t as int),
{
    Swirl {
        angle: interp_angle(a.angle, b.angle, t),
        circle: Circle {
            top_left: interp_point(a.circle.top_left, b.circle.top_left, t),
            diameter: interp_diameter(a.circle.diameter, b.circle.diameter, t),
        },
    }
}

impl EyeState {
    /// Moves both eyes one step towards `other`.
    pub fn interpolate(&mut self, other: &Self, tick: u32)
        ensures
            final(self).left == eased_eye(old(self).left, other.left, tick as int),
            final(self).right == eased_eye(old(self).right, other.right, tick as int),
    {
        Self::interpolate_eye(&mut self.left, &other.left, tick);
        Self::interpolate_eye(&mut self.right, &other.right, tick);
    }

    /// Moves one eye a step towards `b`; an eye of another kind than `b`
    /// becomes `b` at once, whatever the tick.
    pub fn interpolate_eye(a: &mut KerfurEyeType, b: &KerfurEyeType, tick: u32)
        ensures
            *final(a) == eased_eye(*old(a), *b, tick as int),
            !same_kind(*old(a), *b) ==> *final(a) == *b,
    {
        let next = match (*a, *b) {
            (KerfurEyeType::Ellipse(a1, a2), KerfurEyeType::Ellipse(b1, b2)) => {
                KerfurEyeType::Ellipse(interp_ellipse(a1, b1, tick), interp_ellipse(a2, b2, tick))
            },
            (KerfurEyeType::Line(a1), KerfurEyeType::Line(b1)) => {
                KerfurEyeType::Line(interp_line(a1, b1, tick))
            },
            (KerfurEyeType::Arrow(a1, a2), KerfurEyeType::Arrow(b1, b2)) => {
                KerfurEyeType::Arrow(interp_sector(a1, b1, tick), interp_sector(a2, b2, tick))
            },
            (KerfurEyeType::Swirl(a1), KerfurEyeType::Swirl(b1)) => {
                KerfurEyeType::Swirl(interp_swirl(a1, b1, tick))
            },
            // Another shape: take the target's shape and position at once.
            (_, other) => other,
        };
        *a = next;
    }
}

impl EyebrowState {
    /// Moves both eyebrows one step towards `other`.
    pub fn interpolate(&mut self, other: &Self, tick: u32)
        ensures
            final(self).left == eased_line(old(self).left, other.left, tick as int),
            final(self).right == eased_line(old(self).right, other.right, tick as int),
    {
        self.left = interp_line(self.left, other.left, tick);
        self.right = interp_line(self.right, other.right, tick);
    }
}

impl MouthState {
    /// Moves the nose and each stroke of the mouth one step towards `other`.
    pub fn interpolate(&mut self, other: &Self, tick: u32)
        ensures
            final(self).nose == eased_sector(old(self).nose, other.nose, tick as int),
            final(self).mouth_left == eased_arc(old(self).mouth_left, other.mouth_left, tick as int),
            final(self).mouth_right == eased_arc(
                old(self).mouth_right,
                other.mouth_right,
                tick as int,
            ),
            final(self).mouth_bottom == eased_arc(
                old(self).mouth_bottom,
                other.mouth_bottom,
                tick as int,
            ),
    {
        self.nose = interp_sector(self.nose, other.nose, tick);
        self.mouth_left = interp_arc(self.mouth_left, other.mouth_left, tick);
        self.mouth_right = interp_arc(self.mouth_right, other.mouth_right, tick);
        self.mouth_bottom = interp_arc(self.mouth_bottom, other.mouth_bottom, tick);
    }
}

impl WhiskerState {
    /// Moves both base lines one step towards `other`; offset and count stay.
    pub fn interpolate(&mut self, other: &Self, tick: u32)
        ensures
            final(self).left == eased_line(old(self).left, other.left, tick as int),
            final(self).right == eased_line(old(self).right, other.right, tick as int),
            final(self).offset == old(self).offset,
            final(self).count == old(self).count,
    {
        self.left = interp_line(self.left, other.left, tick);
        self.right = interp_line(self.right, other.right, tick);
    }
}

impl KerfurElements {
    /// Moves every element one step towards `target`.
    pub fn interpolate(&mut self, target: &Self, tick: u32)
        ensures
            *final(self) == eased_elements(*old(self), *target, tick as int),
    {
        self.eye.interpolate(&target.eye, tick);
        self.eyebrow.interpolate(&target.eyebrow, tick);
        self.mouth.interpolate(&target.mouth, tick);
        self.whisker.interpolate(&target.whisker, tick);
    }
}


// ---------------------------------------------------------------------------
// Laws of easing a face

/// A line that lies, end by end and axis by axis, between two lines whose
/// fan copies fit in the coordinate range has fitting copies too.
proof fn lemma_line_between_fits(a: Line, b: Line, t: int, offset: Point, count: nat)
    requires
        0 <= t,
        fan_fits(a, offset, count),
        fan_fits(b, offset, count),
    ensures
        fan_fits(eased_line(a, b, t), offset, count),
{
    let r = eased_line(a, b, t);
    lemma_eased_point_between(a.start, b.start, t);
    lemma_eased_point_between(a.end, b.end, t);
    lemma_copies_fit_between(a.start.x as int, b.start.x as int, r.start.x as int, offset.x as int, count);
    lemma_copies_fit_between(a.start.y as int, b.start.y as int, r.start.y as int, offset.y as int, count);
    lemma_copies_fit_between(a.end.x as int, b.end.x as int, r.end.x as int, offset.x as int, count);
    lemma_copies_fit_between(a.end.y as int, b.end.y as int, r.end.y as int, offset.y as int, count);
}

/// A step keeps a face drawable when it is drawable and the target's
/// whisker lines fit its whisker fan.
pub proof fn lemma_eased_elements_in_frame(a: KerfurElements, b: KerfurElements, t: int)
    requires
        0 <= t,
        a.in_frame(),
        b.fits_fan_of(a),
    ensures
        eased_elements(a, b, t).in_frame(),
        b.fits_fan_of(eased_elements(a, b, t)),
{
    let n = a.whisker.count as nat;
    lemma_line_between_fits(a.whisker.left, b.whisker.left, t, a.whisker.offset, n);
    lemma_line_between_fits(a.whisker.right, b.whisker.right, t, a.whisker.offset, n);
}

proof fn lemma_eye_at_target(e: KerfurEyeType, t: int)
    requires
        0 <= t,
    ensures
        eased_eye(e, e, t) == e,
{
    match e {
        KerfurEyeType::Ellipse(a, b) => {
            lemma_eased_at_target(a.top_left, a.size, 0, 0, t);
            lemma_eased_at_target(b.top_left, b.size, 0, 0, t);
        },
        KerfurEyeType::Arrow(a, b) => {
            lemma_sector_at_target(a, t);
            lemma_sector_at_target(b, t);
        },
        KerfurEyeType::Line(l) => {
            lemma_eased_at_target(l.start, Size { width: 0, height: 0 }, 0, 0, t);
            lemma_eased_at_target(l.end, Size { width: 0, height: 0 }, 0, 0, t);
        },
        KerfurEyeType::Swirl(s) => {
            lemma_eased_at_target(s.circle.top_left, Size { width: 0, height: 0 }, s.circle.diameter, s.angle as int, t);
        },
    }
}

proof fn lemma_sector_at_target(s: ConstSector, t: int)
    requires
        0 <= t,
    ensures
        eased_sector(s, s, t) == s,
{
    let none = Size { width: 0, height: 0 };
    lemma_eased_at_target(s.top_left, none, s.diameter, s.angle_start as int, t);
    lemma_eased_at_target(s.top_left, none, s.diameter, s.angle_sweep as int, t);
}

proof fn lemma_arc_at_target(s: ConstArc, t: int)
    requires
        0 <= t,
    ensures
        eased_arc(s, s, t) == s,
{
    let none = Size { width: 0, height: 0 };
    lemma_eased_at_target(s.top_left, none, s.diameter, s.angle_start as int, t);
    lemma_eased_at_target(s.top_left, none, s.diameter, s.angle_sweep as int, t);
}

proof fn lemma_line_at_target(l: Line, t: int)
    requires
        0 <= t,
    ensures
        eased_line(l, l, t) == l,
{
    lemma_eased_at_target(l.start, Size { width: 0, height: 0 }, 0, 0, t);
    lemma_eased_at_target(l.end, Size { width: 0, height: 0 }, 0, 0, t);
}

/// Once the current face equals the target, further steps leave it
/// unchanged.
pub proof fn lemma_eased_elements_at_target(e: KerfurElements, t: int)
    requires
        0 <= t,
    ensures
        eased_elements(e, e, t) == e,
{
    lemma_eye_at_target(e.eye.left, t);
    lemma_eye_at_target(e.eye.right, t);
    lemma_line_at_target(e.eyebrow.left, t);
    lemma_line_at_target(e.eyebrow.right, t);
    lemma_sector_at_target(e.mouth.nose, t);
    lemma_arc_at_target(e.mouth.mouth_left, t);
    lemma_arc_at_target(e.mouth.mouth_right, t);
    lemma_arc_at_target(e.mouth.mouth_bottom, t);
    lemma_line_at_target(e.whisker.left, t);
    lemma_line_at_target(e.whisker.right, t);
}

/// An eye of another kind than its target becomes the target in one step,
/// whatever the budget.
pub proof fn lemma_eye_kind_change_snaps(a: KerfurEyeType, b: KerfurEyeType, t: int)
    requires
        !same_kind(a, b),
    ensures
        eased_eye(a, b, t) == b,
{
}


} // verus!
