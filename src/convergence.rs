//! Why the animation always settles: a distance between a face and its
//! target that every frame with a positive budget strictly shortens, until
//! the face equals the target.

use crate::element::{eased_elements, eased_eye, KerfurElements, KerfurEyeType};
use crate::expression::{emote_face, KerfurEmote};
use crate::geometry::{
    abs, eased_point, eased_size, lemma_eased_between, lemma_eased_progress, taxicab, Point,
    Size,
};
use crate::primitive::{ConstArc, ConstSector, Ellipse, Line};
use vstd::prelude::*;

verus! {

/// Taxicab distance between two points.
pub open spec fn point_gap(a: Point, b: Point) -> nat {
    taxicab(a.x as int, a.y as int, b.x as int, b.y as int)
}

/// Taxicab distance between two sizes.
pub open spec fn size_gap(a: Size, b: Size) -> nat {
    taxicab(a.width as int, a.height as int, b.width as int, b.height as int)
}

/// Distance between two scalars.
pub open spec fn scalar_gap(a: int, b: int) -> nat {
    abs(b - a)
}

pub open spec fn line_gap(a: Line, b: Line) -> nat {
    point_gap(a.start, b.start) + point_gap(a.end, b.end)
}

pub open spec fn ellipse_gap(a: Ellipse, b: Ellipse) -> nat {
    point_gap(a.top_left, b.top_left) + size_gap(a.size, b.size)
}

pub open spec fn sector_gap(a: ConstSector, b: ConstSector) -> nat {
    point_gap(a.top_left, b.top_left) + scalar_gap(a.diameter as int, b.diameter as int)
        + scalar_gap(a.angle_start as int, b.angle_start as int) + scalar_gap(
        a.angle_sweep as int,
        b.angle_sweep as int,
    )
}

pub open spec fn arc_gap(a: ConstArc, b: ConstArc) -> nat {
    point_gap(a.top_left, b.top_left) + scalar_gap(a.diameter as int, b.diameter as int)
        + scalar_gap(a.angle_start as int, b.angle_start as int) + scalar_gap(
        a.angle_sweep as int,
        b.angle_sweep as int,
    )
}

/// Distance between two eyes: the sum over their parts for eyes of one
/// kind, one for eyes of different kinds (they meet in one step).
pub open spec fn eye_gap(a: KerfurEyeType, b: KerfurEyeType) -> nat {
    match (a, b) {
        (KerfurEyeType::Ellipse(a1, a2), KerfurEyeType::Ellipse(b1, b2)) => ellipse_gap(a1, b1)
            + ellipse_gap(a2, b2),
        (KerfurEyeType::Line(a1), KerfurEyeType::Line(b1)) => line_gap(a1, b1),
        (KerfurEyeType::Arrow(a1, a2), KerfurEyeType::Arrow(b1, b2)) => sector_gap(a1, b1)
            + sector_gap(a2, b2),
        (KerfurEyeType::Swirl(a1), KerfurEyeType::Swirl(b1)) => point_gap(
            a1.circle.top_left,
            b1.circle.top_left,
        ) + scalar_gap(a1.circle.diameter as int, b1.circle.diameter as int) + scalar_gap(
            a1.angle as int,
            b1.angle as int,
        ),
        _ => 1,
    }
}

/// Distance between a face and its target: the sum over all elements.
pub open spec fn face_gap(a: KerfurElements, b: KerfurElements) -> nat {
    eye_gap(a.eye.left, b.eye.left) + eye_gap(a.eye.right, b.eye.right) + line_gap(
        a.eyebrow.left,
        b.eyebrow.left,
    ) + line_gap(a.eyebrow.right, b.eyebrow.right) + sector_gap(a.mouth.nose, b.mouth.nose)
        + arc_gap(a.mouth.mouth_left, b.mouth.mouth_left) + arc_gap(
        a.mouth.mouth_right,
        b.mouth.mouth_right,
    ) + arc_gap(a.mouth.mouth_bottom, b.mouth.mouth_bottom) + line_gap(
        a.whisker.left,
        b.whisker.left,
    ) + line_gap(a.whisker.right, b.whisker.right)
}

/// The whisker offset and count, which easing does not move, already agree.
pub open spec fn can_settle(a: KerfurElements, b: KerfurElements) -> bool {
    a.whisker.offset == b.whisker.offset && a.whisker.count == b.whisker.count
}

/// `n` frames of easing a face towards `b`.
pub open spec fn eased_elements_steps(
    a: KerfurElements,
    b: KerfurElements,
    t: int,
    n: nat,
) -> KerfurElements
    decreases n,
{
    if n == 0 {
        a
    } else {
        eased_elements_steps(eased_elements(a, b, t), b, t, (n - 1) as nat)
    }
}

proof fn lemma_point_step(a: Point, b: Point, t: int)
    requires
        0 < t,
    ensures
        point_gap(eased_point(a, b, t), b) <= point_gap(a, b),
        point_gap(a, b) > 0 ==> point_gap(eased_point(a, b, t), b) < point_gap(a, b),
        point_gap(a, b) == 0 ==> a == b,
{
    lemma_eased_between(a.x as int, a.y as int, b.x as int, b.y as int, t);
    if a != b {
        lemma_eased_progress(a.x as int, a.y as int, b.x as int, b.y as int, t);
    }
}

proof fn lemma_size_step(a: Size, b: Size, t: int)
    requires
        0 < t,
    ensures
        size_gap(eased_size(a, b, t), b) <= size_gap(a, b),
        size_gap(a, b) > 0 ==> size_gap(eased_size(a, b, t), b) < size_gap(a, b),
        size_gap(a, b) == 0 ==> a == b,
{
    lemma_eased_between(a.width as int, a.height as int, b.width as int, b.height as int, t);
    if a != b {
        lemma_eased_progress(a.width as int, a.height as int, b.width as int, b.height as int, t);
    }
}

proof fn lemma_diameter_step(a: u32, b: u32, t: int)
    requires
        0 < t,
    ensures
        scalar_gap(crate::geometry::eased_diameter(a, b, t) as int, b as int) <= scalar_gap(
            a as int,
            b as int,
        ),
        scalar_gap(a as int, b as int) > 0 ==> scalar_gap(
            crate::geometry::eased_diameter(a, b, t) as int,
            b as int,
        ) < scalar_gap(a as int, b as int),
{
    lemma_size_step(Size { width: a, height: 0 }, Size { width: b, height: 0 }, t);
}

proof fn lemma_sector_step(a: ConstSector, b: ConstSector, t: int)
    requires
        0 < t,
    ensures
        sector_gap(crate::element::eased_sector(a, b, t), b) <= sector_gap(a, b),
        sector_gap(a, b) > 0 ==> sector_gap(crate::element::eased_sector(a, b, t), b)
            < sector_gap(a, b),
        sector_gap(a, b) == 0 ==> a == b,
{
    lemma_point_step(a.top_left, b.top_left, t);
    lemma_diameter_step(a.diameter, b.diameter, t);
}

proof fn lemma_arc_step(a: ConstArc, b: ConstArc, t: int)
    requires
        0 < t,
    ensures
        arc_gap(crate::element::eased_arc(a, b, t), b) <= arc_gap(a, b),
        arc_gap(a, b) > 0 ==> arc_gap(crate::element::eased_arc(a, b, t), b) < arc_gap(a, b),
        arc_gap(a, b) == 0 ==> a == b,
{
    lemma_point_step(a.top_left, b.top_left, t);
    lemma_diameter_step(a.diameter, b.diameter, t);
}

proof fn lemma_line_step(a: Line, b: Line, t: int)
    requires
        0 < t,
    ensures
        line_gap(crate::element::eased_line(a, b, t), b) <= line_gap(a, b),
        line_gap(a, b) > 0 ==> line_gap(crate::element::eased_line(a, b, t), b) < line_gap(a, b),
        line_gap(a, b) == 0 ==> a == b,
{
    lemma_point_step(a.start, b.start, t);
    lemma_point_step(a.end, b.end, t);
}

proof fn lemma_ellipse_step(a: Ellipse, b: Ellipse, t: int)
    requires
        0 < t,
    ensures
        ellipse_gap(crate::element::eased_ellipse(a, b, t), b) <= ellipse_gap(a, b),
        ellipse_gap(a, b) > 0 ==> ellipse_gap(crate::element::eased_ellipse(a, b, t), b)
            < ellipse_gap(a, b),
        ellipse_gap(a, b) == 0 ==> a == b,
{
    lemma_point_step(a.top_left, b.top_left, t);
    lemma_size_step(a.size, b.size, t);
}

proof fn lemma_eye_step(a: KerfurEyeType, b: KerfurEyeType, t: int)
    requires
        0 < t,
    ensures
        eye_gap(eased_eye(a, b, t), b) <= eye_gap(a, b),
        eye_gap(a, b) > 0 ==> eye_gap(eased_eye(a, b, t), b) < eye_gap(a, b),
        eye_gap(a, b) == 0 ==> a == b,
{
    match (a, b) {
        (KerfurEyeType::Ellipse(a1, a2), KerfurEyeType::Ellipse(b1, b2)) => {
            lemma_ellipse_step(a1, b1, t);
            lemma_ellipse_step(a2, b2, t);
        },
        (KerfurEyeType::Line(a1), KerfurEyeType::Line(b1)) => {
            lemma_line_step(a1, b1, t);
        },
        (KerfurEyeType::Arrow(a1, a2), KerfurEyeType::Arrow(b1, b2)) => {
            lemma_sector_step(a1, b1, t);
            lemma_sector_step(a2, b2, t);
        },
        (KerfurEyeType::Swirl(a1), KerfurEyeType::Swirl(b1)) => {
            lemma_point_step(a1.circle.top_left, b1.circle.top_left, t);
            lemma_diameter_step(a1.circle.diameter, b1.circle.diameter, t);
        },
        _ => {
            lemma_eye_at_own_target(b);
        },
    }
}

proof fn lemma_eye_at_own_target(b: KerfurEyeType)
    ensures
        eye_gap(b, b) == 0,
{
}

/// One frame with a positive budget never lengthens the distance to the
/// target, strictly shortens it unless the face is already there, and keeps
/// the face able to settle.
pub proof fn lemma_face_step(a: KerfurElements, b: KerfurElements, t: int)
    requires
        0 < t,
        can_settle(a, b),
    ensures
        face_gap(eased_elements(a, b, t), b) <= face_gap(a, b),
        a != b ==> face_gap(eased_elements(a, b, t), b) < face_gap(a, b),
        face_gap(a, b) == 0 ==> a == b,
        can_settle(eased_elements(a, b, t), b),
{
    lemma_eye_step(a.eye.left, b.eye.left, t);
    lemma_eye_step(a.eye.right, b.eye.right, t);
    lemma_line_step(a.eyebrow.left, b.eyebrow.left, t);
    lemma_line_step(a.eyebrow.right, b.eyebrow.right, t);
    lemma_sector_step(a.mouth.nose, b.mouth.nose, t);
    lemma_arc_step(a.mouth.mouth_left, b.mouth.mouth_left, t);
    lemma_arc_step(a.mouth.mouth_right, b.mouth.mouth_right, t);
    lemma_arc_step(a.mouth.mouth_bottom, b.mouth.mouth_bottom, t);
    lemma_line_step(a.whisker.left, b.whisker.left, t);
    lemma_line_step(a.whisker.right, b.whisker.right, t);
    if face_gap(a, b) == 0 {
        assert(a.eye == b.eye);
        assert(a.eyebrow == b.eyebrow);
        assert(a.mouth == b.mouth);
        assert(a.whisker == b.whisker);
    }
}

/// Frames with a positive budget bring a face whose whisker offset and count
/// match its target's (see [`can_settle`]) exactly onto
/// its target within `face_gap` frames, and it stays there.
pub proof fn lemma_face_converges(a: KerfurElements, b: KerfurElements, t: int, n: nat)
    requires
        0 < t,
        can_settle(a, b),
        n >= face_gap(a, b),
    ensures
        eased_elements_steps(a, b, t, n) == b,
    decreases n,
{
    lemma_face_step(a, b, t);
    if n > 0 {
        if a == b {
            crate::element::lemma_eased_elements_at_target(b, t);
        }
        lemma_face_converges(eased_elements(a, b, t), b, t, (n - 1) as nat);
    }
}

/// Any named expression can settle onto any other.
pub proof fn lemma_emotes_can_settle(from: KerfurEmote, to: KerfurEmote)
    ensures
        can_settle(emote_face(from), emote_face(to)),
{
}

} // verus!
