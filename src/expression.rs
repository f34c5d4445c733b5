//! The table of named expressions and the trait for anything that can
//! become a face.

use crate::drawing::lemma_copies_fit_ends;
use crate::element::{EyeState, EyebrowState, KerfurElements, KerfurEyeType, MouthState};
use crate::preset::{
    arc_at, blink_left_eye, blink_right_eye, line_of, neutral_face, neutral_left_eye,
    neutral_right_eye, pt, pupil_translated, sector_at,
};
use crate::geometry::Point;
use crate::layout::{pct, CANVAS, FRAC_PI_6, FRAC_PI_8, PI};
use crate::primitive::{ConstArc, ConstSector, Line};
use vstd::prelude::*;

verus! {

/// A named expression.
#[derive(Clone, Copy, PartialEq, Eq, Structural, Debug)]
pub enum KerfurEmote {
    /// A neutral face.
    Neutral,
    /// A neutral face looking up.
    NeutralUp,
    /// A neutral face looking down.
    NeutralDown,
    /// A neutral face looking left.
    NeutralLeft,
    /// A neutral face looking right.
    NeutralRight,
    /// A meowing face.
    Meow,
    /// A dazed face.
    Dazed,
    /// A neutral face with closed eyes.
    Blink,
}

/// Anything that can become a face.
pub trait KerfurExpression: Sized {
    /// The face this value stands for.
    spec fn face(&self) -> KerfurElements;

    /// Builds the face this value stands for.
    fn into_elements(self) -> (r: KerfurElements)
        ensures
            r == self.face(),
    ;
}

/// How far a pupil moves when the face looks aside, in pixels.
pub const LOOK_OFFSET: i32 = 12;

/// The neutral face with both pupils moved by `by`.
pub open spec fn looking_face(by: Point) -> KerfurElements {
    KerfurElements {
        eye: EyeState {
            left: pupil_translated(neutral_left_eye(), by),
            right: pupil_translated(neutral_right_eye(), by),
        },
        ..neutral_face()
    }
}

/// The neutral face with raised, slanted eyebrows.
pub open spec fn dazed_face() -> KerfurElements {
    KerfurElements {
        eyebrow: EyebrowState {
            left: line_of(pct(42), pct(22), pct(35), pct(25)),
            right: line_of(pct(58), pct(22), pct(65), pct(25)),
        },
        ..neutral_face()
    }
}

/// Arrow eyes, lowered eyebrows and an open mouth.
pub open spec fn meow_face() -> KerfurElements {
    let n = neutral_face();
    KerfurElements {
        eye: EyeState {
            left: KerfurEyeType::Arrow(
                sector_at(pt(pct(46), 235), pct(75) as u32, PI - FRAC_PI_8, 2 * FRAC_PI_8),
                sector_at(pt(pct(34), 235), pct(55) as u32, PI - PI / 10, 2 * (PI / 10)),
            ),
            right: KerfurEyeType::Arrow(
                sector_at(pt(pct(54), 235), pct(75) as u32, 2 * PI - FRAC_PI_8, 2 * FRAC_PI_8),
                sector_at(pt(pct(66), 235), pct(55) as u32, 2 * PI - PI / 10, 2 * (PI / 10)),
            ),
        },
        eyebrow: EyebrowState {
            left: line_of(pct(42), pct(34), pct(35), pct(33)),
            right: line_of(pct(58), pct(34), pct(65), pct(33)),
        },
        mouth: MouthState {
            mouth_bottom: arc_at(pt(240, pct(64)), 50, -FRAC_PI_6, PI + 2 * FRAC_PI_6),
            ..n.mouth
        },
        ..n
    }
}

/// The neutral face with closed eyes.
pub open spec fn blink_face() -> KerfurElements {
    KerfurElements {
        eye: EyeState { left: blink_left_eye(), right: blink_right_eye() },
        ..neutral_face()
    }
}

/// The face of each named expression.
pub open spec fn emote_face(e: KerfurEmote) -> KerfurElements {
    match e {
        KerfurEmote::Neutral => neutral_face(),
        KerfurEmote::NeutralUp => looking_face(pt(0, -LOOK_OFFSET)),
        KerfurEmote::NeutralDown => looking_face(pt(0, LOOK_OFFSET as int)),
        KerfurEmote::NeutralLeft => looking_face(pt(-LOOK_OFFSET, 0)),
        KerfurEmote::NeutralRight => looking_face(pt(LOOK_OFFSET as int, 0)),
        KerfurEmote::Meow => meow_face(),
        KerfurEmote::Dazed => dazed_face(),
        KerfurEmote::Blink => blink_face(),
    }
}

fn looking(by: Point) -> (r: KerfurElements)
    requires
        -LOOK_OFFSET <= by.x <= LOOK_OFFSET,
        -LOOK_OFFSET <= by.y <= LOOK_OFFSET,
    ensures
        r == looking_face(by),
{
    KerfurElements::new().with_eyes(
        KerfurEyeType::neutral_left().with_pupil_translated(by),
        KerfurEyeType::neutral_right().with_pupil_translated(by),
    )
}

fn dazed() -> (r: KerfurElements)
    ensures
        r == dazed_face(),
{
    KerfurElements::new().with_eyebrows(
        Line::new(
            Point::new(CANVAS * 42 / 100, CANVAS * 22 / 100),
            Point::new(CANVAS * 35 / 100, CANVAS * 25 / 100),
        ),
        Line::new(
            Point::new(CANVAS * 58 / 100, CANVAS * 22 / 100),
            Point::new(CANVAS * 65 / 100, CANVAS * 25 / 100),
        ),
    )
}

fn meow() -> (r: KerfurElements)
    ensures
        r == meow_face(),
{
    KerfurElements::new().with_eyes(
        KerfurEyeType::Arrow(
            ConstSector::with_center(
                Point::new(CANVAS * 46 / 100, 235),
                (CANVAS * 75 / 100) as u32,
                PI - FRAC_PI_8,
                2 * FRAC_PI_8,
            ),
            ConstSector::with_center(
                Point::new(CANVAS * 34 / 100, 235),
                (CANVAS * 55 / 100) as u32,
                PI - PI / 10,
                2 * (PI / 10),
            ),
        ),
        KerfurEyeType::Arrow(
            ConstSector::with_center(
                Point::new(CANVAS * 54 / 100, 235),
                (CANVAS * 75 / 100) as u32,
                2 * PI - FRAC_PI_8,
                2 * FRAC_PI_8,
            ),
            ConstSector::with_center(
                Point::new(CANVAS * 66 / 100, 235),
                (CANVAS * 55 / 100) as u32,
                2 * PI - PI / 10,
                2 * (PI / 10),
            ),
        ),
    ).with_eyebrows(
        Line::new(
            Point::new(CANVAS * 42 / 100, CANVAS * 34 / 100),
            Point::new(CANVAS * 35 / 100, CANVAS * 33 / 100),
        ),
        Line::new(
            Point::new(CANVAS * 58 / 100, CANVAS * 34 / 100),
            Point::new(CANVAS * 65 / 100, CANVAS * 33 / 100),
        ),
    ).with_mouth_bottom(
        ConstArc::with_center(
            Point::new(240, CANVAS * 64 / 100),
            50,
            -FRAC_PI_6,
            PI + 2 * FRAC_PI_6,
        ),
    )
}

fn blink() -> (r: KerfurElements)
    ensures
        r == blink_face(),
{
    KerfurElements::new().with_eyes(KerfurEyeType::blink_left(), KerfurEyeType::blink_right())
}

impl KerfurExpression for KerfurEmote {
    open spec fn face(&self) -> KerfurElements {
        emote_face(*self)
    }

    fn into_elements(self) -> (r: KerfurElements) {
        match self {
            KerfurEmote::Neutral => KerfurElements::new(),
            KerfurEmote::NeutralUp => looking(Point::new(0, -LOOK_OFFSET)),
            KerfurEmote::NeutralDown => looking(Point::new(0, LOOK_OFFSET)),
            KerfurEmote::NeutralLeft => looking(Point::new(-LOOK_OFFSET, 0)),
            KerfurEmote::NeutralRight => looking(Point::new(LOOK_OFFSET, 0)),
            KerfurEmote::Meow => meow(),
            KerfurEmote::Dazed => dazed(),
            KerfurEmote::Blink => blink(),
        }
    }
}

impl KerfurExpression for KerfurElements {
    open spec fn face(&self) -> KerfurElements {
        *self
    }

    fn into_elements(self) -> (r: KerfurElements) {
        self
    }
}

impl Default for KerfurEmote {
    fn default() -> (r: Self)
        ensures
            r == KerfurEmote::Neutral,
    {
        KerfurEmote::Neutral
    }
}

impl Default for KerfurElements {
    fn default() -> (r: Self)
        ensures
            r == neutral_face(),
    {
        KerfurElements::new()
    }
}

/// Every named expression is a complete face whose whisker fans fit in the
/// coordinate range, and the whisker lines of any one fit the fan of any
/// other.
pub proof fn lemma_emote_faces_in_frame(e: KerfurEmote, other: KerfurEmote)
    ensures
        emote_face(e).in_frame(),
        emote_face(e).fits_fan_of(emote_face(other)),
        emote_face(e).whisker == neutral_face().whisker,
{
    let w = neutral_face().whisker;
    let n = w.count as nat;
    lemma_copies_fit_ends(w.left.start.x as int, w.offset.x as int, n);
    lemma_copies_fit_ends(w.left.start.y as int, w.offset.y as int, n);
    lemma_copies_fit_ends(w.left.end.x as int, w.offset.x as int, n);
    lemma_copies_fit_ends(w.left.end.y as int, w.offset.y as int, n);
    lemma_copies_fit_ends(w.right.start.x as int, w.offset.x as int, n);
    lemma_copies_fit_ends(w.right.start.y as int, w.offset.y as int, n);
    lemma_copies_fit_ends(w.right.end.x as int, w.offset.x as int, n);
    lemma_copies_fit_ends(w.right.end.y as int, w.offset.y as int, n);
}

} // verus!
