//! The shapes a face is drawn with, in drawing order, each with the style
//! entry to draw it with.

use crate::element::{
    EyeState, EyebrowState, KerfurElements, KerfurEyeType, MouthState, WhiskerState,
};
use crate::geometry::Point;
use crate::primitive::{ConstArc, ConstSector, Ellipse, Line, Swirl};
use vstd::prelude::*;

verus! {

/// Which entry of a style a shape is drawn with. The colours and stroke
/// widths behind each entry are chosen by the renderer.
#[derive(Clone, Copy, PartialEq, Eq, Structural, Debug)]
pub enum StyleSlot {
    LeftEyeInner,
    LeftEyeOuter,
    LeftEyeLine,
    LeftEyebrow,
    RightEyeInner,
    RightEyeOuter,
    RightEyeLine,
    RightEyebrow,
    Nose,
    Mouth,
    MouthBottom,
    Whisker,
}

/// A shape to render.
#[derive(Clone, Copy, PartialEq, Eq, Structural, Debug)]
pub enum Shape {
    Line(Line),
    Ellipse(Ellipse),
    Sector(ConstSector),
    Arc(ConstArc),
    Swirl(Swirl),
}

/// One shape and the style entry to render it with.
#[derive(Clone, Copy, PartialEq, Eq, Structural, Debug)]
pub struct DrawCommand {
    pub shape: Shape,
    pub style: StyleSlot,
}

pub open spec fn command(shape: Shape, style: StyleSlot) -> DrawCommand {
    DrawCommand { shape, style }
}

/// The shapes of one eye: an outer shape then an inner one for ellipses and
/// arrows, a single shape for lines and swirls.
pub open spec fn eye_commands(
    eye: KerfurEyeType,
    inner: StyleSlot,
    outer: StyleSlot,
    line: StyleSlot,
) -> Seq<DrawCommand> {
    match eye {
        KerfurEyeType::Ellipse(a, b) => seq![
            command(Shape::Ellipse(a), outer),
            command(Shape::Ellipse(b), inner),
        ],
        KerfurEyeType::Arrow(a, b) => seq![
            command(Shape::Sector(a), outer),
            command(Shape::Sector(b), inner),
        ],
        KerfurEyeType::Line(l) => seq![command(Shape::Line(l), line)],
        KerfurEyeType::Swirl(s) => seq![command(Shape::Swirl(s), outer)],
    }
}

/// Copy `i` of a whisker: the base line moved by `i` times `offset`.
pub open spec fn fan_line(base: Line, offset: Point, i: int) -> Line {
    Line {
        start: Point {
            x: (base.start.x + i * offset.x) as i32,
            y: (base.start.y + i * offset.y) as i32,
        },
        end: Point { x: (base.end.x + i * offset.x) as i32, y: (base.end.y + i * offset.y) as i32 },
    }
}

/// A fan of `count` whisker lines, copy `i` moved by `i` times `offset`.
pub open spec fn fan_commands(base: Line, offset: Point, count: nat) -> Seq<DrawCommand> {
    Seq::new(count, |i: int| command(Shape::Line(fan_line(base, offset, i)), StyleSlot::Whisker))
}

/// `v` fits in an `i32`.
pub open spec fn fits_i32(v: int) -> bool {
    i32::MIN <= v <= i32::MAX
}

/// Copy `i` of a coordinate `c` in a fan moved by `o` per copy.
pub open spec fn copy_at(c: int, o: int, i: int) -> int {
    c + i * o
}

/// Every copy `c + i * o` with `i < count` fits in an `i32`.
pub open spec fn copies_fit(c: int, o: int, count: nat) -> bool {
    forall|i: int| 0 <= i < count ==> fits_i32(#[trigger] copy_at(c, o, i))
}

/// Every copy of the line in a fan of `count` moved by `offset` has its
/// coordinates in the `i32` range.
pub open spec fn fan_fits(l: Line, offset: Point, count: nat) -> bool {
    &&& copies_fit(l.start.x as int, offset.x as int, count)
    &&& copies_fit(l.start.y as int, offset.y as int, count)
    &&& copies_fit(l.end.x as int, offset.x as int, count)
    &&& copies_fit(l.end.y as int, offset.y as int, count)
}

/// The fan copies of a coordinate fit exactly when the first and the last
/// copy do.
pub proof fn lemma_copies_fit_ends(c: int, o: int, count: nat)
    ensures
        copies_fit(c, o, count) <==> (count == 0 || (fits_i32(c) && fits_i32(
            c + (count - 1) * o,
        ))),
{
    if count > 0 {
        if copies_fit(c, o, count) {
            assert(fits_i32(copy_at(c, o, 0)));
            assert(fits_i32(copy_at(c, o, count - 1)));
            assert(0 * o == 0);
        }
        if fits_i32(c) && fits_i32(c + (count - 1) * o) {
            assert forall|i: int| 0 <= i < count implies fits_i32(#[trigger] copy_at(c, o, i)) by {
                let last = (count - 1) * o;
                assert((0 <= i * o <= last) || (last <= i * o <= 0)) by (nonlinear_arith)
                    requires
                        0 <= i < count,
                        last == (count - 1) * o,
                ;
            }
        }
    }
}

/// A coordinate between two whose fan copies fit has fitting copies too.
pub proof fn lemma_copies_fit_between(c1: int, c2: int, v: int, o: int, count: nat)
    requires
        copies_fit(c1, o, count),
        copies_fit(c2, o, count),
        (c1 <= v <= c2) || (c2 <= v <= c1),
    ensures
        copies_fit(v, o, count),
{
    assert forall|i: int| 0 <= i < count implies fits_i32(#[trigger] copy_at(v, o, i)) by {
        assert(fits_i32(copy_at(c1, o, i)));
        assert(fits_i32(copy_at(c2, o, i)));
    }
}

/// Every shape of a face in drawing order: eyes, eyebrows, nose and mouth,
/// whiskers.
pub open spec fn face_commands(e: KerfurElements) -> Seq<DrawCommand> {
    eye_commands(
        e.eye.left,
        StyleSlot::LeftEyeInner,
        StyleSlot::LeftEyeOuter,
        StyleSlot::LeftEyeLine,
    ) + eye_commands(
        e.eye.right,
        StyleSlot::RightEyeInner,
        StyleSlot::RightEyeOuter,
        StyleSlot::RightEyeLine,
    ) + seq![
        command(Shape::Line(e.eyebrow.left), StyleSlot::LeftEyebrow),
        command(Shape::Line(e.eyebrow.right), StyleSlot::RightEyebrow),
    ] + seq![
        command(Shape::Sector(e.mouth.nose), StyleSlot::Nose),
        command(Shape::Arc(e.mouth.mouth_bottom), StyleSlot::MouthBottom),
        command(Shape::Arc(e.mouth.mouth_left), StyleSlot::Mouth),
        command(Shape::Arc(e.mouth.mouth_right), StyleSlot::Mouth),
    ] + fan_commands(e.whisker.left, e.whisker.offset, e.whisker.count as nat) + fan_commands(
        e.whisker.right,
        e.whisker.offset,
        e.whisker.count as nat,
    )
}

/// A whisker fan of `count` copies is exactly `count` line shapes in the
/// whisker style, copy `i` being the base line moved by `i` times `offset`,
/// with no coordinate cut short.
pub proof fn lemma_whisker_fan(base: Line, offset: Point, count: nat)
    requires
        fan_fits(base, offset, count),
    ensures
        fan_commands(base, offset, count).len() == count,
        forall|i: int|
            0 <= i < count ==> {
                let c = #[trigger] fan_commands(base, offset, count)[i];
                &&& c.style == StyleSlot::Whisker
                &&& c.shape == Shape::Line(fan_line(base, offset, i))
                &&& fan_line(base, offset, i).start.x == base.start.x + i * offset.x
                &&& fan_line(base, offset, i).start.y == base.start.y + i * offset.y
                &&& fan_line(base, offset, i).end.x == base.end.x + i * offset.x
                &&& fan_line(base, offset, i).end.y == base.end.y + i * offset.y
            },
{
    assert forall|i: int| 0 <= i < count implies {
        let c = #[trigger] fan_commands(base, offset, count)[i];
        &&& c.style == StyleSlot::Whisker
        &&& c.shape == Shape::Line(fan_line(base, offset, i))
        &&& fan_line(base, offset, i).start.x == base.start.x + i * offset.x
        &&& fan_line(base, offset, i).start.y == base.start.y + i * offset.y
        &&& fan_line(base, offset, i).end.x == base.end.x + i * offset.x
        &&& fan_line(base, offset, i).end.y == base.end.y + i * offset.y
    } by {
        assert(fits_i32(copy_at(base.start.x as int, offset.x as int, i)));
        assert(fits_i32(copy_at(base.start.y as int, offset.y as int, i)));
        assert(fits_i32(copy_at(base.end.x as int, offset.x as int, i)));
        assert(fits_i32(copy_at(base.end.y as int, offset.y as int, i)));
    }
}

/// The shapes of a face end with the left whisker fan and then the right
/// one; they depend on the whisker lines, offset and count alone.
pub proof fn lemma_face_ends_with_whiskers(e: KerfurElements)
    ensures
        ({
            let all = face_commands(e);
            let n = e.whisker.count as nat;
            &&& all.len() >= 2 * n
            &&& all.subrange(all.len() - 2 * n, all.len() as int) == fan_commands(
                e.whisker.left,
                e.whisker.offset,
                n,
            ) + fan_commands(e.whisker.right, e.whisker.offset, n)
        }),
{
    let all = face_commands(e);
    let n = e.whisker.count as nat;
    let fans = fan_commands(e.whisker.left, e.whisker.offset, n) + fan_commands(
        e.whisker.right,
        e.whisker.offset,
        n,
    );
    assert(all.subrange(all.len() - 2 * n, all.len() as int) =~= fans);
}

impl KerfurElements {
    /// The whisker lines of this face, drawn as fans with the offset and
    /// count of `settings`, stay inside the coordinate range.
    pub open spec fn fits_fan_of(self, settings: KerfurElements) -> bool {
        &&& fan_fits(self.whisker.left, settings.whisker.offset, settings.whisker.count as nat)
        &&& fan_fits(self.whisker.right, settings.whisker.offset, settings.whisker.count as nat)
    }

    /// Every whisker copy of this face stays inside the coordinate range
    /// when drawn.
    pub open spec fn in_frame(self) -> bool {
        self.fits_fan_of(self)
    }
}

impl EyeState {
    /// Lists the shapes of both eyes.
    pub fn draw(&self, out: &mut Vec<DrawCommand>)
        ensures
            final(out)@ == old(out)@ + eye_commands(
                self.left,
                StyleSlot::LeftEyeInner,
                StyleSlot::LeftEyeOuter,
                StyleSlot::LeftEyeLine,
            ) + eye_commands(
                self.right,
                StyleSlot::RightEyeInner,
                StyleSlot::RightEyeOuter,
                StyleSlot::RightEyeLine,
            ),
    {
        Self::draw_eye(
            &self.left,
            out,
            StyleSlot::LeftEyeInner,
            StyleSlot::LeftEyeOuter,
            StyleSlot::LeftEyeLine,
        );
        Self::draw_eye(
            &self.right,
            out,
            StyleSlot::RightEyeInner,
            StyleSlot::RightEyeOuter,
            StyleSlot::RightEyeLine,
        );
        assert(final(out)@ =~= old(out)@ + eye_commands(
            self.left,
            StyleSlot::LeftEyeInner,
            StyleSlot::LeftEyeOuter,
            StyleSlot::LeftEyeLine,
        ) + eye_commands(
            self.right,
            StyleSlot::RightEyeInner,
            StyleSlot::RightEyeOuter,
            StyleSlot::RightEyeLine,
        ));
    }

    /// Lists the shapes of one eye with the given style entries.
    pub fn draw_eye(
        eye: &KerfurEyeType,
        out: &mut Vec<DrawCommand>,
        inner: StyleSlot,
        outer: StyleSlot,
        line: StyleSlot,
    )
        ensures
            final(out)@ == old(out)@ + eye_commands(*eye, inner, outer, line),
    {
        match *eye {
            KerfurEyeType::Ellipse(a, b) => {
                out.push(DrawCommand { shape: Shape::Ellipse(a), style: outer });
                out.push(DrawCommand { shape: Shape::Ellipse(b), style: inner });
            },
            KerfurEyeType::Arrow(a, b) => {
                out.push(DrawCommand { shape: Shape::Sector(a), style: outer });
                out.push(DrawCommand { shape: Shape::Sector(b), style: inner });
            },
            KerfurEyeType::Line(l) => {
                out.push(DrawCommand { shape: Shape::Line(l), style: line });
            },
            KerfurEyeType::Swirl(s) => {
                out.push(DrawCommand { shape: Shape::Swirl(s), style: outer });
            },
        }
        assert(final(out)@ =~= old(out)@ + eye_commands(*eye, inner, outer, line));
    }
}

impl EyebrowState {
    /// Lists the shapes of both eyebrows.
    pub fn draw(&self, out: &mut Vec<DrawCommand>)
        ensures
            final(out)@ == old(out)@ + seq![
                command(Shape::Line(self.left), StyleSlot::LeftEyebrow),
                command(Shape::Line(self.right), StyleSlot::RightEyebrow),
            ],
    {
        out.push(DrawCommand { shape: Shape::Line(self.left), style: StyleSlot::LeftEyebrow });
        out.push(DrawCommand { shape: Shape::Line(self.right), style: StyleSlot::RightEyebrow });
        assert(final(out)@ =~= old(out)@ + seq![
            command(Shape::Line(self.left), StyleSlot::LeftEyebrow),
            command(Shape::Line(self.right), StyleSlot::RightEyebrow),
        ]);
    }
}

impl MouthState {
    /// Lists the nose, then the bottom, left and right strokes of the mouth.
    pub fn draw(&self, out: &mut Vec<DrawCommand>)
        ensures
            final(out)@ == old(out)@ + seq![
                command(Shape::Sector(self.nose), StyleSlot::Nose),
                command(Shape::Arc(self.mouth_bottom), StyleSlot::MouthBottom),
                command(Shape::Arc(self.mouth_left), StyleSlot::Mouth),
                command(Shape::Arc(self.mouth_right), StyleSlot::Mouth),
            ],
    {
        out.push(DrawCommand { shape: Shape::Sector(self.nose), style: StyleSlot::Nose });
        out.push(
            DrawCommand { shape: Shape::Arc(self.mouth_bottom), style: StyleSlot::MouthBottom },
        );
        out.push(DrawCommand { shape: Shape::Arc(self.mouth_left), style: StyleSlot::Mouth });
        out.push(DrawCommand { shape: Shape::Arc(self.mouth_right), style: StyleSlot::Mouth });
        assert(final(out)@ =~= old(out)@ + seq![
            command(Shape::Sector(self.nose), StyleSlot::Nose),
            command(Shape::Arc(self.mouth_bottom), StyleSlot::MouthBottom),
            command(Shape::Arc(self.mouth_left), StyleSlot::Mouth),
            command(Shape::Arc(self.mouth_right), StyleSlot::Mouth),
        ]);
    }
}

impl WhiskerState {
    /// Lists the whisker fans of both sides.
    pub fn draw(&self, out: &mut Vec<DrawCommand>)
        requires
            fan_fits(self.left, self.offset, self.count as nat),
            fan_fits(self.right, self.offset, self.count as nat),
        ensures
            final(out)@ == old(out)@ + fan_commands(self.left, self.offset, self.count as nat)
                + fan_commands(self.right, self.offset, self.count as nat),
    {
        Self::draw_whisker(self.left, self.offset, self.count, out);
        Self::draw_whisker(self.right, self.offset, self.count, out);
        assert(final(out)@ =~= old(out)@ + fan_commands(self.left, self.offset, self.count as nat)
            + fan_commands(self.right, self.offset, self.count as nat));
    }

    /// Lists `count` copies of a whisker line, each moved by `offset` from
    /// the one before.
    pub fn draw_whisker(whisker: Line, offset: Point, count: u32, out: &mut Vec<DrawCommand>)
        requires
            fan_fits(whisker, offset, count as nat),
        ensures
            final(out)@ == old(out)@ + fan_commands(whisker, offset, count as nat),
    {
        let ghost start = out@;
        let mut i: u32 = 0;
        while i < count
            invariant
                i <= count,
                fan_fits(whisker, offset, count as nat),
                out@ == start + fan_commands(whisker, offset, i as nat),
            decreases count - i,
        {
            let k = i as i64;
            proof {
                assert(fits_i32(copy_at(whisker.start.x as int, offset.x as int, k as int)));
                assert(fits_i32(copy_at(whisker.start.y as int, offset.y as int, k as int)));
                assert(fits_i32(copy_at(whisker.end.x as int, offset.x as int, k as int)));
                assert(fits_i32(copy_at(whisker.end.y as int, offset.y as int, k as int)));
                lemma_product_fits(k as int, offset.x as int);
                lemma_product_fits(k as int, offset.y as int);
            }
            let dx = k * offset.x as i64;
            let dy = k * offset.y as i64;
            let line = Line {
                start: Point {
                    x: (whisker.start.x as i64 + dx) as i32,
                    y: (whisker.start.y as i64 + dy) as i32,
                },
                end: Point {
                    x: (whisker.end.x as i64 + dx) as i32,
                    y: (whisker.end.y as i64 + dy) as i32,
                },
            };
            out.push(DrawCommand { shape: Shape::Line(line), style: StyleSlot::Whisker });
            assert(out@ =~= start + fan_commands(whisker, offset, (i + 1) as nat));
            i = i + 1;
        }
    }
}

impl KerfurElements {
    /// Lists every shape of the face in drawing order: eyes, eyebrows, nose
    /// and mouth, whiskers.
    pub fn draw(&self) -> (r: Vec<DrawCommand>)
        requires
            self.in_frame(),
        ensures
            r@ == face_commands(*self),
    {
        let mut out: Vec<DrawCommand> = Vec::new();
        self.eye.draw(&mut out);
        self.eyebrow.draw(&mut out);
        self.mouth.draw(&mut out);
        self.whisker.draw(&mut out);
        assert(out@ =~= face_commands(*self));
        out
    }
}



/// A copy index times an `i32` offset, plus an `i32`, fits in an `i64`.
proof fn lemma_product_fits(k: int, o: int)
    requires
        0 <= k <= u32::MAX,
        i32::MIN <= o <= i32::MAX,
    ensures
        -0x7fff_ffff_8000_0000 <= k * o <= 0x7fff_ffff_8000_0000,
{
    assert(-0x7fff_ffff_8000_0000 <= k * o <= 0x7fff_ffff_8000_0000) by (nonlinear_arith)
        requires
            0 <= k <= 0xffff_ffff,
            -0x8000_0000 <= o <= 0x7fff_ffff,
    ;
}

/// Whether every fan copy of a coordinate fits in an `i32`; see
/// [`copies_fit`].
fn copies_fit_check(c: i32, o: i32, count: u32) -> (r: bool)
    ensures
        r == copies_fit(c as int, o as int, count as nat),
{
    proof {
        lemma_copies_fit_ends(c as int, o as int, count as nat);
    }
    if count == 0 {
        return true;
    }
    proof {
        lemma_product_fits((count - 1) as int, o as int);
    }
    let last: i64 = c as i64 + (count - 1) as i64 * o as i64;
    i32::MIN as i64 <= last && last <= i32::MAX as i64
}

fn fan_fits_check(l: Line, offset: Point, count: u32) -> (r: bool)
    ensures
        r == fan_fits(l, offset, count as nat),
{
    copies_fit_check(l.start.x, offset.x, count) && copies_fit_check(l.start.y, offset.y, count)
        && copies_fit_check(l.end.x, offset.x, count) && copies_fit_check(l.end.y, offset.y, count)
}

impl KerfurElements {
    /// Whether the whisker lines of this face, drawn as fans with the offset
    /// and count of `settings`, stay inside the coordinate range.
    pub fn whiskers_fit_fan_of(&self, settings: &KerfurElements) -> (r: bool)
        ensures
            r == self.fits_fan_of(*settings),
    {
        let w = settings.whisker;
        fan_fits_check(self.whisker.left, w.offset, w.count) && fan_fits_check(
            self.whisker.right,
            w.offset,
            w.count,
        )
    }

    /// Whether the face can be drawn: see [`KerfurElements::in_frame`].
    pub fn fits_frame(&self) -> (r: bool)
        ensures
            r == self.in_frame(),
    {
        self.whiskers_fit_fan_of(self)
    }
}

} // verus!
