use kerfur_display::drawing::{DrawCommand, Shape, StyleSlot};
use kerfur_display::element::{EyeState, KerfurEyeType, WhiskerState};
use kerfur_display::geometry::{Point, Size};
use kerfur_display::primitive::{Circle, ConstArc, ConstSector, Ellipse, Line, Swirl};
use kerfur_display::{KerfurElements, KerfurEmote, KerfurExpression};

fn fan(count: u32, offset: Point) -> Vec<DrawCommand> {
    let mut out = Vec::new();
    WhiskerState::draw_whisker(
        Line::new(Point::new(10, 100), Point::new(40, 100)),
        offset,
        count,
        &mut out,
    );
    out
}

#[test]
fn whisker_fan_draws_count_copies_at_offsets() {
    let out = fan(3, Point::new(0, 8));
    assert_eq!(out.len(), 3);
    for (i, c) in out.iter().enumerate() {
        let dy = 8 * i as i32;
        assert_eq!(c.style, StyleSlot::Whisker);
        assert_eq!(
            c.shape,
            Shape::Line(Line::new(Point::new(10, 100 + dy), Point::new(40, 100 + dy)))
        );
    }
}

#[test]
fn whisker_fan_of_zero_draws_nothing() {
    assert!(fan(0, Point::new(0, 8)).is_empty());
}

#[test]
fn whiskers_draw_left_fan_then_right_fan() {
    let w = WhiskerState {
        left: Line::new(Point::new(0, 0), Point::new(5, 0)),
        right: Line::new(Point::new(100, 0), Point::new(95, 0)),
        offset: Point::new(1, 2),
        count: 2,
    };
    let mut out = Vec::new();
    w.draw(&mut out);
    let lines: Vec<Shape> = out.iter().map(|c| c.shape).collect();
    assert_eq!(
        lines,
        vec![
            Shape::Line(Line::new(Point::new(0, 0), Point::new(5, 0))),
            Shape::Line(Line::new(Point::new(1, 2), Point::new(6, 2))),
            Shape::Line(Line::new(Point::new(100, 0), Point::new(95, 0))),
            Shape::Line(Line::new(Point::new(101, 2), Point::new(96, 2))),
        ]
    );
}

#[test]
fn eye_of_another_kind_snaps_at_once() {
    let mut eye = KerfurEyeType::neutral_left();
    let target = KerfurEyeType::blink_left();
    EyeState::interpolate_eye(&mut eye, &target, 1);
    assert_eq!(eye, target);
    let mut eye = KerfurEyeType::neutral_left();
    EyeState::interpolate_eye(&mut eye, &target, 0);
    assert_eq!(eye, target);
}

#[test]
fn eye_of_the_same_kind_eases() {
    let mut eye = KerfurEyeType::blink_left();
    let target = KerfurEyeType::Line(Line::new(Point::new(38, 250), Point::new(192, 250)));
    EyeState::interpolate_eye(&mut eye, &target, 4000);
    assert_eq!(eye, KerfurEyeType::Line(Line::new(Point::new(38, 244), Point::new(192, 244))));
}

#[test]
fn swirl_eye_eases_position_diameter_and_rotation() {
    let mut eye = KerfurEyeType::Swirl(Swirl::new(Point::new(0, 0), 100, 40));
    let target = KerfurEyeType::Swirl(Swirl::new(Point::new(0, 10), 900, 80));
    EyeState::interpolate_eye(&mut eye, &target, 3000);
    assert_eq!(
        eye,
        KerfurEyeType::Swirl(Swirl { angle: 900, circle: Circle::new(Point::new(0, 3), 43) })
    );
    let mut frames = 0;
    while eye != target {
        EyeState::interpolate_eye(&mut eye, &target, 3000);
        frames += 1;
        assert!(frames < 100);
    }
}

#[test]
fn swirl_eye_differing_only_in_rotation_settles_in_one_large_step() {
    let mut eye = KerfurEyeType::Swirl(Swirl::new(Point::new(5, 5), 0, 40));
    let target = KerfurEyeType::Swirl(Swirl::new(Point::new(5, 5), 100, 40));
    EyeState::interpolate_eye(&mut eye, &target, 1_000_000);
    assert_eq!(eye, target);
}

#[test]
fn whisker_fan_may_reach_the_edge_of_the_coordinate_range() {
    let base = Line::new(Point::new(0x4000_0001, 0), Point::new(i32::MAX - 8, 0));
    let face =
        KerfurElements::new().with_whiskers(base, base).with_whisker_settings(Point::new(4, 0), 3);
    assert!(face.fits_frame());
    let face = face.with_whisker_settings(Point::new(5, 0), 3);
    assert!(!face.fits_frame());
    let face = face.with_whisker_settings(Point::new(5, 0), 0);
    assert!(face.fits_frame());
    let fans = face.with_whisker_settings(Point::new(4, 0), 3).draw();
    assert_eq!(
        fans.last().map(|c| c.shape),
        Some(Shape::Line(Line::new(Point::new(0x4000_0009, 0), Point::new(i32::MAX, 0))))
    );
}

#[test]
fn face_at_its_target_stays_put() {
    for e in all_emotes() {
        let target = e.into_elements();
        let mut face = target;
        face.interpolate(&target, 5000);
        assert_eq!(face, target);
        face.interpolate(&target, 0);
        assert_eq!(face, target);
    }
}

fn all_emotes() -> Vec<KerfurEmote> {
    vec![
        KerfurEmote::Neutral,
        KerfurEmote::NeutralUp,
        KerfurEmote::NeutralDown,
        KerfurEmote::NeutralLeft,
        KerfurEmote::NeutralRight,
        KerfurEmote::Meow,
        KerfurEmote::Dazed,
        KerfurEmote::Blink,
    ]
}

#[test]
fn every_emote_gives_a_complete_drawable_face() {
    for e in all_emotes() {
        let face = e.into_elements();
        let shapes = face.draw();
        let eye_shapes = |eye: KerfurEyeType| match eye {
            KerfurEyeType::Ellipse(..) | KerfurEyeType::Arrow(..) => 2,
            KerfurEyeType::Line(..) | KerfurEyeType::Swirl(..) => 1,
        };
        let expected = eye_shapes(face.eye.left) + eye_shapes(face.eye.right) + 2 + 4 + 2 * 2;
        assert_eq!(shapes.len(), expected);
    }
}

#[test]
fn neutral_face_layout() {
    let face = KerfurEmote::Neutral.into_elements();
    assert_eq!(face, KerfurElements::new());
    assert_eq!(face, KerfurElements::default());
    // Centred on (115, 240) with diameter 153: the corner is 76 px before.
    assert_eq!(
        face.eye.left,
        KerfurEyeType::Ellipse(
            Ellipse::new(Point::new(39, 164), Size::new(153, 153)),
            Ellipse::new(Point::new(63, 188), Size::new(105, 105)),
        )
    );
    assert_eq!(face.eyebrow.left, Line::new(Point::new(201, 139), Point::new(168, 139)));
    assert_eq!(face.whisker.offset, Point::new(0, 24));
    assert_eq!(face.whisker.count, 2);
    assert_eq!(face.mouth.nose, ConstSector::new(Point::new(221, 259), 40, 3928, 1570));
    assert_eq!(face.mouth.mouth_right, ConstArc::new(Point::new(241, 269), 30, 3142, -3142));
}

#[test]
fn looking_emotes_move_only_the_pupils() {
    let neutral = KerfurEmote::Neutral.into_elements();
    let cases = [
        (KerfurEmote::NeutralUp, 0, -12),
        (KerfurEmote::NeutralDown, 0, 12),
        (KerfurEmote::NeutralLeft, -12, 0),
        (KerfurEmote::NeutralRight, 12, 0),
    ];
    for (emote, dx, dy) in cases {
        let face = emote.into_elements();
        assert_eq!(face.eyebrow, neutral.eyebrow);
        assert_eq!(face.mouth, neutral.mouth);
        assert_eq!(face.whisker, neutral.whisker);
        for (eye, base) in [(face.eye.left, neutral.eye.left), (face.eye.right, neutral.eye.right)] {
            match (eye, base) {
                (KerfurEyeType::Ellipse(o, i), KerfurEyeType::Ellipse(bo, bi)) => {
                    assert_eq!(o, bo);
                    assert_eq!(i.size, bi.size);
                    assert_eq!(i.top_left, Point::new(bi.top_left.x + dx, bi.top_left.y + dy));
                }
                _ => panic!("looking faces keep ellipse eyes"),
            }
        }
    }
}

#[test]
fn meow_face_layout() {
    let face = KerfurEmote::Meow.into_elements();
    match face.eye.left {
        KerfurEyeType::Arrow(outer, inner) => {
            // Centre (220, 235), diameter 360: corner 179 px before.
            assert_eq!(outer, ConstSector::new(Point::new(41, 56), 360, 2749, 786));
            assert_eq!(inner, ConstSector::new(Point::new(32, 104), 264, 2828, 628));
        }
        _ => panic!("meow has arrow eyes"),
    }
    assert_eq!(face.mouth.mouth_bottom, ConstArc::new(Point::new(216, 283), 50, -524, 4190));
}

#[test]
fn blink_and_dazed_faces() {
    let blink = KerfurEmote::Blink.into_elements();
    assert_eq!(blink.eye.left, KerfurEyeType::blink_left());
    assert_eq!(
        blink.eye.right,
        KerfurEyeType::Line(Line::new(Point::new(288, 240), Point::new(441, 240)))
    );
    let dazed = KerfurEmote::Dazed.into_elements();
    assert_eq!(dazed.eyebrow.right, Line::new(Point::new(278, 105), Point::new(312, 120)));
    assert_eq!(dazed.eye, KerfurElements::new().eye);
}

#[test]
fn pupil_resize_keeps_it_centred() {
    let eye = KerfurEyeType::neutral_left().with_pupil_resized(Point::new(10, -7));
    match eye {
        KerfurEyeType::Ellipse(_, inner) => {
            assert_eq!(inner.top_left, Point::new(58, 191));
            assert_eq!(inner.size, Size::new(115, 98));
        }
        _ => panic!("resizing keeps the ellipse"),
    }
    let eye = KerfurEyeType::neutral_left().with_pupil_resized(Point::new(-200, 0));
    match eye {
        KerfurEyeType::Ellipse(_, inner) => assert_eq!(inner.size, Size::new(0, 105)),
        _ => panic!("resizing keeps the ellipse"),
    }
}

#[test]
fn centred_shapes_place_their_corner() {
    let s = ConstSector::with_center(Point::new(100, 100), 40, 0, 10);
    assert_eq!(s.top_left, Point::new(81, 81));
    let c = Circle::with_center(Point::new(0, 0), 1);
    assert_eq!(c.top_left, Point::new(0, 0));
    let e = Ellipse::with_center(Point::new(10, 10), Size::new(0, 7));
    assert_eq!(e.top_left, Point::new(10, 7));
}

#[test]
fn face_draw_order() {
    let face = KerfurElements::new();
    let shapes = face.draw();
    let styles: Vec<StyleSlot> = shapes.iter().map(|c| c.style).collect();
    assert_eq!(
        styles,
        vec![
            StyleSlot::LeftEyeOuter,
            StyleSlot::LeftEyeInner,
            StyleSlot::RightEyeOuter,
            StyleSlot::RightEyeInner,
            StyleSlot::LeftEyebrow,
            StyleSlot::RightEyebrow,
            StyleSlot::Nose,
            StyleSlot::MouthBottom,
            StyleSlot::Mouth,
            StyleSlot::Mouth,
            StyleSlot::Whisker,
            StyleSlot::Whisker,
            StyleSlot::Whisker,
            StyleSlot::Whisker,
        ]
    );
}
