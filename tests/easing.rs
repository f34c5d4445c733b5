use kerfur_display::geometry::{
    interp_angle, interp_diameter, interp_point, interp_size, Point, Size,
};

#[test]
fn point_step_rounds_up_towards_a_later_target() {
    // 2.5 px along the diagonal is about 1.77 px per axis, rounded up.
    let r = interp_point(Point::new(0, 0), Point::new(10, 10), 2500);
    assert_eq!(r, Point::new(2, 2));
}

#[test]
fn point_step_rounds_down_towards_an_earlier_target() {
    let r = interp_point(Point::new(10, 10), Point::new(0, 0), 2500);
    assert_eq!(r, Point::new(8, 8));
}

#[test]
fn point_step_moves_exactly_the_budget_along_the_line() {
    // A 3-4-5 triangle scaled by ten: 5 px covers (3, 4).
    let r = interp_point(Point::new(0, 0), Point::new(30, 40), 5000);
    assert_eq!(r, Point::new(3, 4));
    let r = interp_point(Point::new(0, 0), Point::new(30, 40), 2000);
    assert_eq!(r, Point::new(2, 2));
}

#[test]
fn point_within_reach_snaps_to_target() {
    let r = interp_point(Point::new(0, 0), Point::new(3, 4), 5000);
    assert_eq!(r, Point::new(3, 4));
    let r = interp_point(Point::new(-7, 9), Point::new(-7, 9), 0);
    assert_eq!(r, Point::new(-7, 9));
}

#[test]
fn zero_budget_does_not_move() {
    let r = interp_point(Point::new(0, 0), Point::new(10, 10), 0);
    assert_eq!(r, Point::new(0, 0));
}

#[test]
fn huge_budget_snaps_in_one_frame() {
    let r = interp_point(Point::new(-1000, 500), Point::new(2000, -700), 10_000_000);
    assert_eq!(r, Point::new(2000, -700));
}

#[test]
fn diagonal_converges_exactly_without_overshoot() {
    let target = Point::new(10, 10);
    let mut p = Point::new(0, 0);
    let mut frames = 0;
    while p != target {
        p = interp_point(p, target, 2500);
        assert!(p.x <= 10 && p.y <= 10);
        frames += 1;
        assert!(frames <= 20);
    }
    assert_eq!(frames, 5);
}

#[test]
fn sideways_start_converges_within_taxicab_distance() {
    let target = Point::new(1000, 0);
    let mut p = Point::new(0, 3);
    let mut frames = 0;
    while p != target {
        let next = interp_point(p, target, 1000);
        assert!(next.x >= p.x && next.x <= 1000);
        assert!(next.y <= p.y && next.y >= 0);
        p = next;
        frames += 1;
        assert!(frames <= 1003);
    }
    // The rounding keeps y at 3 until x arrives, so this takes one frame more
    // than the straight-line distance over the budget, plus one.
    assert_eq!(frames, 1003);
}

#[test]
fn size_step_rounds_towards_target() {
    let r = interp_size(Size::new(0, 0), Size::new(10, 10), 2500);
    assert_eq!(r, Size::new(2, 2));
    let r = interp_size(Size::new(10, 10), Size::new(0, 0), 2500);
    assert_eq!(r, Size::new(8, 8));
}

#[test]
fn angle_moves_by_the_budget_or_snaps() {
    assert_eq!(interp_angle(0, 1000, 300), 300);
    assert_eq!(interp_angle(1000, 0, 300), 700);
    assert_eq!(interp_angle(0, 1000, 2000), 1000);
    assert_eq!(interp_angle(-5, -5, 0), -5);
}

#[test]
fn angle_takes_the_long_way_round() {
    // From just under a full turn to just over zero: no wrapping.
    assert_eq!(interp_angle(6109, 175, 1000), 5109);
}

#[test]
fn angle_converges_in_distance_over_budget_steps() {
    let mut a = 0;
    let mut frames = 0;
    while a != 1000 {
        a = interp_angle(a, 1000, 300);
        frames += 1;
    }
    assert_eq!(frames, 4);
}

#[test]
fn diameter_eases_as_a_width() {
    assert_eq!(interp_diameter(20, 50, 5000), 25);
    assert_eq!(interp_diameter(20, 50, 2500), 23);
    assert_eq!(interp_diameter(50, 20, 2500), 47);
    assert_eq!(interp_diameter(20, 24, 5000), 24);
}
