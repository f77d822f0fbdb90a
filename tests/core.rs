use lorenz::bounce::BouncingVariable;
use lorenz::centroid::find_center;
use lorenz::integrator::lorenz;
use lorenz::point::{Point3, SCALE};
use lorenz::sim::{Simulation, AZIMUTH_LAST, MAX_TRAIL_LEN, STEPS_PER_FRAME};
use lorenz::trail::TrajectoryBuffer;

fn whole(v: i64) -> i64 {
    v * SCALE
}

fn in_whole_units(c: i64) -> f64 {
    c as f64 / SCALE as f64
}

fn reference_step(x: f64, y: f64, z: f64) -> (f64, f64, f64) {
    let dt = 0.001;
    (
        x + dt * 10.0 * (y - x),
        y + dt * (x * (28.0 - z) - y),
        z + dt * (x * y - 8.0 / 3.0 * z),
    )
}

fn close(a: f64, b: f64) -> bool {
    (a - b).abs() < 1e-9
}

#[test]
fn lorenz_step_from_ones_matches_reference() {
    let r = lorenz(&Point3::new(whole(1), whole(1), whole(1)));
    let (ex, ey, ez) = reference_step(1.0, 1.0, 1.0);
    assert!(close(in_whole_units(r.x), ex));
    assert!(close(in_whole_units(r.y), ey));
    assert!(close(in_whole_units(r.z), ez));
    assert_eq!(r.x, SCALE);
    assert_eq!(r.y, 1_026_000_000_000);
    assert_eq!(r.z, 998_333_333_334);
}

#[test]
fn lorenz_uses_the_point_before_the_step() {
    let p = Point3::new(whole(2), whole(-3), whole(5));
    let r = lorenz(&p);
    let (ex, ey, ez) = reference_step(2.0, -3.0, 5.0);
    assert!(close(in_whole_units(r.x), ex));
    assert!(close(in_whole_units(r.y), ey));
    assert!(close(in_whole_units(r.z), ez));
}

#[test]
fn lorenz_commutes_with_the_mirror() {
    let pts = [
        Point3::new(0, 1, 0),
        Point3::new(whole(1), whole(1), whole(1)),
        Point3::new(123_456_789_012, -987_654_321_098, 24_000_000_000_001),
        Point3::new(-whole(17), whole(3), -whole(9)),
    ];
    for p in pts.iter() {
        let r = lorenz(p);
        let m = lorenz(&Point3::new(-p.x, -p.y, p.z));
        assert_eq!(m, Point3::new(-r.x, -r.y, r.z));
    }
    assert_eq!(lorenz(&Point3::new(0, 1, 0)).x, 0);
    assert_eq!(lorenz(&Point3::new(0, -1, 0)).x, 0);
}

#[test]
fn lorenz_steps_far_from_the_attractor() {
    let r = lorenz(&Point3::new(whole(2000), 0, 0));
    assert_eq!(r, Point3::new(whole(1980), whole(56), 0));
    let z = 5_000_000_000_000_000_000;
    let r = lorenz(&Point3::new(0, 0, z));
    assert_eq!(r, Point3::new(0, 0, z - 13_333_333_333_333_333));
}

#[test]
fn lorenz_holds_a_point_whose_step_cannot_be_held() {
    let p = Point3::new(3_000_000_000_000_000_000, 3_000_000_000_000_000_000, 0);
    assert_eq!(lorenz(&p), p);
    let p = Point3::new(i64::MAX, i64::MAX, 0);
    assert_eq!(lorenz(&p), p);
    let p = Point3::new(i64::MIN, i64::MAX, i64::MAX);
    assert_eq!(lorenz(&p), p);
}

#[test]
fn lorenz_steps_just_inside_the_limit() {
    // from (x, x, 0) the new z is x * x / (1000 * SCALE): it fits an i64 for
    // x = 96e15 units and not for x = 97e15
    let x = 3_000_000_000_000_000;
    let y = 3_000_000_000_000_000;
    let r = lorenz(&Point3::new(x, y, 0));
    assert_eq!(r.z, 9_000_000_000_000_000);
    let x: i64 = 96_000_000_000_000_000;
    let r = lorenz(&Point3::new(x, x, 0));
    assert_eq!(r.z, 9_216_000_000_000_000_000);
    let x: i64 = 97_000_000_000_000_000;
    let p = Point3::new(x, x, 0);
    assert_eq!(lorenz(&p), p);
}

#[test]
fn append_steps_grows_by_exactly_n() {
    let mut t = TrajectoryBuffer::new();
    assert_eq!(t.len(), 1);
    assert_eq!(t.last(), Point3::seed());
    t.append_steps(30);
    assert_eq!(t.len(), 31);
    t.append_steps(0);
    assert_eq!(t.len(), 31);
    t.append_steps(5);
    assert_eq!(t.len(), 36);
    let pts = t.points();
    assert_eq!(pts[0], Point3::seed());
    for i in 1..pts.len() {
        assert_eq!(pts[i], lorenz(&pts[i - 1]));
    }
}

#[test]
fn maybe_reset_restarts_from_seed_when_over_limit() {
    let mut t = TrajectoryBuffer::new();
    t.append_steps(10);
    assert_eq!(t.len(), 11);
    t.maybe_reset(10);
    assert_eq!(t.len(), 1);
    assert_eq!(t.points()[0], Point3::new(SCALE, SCALE, SCALE));
}

#[test]
fn maybe_reset_within_limit_changes_nothing() {
    let mut t = TrajectoryBuffer::new();
    t.append_steps(10);
    let before = t.points().clone();
    t.maybe_reset(11);
    assert_eq!(t.points(), &before);
    t.maybe_reset(11);
    assert_eq!(t.points(), &before);
}

#[test]
fn centroid_of_one_point_is_that_point() {
    let p = Point3::new(-7, 123_456_789, whole(-40));
    assert_eq!(find_center(&vec![p]), p);
}

#[test]
fn centroid_of_two_points() {
    let pts = vec![Point3::new(0, 0, 0), Point3::new(whole(2), 0, 0)];
    assert_eq!(find_center(&pts), Point3::new(whole(1), 0, 0));
}

#[test]
fn centroid_rounds_toward_zero() {
    let pts = vec![Point3::new(-1, 1, 5), Point3::new(0, 0, 5), Point3::new(-2, 0, 6)];
    assert_eq!(find_center(&pts), Point3::new(-1, 0, 5));
    let pts = vec![Point3::new(-1, 0, 0), Point3::new(0, 0, 0), Point3::new(0, 0, 0)];
    assert_eq!(find_center(&pts), Point3::new(0, 0, 0));
}

#[test]
fn centroid_of_extreme_points() {
    let pts = vec![Point3::new(i64::MAX, i64::MIN, i64::MAX); 3];
    assert_eq!(find_center(&pts), Point3::new(i64::MAX, i64::MIN, i64::MAX));
}

#[test]
fn trail_centroid_matches_find_center() {
    let mut t = TrajectoryBuffer::new();
    t.append_steps(100);
    assert_eq!(t.centroid(), find_center(t.points()));
}

#[test]
fn bounce_reflects_at_max_after_751_steps() {
    let mut b = BouncingVariable::new(0, -750, 750, 1);
    for _ in 0..751 {
        b.step();
        assert!(-750 <= b.value() && b.value() <= 750);
    }
    assert_eq!(b.value(), 749);
    assert_eq!(b.direction(), -1);
    b.step();
    assert_eq!(b.value(), 748);
}

#[test]
fn bounce_reflects_with_overshoot_at_both_bounds() {
    let mut b = BouncingVariable::new(8, 0, 10, 3);
    b.step();
    assert_eq!((b.value(), b.direction()), (9, -1));
    b.step();
    b.step();
    assert_eq!((b.value(), b.direction()), (3, -1));
    b.step();
    assert_eq!((b.value(), b.direction()), (0, -1));
    b.step();
    assert_eq!((b.value(), b.direction()), (3, 1));
}

#[test]
fn bounce_never_leaves_bounds() {
    let mut b = BouncingVariable::new(0, -75, 75, 7);
    for _ in 0..1000 {
        b.step();
        assert!(-75 <= b.value() && b.value() <= 75);
    }
}

#[test]
fn first_frame() {
    let mut s = Simulation::new();
    let f = s.advance_frame();
    assert_eq!(s.trail.len(), 1 + STEPS_PER_FRAME);
    assert_eq!(f.azimuth, 1);
    assert_eq!(f.pitch, 0);
    assert_eq!(f.target, s.trail.centroid());
    assert_eq!(s.pitch.value(), 1);
    let g = s.advance_frame();
    assert_eq!(g.pitch, 1);
    assert_eq!(g.azimuth, 2);
}

#[test]
fn azimuth_closes_the_circle() {
    let mut s = Simulation::new();
    s.azimuth = AZIMUTH_LAST;
    let f = s.advance_frame();
    assert_eq!(f.azimuth, 0);
}

#[test]
fn frame_restarts_an_overlong_trail() {
    let mut s = Simulation::new();
    s.trail.append_steps(MAX_TRAIL_LEN);
    assert_eq!(s.trail.len(), MAX_TRAIL_LEN + 1);
    s.advance_frame();
    assert_eq!(s.trail.len(), 1 + STEPS_PER_FRAME);
    assert_eq!(s.trail.points()[0], Point3::seed());
}

#[test]
fn frame_at_the_limit_keeps_the_trail() {
    let mut s = Simulation::new();
    s.trail.append_steps(MAX_TRAIL_LEN - 1);
    let before = s.trail.points().clone();
    s.advance_frame();
    assert_eq!(s.trail.len(), MAX_TRAIL_LEN + STEPS_PER_FRAME);
    assert_eq!(&s.trail.points()[..MAX_TRAIL_LEN], &before[..]);
}
