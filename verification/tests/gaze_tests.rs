use scraen::gaze::{isqrt_ceil, render_offset, GazeSmoother};

#[test]
fn isqrt_ceil_small_values() {
    assert_eq!(isqrt_ceil(0), 0);
    assert_eq!(isqrt_ceil(1), 1);
    assert_eq!(isqrt_ceil(2), 2);
    assert_eq!(isqrt_ceil(4), 2);
    assert_eq!(isqrt_ceil(5), 3);
    assert_eq!(isqrt_ceil(9), 3);
    assert_eq!(isqrt_ceil(10), 4);
    assert_eq!(isqrt_ceil(16), 4);
    assert_eq!(isqrt_ceil(1_000_000), 1000);
    assert_eq!(isqrt_ceil(u64::MAX), 4294967296);
}

#[test]
fn first_step_moves_a_tenth_toward_target() {
    let mut g = GazeSmoother::new(1, 10);
    g.update(100, -50);
    // acceleration = 0 - (0 - target) = target; the position moves by a
    // tenth of it, and the stored velocity is position - target.
    assert_eq!(g.pos_x, 10);
    assert_eq!(g.pos_y, -5);
    assert_eq!(g.vel_x, -100);
    assert_eq!(g.vel_y, 50);
}

#[test]
fn smoothing_is_deterministic() {
    let mut a = GazeSmoother::new(1, 10);
    let mut b = GazeSmoother::new(1, 10);
    let targets = [(100i64, 20i64), (100, 20), (-400, 350), (0, 0), (7, -7)];
    for (tx, ty) in targets {
        a.update(tx, ty);
        b.update(tx, ty);
        assert_eq!((a.pos_x, a.pos_y, a.vel_x, a.vel_y), (b.pos_x, b.pos_y, b.vel_x, b.vel_y));
    }
}

#[test]
fn offset_along_axis_reaches_max_radius() {
    let (ox, oy) = render_offset(1_000_000, 0, 0, 0, 450, 384);
    assert_eq!((ox, oy), (384, 0));
}

#[test]
fn offset_magnitude_bounded_for_far_targets() {
    // Pupil travel never exceeds the configured radius, however far the
    // smoothed point is off the canvas and in any direction.
    let cases = [
        (1_000_000i64, 1_000_000i64),
        (-1_000_000, 999_999),
        (1_000_000, -3),
        (0, -1_000_000),
        (123_456, 654_321),
        (451, 0),
        (-300, 300),
    ];
    for (px, py) in cases {
        let (ox, oy) = render_offset(px, py, 0, 0, 450, 384);
        assert!(ox * ox + oy * oy <= 384 * 384, "offset ({ox},{oy}) escapes for ({px},{py})");
    }
}

#[test]
fn offset_scales_within_span() {
    // At half the reference span the pupil sits at half its maximum travel.
    let (ox, oy) = render_offset(225, 0, 0, 0, 450, 384);
    assert_eq!(oy, 0);
    assert_eq!(ox, 384 * 225 / 450);
}

#[test]
fn centered_gaze_gives_no_offset() {
    let (ox, oy) = render_offset(42, -7, 42, -7, 450, 384);
    assert_eq!((ox, oy), (0, 0));
}
