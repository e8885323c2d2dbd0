use breakout_core::collision::{collide, Collision};
use breakout_core::geometry::Vec2i;
use breakout_core::physics::{reflect_ball, Velocity};
use breakout_core::wall::WallLocation;

fn v2(x: i32, y: i32) -> Vec2i {
    Vec2i { x, y }
}

#[test]
fn ball_above_wide_target_strikes_top() {
    // A ball centered at (0, 10), 20 by 20, against a 100 by 10 target at
    // the origin: approaching from above, the struck side is the top.
    let r = collide(v2(0, 10), v2(20, 20), v2(0, 0), v2(100, 10));
    assert_eq!(r, Some(Collision::Top));
}

#[test]
fn separated_boxes_do_not_collide() {
    assert_eq!(collide(v2(0, 100), v2(20, 20), v2(0, 0), v2(100, 10)), None);
    // Touching edges (distance exactly half the summed sizes) do not count
    // as overlap: the test is strict.
    assert_eq!(collide(v2(0, 15), v2(20, 20), v2(0, 0), v2(100, 10)), None);
}

#[test]
fn overlap_is_symmetric_on_sample_pairs() {
    let pairs = [
        (v2(0, 10), v2(20, 20), v2(0, 0), v2(100, 10)),
        (v2(5, 5), v2(2, 2), v2(0, 0), v2(8, 8)),
        (v2(300, -40), v2(30, 30), v2(0, 0), v2(10, 10)),
        (v2(-3, 0), v2(4, 4), v2(0, 0), v2(4, 4)),
    ];
    for (ap, asz, bp, bsz) in pairs {
        assert_eq!(
            collide(ap, asz, bp, bsz).is_some(),
            collide(bp, bsz, ap, asz).is_some()
        );
    }
}

#[test]
fn center_inside_target_classifies_inside() {
    let r = collide(v2(1, -2), v2(2, 2), v2(0, 0), v2(100, 100));
    assert_eq!(r, Some(Collision::Inside));
}

#[test]
fn sides_classify_by_smallest_penetration() {
    // Ball poking in from the left of a square target.
    assert_eq!(
        collide(v2(-3, 0), v2(4, 4), v2(0, 0), v2(4, 4)),
        Some(Collision::Left)
    );
    // From the right.
    assert_eq!(
        collide(v2(3, 0), v2(4, 4), v2(0, 0), v2(4, 4)),
        Some(Collision::Right)
    );
    // From below.
    assert_eq!(
        collide(v2(0, -3), v2(4, 4), v2(0, 0), v2(4, 4)),
        Some(Collision::Bottom)
    );
}

#[test]
fn exact_corner_tie_classifies_as_x_side() {
    // Equal x and y penetration: the single-side probe reports the x side.
    assert_eq!(
        collide(v2(3, 3), v2(4, 4), v2(0, 0), v2(4, 4)),
        Some(Collision::Right)
    );
}

#[test]
fn left_strike_with_receding_ball_keeps_velocity() {
    // Struck side is the target's left, but the ball already moves away
    // (negative x velocity): the guard prevents a double reflection.
    let v = Velocity { x: -5, y: 3 };
    let r = reflect_ball(v, v2(-3, 0), v2(4, 4), v2(0, 0), v2(4, 4));
    assert_eq!(r, v);
}

#[test]
fn left_strike_with_approaching_ball_inverts_x() {
    let v = Velocity { x: 5, y: 3 };
    let r = reflect_ball(v, v2(-3, 0), v2(4, 4), v2(0, 0), v2(4, 4));
    assert_eq!(r, Velocity { x: -5, y: 3 });
}

#[test]
fn corner_hit_inverts_both_components() {
    // X and y penetrations tie and both guards pass: both components flip
    // in one resolution.
    let v = Velocity { x: -7, y: -9 };
    let r = reflect_ball(v, v2(3, 3), v2(4, 4), v2(0, 0), v2(4, 4));
    assert_eq!(r, Velocity { x: 7, y: 9 });
}

#[test]
fn inside_classification_applies_no_reflection() {
    let v = Velocity { x: 4, y: -4 };
    let r = reflect_ball(v, v2(1, -2), v2(2, 2), v2(0, 0), v2(100, 100));
    assert_eq!(r, v);
}

#[test]
fn falling_ball_bounces_off_bottom_wall() {
    // A ball falling at (0, -500) overlapping the bottom wall has its
    // vertical velocity inverted to +500 by the directional guard.
    let wall = WallLocation::Bottom;
    let v = Velocity { x: 0, y: -500 };
    let r = reflect_ball(v, v2(0, -390), v2(20, 20), wall.position(), wall.size());
    assert_eq!(r, Velocity { x: 0, y: 500 });
}
