use breakout_core::geometry::Vec2i;
use breakout_core::physics::{
    apply_velocity, check_for_collisions, play_collision_sound, TimeStep, Velocity,
};
use breakout_core::world::{tick, World};

fn v2(x: i32, y: i32) -> Vec2i {
    Vec2i { x, y }
}

fn small_world(ball_vel: Velocity) -> World {
    // Ball at the origin, paddle far away at the bottom.
    World::new(v2(0, 0), v2(20, 20), ball_vel, v2(500, -338), v2(120, 20))
}

#[test]
fn integration_moves_by_velocity_times_timestep() {
    let mut w = small_world(Velocity { x: 600, y: -120 });
    apply_velocity(&mut w, TimeStep::new(1, 60));
    assert_eq!(w.entities[0].pos, v2(10, -2));
    // The paddle carries no velocity and does not move.
    assert_eq!(w.entities[1].pos, v2(500, -338));
}

#[test]
fn integration_truncates_subunit_motion_toward_zero() {
    let mut w = small_world(Velocity { x: -50, y: 50 });
    apply_velocity(&mut w, TimeStep::new(1, 60));
    // -50/60 and 50/60 both truncate to zero, symmetrically.
    assert_eq!(w.entities[0].pos, v2(0, 0));
}

#[test]
fn three_brick_hits_score_three_and_despawn() {
    let mut w = small_world(Velocity { x: 5, y: 5 });
    let b1 = w.spawn_collider(v2(5, 0), v2(10, 10), true);
    let b2 = w.spawn_collider(v2(-5, 0), v2(10, 10), true);
    let wall = w.spawn_collider(v2(0, 300), v2(1200, 4), false);
    let b3 = w.spawn_collider(v2(0, -5), v2(10, 10), true);
    let far = w.spawn_collider(v2(400, 400), v2(10, 10), true);
    check_for_collisions(&mut w);
    assert_eq!(w.scoreboard.current(), 3);
    assert!(!w.entities[b1].alive);
    assert!(!w.entities[b2].alive);
    assert!(!w.entities[b3].alive);
    // A wall survives its collision test; an unreached brick survives too.
    assert!(w.entities[wall].alive);
    assert!(w.entities[far].alive);
    assert!(w.collision_event);
}

#[test]
fn non_brick_collisions_do_not_score() {
    let mut w = small_world(Velocity { x: 5, y: 5 });
    w.spawn_collider(v2(5, 0), v2(10, 10), false);
    check_for_collisions(&mut w);
    assert_eq!(w.scoreboard.current(), 0);
    assert!(w.collision_event);
}

#[test]
fn tick_reacts_at_most_once_and_clears_the_event() {
    let mut w = small_world(Velocity { x: 60, y: 0 });
    // Several overlapping bricks: many collisions within the one tick.
    w.spawn_collider(v2(4, 0), v2(10, 10), true);
    w.spawn_collider(v2(-4, 0), v2(10, 10), true);
    w.spawn_collider(v2(0, 4), v2(10, 10), true);
    let played = tick(&mut w, TimeStep::new(1, 60), 0);
    assert!(played);
    assert!(!w.collision_event);
    assert_eq!(w.scoreboard.current(), 3);
    // Next tick: nothing left to hit, so no reaction fires.
    let played_again = tick(&mut w, TimeStep::new(1, 60), 0);
    assert!(!played_again);
    assert!(!w.collision_event);
    assert_eq!(w.scoreboard.current(), 3);
}

#[test]
fn tick_runs_integration_before_resolution() {
    // The ball starts clear of the brick and only overlaps it once the
    // tick's own integration has moved it.
    let mut w = small_world(Velocity { x: 600, y: 0 });
    let b = w.spawn_collider(v2(24, 0), v2(10, 10), true);
    let played = tick(&mut w, TimeStep::new(1, 60), 0);
    assert!(played);
    assert_eq!(w.entities[0].pos, v2(10, 0));
    assert!(!w.entities[b].alive);
    assert_eq!(w.scoreboard.current(), 1);
    // The resolver saw the brick on the ball's right: x velocity inverted.
    assert_eq!(w.entities[0].vel, Some(Velocity { x: -600, y: 0 }));
}

#[test]
fn tick_moves_the_paddle_with_the_direction_key() {
    let mut w = small_world(Velocity { x: 0, y: 0 });
    let played = tick(&mut w, TimeStep::new(1, 60), -1);
    assert!(!played);
    assert_eq!(w.entities[1].pos, v2(485, -338));
}

#[test]
fn paddle_moves_before_the_resolver_samples_positions() {
    // The ball overlaps the paddle only at the paddle's post-move position,
    // so a collision this tick shows the mandated in-tick ordering.
    let mut w = World::new(
        v2(130, -338),
        v2(20, 20),
        Velocity { x: 0, y: 0 },
        v2(200, -338),
        v2(120, 20),
    );
    let played = tick(&mut w, TimeStep::new(1, 60), -1);
    assert_eq!(w.entities[1].pos, v2(185, -338));
    assert!(played);
}

#[test]
fn despawned_bricks_stay_absent() {
    let mut w = small_world(Velocity { x: 5, y: 5 });
    let b = w.spawn_collider(v2(5, 0), v2(10, 10), true);
    check_for_collisions(&mut w);
    assert!(!w.entities[b].alive);
    let _ = play_collision_sound(&mut w);
    // The dead brick neither scores nor revives on later passes.
    check_for_collisions(&mut w);
    assert_eq!(w.scoreboard.current(), 1);
    assert!(!w.entities[b].alive);
    assert!(!w.collision_event);
}

#[test]
fn spawn_returns_stable_handles() {
    let mut w = small_world(Velocity { x: 1, y: 1 });
    let h2 = w.spawn_collider(v2(100, 100), v2(10, 10), false);
    let h3 = w.spawn_collider(v2(200, 200), v2(10, 10), true);
    assert_eq!(h2, 2);
    assert_eq!(h3, 3);
    assert_eq!(w.entities[h3].pos, v2(200, 200));
    assert!(w.entities[h3].brick);
    assert!(!w.entities[h2].brick);
}
