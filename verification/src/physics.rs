//! Velocity, the fixed timestep, and reflection of the ball off a struck
//! collider; the per-tick simulation passes over the whole world live in
//! `world`.

use vstd::prelude::*;

use crate::collision::{
    center_inside, classify, collide, overlaps, x_penetration2, x_side, y_penetration2, y_side,
    Collision,
};
use crate::geometry::{div_trunc, div_trunc_i64, Vec2i};
use crate::world::{Entity, World};

verus! {

/// A velocity in world units per second.
#[derive(Clone, Copy, Debug, PartialEq, Eq, Structural)]
pub struct Velocity {
    pub x: i32,
    pub y: i32,
}

/// The fixed simulation timestep, `num / den` seconds per tick.
#[derive(Clone, Copy, Debug, PartialEq, Eq, Structural)]
pub struct TimeStep {
    pub num: i32,
    pub den: i32,
}

impl TimeStep {
    /// A timestep is a non-negative span of time over a positive divisor.
    pub open spec fn wf(self) -> bool {
        0 <= self.num && 0 < self.den
    }

    pub fn new(num: i32, den: i32) -> (dt: TimeStep)
        requires
            0 <= num,
            0 < den,
        ensures
            dt == (TimeStep { num, den }),
            dt.wf(),
    {
        TimeStep { num, den }
    }
}

/// The ball, at `a_pos` with box `a_size`, struck the target's left or right
/// side: the boxes overlap, the ball's center is not inside the target, and
/// the x penetration is minimal; on an exact tie with the y penetration
/// both axes count as struck.
pub open spec fn strikes_x(a_pos: Vec2i, a_size: Vec2i, b_pos: Vec2i, b_size: Vec2i) -> bool {
    &&& overlaps(a_pos, a_size, b_pos, b_size)
    &&& !center_inside(a_pos, b_pos, b_size)
    &&& x_penetration2(a_pos, a_size, b_pos, b_size) <= y_penetration2(a_pos, a_size, b_pos, b_size)
}

/// The ball struck the target's top or bottom side: as `strikes_x`, with the
/// y penetration minimal.
pub open spec fn strikes_y(a_pos: Vec2i, a_size: Vec2i, b_pos: Vec2i, b_size: Vec2i) -> bool {
    &&& overlaps(a_pos, a_size, b_pos, b_size)
    &&& !center_inside(a_pos, b_pos, b_size)
    &&& y_penetration2(a_pos, a_size, b_pos, b_size) <= x_penetration2(a_pos, a_size, b_pos, b_size)
}

/// The directional guard on the x axis: the struck vertical side only
/// reflects a ball still moving toward it, so a `Left` strike needs
/// `v.x > 0` and a `Right` strike needs `v.x < 0`.
pub open spec fn x_guard(v: Velocity, a_pos: Vec2i, b_pos: Vec2i) -> bool {
    if x_side(a_pos, b_pos) == Collision::Left {
        v.x > 0
    } else {
        v.x < 0
    }
}

/// The directional guard on the y axis: a `Top` strike needs `v.y < 0` and a
/// `Bottom` strike needs `v.y > 0`.
pub open spec fn y_guard(v: Velocity, a_pos: Vec2i, b_pos: Vec2i) -> bool {
    if y_side(a_pos, b_pos) == Collision::Top {
        v.y < 0
    } else {
        v.y > 0
    }
}

/// This resolution inverts the x component of the ball's velocity.
pub open spec fn reflects_x(
    v: Velocity,
    a_pos: Vec2i,
    a_size: Vec2i,
    b_pos: Vec2i,
    b_size: Vec2i,
) -> bool {
    strikes_x(a_pos, a_size, b_pos, b_size) && x_guard(v, a_pos, b_pos)
}

/// This resolution inverts the y component of the ball's velocity.
pub open spec fn reflects_y(
    v: Velocity,
    a_pos: Vec2i,
    a_size: Vec2i,
    b_pos: Vec2i,
    b_size: Vec2i,
) -> bool {
    strikes_y(a_pos, a_size, b_pos, b_size) && y_guard(v, a_pos, b_pos)
}

/// The ball's velocity after resolving one overlap: each axis is inverted
/// independently when its side was struck and its guard passes, so a corner
/// hit can flip both in one resolution; an `Inside` classification or a
/// failing guard leaves the component unchanged.
pub open spec fn resolve_one(
    v: Velocity,
    a_pos: Vec2i,
    a_size: Vec2i,
    b_pos: Vec2i,
    b_size: Vec2i,
) -> Velocity {
    Velocity {
        x: if reflects_x(v, a_pos, a_size, b_pos, b_size) {
            (-v.x) as i32
        } else {
            v.x
        },
        y: if reflects_y(v, a_pos, a_size, b_pos, b_size) {
            (-v.y) as i32
        } else {
            v.y
        },
    }
}

/// Reflect the ball's velocity off one overlapping collider, per the struck
/// sides and directional guards.
pub fn reflect_ball(v: Velocity, a_pos: Vec2i, a_size: Vec2i, b_pos: Vec2i, b_size: Vec2i) -> (r:
    Velocity)
    requires
        v.x != i32::MIN,
        v.y != i32::MIN,
    ensures
        r == resolve_one(v, a_pos, a_size, b_pos, b_size),
        r.x == v.x || r.x == -v.x,
        r.y == v.y || r.y == -v.y,
{
    let dx2: i64 = 2 * abs_diff_i64(a_pos.x, b_pos.x);
    let dy2: i64 = 2 * abs_diff_i64(a_pos.y, b_pos.y);
    let wsum: i64 = a_size.x as i64 + b_size.x as i64;
    let hsum: i64 = a_size.y as i64 + b_size.y as i64;
    let overlapping: bool = dx2 < wsum && dy2 < hsum;
    let inside: bool = dx2 < b_size.x as i64 && dy2 < b_size.y as i64;
    let x_pen: i64 = wsum - dx2;
    let y_pen: i64 = hsum - dy2;
    let mut out: Velocity = v;
    if overlapping && !inside {
        if x_pen <= y_pen {
            let toward: bool = if a_pos.x <= b_pos.x {
                v.x > 0
            } else {
                v.x < 0
            };
            if toward {
                out.x = -v.x;
            }
        }
        if y_pen <= x_pen {
            let toward: bool = if a_pos.y >= b_pos.y {
                v.y < 0
            } else {
                v.y > 0
            };
            if toward {
                out.y = -v.y;
            }
        }
    }
    out
}

/// Absolute difference of two coordinates, widened so nothing overflows.
fn abs_diff_i64(a: i32, b: i32) -> (r: i64)
    ensures
        r == vstd::math::abs(a - b),
{
    let d: i64 = a as i64 - b as i64;
    if d < 0 {
        -d
    } else {
        d
    }
}

/// No double reflection: a ball already moving away from the struck side
/// keeps its velocity component. Stated for a `Left` strike with
/// `v.x` already negative; the guard blocks the inversion.
pub proof fn lemma_no_double_reflection(
    v: Velocity,
    a_pos: Vec2i,
    a_size: Vec2i,
    b_pos: Vec2i,
    b_size: Vec2i,
)
    requires
        classify(a_pos, a_size, b_pos, b_size) == Some(Collision::Left),
        v.x < 0,
    ensures
        resolve_one(v, a_pos, a_size, b_pos, b_size).x == v.x,
{
}

/// Corner hit: when the x and y penetrations are both minimal (an exact tie)
/// and both directional guards pass, one resolution inverts both velocity
/// components.
pub proof fn lemma_corner_hit(
    v: Velocity,
    a_pos: Vec2i,
    a_size: Vec2i,
    b_pos: Vec2i,
    b_size: Vec2i,
)
    requires
        overlaps(a_pos, a_size, b_pos, b_size),
        !center_inside(a_pos, b_pos, b_size),
        x_penetration2(a_pos, a_size, b_pos, b_size) == y_penetration2(a_pos, a_size, b_pos, b_size),
        x_guard(v, a_pos, b_pos),
        y_guard(v, a_pos, b_pos),
        i32::MIN < v.x,
        i32::MIN < v.y,
    ensures
        resolve_one(v, a_pos, a_size, b_pos, b_size) == (Velocity {
            x: (-v.x) as i32,
            y: (-v.y) as i32,
        }),
        resolve_one(v, a_pos, a_size, b_pos, b_size).x == -v.x,
        resolve_one(v, a_pos, a_size, b_pos, b_size).y == -v.y,
{
}

/// How far an entity moving at `v` units per second travels in one tick,
/// with sub-unit remainders truncated toward zero.
pub open spec fn vel_delta(v: int, dt: TimeStep) -> int {
    div_trunc(v * dt.num, dt.den as int)
}

/// The integrator moves each entity carrying a velocity by
/// `velocity * timestep`, independently per axis, and leaves the rest alone.
pub open spec fn integrated(e: Entity, dt: TimeStep) -> Entity {
    match e.vel {
        Some(v) => Entity {
            pos: Vec2i {
                x: (e.pos.x + vel_delta(v.x as int, dt)) as i32,
                y: (e.pos.y + vel_delta(v.y as int, dt)) as i32,
            },
            ..e
        },
        None => e,
    }
}

/// The positions this entity reaches after one tick stay representable.
pub open spec fn integrate_fits(e: Entity, dt: TimeStep) -> bool {
    e.vel is Some ==> {
        let v = e.vel.unwrap();
        &&& i32::MIN <= e.pos.x + vel_delta(v.x as int, dt) <= i32::MAX
        &&& i32::MIN <= e.pos.y + vel_delta(v.y as int, dt) <= i32::MAX
    }
}

/// Advance every entity that carries both a position and a velocity by
/// `velocity * timestep`; run once per fixed tick, before collision
/// resolution.
pub fn apply_velocity(w: &mut World, dt: TimeStep)
    requires
        dt.wf(),
        forall|i: int|
            0 <= i < old(w).entities@.len() ==> integrate_fits(#[trigger] old(w).entities@[i], dt),
    ensures
        final(w).entities@.len() == old(w).entities@.len(),
        forall|i: int|
            0 <= i < old(w).entities@.len() ==> final(w).entities@[i] == integrated(
                #[trigger] old(w).entities@[i],
                dt,
            ),
        final(w).ball == old(w).ball,
        final(w).paddle == old(w).paddle,
        final(w).scoreboard == old(w).scoreboard,
        final(w).collision_event == old(w).collision_event,
        old(w).wf() ==> final(w).wf(),
{
    let n = w.entities.len();
    let mut i: usize = 0;
    while i < n
        invariant
            dt.wf(),
            n == w.entities@.len() == old(w).entities@.len(),
            i <= n,
            forall|k: int|
                0 <= k < n ==> integrate_fits(#[trigger] old(w).entities@[k], dt),
            forall|k: int|
                0 <= k < i ==> w.entities@[k] == integrated(#[trigger] old(w).entities@[k], dt),
            forall|k: int| i <= k < n ==> w.entities@[k] == old(w).entities@[k],
            w.ball == old(w).ball,
            w.paddle == old(w).paddle,
            w.scoreboard == old(w).scoreboard,
            w.collision_event == old(w).collision_event,
        decreases n - i,
    {
        let e = w.entities[i];
        match e.vel {
            Some(v) => {
                proof {
                    assert((v.x as i64) * (dt.num as i64) < 0x4000_0000_0000_0000 && -0x4000_0000_0000_0000
                        < (v.x as i64) * (dt.num as i64)) by (nonlinear_arith)
                        requires
                            -0x8000_0000 <= v.x as i64 <= 0x7fff_ffff,
                            0 <= dt.num as i64 <= 0x7fff_ffff,
                    ;
                    assert((v.y as i64) * (dt.num as i64) < 0x4000_0000_0000_0000 && -0x4000_0000_0000_0000
                        < (v.y as i64) * (dt.num as i64)) by (nonlinear_arith)
                        requires
                            -0x8000_0000 <= v.y as i64 <= 0x7fff_ffff,
                            0 <= dt.num as i64 <= 0x7fff_ffff,
                    ;
                }
                let dx: i64 = div_trunc_i64((v.x as i64) * (dt.num as i64), dt.den as i64);
                let dy: i64 = div_trunc_i64((v.y as i64) * (dt.num as i64), dt.den as i64);
                let nx: i64 = e.pos.x as i64 + dx;
                let ny: i64 = e.pos.y as i64 + dy;
                let moved = Entity { pos: Vec2i { x: nx as i32, y: ny as i32 }, ..e };
                w.entities.set(i, moved);
            },
            None => {},
        }
        i = i + 1;
    }
}

/// The ball overlaps this live collider.
pub open spec fn hits(ball: Entity, e: Entity) -> bool {
    e.alive && e.collider && overlaps(ball.pos, ball.size, e.pos, e.size)
}

/// How many of the first `n` entities the ball hits this tick.
pub open spec fn hit_count(ball: Entity, es: Seq<Entity>, n: int) -> int
    decreases n,
{
    if n <= 0 {
        0
    } else {
        hit_count(ball, es, n - 1) + if hits(ball, es[n - 1]) {
            1int
        } else {
            0int
        }
    }
}

/// How many of the first `n` entities are bricks the ball hits this tick.
pub open spec fn brick_hit_count(ball: Entity, es: Seq<Entity>, n: int) -> int
    decreases n,
{
    if n <= 0 {
        0
    } else {
        brick_hit_count(ball, es, n - 1) + if hits(ball, es[n - 1]) && es[n - 1].brick {
            1int
        } else {
            0int
        }
    }
}

/// The ball hits at least one of the first `n` entities this tick.
pub open spec fn any_hit(ball: Entity, es: Seq<Entity>, n: int) -> bool
    decreases n,
{
    if n <= 0 {
        false
    } else {
        any_hit(ball, es, n - 1) || hits(ball, es[n - 1])
    }
}

/// The ball's velocity after resolving, in registry order, every hit among
/// the first `n` entities.
pub open spec fn vel_after(ball: Entity, es: Seq<Entity>, n: int) -> Velocity
    decreases n,
{
    if n <= 0 {
        ball.vel.unwrap()
    } else {
        let v = vel_after(ball, es, n - 1);
        if hits(ball, es[n - 1]) {
            resolve_one(v, ball.pos, ball.size, es[n - 1].pos, es[n - 1].size)
        } else {
            v
        }
    }
}

/// The score never goes down: a resolution pass adds a non-negative count.
pub proof fn lemma_brick_hit_count_nonneg(ball: Entity, es: Seq<Entity>, n: int)
    ensures
        0 <= brick_hit_count(ball, es, n),
        brick_hit_count(ball, es, n) <= hit_count(ball, es, n),
    decreases n,
{
    if n > 0 {
        lemma_brick_hit_count_nonneg(ball, es, n - 1);
    }
}

/// One fixed-tick resolution pass: test the ball against every collider in
/// registry order; on each overlap raise the collision event, score and
/// despawn the collider if it is a brick, and reflect the ball's velocity by
/// the struck sides and directional guards.
pub fn check_for_collisions(w: &mut World)
    requires
        old(w).wf(),
        old(w).scoreboard.score + old(w).entities@.len() <= usize::MAX,
    ensures
        final(w).wf(),
        final(w).ball == old(w).ball,
        final(w).paddle == old(w).paddle,
        final(w).entities@.len() == old(w).entities@.len(),
        forall|i: int|
            0 <= i < old(w).entities@.len() && i != old(w).ball ==> final(w).entities@[i] == (
            if hits(old(w).ball_entity(), #[trigger] old(w).entities@[i]) && old(
                w,
            ).entities@[i].brick {
                Entity { alive: false, ..old(w).entities@[i] }
            } else {
                old(w).entities@[i]
            }),
        final(w).entities@[old(w).ball as int] == (Entity {
            vel: Some(
                vel_after(old(w).ball_entity(), old(w).entities@, old(w).entities@.len() as int),
            ),
            ..old(w).ball_entity()
        }),
        final(w).scoreboard.score == old(w).scoreboard.score + brick_hit_count(
            old(w).ball_entity(),
            old(w).entities@,
            old(w).entities@.len() as int,
        ),
        final(w).collision_event == (old(w).collision_event || any_hit(
            old(w).ball_entity(),
            old(w).entities@,
            old(w).entities@.len() as int,
        )),
{
    let ball_idx = w.ball;
    let b = w.entities[ball_idx];
    let ball_pos = b.pos;
    let ball_size = b.size;
    let mut vel = match b.vel {
        Some(v) => v,
        None => Velocity { x: 0, y: 0 },
    };
    let n = w.entities.len();
    let mut i: usize = 0;
    while i < n
        invariant
            old(w).wf(),
            old(w).scoreboard.score + n <= usize::MAX,
            n == w.entities@.len() == old(w).entities@.len(),
            i <= n,
            ball_idx == w.ball == old(w).ball,
            w.paddle == old(w).paddle,
            b == old(w).ball_entity(),
            ball_pos == b.pos,
            ball_size == b.size,
            forall|k: int|
                0 <= k < i && k != ball_idx ==> w.entities@[k] == (if hits(
                    b,
                    #[trigger] old(w).entities@[k],
                ) && old(w).entities@[k].brick {
                    Entity { alive: false, ..old(w).entities@[k] }
                } else {
                    old(w).entities@[k]
                }),
            forall|k: int|
                0 <= k < n && (i <= k || k == ball_idx) ==> w.entities@[k] == old(w).entities@[k],
            vel == vel_after(b, old(w).entities@, i as int),
            i32::MIN < vel.x,
            i32::MIN < vel.y,
            w.scoreboard.score == old(w).scoreboard.score + brick_hit_count(
                b,
                old(w).entities@,
                i as int,
            ),
            w.scoreboard.score <= old(w).scoreboard.score + i,
            w.collision_event == (old(w).collision_event || any_hit(b, old(w).entities@, i as int)),
        decreases n - i,
    {
        let e = w.entities[i];
        if e.alive && e.collider {
            match collide(ball_pos, ball_size, e.pos, e.size) {
                Some(_) => {
                    // A collision happened this tick: signal the reactors.
                    w.collision_event = true;
                    // Bricks score and despawn; walls and the paddle stay.
                    if e.brick {
                        w.scoreboard.increment();
                        w.entities.set(i, Entity { alive: false, ..e });
                    }
                    // Reflect the ball off the struck sides.
                    vel = reflect_ball(vel, ball_pos, ball_size, e.pos, e.size);
                },
                None => {},
            }
        }
        i = i + 1;
    }
    let mut nb = b;
    nb.vel = Some(vel);
    w.entities.set(ball_idx, nb);
}

/// The sound reaction's read of the per-tick event: report whether any
/// collision was signalled this tick, and clear the signal unconditionally,
/// so at most one reaction fires per tick however many collisions occurred.
pub fn play_collision_sound(w: &mut World) -> (play: bool)
    ensures
        play == old(w).collision_event,
        !final(w).collision_event,
        final(w).entities@ == old(w).entities@,
        final(w).ball == old(w).ball,
        final(w).paddle == old(w).paddle,
        final(w).scoreboard == old(w).scoreboard,
        old(w).wf() ==> final(w).wf(),
{
    let play = w.collision_event;
    w.collision_event = false;
    play
}

} // verus!
