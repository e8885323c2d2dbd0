//! The simulation world: a registry of entities under stable handles, the
//! scoreboard, and the per-tick collision-event flag, with the fixed-tick
//! driver that runs integration, paddle motion, resolution and the sound
//! reaction in order.

use vstd::prelude::*;

use crate::geometry::Vec2i;
use crate::paddle::{move_paddle, paddle_target};
use crate::physics::{
    any_hit, apply_velocity, brick_hit_count, check_for_collisions, hits, integrate_fits,
    integrated, lemma_brick_hit_count_nonneg, play_collision_sound, vel_after, TimeStep, Velocity,
};
use crate::ui::ScoreBoard;

verus! {

/// One entity of the registry: a centered box, an optional velocity, and the
/// capability flags that stand in for the engine's component tags.
///
/// `collider` marks walls, the paddle and bricks; `brick` marks the
/// destructible ones; a despawned entity keeps its slot with `alive` false,
/// so handles stay stable.
#[derive(Clone, Copy, Debug, PartialEq)]
pub struct Entity {
    pub pos: Vec2i,
    pub size: Vec2i,
    pub vel: Option<Velocity>,
    pub collider: bool,
    pub brick: bool,
    pub alive: bool,
}

/// The whole simulation state, passed explicitly into each tick pass.
pub struct World {
    pub entities: Vec<Entity>,
    /// Handle of the single ball.
    pub ball: usize,
    /// Handle of the paddle.
    pub paddle: usize,
    pub scoreboard: ScoreBoard,
    /// The per-tick signal that some collision happened; cleared
    /// unconditionally when the sound reaction runs at end of tick.
    pub collision_event: bool,
}

impl World {
    pub open spec fn ball_entity(self) -> Entity {
        self.entities[self.ball as int]
    }

    pub open spec fn paddle_entity(self) -> Entity {
        self.entities[self.paddle as int]
    }

    pub open spec fn ball_vel(self) -> Velocity {
        self.ball_entity().vel.unwrap()
    }

    /// Well-formedness: the ball handle names a live, non-collider entity
    /// carrying a velocity whose components can be negated, and the paddle
    /// handle names a non-destructible collider that the integrator does not
    /// move.
    pub open spec fn wf(self) -> bool {
        &&& self.ball < self.entities.len()
        &&& self.paddle < self.entities.len()
        &&& self.ball_entity().alive
        &&& self.ball_entity().vel is Some
        &&& !self.ball_entity().collider
        &&& i32::MIN < self.ball_vel().x
        &&& i32::MIN < self.ball_vel().y
        &&& self.paddle_entity().collider
        &&& !self.paddle_entity().brick
        &&& self.paddle_entity().vel is None
    }

    /// A fresh world holding exactly the ball (handle 0) and the paddle
    /// (handle 1), with the score at zero and no pending event.
    pub fn new(
        ball_pos: Vec2i,
        ball_size: Vec2i,
        ball_vel: Velocity,
        paddle_pos: Vec2i,
        paddle_size: Vec2i,
    ) -> (w: World)
        requires
            i32::MIN < ball_vel.x,
            i32::MIN < ball_vel.y,
        ensures
            w.wf(),
            w.ball == 0,
            w.paddle == 1,
            w.entities@.len() == 2,
            w.entities@[0] == (Entity {
                pos: ball_pos,
                size: ball_size,
                vel: Some(ball_vel),
                collider: false,
                brick: false,
                alive: true,
            }),
            w.entities@[1] == (Entity {
                pos: paddle_pos,
                size: paddle_size,
                vel: None,
                collider: true,
                brick: false,
                alive: true,
            }),
            w.scoreboard.score == 0,
            !w.collision_event,
    {
        let mut entities: Vec<Entity> = Vec::new();
        entities.push(
            Entity {
                pos: ball_pos,
                size: ball_size,
                vel: Some(ball_vel),
                collider: false,
                brick: false,
                alive: true,
            },
        );
        entities.push(
            Entity {
                pos: paddle_pos,
                size: paddle_size,
                vel: None,
                collider: true,
                brick: false,
                alive: true,
            },
        );
        World { entities, ball: 0, paddle: 1, scoreboard: ScoreBoard::new(), collision_event: false }
    }

    /// Spawn a static collider (a wall, or a destructible brick) and return
    /// its handle.
    pub fn spawn_collider(&mut self, pos: Vec2i, size: Vec2i, brick: bool) -> (h: usize)
        requires
            old(self).wf(),
        ensures
            final(self).wf(),
            h == old(self).entities@.len(),
            final(self).entities@ == old(self).entities@.push(
                Entity { pos, size, vel: None, collider: true, brick, alive: true },
            ),
            final(self).ball == old(self).ball,
            final(self).paddle == old(self).paddle,
            final(self).scoreboard == old(self).scoreboard,
            final(self).collision_event == old(self).collision_event,
    {
        let h = self.entities.len();
        self.entities.push(Entity { pos, size, vel: None, collider: true, brick, alive: true });
        h
    }
}

/// Every entity after one integration pass.
pub open spec fn integrated_seq(es: Seq<Entity>, dt: TimeStep) -> Seq<Entity> {
    es.map(|i: int, e: Entity| integrated(e, dt))
}

/// The registry after the paddle's per-tick move.
pub open spec fn paddle_moved_seq(
    es: Seq<Entity>,
    paddle: int,
    direction: int,
    dt: TimeStep,
) -> Seq<Entity> {
    es.update(
        paddle,
        Entity {
            pos: Vec2i {
                x: paddle_target(es[paddle].pos.x as int, direction, dt) as i32,
                y: es[paddle].pos.y,
            },
            ..es[paddle]
        },
    )
}

/// The registry after one resolution pass: the ball carries its folded
/// reflected velocity, hit bricks are despawned, everything else stays.
pub open spec fn resolved_seq(es: Seq<Entity>, ball: int) -> Seq<Entity> {
    es.map(
        |i: int, e: Entity|
            if i == ball {
                Entity { vel: Some(vel_after(es[ball], es, es.len() as int)), ..e }
            } else if hits(es[ball], e) && e.brick {
                Entity { alive: false, ..e }
            } else {
                e
            },
    )
}

/// One fixed tick, in the mandated order: integrate, move the paddle,
/// resolve collisions, then run the sound reaction, which reports whether a
/// collision was signalled and clears the signal. However many collisions
/// the tick saw, at most one reaction fires, and the event flag is clear
/// when the next tick starts.
pub fn tick(w: &mut World, dt: TimeStep, paddle_direction: i32) -> (play_sound: bool)
    requires
        old(w).wf(),
        dt.wf(),
        -1 <= paddle_direction <= 1,
        forall|i: int|
            0 <= i < old(w).entities@.len() ==> integrate_fits(#[trigger] old(w).entities@[i], dt),
        old(w).scoreboard.score + old(w).entities@.len() <= usize::MAX,
    ensures
        final(w).wf(),
        final(w).ball == old(w).ball,
        final(w).paddle == old(w).paddle,
        ({
            let es2 = paddle_moved_seq(
                integrated_seq(old(w).entities@, dt),
                old(w).paddle as int,
                paddle_direction as int,
                dt,
            );
            let ball = old(w).ball as int;
            &&& final(w).entities@ == resolved_seq(es2, ball)
            &&& final(w).scoreboard.score == old(w).scoreboard.score + brick_hit_count(
                es2[ball],
                es2,
                es2.len() as int,
            )
            &&& play_sound == (old(w).collision_event || any_hit(es2[ball], es2, es2.len() as int))
        }),
        !final(w).collision_event,
        old(w).scoreboard.score <= final(w).scoreboard.score,
{
    let ghost ball = old(w).ball as int;
    apply_velocity(w, dt);
    proof {
        assert(w.entities@ =~= integrated_seq(old(w).entities@, dt));
    }
    let pi = w.paddle;
    let pe = w.entities[pi];
    let nx = move_paddle(pe.pos.x, paddle_direction, dt);
    w.entities.set(pi, Entity { pos: Vec2i { x: nx, y: pe.pos.y }, ..pe });
    let ghost es2 = paddle_moved_seq(
        integrated_seq(old(w).entities@, dt),
        old(w).paddle as int,
        paddle_direction as int,
        dt,
    );
    proof {
        assert(w.entities@ =~= es2);
        // The ball is not the paddle: only the paddle is a collider of the two.
        assert(w.ball != w.paddle);
        assert(w.wf());
    }
    let ghost before_resolve = *w;
    check_for_collisions(w);
    let play = play_collision_sound(w);
    proof {
        assert(before_resolve.ball_entity() == es2[ball]);
        assert(w.entities@ =~= resolved_seq(es2, ball));
        lemma_brick_hit_count_nonneg(es2[ball], es2, es2.len() as int);
    }
    play
}

/// Every brick the ball hits in a resolution pass is absent from the
/// registry afterward.
pub proof fn lemma_hit_bricks_absent(es: Seq<Entity>, ball: int, i: int)
    requires
        0 <= i < es.len(),
        i != ball,
        es[i].brick,
        hits(es[ball], es[i]),
    ensures
        !resolved_seq(es, ball)[i].alive,
{
}

} // verus!
