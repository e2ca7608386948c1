//! Short-lived pixel effects: a particle integrates its own velocity, may be
//! anchored to the scrolling world, and dies when its lifetime runs out or it
//! leaves the one-pixel-inset screen bounds.

use vstd::prelude::*;
use crate::fx::{
    abs_i, clamp_i, fx_mul_i, fx_mul, add_clamp, lemma_fx_mul_abs_le, SCALE, CFG_MAX, DT_MAX,
    VEL_CAP, POS_CAP, OSC_CAP,
};
use crate::geom::{Vec2, SIZE_W_FX, SIZE_H_FX};
use crate::rng::random_fx;

verus! {

/// The palette the renderer draws particles and terrain in.
#[derive(Clone, Copy, PartialEq, Eq, Structural, Debug)]
pub enum Color {
    White,
    Brown,
    Green,
    DarkGreen,
    SkyBlue,
    LightGreen,
}

/// One particle.
#[derive(Clone, Copy, PartialEq, Eq, Structural, Debug)]
pub struct Particle {
    pub pos: Vec2,
    pub vel: Vec2,
    pub color: Color,
    /// When set, the particle is anchored to the scrolling world rather than
    /// to the screen: the player's velocity is subtracted from its motion.
    pub affected_by_world: bool,
    /// Remaining lifetime, in seconds.
    pub life: i64,
}

impl Particle {
    /// All quantities within the representable range.
    pub open spec fn wf(self) -> bool {
        &&& self.pos.bounded(POS_CAP as int)
        &&& self.vel.bounded(VEL_CAP as int)
        &&& abs_i(self.life as int) <= OSC_CAP
    }

    /// The particle is inside the one-pixel-inset screen bounds and has
    /// lifetime left.
    pub open spec fn alive(self) -> bool {
        &&& self.pos.x >= SCALE
        &&& self.pos.y >= SCALE
        &&& self.pos.x < SIZE_W_FX - SCALE
        &&& self.pos.y < SIZE_H_FX - SCALE
        &&& self.life > 0
    }

    /// Create a particle, perturbing the given velocity by an independent
    /// uniform jitter in `[-force, force]` on each axis.
    pub fn new(
        pos: Vec2,
        vel: Vec2,
        force: i64,
        color: Color,
        affected_by_world: bool,
        life: i64,
    ) -> (r: Particle)
        requires
            pos.bounded(POS_CAP as int),
            vel.bounded(0x100000000000000),
            0 <= force <= CFG_MAX,
            abs_i(life as int) <= CFG_MAX,
        ensures
            r.pos == pos,
            r.color == color,
            r.affected_by_world == affected_by_world,
            r.life == life,
            clamp_i(vel.x - force, -VEL_CAP as int, VEL_CAP as int) <= r.vel.x
                <= clamp_i(vel.x + force, -VEL_CAP as int, VEL_CAP as int),
            clamp_i(vel.y - force, -VEL_CAP as int, VEL_CAP as int) <= r.vel.y
                <= clamp_i(vel.y + force, -VEL_CAP as int, VEL_CAP as int),
            r.wf(),
    {
        let jx: i64 = random_fx(-force, force);
        let jy: i64 = random_fx(-force, force);
        let vx: i64 = add_clamp(vel.x, jx, VEL_CAP);
        let vy: i64 = add_clamp(vel.y, jy, VEL_CAP);
        Particle { pos, vel: Vec2 { x: vx, y: vy }, color, affected_by_world, life }
    }

    /// One tick: integrate position (subtracting the player's motion for
    /// world-anchored particles), pull the velocity down by gravity, spend
    /// `dt` of lifetime. Returns whether the particle is still alive.
    pub fn update(&mut self, player_vel: Vec2, gravity: i64, dt: i64) -> (r: bool)
        requires
            old(self).wf(),
            player_vel.bounded(VEL_CAP as int),
            abs_i(gravity as int) <= CFG_MAX,
            0 <= dt <= DT_MAX,
        ensures
            ({
                let moved = old(self).pos.x + fx_mul_i(old(self).vel.x as int, dt as int)
                    - (if old(self).affected_by_world {
                        fx_mul_i(player_vel.x as int, dt as int)
                    } else {
                        0
                    });
                final(self).pos.x == clamp_i(moved, -POS_CAP as int, POS_CAP as int)
            }),
            ({
                let moved = old(self).pos.y + fx_mul_i(old(self).vel.y as int, dt as int)
                    - (if old(self).affected_by_world {
                        fx_mul_i(player_vel.y as int, dt as int)
                    } else {
                        0
                    });
                final(self).pos.y == clamp_i(moved, -POS_CAP as int, POS_CAP as int)
            }),
            final(self).vel.x == old(self).vel.x,
            final(self).vel.y == clamp_i(
                old(self).vel.y + gravity,
                -VEL_CAP as int,
                VEL_CAP as int,
            ),
            final(self).life == clamp_i(old(self).life - dt, -OSC_CAP as int, OSC_CAP as int),
            final(self).color == old(self).color,
            final(self).affected_by_world == old(self).affected_by_world,
            r == final(self).alive(),
            final(self).wf(),
    {
        proof {
            lemma_fx_mul_abs_le(self.vel.x as int, dt as int, VEL_CAP as int, DT_MAX as int);
            lemma_fx_mul_abs_le(self.vel.y as int, dt as int, VEL_CAP as int, DT_MAX as int);
            lemma_fx_mul_abs_le(player_vel.x as int, dt as int, VEL_CAP as int, DT_MAX as int);
            lemma_fx_mul_abs_le(player_vel.y as int, dt as int, VEL_CAP as int, DT_MAX as int);
        }
        let dx: i64 = fx_mul(self.vel.x, dt);
        let dy: i64 = fx_mul(self.vel.y, dt);
        let (wx, wy): (i64, i64) = if self.affected_by_world {
            (fx_mul(player_vel.x, dt), fx_mul(player_vel.y, dt))
        } else {
            (0, 0)
        };
        self.pos.x = add_clamp(self.pos.x, dx - wx, POS_CAP);
        self.pos.y = add_clamp(self.pos.y, dy - wy, POS_CAP);
        self.vel.y = add_clamp(self.vel.y, gravity, VEL_CAP);
        self.life = add_clamp(self.life, -dt, OSC_CAP);

        !(self.pos.x < SCALE || self.pos.y < SCALE || self.pos.x >= SIZE_W_FX - SCALE
            || self.pos.y >= SIZE_H_FX - SCALE) && self.life > 0
    }
}

} // verus!
