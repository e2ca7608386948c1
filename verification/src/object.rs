//! Parallax-scrolling world objects: trees, clouds, rocks and disk pickups.
//!
//! An object either scrolls against the player's velocity, scaled by its
//! parallax factor, or is pinned on an axis-locked offset of the player's
//! frame of reference. One that scrolls past the left screen edge respawns
//! ahead of the player, outside the visible frame, at a randomized distance.

use vstd::prelude::*;
use crate::fx::{
    abs_i, clamp_i, fx_mul_i, fx_mul, add_clamp, abs64, cos_fx, sin_fx, lemma_fx_mul_abs_le,
    lemma_fx_mul_mono, lemma_fx_mul_mono_first, lemma_fx_mul_one, isqrt128, SCALE, CFG_MAX,
    DT_MAX, VEL_CAP, POS_CAP,
};
use crate::geom::{Vec2, Rect, Extent, SIZE_W_FX, SIZE_H_FX, rects_overlap, overlaps};
use crate::rng::{random_fx, RandomRange};
use vstd::arithmetic::div_mod::{
    lemma_div_is_ordered, lemma_div_multiples_vanish, lemma_div_pos_is_pos,
};
use vstd::arithmetic::mul::{lemma_mul_inequality, lemma_mul_nonnegative};

verus! {

/// One scrolling object.
#[derive(Debug)]
pub struct Object {
    /// Scaling factor for the randomized respawn distance.
    pub repeat_distance: i64,
    /// Current position, in screen-scale fixed point.
    pub pos: Vec2,
    /// Fraction of the world scroll speed this object ignores:
    /// zero moves with the world, one is fixed to the screen.
    pub parallax: Vec2,
    /// Name of the sprite the renderer draws for this object.
    pub sprite_path: String,
    /// When set, the horizontal position is pinned to the player frame.
    pub lock_x: Option<i64>,
    /// When set, the vertical position is pinned to the player frame.
    pub lock_y: Option<i64>,
    /// Origin offset used by pinning and respawning.
    pub start_at: Vec2,
    /// Collision extent, anchored at the position.
    pub collider: Extent,
}

impl Object {
    /// All quantities within the representable range; parallax factors are
    /// fractions of one.
    pub open spec fn wf(self) -> bool {
        &&& 0 <= self.repeat_distance <= CFG_MAX
        &&& self.pos.bounded(POS_CAP as int)
        &&& 0 <= self.parallax.x <= SCALE
        &&& 0 <= self.parallax.y <= SCALE
        &&& (self.lock_x is Some ==> abs_i(self.lock_x->0 as int) <= CFG_MAX)
        &&& (self.lock_y is Some ==> abs_i(self.lock_y->0 as int) <= CFG_MAX)
        &&& self.start_at.bounded(CFG_MAX as int)
        &&& self.collider.wf()
    }

    /// What a respawn guarantees of the new position, for every draw.
    ///
    /// At a round start (the player still at the origin) the object lands in
    /// a band of up to three screens past its origin offset, scaled by its
    /// repeat distance. In mid-run free flight it lands past the player in
    /// the direction of travel: at or beyond its origin offset measured
    /// against the player, and not below it. An axis-locked object respawns
    /// at least two screens ahead. A bound met by saturation holds as the
    /// saturated cap.
    pub open spec fn reset_post(o: Object, n: Object, ppos: Vec2, pvel: Vec2) -> bool {
        if ppos.x == 0 {
            &&& o.start_at.x <= n.pos.x
                <= o.start_at.x + fx_mul_i(3 * SIZE_W_FX as int, o.repeat_distance as int)
            &&& o.start_at.y <= n.pos.y
                <= o.start_at.y + fx_mul_i(3 * SIZE_H_FX as int, o.repeat_distance as int)
        } else if o.lock_y is None {
            &&& (n.pos.x >= o.start_at.x - ppos.x || n.pos.x == POS_CAP)
            &&& (n.pos.y <= -o.start_at.y - ppos.y || n.pos.y == -POS_CAP)
        } else {
            &&& ({
                let base = if 2 * SIZE_W_FX >= o.start_at.x - ppos.x {
                    2 * SIZE_W_FX as int
                } else {
                    o.start_at.x - ppos.x
                };
                (base <= n.pos.x <= base + fx_mul_i(SIZE_W_FX as int, o.repeat_distance as int))
                    || n.pos.x == POS_CAP
            })
            &&& n.pos.y == o.pos.y
        }
    }

    /// Everything but the position is untouched.
    pub open spec fn same_but_pos(o: Object, n: Object) -> bool {
        &&& n.repeat_distance == o.repeat_distance
        &&& n.parallax == o.parallax
        &&& n.sprite_path == o.sprite_path
        &&& n.lock_x == o.lock_x
        &&& n.lock_y == o.lock_y
        &&& n.start_at == o.start_at
        &&& n.collider == o.collider
    }

    /// Respawn the object at a randomized position ahead of the player, as
    /// [`Object::reset_post`] states.
    pub fn reset(&mut self, pos: Vec2, vel: Vec2)
        requires
            old(self).wf(),
            pos.bounded(POS_CAP as int),
            vel.bounded(VEL_CAP as int),
        ensures
            Object::same_but_pos(*old(self), *final(self)),
            Object::reset_post(*old(self), *final(self), pos, vel),
            final(self).wf(),
    {
        if pos.x == 0 {
            let rx: i64 = random_fx(0, SCALE - 1);
            let ry: i64 = random_fx(0, SCALE - 1);
            proof {
                lemma_fx_mul_mono(3 * SIZE_W_FX as int, rx as int, SCALE as int);
                lemma_fx_mul_mono(3 * SIZE_H_FX as int, ry as int, SCALE as int);
                lemma_fx_mul_one(3 * SIZE_W_FX as int);
                lemma_fx_mul_one(3 * SIZE_H_FX as int);
                lemma_fx_mul_mono_first(
                    fx_mul_i(3 * SIZE_W_FX as int, rx as int),
                    3 * SIZE_W_FX as int,
                    self.repeat_distance as int,
                );
                lemma_fx_mul_mono_first(
                    fx_mul_i(3 * SIZE_H_FX as int, ry as int),
                    3 * SIZE_H_FX as int,
                    self.repeat_distance as int,
                );
            }
            let sx: i64 = fx_mul(fx_mul(3 * SIZE_W_FX, rx), self.repeat_distance);
            let sy: i64 = fx_mul(fx_mul(3 * SIZE_H_FX, ry), self.repeat_distance);
            self.pos.x = self.start_at.x + sx;
            self.pos.y = self.start_at.y + sy;
        } else if self.lock_y.is_none() {
            let dir: Vec2 = jittered_direction(vel);
            proof {
                lemma_fx_mul_abs_le(dir.x as int, SIZE_W_FX as int, 2 * SCALE as int, SIZE_W_FX as int);
                lemma_fx_mul_abs_le(dir.y as int, SIZE_W_FX as int, 2 * SCALE as int, SIZE_W_FX as int);
            }
            let bx: i64 = SIZE_W_FX / 2 + fx_mul(dir.x, SIZE_W_FX);
            let by: i64 = SIZE_H_FX / 2 + fx_mul(dir.y, SIZE_W_FX);
            proof {
                lemma_fx_mul_abs_le(bx as int, self.repeat_distance as int, 3 * SIZE_W_FX as int, CFG_MAX as int);
                lemma_fx_mul_abs_le(by as int, self.repeat_distance as int, 3 * SIZE_W_FX as int, CFG_MAX as int);
            }
            let mut px: i64 = fx_mul(bx, self.repeat_distance);
            let mut py: i64 = fx_mul(by, self.repeat_distance);
            let target_x: i64 = self.start_at.x - pos.x;
            let target_y: i64 = -self.start_at.y - pos.y;
            while px < target_x
                invariant
                    abs_i(target_x as int) <= CFG_MAX + POS_CAP,
                    -0x100000000000 <= px <= POS_CAP + CFG_MAX + SIZE_W_FX,
                decreases target_x + SIZE_W_FX - px,
            {
                px = px + SIZE_W_FX;
            }
            while py > target_y
                invariant
                    abs_i(target_y as int) <= CFG_MAX + POS_CAP,
                    -(POS_CAP + CFG_MAX + SIZE_H_FX) <= py <= 0x100000000000,
                decreases py + SIZE_H_FX - target_y,
            {
                py = py - SIZE_H_FX;
            }
            self.pos.x = crate::fx::clamp(px, -POS_CAP, POS_CAP);
            self.pos.y = crate::fx::clamp(py, -POS_CAP, POS_CAP);
        } else {
            let target_x: i64 = self.start_at.x - pos.x;
            let base: i64 = if 2 * SIZE_W_FX >= target_x { 2 * SIZE_W_FX } else { target_x };
            let r: i64 = random_fx(0, SCALE - 1);
            proof {
                lemma_fx_mul_mono(SIZE_W_FX as int, r as int, SCALE as int);
                lemma_fx_mul_one(SIZE_W_FX as int);
                lemma_fx_mul_mono_first(
                    fx_mul_i(SIZE_W_FX as int, r as int),
                    SIZE_W_FX as int,
                    self.repeat_distance as int,
                );
            }
            let s: i64 = fx_mul(fx_mul(SIZE_W_FX, r), self.repeat_distance);
            self.pos.x = crate::fx::clamp(base + s, -POS_CAP, POS_CAP);
        }
    }

    /// The horizontal position after one scroll step, before any respawn.
    pub open spec fn scrolled_x(o: Object, ppos: Vec2, pvel: Vec2, off: Vec2, dt: int) -> int {
        if o.lock_x is Some {
            clamp_i(
                o.lock_x->0 - fx_mul_i(ppos.x as int, SCALE - o.parallax.x) + off.x
                    + o.start_at.x,
                -POS_CAP as int,
                POS_CAP as int,
            )
        } else {
            clamp_i(
                o.pos.x - fx_mul_i(fx_mul_i(pvel.x as int, dt), SCALE - o.parallax.x),
                -POS_CAP as int,
                POS_CAP as int,
            )
        }
    }

    /// The vertical position after one scroll step, before any respawn.
    pub open spec fn scrolled_y(o: Object, ppos: Vec2, pvel: Vec2, off: Vec2, dt: int) -> int {
        if o.lock_y is Some {
            clamp_i(
                o.lock_y->0 - fx_mul_i(ppos.y as int, SCALE - o.parallax.y) + off.y
                    + o.start_at.y,
                -POS_CAP as int,
                POS_CAP as int,
            )
        } else {
            clamp_i(
                o.pos.y - fx_mul_i(fx_mul_i(pvel.y as int, dt), SCALE - o.parallax.y),
                -POS_CAP as int,
                POS_CAP as int,
            )
        }
    }

    /// The whole object after one scroll step, before any respawn.
    pub open spec fn scrolled(o: Object, ppos: Vec2, pvel: Vec2, off: Vec2, dt: int) -> Object {
        Object {
            pos: Vec2 {
                x: Object::scrolled_x(o, ppos, pvel, off, dt) as i64,
                y: Object::scrolled_y(o, ppos, pvel, off, dt) as i64,
            },
            ..o
        }
    }

    /// What one scroll tick guarantees: the object sits exactly where the
    /// scroll formulas put it, unless that carried it past the left screen
    /// edge, in which case the respawn guarantees hold of the scrolled
    /// object instead.
    pub open spec fn scroll_post(
        o: Object,
        n: Object,
        ppos: Vec2,
        pvel: Vec2,
        off: Vec2,
        dt: int,
    ) -> bool {
        let s = Object::scrolled(o, ppos, pvel, off, dt);
        if o.lock_x is None && s.pos.x < -SIZE_W_FX {
            Object::reset_post(s, n, ppos, pvel)
        } else {
            n.pos == s.pos
        }
    }

    /// One tick of scrolling: pinned axes track the player frame, free axes
    /// scroll against the player's velocity scaled by the parallax factor. A
    /// free-horizontal object that has left the screen on the left respawns.
    pub fn update(&mut self, pos: Vec2, vel: Vec2, player_offset: Vec2, dt: i64)
        requires
            old(self).wf(),
            pos.bounded(POS_CAP as int),
            vel.bounded(VEL_CAP as int),
            player_offset.bounded(CFG_MAX as int),
            0 <= dt <= DT_MAX,
        ensures
            Object::same_but_pos(*old(self), *final(self)),
            final(self).wf(),
            Object::scroll_post(*old(self), *final(self), pos, vel, player_offset, dt as int),
    {
        proof {
            lemma_fx_mul_abs_le(vel.x as int, dt as int, VEL_CAP as int, DT_MAX as int);
            lemma_fx_mul_abs_le(vel.y as int, dt as int, VEL_CAP as int, DT_MAX as int);
            lemma_fx_mul_abs_le(
                fx_mul_i(vel.x as int, dt as int),
                SCALE - self.parallax.x,
                0x10000000000,
                SCALE as int,
            );
            lemma_fx_mul_abs_le(
                fx_mul_i(vel.y as int, dt as int),
                SCALE - self.parallax.y,
                0x10000000000,
                SCALE as int,
            );
            lemma_fx_mul_abs_le(pos.x as int, SCALE - self.parallax.x, POS_CAP as int, SCALE as int);
            lemma_fx_mul_abs_le(pos.y as int, SCALE - self.parallax.y, POS_CAP as int, SCALE as int);
        }
        let mut reset_needed: bool = false;
        match self.lock_x {
            Some(lx) => {
                let scaled: i64 = fx_mul(pos.x, SCALE - self.parallax.x);
                let t: i64 = add_clamp(lx - scaled + player_offset.x, self.start_at.x, POS_CAP);
                self.pos.x = t;
            }
            None => {
                let d: i64 = fx_mul(fx_mul(vel.x, dt), SCALE - self.parallax.x);
                self.pos.x = add_clamp(self.pos.x, -d, POS_CAP);
                if self.pos.x < -SIZE_W_FX {
                    reset_needed = true;
                }
            }
        }
        match self.lock_y {
            Some(ly) => {
                let scaled: i64 = fx_mul(pos.y, SCALE - self.parallax.y);
                let t: i64 = add_clamp(ly - scaled + player_offset.y, self.start_at.y, POS_CAP);
                self.pos.y = t;
            }
            None => {
                let d: i64 = fx_mul(fx_mul(vel.y, dt), SCALE - self.parallax.y);
                self.pos.y = add_clamp(self.pos.y, -d, POS_CAP);
            }
        }
        if reset_needed {
            self.reset(pos, vel);
        }
    }

    /// Whether the object's collider, at its current position, overlaps the
    /// player's collider rectangle.
    pub fn collides_user(&self, player_rect: Rect) -> (r: bool)
        requires
            self.wf(),
            player_rect.wf(),
        ensures
            r == rects_overlap(
                Rect { x: self.pos.x, y: self.pos.y, w: self.collider.w, h: self.collider.h },
                player_rect,
            ),
    {
        let own: Rect = Rect {
            x: self.pos.x,
            y: self.pos.y,
            w: self.collider.w,
            h: self.collider.h,
        };
        overlaps(&own, &player_rect)
    }
}

/// The approximate unit vector in the direction of travel, rotated by a
/// uniform jitter of up to half a radian either way; the zero vector is
/// treated as rightward travel. Both components stay within twice the scale.
fn jittered_direction(vel: Vec2) -> (r: Vec2)
    requires
        vel.bounded(VEL_CAP as int),
    ensures
        r.bounded(2 * SCALE as int),
{
    let ax: i64 = abs64(vel.x);
    let ay: i64 = abs64(vel.y);
    proof {
        assert((ax as int) * (ax as int) <= 0x10000000000000000
            && (ay as int) * (ay as int) <= 0x10000000000000000
            && (ax as int) * (ax as int) >= 0 && (ay as int) * (ay as int) >= 0)
            by (nonlinear_arith)
            requires 0 <= ax <= 0x100000000i64 && 0 <= ay <= 0x100000000i64;
    }
    let sq: u128 = (ax as u128) * (ax as u128) + (ay as u128) * (ay as u128);
    let mag: u64 = isqrt128(sq);
    let (nx, ny): (i64, i64) = if mag == 0 {
        (SCALE, 0)
    } else {
        proof {
            assert((ax as int) * (ax as int) <= sq && (ay as int) * (ay as int) <= sq);
            assert(ax <= mag && ay <= mag) by (nonlinear_arith)
                requires
                    0 <= ax,
                    0 <= ay,
                    0 <= mag,
                    (ax as int) * (ax as int) <= sq,
                    (ay as int) * (ay as int) <= sq,
                    (sq as int) < (mag as int + 1) * (mag as int + 1);
            lemma_mul_inequality(ax as int, mag as int, SCALE as int);
            lemma_mul_inequality(ay as int, mag as int, SCALE as int);
            lemma_mul_nonnegative(ax as int, SCALE as int);
            lemma_mul_nonnegative(ay as int, SCALE as int);
            lemma_div_is_ordered(
                (ax as int) * (SCALE as int),
                (mag as int) * (SCALE as int),
                mag as int,
            );
            lemma_div_is_ordered(
                (ay as int) * (SCALE as int),
                (mag as int) * (SCALE as int),
                mag as int,
            );
            lemma_div_multiples_vanish(SCALE as int, mag as int);
            lemma_div_pos_is_pos((ax as int) * (SCALE as int), mag as int);
            lemma_div_pos_is_pos((ay as int) * (SCALE as int), mag as int);
        }
        let ux: u64 = (ax as u64) * (SCALE as u64) / mag;
        let uy: u64 = (ay as u64) * (SCALE as u64) / mag;
        let sx: i64 = if vel.x < 0 { -(ux as i64) } else { ux as i64 };
        let sy: i64 = if vel.y < 0 { -(uy as i64) } else { uy as i64 };
        (sx, sy)
    };
    let t: i64 = random_fx(-SCALE / 2, SCALE / 2 - 1);
    let c: i64 = cos_fx(t);
    let s: i64 = sin_fx(t);
    proof {
        lemma_fx_mul_abs_le(nx as int, c as int, SCALE as int, SCALE as int);
        lemma_fx_mul_abs_le(ny as int, s as int, SCALE as int, SCALE as int);
        lemma_fx_mul_abs_le(nx as int, s as int, SCALE as int, SCALE as int);
        lemma_fx_mul_abs_le(ny as int, c as int, SCALE as int, SCALE as int);
    }
    let rx: i64 = fx_mul(nx, c) - fx_mul(ny, s);
    let ry: i64 = fx_mul(nx, s) + fx_mul(ny, c);
    Vec2 { x: rx, y: ry }
}

/// Every object well-formed.
pub open spec fn all_wf(v: Seq<Object>) -> bool {
    forall|i: int| 0 <= i < v.len() ==> (#[trigger] v[i]).wf()
}

/// Respawn every object in the batch, as for a round restart.
pub fn reset_all(objects: &mut Vec<Object>)
    requires
        all_wf(old(objects)@),
    ensures
        final(objects)@.len() == old(objects)@.len(),
        all_wf(final(objects)@),
        forall|i: int| 0 <= i < final(objects)@.len() ==> {
            &&& Object::same_but_pos(old(objects)@[i], #[trigger] final(objects)@[i])
            &&& Object::reset_post(
                old(objects)@[i],
                final(objects)@[i],
                Vec2 { x: 0, y: 0 },
                Vec2 { x: 0, y: 0 },
            )
        },
{
    let n: usize = objects.len();
    let mut i: usize = 0;
    while i < n
        invariant
            n == objects@.len(),
            n == old(objects)@.len(),
            i <= n,
            all_wf(objects@),
            forall|k: int| i <= k < n ==> objects@[k] == old(objects)@[k],
            forall|k: int| 0 <= k < i ==> {
                &&& Object::same_but_pos(old(objects)@[k], #[trigger] objects@[k])
                &&& Object::reset_post(
                    old(objects)@[k],
                    objects@[k],
                    Vec2 { x: 0, y: 0 },
                    Vec2 { x: 0, y: 0 },
                )
            },
        decreases n - i,
    {
        objects[i].reset(Vec2 { x: 0, y: 0 }, Vec2 { x: 0, y: 0 });
        i = i + 1;
    }
}

/// One scroll tick for every object in the batch.
pub fn update_all(objects: &mut Vec<Object>, pos: Vec2, vel: Vec2, player_offset: Vec2, dt: i64)
    requires
        all_wf(old(objects)@),
        pos.bounded(POS_CAP as int),
        vel.bounded(VEL_CAP as int),
        player_offset.bounded(CFG_MAX as int),
        0 <= dt <= DT_MAX,
    ensures
        final(objects)@.len() == old(objects)@.len(),
        all_wf(final(objects)@),
        forall|i: int| 0 <= i < final(objects)@.len()
            ==> Object::same_but_pos(old(objects)@[i], #[trigger] final(objects)@[i]),
        forall|i: int| 0 <= i < final(objects)@.len()
            ==> Object::scroll_post(
                old(objects)@[i],
                #[trigger] final(objects)@[i],
                pos,
                vel,
                player_offset,
                dt as int,
            ),
{
    let n: usize = objects.len();
    let mut i: usize = 0;
    while i < n
        invariant
            n == objects@.len(),
            n == old(objects)@.len(),
            i <= n,
            pos.bounded(POS_CAP as int),
            vel.bounded(VEL_CAP as int),
            player_offset.bounded(CFG_MAX as int),
            0 <= dt <= DT_MAX,
            all_wf(objects@),
            forall|k: int| i <= k < n ==> objects@[k] == old(objects)@[k],
            forall|k: int| 0 <= k < i
                ==> Object::same_but_pos(old(objects)@[k], #[trigger] objects@[k]),
            forall|k: int| 0 <= k < i
                ==> Object::scroll_post(
                    old(objects)@[k],
                    #[trigger] objects@[k],
                    pos,
                    vel,
                    player_offset,
                    dt as int,
                ),
        decreases n - i,
    {
        objects[i].update(pos, vel, player_offset, dt);
        i = i + 1;
    }
}

/// A template from which a batch of scrolling objects is spawned at game
/// construction.
#[derive(Debug)]
pub struct ObjectsSpawner {
    pub repeat_distance: i64,
    pub amount: usize,
    pub sprite_path: String,
    /// Range the horizontal parallax factor of each object is drawn from.
    pub parallax_x: RandomRange,
    /// The vertical parallax factor as a fraction of the horizontal one.
    pub parallax_y_factor: i64,
    pub lock_x: Option<i64>,
    pub lock_y: Option<i64>,
    pub start_at: Vec2,
    pub collider: Extent,
}

impl ObjectsSpawner {
    /// All quantities within the representable range; parallax draws are
    /// fractions of one.
    pub open spec fn wf(self) -> bool {
        &&& 0 <= self.repeat_distance <= CFG_MAX
        &&& self.amount <= 0x10000
        &&& self.parallax_x.wf()
        &&& 0 <= self.parallax_x.min
        &&& self.parallax_x.max <= SCALE
        &&& 0 <= self.parallax_y_factor <= SCALE
        &&& (self.lock_x is Some ==> abs_i(self.lock_x->0 as int) <= CFG_MAX)
        &&& (self.lock_y is Some ==> abs_i(self.lock_y->0 as int) <= CFG_MAX)
        &&& self.start_at.bounded(CFG_MAX as int)
        &&& self.collider.wf()
    }

    /// Whether an object was stamped from this template.
    pub open spec fn spawned_from(self, o: Object) -> bool {
        &&& o.repeat_distance == self.repeat_distance
        &&& o.sprite_path == self.sprite_path
        &&& o.lock_x == self.lock_x
        &&& o.lock_y == self.lock_y
        &&& o.start_at == self.start_at
        &&& o.collider == self.collider
        &&& self.parallax_x.min <= o.parallax.x <= self.parallax_x.max
        &&& o.parallax.y == fx_mul_i(o.parallax.x as int, self.parallax_y_factor as int)
    }

    /// Validate a loaded spawner template: exactly the well-formedness the
    /// simulation requires. A template this rejects is a fatal load error
    /// for the caller.
    pub fn check(&self) -> (r: bool)
        ensures
            r == self.wf(),
    {
        let lock_x_ok: bool = match self.lock_x {
            Some(lx) => -CFG_MAX <= lx && lx <= CFG_MAX,
            None => true,
        };
        let lock_y_ok: bool = match self.lock_y {
            Some(ly) => -CFG_MAX <= ly && ly <= CFG_MAX,
            None => true,
        };
        0 <= self.repeat_distance && self.repeat_distance <= CFG_MAX && self.amount <= 0x10000
            && self.parallax_x.min <= self.parallax_x.max && 0 <= self.parallax_x.min
            && self.parallax_x.max <= SCALE && 0 <= self.parallax_y_factor
            && self.parallax_y_factor <= SCALE && lock_x_ok && lock_y_ok
            && -CFG_MAX <= self.start_at.x && self.start_at.x <= CFG_MAX
            && -CFG_MAX <= self.start_at.y && self.start_at.y <= CFG_MAX
            && 0 <= self.collider.w && self.collider.w <= CFG_MAX && 0 <= self.collider.h
            && self.collider.h <= CFG_MAX
    }

    /// Stamp out `amount` objects, each with a fresh parallax draw and a
    /// fresh respawn position, ordered back to front: decreasing horizontal
    /// parallax, the most screen-fixed objects first.
    pub fn to_objects(&self) -> (r: Vec<Object>)
        requires
            self.wf(),
        ensures
            r@.len() == self.amount,
            forall|i: int| 0 <= i < r@.len() ==> (#[trigger] r@[i]).wf(),
            forall|i: int| 0 <= i < r@.len() ==> self.spawned_from(#[trigger] r@[i]),
            forall|i: int, j: int| 0 <= i <= j < r@.len()
                ==> r@[i].parallax.x >= r@[j].parallax.x,
            forall|i: int| 0 <= i < r@.len() ==> {
                let p = (#[trigger] r@[i]).pos;
                &&& self.start_at.x <= p.x
                    <= self.start_at.x + fx_mul_i(3 * SIZE_W_FX as int, self.repeat_distance as int)
                &&& self.start_at.y <= p.y
                    <= self.start_at.y + fx_mul_i(3 * SIZE_H_FX as int, self.repeat_distance as int)
            },
    {
        let mut objects: Vec<Object> = Vec::new();
        let mut k: usize = 0;
        while k < self.amount
            invariant
                self.wf(),
                k <= self.amount,
                objects@.len() == k,
                forall|i: int| 0 <= i < objects@.len() ==> (#[trigger] objects@[i]).wf(),
                forall|i: int| 0 <= i < objects@.len()
                    ==> self.spawned_from(#[trigger] objects@[i]),
                forall|i: int, j: int| 0 <= i <= j < objects@.len()
                    ==> objects@[i].parallax.x >= objects@[j].parallax.x,
                forall|i: int| 0 <= i < objects@.len() ==> {
                    let p = (#[trigger] objects@[i]).pos;
                    &&& self.start_at.x <= p.x
                        <= self.start_at.x + fx_mul_i(
                            3 * SIZE_W_FX as int,
                            self.repeat_distance as int,
                        )
                    &&& self.start_at.y <= p.y
                        <= self.start_at.y + fx_mul_i(
                            3 * SIZE_H_FX as int,
                            self.repeat_distance as int,
                        )
                },
            decreases self.amount - k,
        {
            let px: i64 = self.parallax_x.value();
            proof {
                lemma_fx_mul_mono(px as int, self.parallax_y_factor as int, SCALE as int);
                lemma_fx_mul_one(px as int);
            }
            let py: i64 = fx_mul(px, self.parallax_y_factor);
            let mut obj: Object = Object {
                pos: Vec2 { x: 0, y: 0 },
                repeat_distance: self.repeat_distance,
                parallax: Vec2 { x: px, y: py },
                sprite_path: self.sprite_path.clone(),
                lock_x: self.lock_x,
                lock_y: self.lock_y,
                start_at: self.start_at,
                collider: self.collider,
            };
            obj.reset(Vec2 { x: 0, y: 0 }, Vec2 { x: 0, y: 0 });

            let mut idx: usize = 0;
            while idx < objects.len() && objects[idx].parallax.x >= obj.parallax.x
                invariant
                    idx <= objects@.len(),
                    forall|i: int| 0 <= i < idx
                        ==> objects@[i].parallax.x >= obj.parallax.x,
                decreases objects@.len() - idx,
            {
                idx = idx + 1;
            }
            let ghost before = objects@;
            objects.insert(idx, obj);
            proof {
                assert forall|i: int, j: int|
                    0 <= i <= j < objects@.len() implies objects@[i].parallax.x
                    >= objects@[j].parallax.x by {
                    if i < idx && j > idx {
                        assert(objects@[i] == before[i]);
                        assert(objects@[j] == before[j - 1]);
                    }
                }
                assert forall|i: int| 0 <= i < objects@.len() implies (#[trigger] objects@[i]).wf()
                    && self.spawned_from(objects@[i]) by {
                    if i < idx {
                        assert(objects@[i] == before[i]);
                    } else if i > idx {
                        assert(objects@[i] == before[i - 1]);
                    }
                }
            }
            k = k + 1;
        }
        objects
    }
}

} // verus!
