//! A bank of free-floating pickups that trail the player and wrap around:
//! one that falls a full screen behind respawns a screen ahead at a
//! randomized height around the player.

use vstd::prelude::*;
use crate::fx::{POS_CAP};
use crate::geom::{Vec2, SIZE_W_FX, SIZE_H_FX};
use crate::rng::random_fx;
use vstd::pervasive::VecAdditionalExecFns;

verus! {

/// A set of identical pickups.
#[derive(Debug)]
pub struct Pickup {
    /// Name of the sprite the renderer draws for each active pickup.
    pub sprite: &'static str,
    /// How often new pickups appear, in pickups per second.
    pub spawn_rate: i64,
    /// The positions of the active pickups.
    pub active: Vec<Vec2>,
}

impl Pickup {
    /// Every position within the representable range.
    pub open spec fn wf(self) -> bool {
        forall|i: int| 0 <= i < self.active@.len()
            ==> (#[trigger] self.active@[i]).bounded(POS_CAP as int)
    }

    /// Scatter `amount` pickups over the screen ahead: horizontally within
    /// one screen past the right edge, vertically anywhere on screen.
    pub fn new(sprite: &'static str, spawn_rate: i64, amount: usize) -> (r: Pickup)
        ensures
            r.sprite == sprite,
            r.spawn_rate == spawn_rate,
            r.active@.len() == amount,
            forall|i: int| 0 <= i < r.active@.len() ==> {
                let p = #[trigger] r.active@[i];
                SIZE_W_FX <= p.x < 2 * SIZE_W_FX && 0 <= p.y < SIZE_H_FX
            },
            r.wf(),
    {
        let mut active: Vec<Vec2> = Vec::new();
        let mut k: usize = 0;
        while k < amount
            invariant
                k <= amount,
                active@.len() == k,
                forall|i: int| 0 <= i < active@.len() ==> {
                    let p = #[trigger] active@[i];
                    SIZE_W_FX <= p.x < 2 * SIZE_W_FX && 0 <= p.y < SIZE_H_FX
                },
            decreases amount - k,
        {
            let x: i64 = SIZE_W_FX + random_fx(0, SIZE_W_FX - 1);
            let y: i64 = random_fx(0, SIZE_H_FX - 1);
            active.push(Vec2 { x, y });
            k = k + 1;
        }
        Pickup { sprite, spawn_rate, active }
    }

    /// One tick: a pickup more than a screen behind the player respawns a
    /// screen ahead of the player, within a screen's height of the player
    /// vertically; every other pickup stays put.
    pub fn update(&mut self, player: Vec2, dt: i64)
        requires
            old(self).wf(),
            player.bounded((POS_CAP - 2 * SIZE_H_FX) as int),
        ensures
            final(self).sprite == old(self).sprite,
            final(self).spawn_rate == old(self).spawn_rate,
            final(self).active@.len() == old(self).active@.len(),
            forall|i: int| 0 <= i < final(self).active@.len() ==> {
                let p = old(self).active@[i];
                let n = #[trigger] final(self).active@[i];
                if p.x < player.x - SIZE_W_FX {
                    n.x == player.x + SIZE_W_FX
                        && player.y - SIZE_H_FX <= n.y < player.y + SIZE_H_FX
                } else {
                    n == p
                }
            },
            final(self).wf(),
    {
        let n: usize = self.active.len();
        let mut k: usize = 0;
        while k < n
            invariant
                n == self.active@.len(),
                n == old(self).active@.len(),
                k <= n,
                self.sprite == old(self).sprite,
                self.spawn_rate == old(self).spawn_rate,
                player.bounded((POS_CAP - 2 * SIZE_H_FX) as int),
                forall|i: int| 0 <= i < n ==> {
                    let p = old(self).active@[i];
                    let c = #[trigger] self.active@[i];
                    if i < k {
                        if p.x < player.x - SIZE_W_FX {
                            c.x == player.x + SIZE_W_FX
                                && player.y - SIZE_H_FX <= c.y < player.y + SIZE_H_FX
                        } else {
                            c == p
                        }
                    } else {
                        c == p
                    }
                },
                forall|i: int| 0 <= i < n
                    ==> (#[trigger] self.active@[i]).bounded(POS_CAP as int),
            decreases n - k,
        {
            let item: Vec2 = self.active[k];
            if item.x < player.x - SIZE_W_FX {
                let ny: i64 = player.y + random_fx(-SIZE_H_FX, SIZE_H_FX - 1);
                self.active.set(k, Vec2 { x: player.x + SIZE_W_FX, y: ny });
            }
            k = k + 1;
        }
    }
}

} // verus!
