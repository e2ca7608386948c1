//! The game state: the phase state machine, trajectory integration, the
//! boost meter, the card economy, and the bookkeeping of the scrolling world.

use vstd::prelude::*;
use crate::card::{Card, CardTarget, CARDS};
use crate::fx::{
    abs_i, abs64, clamp_i, min_i, fx_mul_i, fx_mul, add_clamp, osc_step, meter_step, cos_i, sin_i,
    cos_fx, sin_fx, lemma_fx_mul_abs_le, lemma_fx_mul_shrink, SCALE, CFG_MAX, DT_MAX, EXTRA_MAX,
    VEL_CAP, POS_CAP, ROT_CAP, OSC_CAP,
};
use crate::geom::{Vec2, Rect, Extent, SIZE_H_FX};
use crate::object::{Object, ObjectsSpawner};
use crate::particle::{Color, Particle};
use crate::rng::random_fx;

verus! {

/// The top-level mode of play. Exactly one is active at a time.
#[derive(Clone, Copy, PartialEq, Eq, Structural, Debug)]
pub enum Phase {
    /// Between runs: the card shop, on a countdown.
    Buy,
    /// Aiming: the launch angle sweeps between its bounds.
    LaunchSetAngle,
    /// Powering: the launch speed sweeps between its bounds.
    LaunchSetSpeed,
    /// In flight, under gravity and drag.
    Fly,
    /// The run has ended; a countdown leads back to the shop.
    Dead,
}

/// The three timing zones of the boost meter.
#[derive(Clone, Copy, PartialEq, Eq, Structural, Debug)]
pub enum BoostZone {
    Penalty,
    Safe,
    Crit,
}

/// Which zone a meter value falls in: past the penalty and safe areas is
/// crit, past the penalty area alone is safe, the rest is penalty.
pub open spec fn boost_zone_i(b: int, penalty_area: int, safe_area: int) -> BoostZone {
    if b > safe_area + penalty_area {
        BoostZone::Crit
    } else if b > penalty_area {
        BoostZone::Safe
    } else {
        BoostZone::Penalty
    }
}

/// The boost zones partition the meter range `[0, total)`: every value falls
/// in exactly one zone, and the zones match the documented thresholds.
pub proof fn lemma_boost_zone_partition(b: int, penalty_area: int, safe_area: int, crit_area: int)
    requires
        0 <= penalty_area,
        0 <= safe_area,
        0 <= crit_area,
        0 <= b < penalty_area + safe_area + crit_area,
    ensures
        (boost_zone_i(b, penalty_area, safe_area) == BoostZone::Crit) <==> (b
            > penalty_area + safe_area),
        (boost_zone_i(b, penalty_area, safe_area) == BoostZone::Safe) <==> (penalty_area < b
            <= penalty_area + safe_area),
        (boost_zone_i(b, penalty_area, safe_area) == BoostZone::Penalty) <==> (b <= penalty_area),
{
}

/// The whole numeric configuration, in fixed point, threaded explicitly
/// into every update so that replacing the value between ticks hot-reloads
/// the game's tuning.
#[derive(Clone, Copy, PartialEq, Eq, Structural, Debug)]
pub struct Settings {
    pub min_angle: i64,
    pub max_angle: i64,
    pub angle_delta: i64,
    pub min_speed: i64,
    pub max_speed: i64,
    pub speed_delta: i64,
    pub gravity: i64,
    pub cannon_offset: Vec2,
    pub player_offset: Vec2,
    pub boost_meter_offset: Vec2,
    pub speed_meter_offset: Vec2,
    pub buy_meter_offset: Vec2,
    pub buy_meter_size: Extent,
    pub rot_factor: Vec2,
    pub rot_y_clamp: i64,
    pub air_friction: i64,
    pub restitution: Vec2,
    pub halting_velocity: Vec2,
    pub tree_amount: usize,
    pub rock_amount: usize,
    pub boost_meter_speed: i64,
    pub boost_meter_penalty_area: i64,
    pub boost_meter_safe_area: i64,
    pub boost_meter_crit_area: i64,
    pub boost_penalty: Vec2,
    pub boost_crit: Vec2,
    pub boost_safe: Vec2,
    pub boost_delay: i64,
    pub max_boost_velocity: Vec2,
    pub static_velocity_boost: Vec2,
    pub static_velocity_boost_treshold: i64,
    pub player_collider: Rect,
    pub particle_amount: usize,
    pub particle_gravity: i64,
    pub particle_force: i64,
    pub particle_vel_multiplier: Vec2,
    pub particle_life: i64,
    pub topleft_particle_amount: usize,
    pub topleft_particle_gravity: i64,
    pub topleft_particle_force: i64,
    pub topleft_particle_life: i64,
    pub crit_particle_amount: usize,
    pub crit_particle_gravity: i64,
    pub crit_particle_force: i64,
    pub crit_particle_life: i64,
    pub bounce_particle_amount: usize,
    pub bounce_particle_gravity: i64,
    pub bounce_particle_force: i64,
    pub bounce_particle_vel_multiplier: Vec2,
    pub bounce_particle_life: i64,
    pub buy_time: i64,
    pub buy_speed: i64,
    pub dead_wait_time: i64,
}

impl Settings {
    /// The full boost meter range.
    pub open spec fn meter_total(self) -> int {
        self.boost_meter_penalty_area + self.boost_meter_safe_area + self.boost_meter_crit_area
    }

    /// Every scalar on configuration scale; rates, areas, forces, damping
    /// factors and timeouts non-negative; damping factors at most one; the
    /// oscillator ranges ordered; the boost meter non-empty.
    pub open spec fn wf(self) -> bool {
        &&& abs_i(self.min_angle as int) <= CFG_MAX
        &&& abs_i(self.max_angle as int) <= CFG_MAX
        &&& self.min_angle <= self.max_angle
        &&& 0 <= self.angle_delta <= CFG_MAX
        &&& abs_i(self.min_speed as int) <= CFG_MAX
        &&& abs_i(self.max_speed as int) <= CFG_MAX
        &&& self.min_speed <= self.max_speed
        &&& 0 <= self.speed_delta <= CFG_MAX
        &&& abs_i(self.gravity as int) <= CFG_MAX
        &&& self.cannon_offset.bounded(CFG_MAX as int)
        &&& self.player_offset.bounded(CFG_MAX as int)
        &&& self.boost_meter_offset.bounded(CFG_MAX as int)
        &&& self.speed_meter_offset.bounded(CFG_MAX as int)
        &&& self.buy_meter_offset.bounded(CFG_MAX as int)
        &&& self.buy_meter_size.wf()
        &&& self.rot_factor.bounded(CFG_MAX as int)
        &&& 0 <= self.rot_y_clamp <= CFG_MAX
        &&& 0 <= self.air_friction <= SCALE
        &&& 0 <= self.restitution.x <= SCALE
        &&& 0 <= self.restitution.y <= SCALE
        &&& 0 <= self.halting_velocity.x <= CFG_MAX
        &&& 0 <= self.halting_velocity.y <= CFG_MAX
        &&& 0 <= self.boost_meter_speed <= CFG_MAX
        &&& 0 <= self.boost_meter_penalty_area <= CFG_MAX
        &&& 0 <= self.boost_meter_safe_area <= CFG_MAX
        &&& 0 <= self.boost_meter_crit_area <= CFG_MAX
        &&& 1 <= self.meter_total()
        &&& self.boost_penalty.bounded(CFG_MAX as int)
        &&& self.boost_crit.bounded(CFG_MAX as int)
        &&& self.boost_safe.bounded(CFG_MAX as int)
        &&& 0 <= self.boost_delay <= CFG_MAX
        &&& self.max_boost_velocity.bounded(CFG_MAX as int)
        &&& self.static_velocity_boost.bounded(CFG_MAX as int)
        &&& 0 <= self.static_velocity_boost_treshold <= CFG_MAX
        &&& self.player_collider.wf()
        &&& abs_i(self.player_collider.x as int) <= CFG_MAX
        &&& abs_i(self.player_collider.y as int) <= CFG_MAX
        &&& 0 <= self.particle_gravity <= CFG_MAX
        &&& 0 <= self.particle_force <= CFG_MAX
        &&& self.particle_vel_multiplier.bounded(CFG_MAX as int)
        &&& abs_i(self.particle_life as int) <= CFG_MAX
        &&& 0 <= self.topleft_particle_gravity <= CFG_MAX
        &&& 0 <= self.topleft_particle_force <= CFG_MAX
        &&& abs_i(self.topleft_particle_life as int) <= CFG_MAX
        &&& 0 <= self.crit_particle_gravity <= CFG_MAX
        &&& 0 <= self.crit_particle_force <= CFG_MAX
        &&& abs_i(self.crit_particle_life as int) <= CFG_MAX
        &&& 0 <= self.bounce_particle_gravity <= CFG_MAX
        &&& 0 <= self.bounce_particle_force <= CFG_MAX
        &&& self.bounce_particle_vel_multiplier.bounded(CFG_MAX as int)
        &&& abs_i(self.bounce_particle_life as int) <= CFG_MAX
        &&& 0 <= self.buy_time <= CFG_MAX
        &&& 0 <= self.buy_speed <= CFG_MAX
        &&& 0 <= self.dead_wait_time <= CFG_MAX
    }

    /// Validate a loaded configuration: exactly the well-formedness the
    /// simulation requires. A configuration this rejects is a fatal load
    /// error for the caller.
    pub fn check(&self) -> (r: bool)
        ensures
            r == self.wf(),
    {
        let c: i64 = CFG_MAX;
        -c <= self.min_angle && self.min_angle <= c && -c <= self.max_angle && self.max_angle <= c
            && self.min_angle <= self.max_angle && 0 <= self.angle_delta && self.angle_delta <= c
            && -c <= self.min_speed && self.min_speed <= c && -c <= self.max_speed
            && self.max_speed <= c && self.min_speed <= self.max_speed && 0 <= self.speed_delta
            && self.speed_delta <= c && -c <= self.gravity && self.gravity <= c
            && vec2_bounded(&self.cannon_offset, c) && vec2_bounded(&self.player_offset, c)
            && vec2_bounded(&self.boost_meter_offset, c) && vec2_bounded(&self.speed_meter_offset, c)
            && vec2_bounded(&self.buy_meter_offset, c) && 0 <= self.buy_meter_size.w
            && self.buy_meter_size.w <= c && 0 <= self.buy_meter_size.h && self.buy_meter_size.h <= c
            && vec2_bounded(&self.rot_factor, c) && 0 <= self.rot_y_clamp && self.rot_y_clamp <= c
            && 0 <= self.air_friction && self.air_friction <= SCALE && 0 <= self.restitution.x
            && self.restitution.x <= SCALE && 0 <= self.restitution.y && self.restitution.y <= SCALE
            && 0 <= self.halting_velocity.x && self.halting_velocity.x <= c
            && 0 <= self.halting_velocity.y && self.halting_velocity.y <= c
            && 0 <= self.boost_meter_speed && self.boost_meter_speed <= c
            && 0 <= self.boost_meter_penalty_area && self.boost_meter_penalty_area <= c
            && 0 <= self.boost_meter_safe_area && self.boost_meter_safe_area <= c
            && 0 <= self.boost_meter_crit_area && self.boost_meter_crit_area <= c
            && 1 <= self.boost_meter_penalty_area + self.boost_meter_safe_area
                + self.boost_meter_crit_area
            && vec2_bounded(&self.boost_penalty, c) && vec2_bounded(&self.boost_crit, c)
            && vec2_bounded(&self.boost_safe, c) && 0 <= self.boost_delay && self.boost_delay <= c
            && vec2_bounded(&self.max_boost_velocity, c)
            && vec2_bounded(&self.static_velocity_boost, c)
            && 0 <= self.static_velocity_boost_treshold && self.static_velocity_boost_treshold <= c
            && 0 <= self.player_collider.w && self.player_collider.w <= c
            && 0 <= self.player_collider.h && self.player_collider.h <= c
            && -c <= self.player_collider.x && self.player_collider.x <= c
            && -c <= self.player_collider.y && self.player_collider.y <= c
            && 0 <= self.particle_gravity && self.particle_gravity <= c
            && 0 <= self.particle_force && self.particle_force <= c
            && vec2_bounded(&self.particle_vel_multiplier, c) && -c <= self.particle_life
            && self.particle_life <= c && 0 <= self.topleft_particle_gravity
            && self.topleft_particle_gravity <= c && 0 <= self.topleft_particle_force
            && self.topleft_particle_force <= c && -c <= self.topleft_particle_life
            && self.topleft_particle_life <= c && 0 <= self.crit_particle_gravity
            && self.crit_particle_gravity <= c && 0 <= self.crit_particle_force
            && self.crit_particle_force <= c && -c <= self.crit_particle_life
            && self.crit_particle_life <= c && 0 <= self.bounce_particle_gravity
            && self.bounce_particle_gravity <= c && 0 <= self.bounce_particle_force
            && self.bounce_particle_force <= c
            && vec2_bounded(&self.bounce_particle_vel_multiplier, c)
            && -c <= self.bounce_particle_life && self.bounce_particle_life <= c
            && 0 <= self.buy_time && self.buy_time <= c && 0 <= self.buy_speed
            && self.buy_speed <= c && 0 <= self.dead_wait_time && self.dead_wait_time <= c
    }
}

/// Both components within `[-cap, cap]`.
fn vec2_bounded(v: &Vec2, cap: i64) -> (r: bool)
    requires
        cap >= 0,
    ensures
        r == v.bounded(cap as int),
{
    -cap <= v.x && v.x <= cap && -cap <= v.y && v.y <= cap
}

/// Every particle well-formed.
pub open spec fn particles_all_wf(v: Seq<Particle>) -> bool {
    forall|i: int| 0 <= i < v.len() ==> (#[trigger] v[i]).wf()
}

/// The global card definitions: each names its own slot, each is
/// well-formed, and at least one free, uncapped card is always eligible.
pub open spec fn defs_wf(defs: Seq<Card>) -> bool {
    &&& defs.len() >= 1
    &&& forall|i: int| 0 <= i < defs.len() ==> (#[trigger] defs[i]).index == i
    &&& forall|i: int| 0 <= i < defs.len() ==> (#[trigger] defs[i]).wf(defs.len() as int)
    &&& exists|i: int|
        0 <= i < defs.len() && (#[trigger] defs[i]).cost == 0 && defs[i].max_amount == 0
}

/// Validate loaded card definitions: exactly the well-formedness the
/// simulation requires in [`defs_wf`]. A definition set this rejects is a
/// fatal load error for the caller.
pub fn check_defs(defs: &Vec<Card>) -> (r: bool)
    ensures
        r == defs_wf(defs@),
{
    let n: usize = defs.len();
    if n == 0 {
        return false;
    }
    let mut sound: bool = true;
    let mut evergreen: bool = false;
    let mut i: usize = 0;
    while i < n
        invariant
            n == defs@.len(),
            i <= n,
            sound == (forall|k: int|
                0 <= k < i ==> (#[trigger] defs@[k]).index == k && defs@[k].wf(
                    defs@.len() as int,
                )),
            evergreen == (exists|k: int|
                0 <= k < i && (#[trigger] defs@[k]).cost == 0 && defs@[k].max_amount == 0),
        decreases n - i,
    {
        let c: &Card = &defs[i];
        if !(c.index == i && -CFG_MAX <= c.value && c.value <= CFG_MAX) {
            sound = false;
        }
        if c.cost == 0 && c.max_amount == 0 {
            evergreen = true;
        }
        i = i + 1;
    }
    sound && evergreen
}

/// The whole simulation state.
#[derive(Debug)]
pub struct GameState {
    pub phase: Phase,
    /// Launch angle, swept while aiming.
    pub initial_angle: i64,
    /// Direction of the launch-angle and launch-speed sweeps: one or minus one.
    pub sign: i64,
    /// Launch speed, swept while powering.
    pub initial_speed: i64,
    /// Trajectory position; meaningful from launch onward.
    pub pos: Vec2,
    /// Trajectory velocity.
    pub vel: Vec2,
    /// Cosmetic rotation of the projectile sprite.
    pub rot: i64,
    /// Money, earned by pickups, spent on cards.
    pub money: u64,
    /// The boost meter value.
    pub boost: i64,
    /// Direction of the boost meter sweep: one or minus one.
    pub boost_sign: i64,
    /// Cooldown before the next boost may trigger.
    pub boost_delay: i64,
    /// Countdown until the shop auto-skips.
    pub buy_timeout: i64,
    /// Continuously cycling selector over the three card slots.
    pub buy_item: i64,
    pub trees: Vec<Object>,
    pub clouds: Vec<Object>,
    pub disks: Vec<Object>,
    pub rocks: Vec<Object>,
    pub particles: Vec<Particle>,
    /// The three cards currently offered, re-rolled at each shop entry.
    pub card_options: Vec<Card>,
    /// The global card definitions, one per slot.
    pub card_defs: Vec<Card>,
    /// Purchase count per card definition.
    pub selected_cards: Vec<u64>,
    /// Accumulated launch-speed bonus from purchased cards.
    pub extra_initial_speed: i64,
    /// Accumulated gravity modifier from purchased cards.
    pub extra_gravity: i64,
    /// Countdown from the end of a run back to the shop.
    pub dead_timeout: i64,
    /// Best distance reached over the session.
    pub max_distance: i64,
}

impl GameState {
    /// The offered card copies the definition it names.
    pub open spec fn option_ok(self, c: Card) -> bool {
        &&& c.index < self.card_defs@.len()
        &&& c.target == self.card_defs@[c.index as int].target
        &&& c.value == self.card_defs@[c.index as int].value
        &&& c.cost == self.card_defs@[c.index as int].cost
        &&& c.max_amount == self.card_defs@[c.index as int].max_amount
    }

    /// The offered card's definition is not yet purchased up to its cap.
    pub open spec fn option_purchasable(self, c: Card) -> bool {
        c.max_amount == 0 || self.selected_cards@[c.index as int] < c.max_amount
    }

    /// The card offer slots: exactly three, each a copy of a definition,
    /// and, while the shop is open, none already at its purchase cap and
    /// each still affordable (offers are drawn from affordable definitions,
    /// and money only grows while the shop is open).
    pub open spec fn options_ok(self) -> bool {
        &&& self.card_options@.len() == CARDS
        &&& forall|i: int|
            0 <= i < self.card_options@.len() ==> self.option_ok(#[trigger] self.card_options@[i])
        &&& (self.phase == Phase::Buy ==> forall|i: int|
            0 <= i < self.card_options@.len() ==> self.option_purchasable(
                #[trigger] self.card_options@[i],
            ))
        &&& (self.phase == Phase::Buy ==> forall|i: int|
            0 <= i < self.card_options@.len() ==> (#[trigger] self.card_options@[i]).cost
                <= self.money)
    }

    /// Everything except the card offer slots: all quantities within their
    /// representable ranges, the collections well-formed, the definitions
    /// sound, and no purchase count past its cap.
    pub open spec fn wf_core(self) -> bool {
        &&& (self.sign == 1 || self.sign == -1)
        &&& (self.boost_sign == 1 || self.boost_sign == -1)
        &&& abs_i(self.initial_angle as int) <= OSC_CAP
        &&& abs_i(self.initial_speed as int) <= OSC_CAP
        &&& self.pos.bounded(POS_CAP as int)
        &&& self.vel.bounded(VEL_CAP as int)
        &&& abs_i(self.rot as int) <= ROT_CAP
        &&& 0 <= self.boost <= 3 * CFG_MAX
        &&& abs_i(self.boost_delay as int) <= OSC_CAP
        &&& abs_i(self.buy_timeout as int) <= OSC_CAP
        &&& 0 <= self.buy_item <= OSC_CAP
        &&& abs_i(self.dead_timeout as int) <= OSC_CAP
        &&& 0 <= self.max_distance <= POS_CAP
        &&& abs_i(self.extra_initial_speed as int) <= EXTRA_MAX
        &&& abs_i(self.extra_gravity as int) <= EXTRA_MAX
        &&& crate::object::all_wf(self.trees@)
        &&& crate::object::all_wf(self.clouds@)
        &&& crate::object::all_wf(self.disks@)
        &&& crate::object::all_wf(self.rocks@)
        &&& particles_all_wf(self.particles@)
        &&& defs_wf(self.card_defs@)
        &&& self.selected_cards@.len() == self.card_defs@.len()
        &&& forall|i: int|
            0 <= i < self.card_defs@.len() && (#[trigger] self.card_defs@[i]).max_amount > 0
                ==> self.selected_cards@[i] <= self.card_defs@[i].max_amount
    }

    /// The state invariant: established by construction, preserved by every
    /// tick.
    pub open spec fn wf(self) -> bool {
        self.wf_core() && self.options_ok()
    }

    /// Construct the game state: the shop open on fresh offers, the
    /// oscillators at their minima, the world spawned from the templates,
    /// and every counter at zero.
    pub fn new(
        settings: &Settings,
        card_defs: Vec<Card>,
        trees: &ObjectsSpawner,
        clouds: &ObjectsSpawner,
        disks: &ObjectsSpawner,
        rocks: &ObjectsSpawner,
    ) -> (r: GameState)
        requires
            settings.wf(),
            defs_wf(card_defs@),
            trees.wf(),
            clouds.wf(),
            disks.wf(),
            rocks.wf(),
        ensures
            r.wf(),
            r.phase == Phase::Buy,
            r.initial_angle == settings.min_angle,
            r.initial_speed == settings.min_speed,
            r.sign == 1,
            r.boost_sign == 1,
            r.pos == (Vec2 { x: 0, y: 0 }),
            r.vel == (Vec2 { x: 0, y: 0 }),
            r.rot == 0,
            r.money == 0,
            r.boost == 0,
            r.boost_delay == 0,
            r.buy_timeout == settings.buy_time,
            0 <= r.buy_item < 3 * SCALE,
            r.extra_initial_speed == 0,
            r.extra_gravity == 0,
            r.dead_timeout == 0,
            r.max_distance == 0,
            r.card_defs@ == card_defs@,
            r.selected_cards@.len() == card_defs@.len(),
            forall|i: int| 0 <= i < r.selected_cards@.len() ==> r.selected_cards@[i] == 0,
            r.trees@.len() == trees.amount,
            r.clouds@.len() == clouds.amount,
            r.disks@.len() == disks.amount,
            r.rocks@.len() == rocks.amount,
            r.particles@.len() == 0,
    {
        let ndefs: usize = card_defs.len();
        let mut selected_cards: Vec<u64> = Vec::new();
        let mut k: usize = 0;
        while k < ndefs
            invariant
                k <= ndefs,
                selected_cards@.len() == k,
                forall|i: int| 0 <= i < selected_cards@.len() ==> selected_cards@[i] == 0,
            decreases ndefs - k,
        {
            selected_cards.push(0);
            k = k + 1;
        }
        let mut card_options: Vec<Card> = Vec::new();
        card_options.push(Card::default());
        card_options.push(Card::default());
        card_options.push(Card::default());
        let mut state: GameState = GameState {
            phase: Phase::Buy,
            initial_angle: settings.min_angle,
            initial_speed: settings.min_speed,
            extra_initial_speed: 0,
            buy_timeout: settings.buy_time,
            particles: Vec::new(),
            pos: Vec2 { x: 0, y: 0 },
            vel: Vec2 { x: 0, y: 0 },
            rot: 0,
            money: 0,
            sign: 1,
            boost: 0,
            boost_sign: 1,
            boost_delay: 0,
            buy_item: 0,
            trees: trees.to_objects(),
            clouds: clouds.to_objects(),
            disks: disks.to_objects(),
            rocks: rocks.to_objects(),
            card_options,
            card_defs,
            selected_cards,
            extra_gravity: 0,
            dead_timeout: 0,
            max_distance: 0,
        };
        state.switch_to_buy(settings);
        state
    }

    /// Open the shop: reset the countdown and the slot selector, re-roll the
    /// three card offers from the current money and purchase counts, park
    /// the two oscillators at their minima, and respawn the backdrop.
    fn switch_to_buy(&mut self, settings: &Settings)
        requires
            old(self).wf_core(),
            settings.wf(),
        ensures
            final(self).wf(),
            final(self).phase == Phase::Buy,
            final(self).buy_timeout == settings.buy_time,
            0 <= final(self).buy_item < 3 * SCALE,
            final(self).initial_angle == settings.min_angle,
            final(self).initial_speed == settings.min_speed,
            final(self).money == old(self).money,
            final(self).selected_cards == old(self).selected_cards,
            final(self).card_defs == old(self).card_defs,
            final(self).extra_initial_speed == old(self).extra_initial_speed,
            final(self).extra_gravity == old(self).extra_gravity,
            final(self).max_distance == old(self).max_distance,
            final(self).pos == old(self).pos,
            final(self).vel == old(self).vel,
            final(self).rot == old(self).rot,
            final(self).sign == old(self).sign,
            final(self).boost == old(self).boost,
            final(self).boost_sign == old(self).boost_sign,
            final(self).boost_delay == old(self).boost_delay,
            final(self).dead_timeout == old(self).dead_timeout,
            final(self).disks@ == old(self).disks@,
            final(self).rocks@ == old(self).rocks@,
            final(self).particles@ == old(self).particles@,
            final(self).trees@.len() == old(self).trees@.len(),
            final(self).clouds@.len() == old(self).clouds@.len(),
            forall|i: int| 0 <= i < final(self).trees@.len() ==> {
                &&& Object::same_but_pos(old(self).trees@[i], #[trigger] final(self).trees@[i])
                &&& Object::reset_post(
                    old(self).trees@[i],
                    final(self).trees@[i],
                    Vec2 { x: 0, y: 0 },
                    Vec2 { x: 0, y: 0 },
                )
            },
            forall|i: int| 0 <= i < final(self).clouds@.len() ==> {
                &&& Object::same_but_pos(old(self).clouds@[i], #[trigger] final(self).clouds@[i])
                &&& Object::reset_post(
                    old(self).clouds@[i],
                    final(self).clouds@[i],
                    Vec2 { x: 0, y: 0 },
                    Vec2 { x: 0, y: 0 },
                )
            },
    {
        self.phase = Phase::Buy;
        self.buy_timeout = settings.buy_time;
        self.buy_item = random_fx(0, 3 * SCALE - 1);
        self.initial_angle = settings.min_angle;
        self.initial_speed = settings.min_speed;

        crate::object::reset_all(&mut self.trees);
        crate::object::reset_all(&mut self.clouds);

        let mut options: Vec<Card> = Vec::new();
        let mut k: usize = 0;
        while k < CARDS
            invariant
                old(self).wf_core(),
                k <= CARDS,
                options@.len() == k,
                self.card_defs@ == old(self).card_defs@,
                self.selected_cards@ == old(self).selected_cards@,
                self.money == old(self).money,
                forall|i2: int| 0 <= i2 < options@.len() ==> self.option_ok(
                    #[trigger] options@[i2],
                ),
                forall|i2: int| 0 <= i2 < options@.len() ==> self.option_purchasable(
                    #[trigger] options@[i2],
                ),
                forall|i2: int| 0 <= i2 < options@.len() ==> (#[trigger] options@[i2]).cost
                    <= self.money,
            decreases CARDS - k,
        {
            match Card::random(&self.card_defs, self.money, &self.selected_cards) {
                Some(c) => {
                    options.push(c);
                }
                None => {
                    proof {
                        let ghost e = choose|i2: int|
                            0 <= i2 < self.card_defs@.len()
                                && (#[trigger] self.card_defs@[i2]).cost == 0
                                && self.card_defs@[i2].max_amount == 0;
                        assert(self.card_defs@[e].eligible(self.money, self.selected_cards@));
                        assert(false);
                    }
                }
            }
            k = k + 1;
        }
        self.card_options = options;
    }
}

/// The card slot the cycling selector currently highlights: the whole part
/// of the selector, clamped to the three slots.
pub open spec fn buy_index_i(buy_item: int) -> int {
    clamp_i(buy_item / (SCALE as int), 0, 2)
}

/// The card slot the cycling selector currently highlights, exact to
/// [`buy_index_i`].
pub fn buy_index(buy_item: i64) -> (r: usize)
    requires
        0 <= buy_item,
    ensures
        r as int == buy_index_i(buy_item as int),
        r < 3,
{
    let q: u64 = (buy_item as u64) / (SCALE as u64);
    if q >= 2 {
        2
    } else {
        q as usize
    }
}

/// The horizontal velocity after the Fly integration step: damped by air
/// friction.
pub open spec fn fly_vel_x(g: GameState, s: &Settings) -> int {
    fx_mul_i(g.vel.x as int, s.air_friction as int)
}

/// The vertical velocity after the Fly integration step: pulled by gravity
/// and the card-driven gravity modifier, then damped by air friction.
pub open spec fn fly_vel_y(g: GameState, s: &Settings, dt: int) -> int {
    fx_mul_i(
        clamp_i(
            g.vel.y + fx_mul_i(s.gravity + g.extra_gravity, dt),
            -VEL_CAP as int,
            VEL_CAP as int,
        ),
        s.air_friction as int,
    )
}

/// The horizontal position after the Fly integration step.
pub open spec fn fly_pos_x(g: GameState, dt: int) -> int {
    clamp_i(g.pos.x + fx_mul_i(g.vel.x as int, dt), -POS_CAP as int, POS_CAP as int)
}

/// The vertical position after the Fly integration step.
pub open spec fn fly_pos_y(g: GameState, dt: int) -> int {
    clamp_i(g.pos.y + fx_mul_i(g.vel.y as int, dt), -POS_CAP as int, POS_CAP as int)
}

/// The cosmetic rotation after the Fly integration step, driven by the
/// damped velocity, the vertical part clamped.
pub open spec fn fly_rot(g: GameState, s: &Settings, dt: int) -> int {
    clamp_i(
        g.rot + fx_mul_i(
            fx_mul_i(fly_vel_x(g, s), s.rot_factor.x as int) + fx_mul_i(
                clamp_i(fly_vel_y(g, s, dt), -s.rot_y_clamp as int, s.rot_y_clamp as int),
                s.rot_factor.y as int,
            ),
            dt,
        ),
        -ROT_CAP as int,
        ROT_CAP as int,
    )
}

/// The boost meter before its bound check.
pub open spec fn meter_raw(g: GameState, s: &Settings, dt: int) -> int {
    g.boost + g.boost_sign * fx_mul_i(s.boost_meter_speed as int, dt)
}

/// The boost meter after one sweep step, clamped to the bound it overshot.
pub open spec fn meter_value(g: GameState, s: &Settings, dt: int) -> int {
    let raw = meter_raw(g, s, dt);
    if raw >= s.meter_total() {
        s.meter_total()
    } else if raw <= 0 {
        0
    } else {
        raw
    }
}

/// The boost meter sweep direction after one step.
pub open spec fn meter_sign(g: GameState, s: &Settings, dt: int) -> int {
    let raw = meter_raw(g, s, dt);
    if raw >= s.meter_total() {
        -1
    } else if raw <= 0 {
        1
    } else {
        g.boost_sign as int
    }
}

/// The boost cooldown after one tick: it counts down only while positive.
pub open spec fn delay_after(g: GameState, dt: int) -> int {
    if g.boost_delay > 0 {
        g.boost_delay - dt
    } else {
        g.boost_delay as int
    }
}

/// The velocity multiplier each boost zone pays out.
pub open spec fn zone_mult(s: &Settings, z: BoostZone) -> Vec2 {
    match z {
        BoostZone::Crit => s.boost_crit,
        BoostZone::Safe => s.boost_safe,
        BoostZone::Penalty => s.boost_penalty,
    }
}

/// The velocity after a boost triggers at meter value `b`: each component
/// multiplied by the zone's factor and capped above by the configured
/// maximum (the cap is one-sided, so a factor under one legitimately slows
/// the projectile); then, for an amplifying zone whose result is fast
/// enough, a flat static bonus on top, its vertical part signed like the
/// vertical velocity.
pub open spec fn boosted_vel(vx: int, vy: int, b: int, s: &Settings) -> (int, int) {
    let m = zone_mult(s, boost_zone_i(b, s.boost_meter_penalty_area as int,
        s.boost_meter_safe_area as int));
    let bx = clamp_i(
        min_i(fx_mul_i(vx, m.x as int), s.max_boost_velocity.x as int),
        -VEL_CAP as int,
        VEL_CAP as int,
    );
    let by = clamp_i(
        min_i(fx_mul_i(vy, m.y as int), s.max_boost_velocity.y as int),
        -VEL_CAP as int,
        VEL_CAP as int,
    );
    if m.x > SCALE && bx * bx + by * by > s.static_velocity_boost_treshold as int
        * s.static_velocity_boost_treshold as int {
        (
            clamp_i(bx + s.static_velocity_boost.x, -VEL_CAP as int, VEL_CAP as int),
            clamp_i(
                by + (if by < 0 {
                    -s.static_velocity_boost.y as int
                } else {
                    s.static_velocity_boost.y as int
                }),
                -VEL_CAP as int,
                VEL_CAP as int,
            ),
        )
    } else {
        (bx, by)
    }
}

/// Both velocity components under the configured halting threshold.
pub open spec fn halted(vx: int, vy: int, s: &Settings) -> bool {
    abs_i(vx) < s.halting_velocity.x && abs_i(vy) < s.halting_velocity.y
}

/// What one shop tick guarantees, relative to the state the step saw.
pub open spec fn step_buy_post(o: GameState, n: GameState, released: bool, s: &Settings, dt: int) -> bool {
    &&& (n.buy_timeout == clamp_i(
                o.buy_timeout - dt,
                -OSC_CAP as int,
                OSC_CAP as int,
            ))
    &&& (n.pos == (Vec2 { x: 0, y: 0 }))
    &&& (n.vel == (Vec2 { x: 0, y: 0 }))
    &&& (n.rot == 0)
    &&& (n.buy_item == ({
                let adv = clamp_i(
                    o.buy_item + fx_mul_i(s.buy_speed as int, dt),
                    -OSC_CAP as int,
                    OSC_CAP as int,
                );
                if adv >= 3 * SCALE {
                    adv - 3 * SCALE
                } else {
                    adv
                }
            }))
    &&& (({
                let timed_out = o.buy_timeout - dt <= 0;
                let idx = buy_index_i(o.buy_item as int);
                let c = o.card_options@[idx];
                if timed_out {
                    &&& n.phase == Phase::LaunchSetAngle
                    &&& n.money == o.money
                    &&& n.selected_cards@ == o.selected_cards@
                    &&& n.extra_initial_speed == o.extra_initial_speed
                    &&& n.extra_gravity == o.extra_gravity
                } else if released {
                    &&& n.phase == Phase::LaunchSetAngle
                    &&& (c.cost > o.money ==> n.money == o.money
                        && n.selected_cards@ == o.selected_cards@
                        && n.extra_initial_speed == o.extra_initial_speed
                        && n.extra_gravity == o.extra_gravity)
                    &&& (c.cost <= o.money ==> {
                        let i = c.index as int;
                        let s0 = o.selected_cards@[i];
                        &&& n.money == o.money - c.cost
                        &&& n.selected_cards@ == o.selected_cards@.update(
                            i,
                            if s0 == u64::MAX {
                                s0
                            } else {
                                (s0 + 1) as u64
                            },
                        )
                        &&& n.extra_initial_speed == (if c.target
                            == CardTarget::InitialSpeed {
                            clamp_i(
                                o.extra_initial_speed + c.value,
                                -EXTRA_MAX as int,
                                EXTRA_MAX as int,
                            ) as i64
                        } else {
                            o.extra_initial_speed
                        })
                        &&& n.extra_gravity == (if c.target == CardTarget::Gravity {
                            clamp_i(
                                o.extra_gravity + c.value,
                                -EXTRA_MAX as int,
                                EXTRA_MAX as int,
                            ) as i64
                        } else {
                            o.extra_gravity
                        })
                    })
                } else {
                    &&& n.phase == Phase::Buy
                    &&& n.money == o.money
                    &&& n.selected_cards@ == o.selected_cards@
                    &&& n.extra_initial_speed == o.extra_initial_speed
                    &&& n.extra_gravity == o.extra_gravity
                }
            }))
    &&& (n.initial_angle == o.initial_angle)
    &&& (n.initial_speed == o.initial_speed)
    &&& (n.sign == o.sign)
    &&& (n.boost == o.boost)
    &&& (n.boost_sign == o.boost_sign)
    &&& (n.boost_delay == o.boost_delay)
    &&& (n.dead_timeout == o.dead_timeout)
    &&& (n.max_distance == o.max_distance)
    &&& (n.trees@ == o.trees@)
    &&& (n.clouds@ == o.clouds@)
    &&& (n.disks@ == o.disks@)
    &&& (n.rocks@ == o.rocks@)
    &&& (n.particles@ == o.particles@)
    &&& (n.card_options@ == o.card_options@)
    &&& (n.card_defs@ == o.card_defs@)
}

/// What one aiming tick guarantees.
pub open spec fn step_launch_angle_post(o: GameState, n: GameState, released: bool, s: &Settings, dt: int) -> bool {
    &&& (n.phase == (if released {
                Phase::LaunchSetSpeed
            } else {
                Phase::LaunchSetAngle
            }))
    &&& (({
                let s0: i64 = if released {
                    1i64
                } else {
                    o.sign
                };
                let v = clamp_i(
                    o.initial_angle + s0 * fx_mul_i(s.angle_delta as int, dt),
                    -OSC_CAP as int,
                    OSC_CAP as int,
                );
                &&& n.initial_angle == v
                &&& n.sign == (if v >= s.max_angle {
                    -1i64
                } else if v <= s.min_angle {
                    1i64
                } else {
                    s0
                })
            }))
    &&& (n.pos == (Vec2 { x: 0, y: 0 }))
    &&& (n.vel == (Vec2 { x: 0, y: 0 }))
    &&& (n.rot == 0)
    &&& (n.money == o.money)
    &&& (n.initial_speed == o.initial_speed)
    &&& (n.boost == o.boost)
    &&& (n.boost_sign == o.boost_sign)
    &&& (n.boost_delay == o.boost_delay)
    &&& (n.buy_timeout == o.buy_timeout)
    &&& (n.buy_item == o.buy_item)
    &&& (n.dead_timeout == o.dead_timeout)
    &&& (n.max_distance == o.max_distance)
    &&& (n.extra_initial_speed == o.extra_initial_speed)
    &&& (n.extra_gravity == o.extra_gravity)
    &&& (n.selected_cards@ == o.selected_cards@)
    &&& (n.trees@ == o.trees@)
    &&& (n.clouds@ == o.clouds@)
    &&& (n.disks@ == o.disks@)
    &&& (n.rocks@ == o.rocks@)
    &&& (n.particles@ == o.particles@)
    &&& (n.card_options@ == o.card_options@)
    &&& (n.card_defs@ == o.card_defs@)
}

/// What one powering tick guarantees.
pub open spec fn step_launch_speed_post(o: GameState, n: GameState, released: bool, s: &Settings, dt: int) -> bool {
    &&& (n.phase == (if released {
                Phase::Fly
            } else {
                Phase::LaunchSetSpeed
            }))
    &&& (({
                let sp = o.initial_speed + o.extra_initial_speed;
                released ==> n.vel.x == clamp_i(
                    fx_mul_i(cos_i(o.initial_angle as int), sp),
                    -VEL_CAP as int,
                    VEL_CAP as int,
                ) && n.vel.y == clamp_i(
                    fx_mul_i(sin_i(o.initial_angle as int), sp),
                    -VEL_CAP as int,
                    VEL_CAP as int,
                ) && n.boost_delay == s.boost_delay
            }))
    &&& (!released ==> n.vel == o.vel && n.boost_delay == o.boost_delay)
    &&& (({
                let s0: i64 = if released {
                    1i64
                } else {
                    o.sign
                };
                let v = clamp_i(
                    o.initial_speed + s0 * fx_mul_i(s.speed_delta as int, dt),
                    -OSC_CAP as int,
                    OSC_CAP as int,
                );
                &&& n.initial_speed == v
                &&& n.sign == (if v >= s.max_speed {
                    -1i64
                } else if v <= s.min_speed {
                    1i64
                } else {
                    s0
                })
            }))
    &&& (n.pos == o.pos)
    &&& (n.rot == o.rot)
    &&& (n.money == o.money)
    &&& (n.initial_angle == o.initial_angle)
    &&& (n.boost == o.boost)
    &&& (n.boost_sign == o.boost_sign)
    &&& (n.buy_timeout == o.buy_timeout)
    &&& (n.buy_item == o.buy_item)
    &&& (n.dead_timeout == o.dead_timeout)
    &&& (n.max_distance == o.max_distance)
    &&& (n.extra_initial_speed == o.extra_initial_speed)
    &&& (n.extra_gravity == o.extra_gravity)
    &&& (n.selected_cards@ == o.selected_cards@)
    &&& (n.trees@ == o.trees@)
    &&& (n.clouds@ == o.clouds@)
    &&& (n.disks@ == o.disks@)
    &&& (n.rocks@ == o.rocks@)
    &&& (n.particles@ == o.particles@)
    &&& (n.card_options@ == o.card_options@)
    &&& (n.card_defs@ == o.card_defs@)
}

/// What one flight tick guarantees.
pub open spec fn step_fly_post(o: GameState, n: GameState, released: bool, s: &Settings, dt: int) -> bool {
    &&& (n.rot == fly_rot(o, s, dt))
    &&& (n.pos.x == fly_pos_x(o, dt))
    &&& (n.boost_sign == meter_sign(o, s, dt))
    &&& (({
                let trigger = delay_after(o, dt) <= 0 && released;
                &&& (!trigger ==> n.boost == meter_value(o, s, dt)
                    && n.boost_delay == delay_after(o, dt))
                &&& (trigger ==> 0 <= n.boost < s.meter_total()
                    && n.boost_delay == s.boost_delay)
            }))
    &&& (({
                let ivx = fly_vel_x(o, s);
                let ivy = fly_vel_y(o, s, dt);
                let ipy = fly_pos_y(o, dt);
                let trigger = delay_after(o, dt) <= 0 && released;
                let bv = if trigger {
                    boosted_vel(ivx, ivy, meter_value(o, s, dt), s)
                } else {
                    (ivx, ivy)
                };
                let vx = bv.0;
                let vy = bv.1;
                if ipy > 0 {
                    if halted(vx, vy, s) {
                        &&& n.phase == Phase::Dead
                        &&& n.dead_timeout == s.dead_wait_time
                        &&& n.pos.y == ipy
                        &&& n.vel.x == vx
                        &&& n.vel.y == vy
                    } else {
                        &&& n.phase == Phase::Fly
                        &&& n.dead_timeout == o.dead_timeout
                        &&& n.pos.y == 0
                        &&& n.vel.x == fx_mul_i(vx, s.restitution.x as int)
                        &&& n.vel.y == -fx_mul_i(abs_i(vy), s.restitution.y as int)
                    }
                } else {
                    &&& n.phase == Phase::Fly
                    &&& n.dead_timeout == o.dead_timeout
                    &&& n.pos.y == ipy
                    &&& n.vel.x == vx
                    &&& n.vel.y == vy
                }
            }))
    &&& (n.money == o.money)
    &&& (n.initial_angle == o.initial_angle)
    &&& (n.initial_speed == o.initial_speed)
    &&& (n.sign == o.sign)
    &&& (n.buy_timeout == o.buy_timeout)
    &&& (n.buy_item == o.buy_item)
    &&& (n.max_distance == o.max_distance)
    &&& (n.extra_initial_speed == o.extra_initial_speed)
    &&& (n.extra_gravity == o.extra_gravity)
    &&& (n.selected_cards@ == o.selected_cards@)
    &&& (n.trees@ == o.trees@)
    &&& (n.clouds@ == o.clouds@)
    &&& (n.disks@ == o.disks@)
    &&& (n.rocks@ == o.rocks@)
    &&& (n.card_options@ == o.card_options@)
    &&& (n.card_defs@ == o.card_defs@)
    &&& (particles_all_wf(n.particles@))
    &&& ({
        let trigger = delay_after(o, dt) <= 0 && released;
        let zone = boost_zone_i(
            meter_value(o, s, dt),
            s.boost_meter_penalty_area as int,
            s.boost_meter_safe_area as int,
        );
        let crit_n: int = if trigger && zone == BoostZone::Crit {
            s.crit_particle_amount as int
        } else {
            0
        };
        let ivx = fly_vel_x(o, s);
        let ivy = fly_vel_y(o, s, dt);
        let bv = if trigger {
            boosted_vel(ivx, ivy, meter_value(o, s, dt), s)
        } else {
            (ivx, ivy)
        };
        let bounce_n: int = if fly_pos_y(o, dt) > 0 && !halted(bv.0, bv.1, s) {
            s.bounce_particle_amount as int
        } else {
            0
        };
        &&& n.particles@.len() == o.particles@.len() + crit_n + bounce_n
        &&& (forall|j: int| 0 <= j < o.particles@.len() ==> n.particles@[j] == o.particles@[j])
        &&& (forall|j: int| o.particles@.len() <= j < o.particles@.len() + crit_n ==> {
            let p = #[trigger] n.particles@[j];
            p.color == Color::DarkGreen && p.pos == s.player_offset && !p.affected_by_world
                && p.life == s.crit_particle_life
        })
        &&& (forall|j: int| o.particles@.len() + crit_n <= j < n.particles@.len() ==> {
            let p = #[trigger] n.particles@[j];
            p.color == Color::Green && p.pos == s.player_offset && p.affected_by_world
                && p.life == s.bounce_particle_life
        })
    })
}

/// What one run-over tick guarantees.
pub open spec fn step_dead_post(o: GameState, n: GameState, s: &Settings, dt: int) -> bool {
    &&& (n.dead_timeout == clamp_i(
                o.dead_timeout - dt,
                -OSC_CAP as int,
                OSC_CAP as int,
            ))
    &&& (n.money == o.money)
    &&& (n.selected_cards@ == o.selected_cards@)
    &&& (n.card_defs@ == o.card_defs@)
    &&& (n.extra_initial_speed == o.extra_initial_speed)
    &&& (n.extra_gravity == o.extra_gravity)
    &&& (n.pos == o.pos)
    &&& (n.vel == o.vel)
    &&& (n.rot == o.rot)
    &&& (n.disks@ == o.disks@)
    &&& (n.rocks@ == o.rocks@)
    &&& (n.particles@ == o.particles@)
    &&& (({
                if o.dead_timeout - dt <= 0 {
                    &&& n.phase == Phase::Buy
                    &&& n.buy_timeout == s.buy_time
                    &&& 0 <= n.buy_item < 3 * SCALE
                    &&& n.initial_angle == s.min_angle
                    &&& n.initial_speed == s.min_speed
                    &&& n.max_distance == (if o.pos.x > o.max_distance {
                        o.pos.x
                    } else {
                        o.max_distance
                    })
                    &&& n.trees@.len() == o.trees@.len()
                    &&& n.clouds@.len() == o.clouds@.len()
                    &&& (forall|i: int| 0 <= i < n.trees@.len() ==> {
                        &&& Object::same_but_pos(o.trees@[i], #[trigger] n.trees@[i])
                        &&& Object::reset_post(
                            o.trees@[i],
                            n.trees@[i],
                            Vec2 { x: 0, y: 0 },
                            Vec2 { x: 0, y: 0 },
                        )
                    })
                    &&& (forall|i: int| 0 <= i < n.clouds@.len() ==> {
                        &&& Object::same_but_pos(o.clouds@[i], #[trigger] n.clouds@[i])
                        &&& Object::reset_post(
                            o.clouds@[i],
                            n.clouds@[i],
                            Vec2 { x: 0, y: 0 },
                            Vec2 { x: 0, y: 0 },
                        )
                    })
                } else {
                    &&& n.phase == Phase::Dead
                    &&& n.max_distance == o.max_distance
                    &&& n.buy_timeout == o.buy_timeout
                    &&& n.buy_item == o.buy_item
                    &&& n.initial_angle == o.initial_angle
                    &&& n.initial_speed == o.initial_speed
                    &&& n.card_options@ == o.card_options@
                    &&& n.trees@ == o.trees@
                    &&& n.clouds@ == o.clouds@
                }
            }))
}

/// What the disk pass guarantees, relative to the scrolled disk batch it
/// tested: each disk's collider is checked against the player's at its
/// post-scroll position; every overlapping disk pays one money (saturating)
/// and respawns, every other disk stays put.
pub open spec fn scene_disks_post(
    o: GameState,
    n: GameState,
    scrolled: Seq<Object>,
    s: &Settings,
    dt: int,
) -> bool {
    &&& scrolled.len() == o.disks@.len()
    &&& forall|i: int| 0 <= i < scrolled.len()
        ==> Object::same_but_pos(o.disks@[i], #[trigger] scrolled[i])
    &&& forall|i: int| 0 <= i < scrolled.len()
        ==> Object::scroll_post(o.disks@[i], #[trigger] scrolled[i], o.pos, o.vel, s.player_offset, dt)
    &&& n.money == min_i(
        o.money + count_overlapping(scrolled, s.player_collider),
        u64::MAX as int,
    )
    &&& n.disks@.len() == scrolled.len()
    &&& forall|i: int| 0 <= i < scrolled.len()
        ==> Object::same_but_pos(#[trigger] scrolled[i], n.disks@[i])
    &&& forall|i: int| 0 <= i < scrolled.len()
        ==> (if crate::geom::rects_overlap(object_rect(#[trigger] scrolled[i]), s.player_collider) {
            Object::reset_post(scrolled[i], n.disks@[i], o.pos, o.vel)
        } else {
            n.disks@[i] == scrolled[i]
        })
}

/// What the per-tick world pass guarantees: the simulation fields are
/// untouched, all objects take one scroll step, particles live out one tick
/// with the dead ones culled, and the disk pickups pay out exactly one
/// money per overlap, as [`scene_disks_post`] states of the scrolled batch.
pub open spec fn scene_post(o: GameState, n: GameState, s: &Settings, dt: int) -> bool {
    &&& (n.phase == o.phase)
    &&& (n.initial_angle == o.initial_angle)
    &&& (n.initial_speed == o.initial_speed)
    &&& (n.sign == o.sign)
    &&& (n.pos == o.pos)
    &&& (n.vel == o.vel)
    &&& (n.rot == o.rot)
    &&& (n.boost == o.boost)
    &&& (n.boost_sign == o.boost_sign)
    &&& (n.boost_delay == o.boost_delay)
    &&& (n.buy_timeout == o.buy_timeout)
    &&& (n.buy_item == o.buy_item)
    &&& (n.dead_timeout == o.dead_timeout)
    &&& (n.max_distance == o.max_distance)
    &&& (n.extra_initial_speed == o.extra_initial_speed)
    &&& (n.extra_gravity == o.extra_gravity)
    &&& (n.selected_cards@ == o.selected_cards@)
    &&& (n.card_options@ == o.card_options@)
    &&& (n.card_defs@ == o.card_defs@)
    &&& (n.trees@.len() == o.trees@.len())
    &&& (n.clouds@.len() == o.clouds@.len())
    &&& (n.disks@.len() == o.disks@.len())
    &&& (n.rocks@.len() == o.rocks@.len())
    &&& (forall|i: int| 0 <= i < n.trees@.len()
                ==> Object::scroll_post(
                    o.trees@[i],
                    #[trigger] n.trees@[i],
                    o.pos,
                    o.vel,
                    s.player_offset,
                    dt,
                ))
    &&& (forall|i: int| 0 <= i < n.clouds@.len()
                ==> Object::scroll_post(
                    o.clouds@[i],
                    #[trigger] n.clouds@[i],
                    o.pos,
                    o.vel,
                    s.player_offset,
                    dt,
                ))
    &&& (forall|i: int| 0 <= i < n.rocks@.len()
                ==> Object::scroll_post(
                    o.rocks@[i],
                    #[trigger] n.rocks@[i],
                    o.pos,
                    o.vel,
                    s.player_offset,
                    dt,
                ))
    &&& (o.money <= n.money)
    &&& (n.money <= o.money + o.disks@.len())
    &&& particles_all_wf(n.particles@)
    &&& exists|scrolled: Seq<Object>| #[trigger] scene_disks_post(o, n, scrolled, s, dt)
}

/// The active phase's step, as a relation from the state the step saw to
/// the state it left behind.
pub open spec fn phase_post(
    o: GameState,
    n: GameState,
    released: bool,
    s: &Settings,
    dt: int,
) -> bool {
    match o.phase {
        Phase::Buy => step_buy_post(o, n, released, s, dt),
        Phase::LaunchSetAngle => step_launch_angle_post(o, n, released, s, dt),
        Phase::LaunchSetSpeed => step_launch_speed_post(o, n, released, s, dt),
        Phase::Fly => step_fly_post(o, n, released, s, dt),
        Phase::Dead => step_dead_post(o, n, s, dt),
    }
}

/// One whole tick, split at the intermediate state `mid` between the world
/// pass and the phase step: in every phase but Dead the world pass runs
/// first (objects scroll, particles age, pickups pay out), then the active
/// phase's step takes the tick from `mid`.
pub open spec fn tick_post(
    o: GameState,
    mid: GameState,
    n: GameState,
    released: bool,
    s: &Settings,
    dt: int,
) -> bool {
    &&& (if o.phase == Phase::Dead {
        mid == o
    } else {
        scene_post(o, mid, s, dt)
    })
    &&& mid.phase == o.phase
    &&& phase_post(mid, n, released, s, dt)
}

/// Air friction is non-amplifying: each velocity component's magnitude, and
/// with it the squared magnitude of the whole velocity, cannot grow under
/// the per-tick friction multiply, whenever the friction factor is at most
/// one.
pub proof fn lemma_friction_non_amplifying(vx: int, vy: int, f: int)
    requires
        0 <= f <= SCALE,
    ensures
        abs_i(fx_mul_i(vx, f)) <= abs_i(vx),
        abs_i(fx_mul_i(vy, f)) <= abs_i(vy),
        abs_i(fx_mul_i(vx, f)) * abs_i(fx_mul_i(vx, f)) + abs_i(fx_mul_i(vy, f)) * abs_i(
            fx_mul_i(vy, f),
        ) <= abs_i(vx) * abs_i(vx) + abs_i(vy) * abs_i(vy),
{
    lemma_fx_mul_shrink(vx, f);
    lemma_fx_mul_shrink(vy, f);
    vstd::arithmetic::mul::lemma_mul_upper_bound(
        abs_i(fx_mul_i(vx, f)),
        abs_i(vx),
        abs_i(fx_mul_i(vx, f)),
        abs_i(vx),
    );
    vstd::arithmetic::mul::lemma_mul_upper_bound(
        abs_i(fx_mul_i(vy, f)),
        abs_i(vy),
        abs_i(fx_mul_i(vy, f)),
        abs_i(vy),
    );
}

/// A purchase count never exceeds its card's cap when the cap is set:
/// immediate from the state invariant, which construction establishes and
/// every tick preserves.
pub proof fn lemma_selected_cards_capped(g: GameState)
    requires
        g.wf(),
    ensures
        forall|i: int|
            0 <= i < g.card_defs@.len() && (#[trigger] g.card_defs@[i]).max_amount > 0
                ==> g.selected_cards@[i] <= g.card_defs@[i].max_amount,
{
}

/// Push `amount` fresh particles, sharing a position, base velocity, jitter
/// force, color, anchoring and lifetime; the existing particles stay as
/// they are.
fn spawn_particles(
    particles: &mut Vec<Particle>,
    amount: usize,
    pos: Vec2,
    vel: Vec2,
    force: i64,
    color: Color,
    affected_by_world: bool,
    life: i64,
)
    requires
        particles_all_wf(old(particles)@),
        pos.bounded(POS_CAP as int),
        vel.bounded(0x100000000000000),
        0 <= force <= CFG_MAX,
        abs_i(life as int) <= CFG_MAX,
    ensures
        final(particles)@.len() == old(particles)@.len() + amount,
        forall|j: int| 0 <= j < old(particles)@.len()
            ==> final(particles)@[j] == old(particles)@[j],
        forall|j: int| old(particles)@.len() <= j < final(particles)@.len() ==> {
            let p = #[trigger] final(particles)@[j];
            p.pos == pos && p.color == color && p.affected_by_world == affected_by_world
                && p.life == life
        },
        particles_all_wf(final(particles)@),
{
    let mut k: usize = 0;
    while k < amount
        invariant
            k <= amount,
            pos.bounded(POS_CAP as int),
            vel.bounded(0x100000000000000),
            0 <= force <= CFG_MAX,
            abs_i(life as int) <= CFG_MAX,
            particles@.len() == old(particles)@.len() + k,
            forall|j: int| 0 <= j < old(particles)@.len()
                ==> particles@[j] == old(particles)@[j],
            forall|j: int| old(particles)@.len() <= j < particles@.len() ==> {
                let p = #[trigger] particles@[j];
                p.pos == pos && p.color == color && p.affected_by_world == affected_by_world
                    && p.life == life
            },
            particles_all_wf(particles@),
        decreases amount - k,
    {
        let p: Particle = Particle::new(pos, vel, force, color, affected_by_world, life);
        particles.push(p);
        k = k + 1;
    }
}

/// One tick for every particle; only those that come out alive are kept.
fn retain_particles(particles: &mut Vec<Particle>, player_vel: Vec2, gravity: i64, dt: i64)
    requires
        particles_all_wf(old(particles)@),
        player_vel.bounded(VEL_CAP as int),
        abs_i(gravity as int) <= CFG_MAX,
        0 <= dt <= DT_MAX,
    ensures
        final(particles)@.len() <= old(particles)@.len(),
        particles_all_wf(final(particles)@),
        forall|j: int| 0 <= j < final(particles)@.len()
            ==> (#[trigger] final(particles)@[j]).alive(),
{
    let n: usize = particles.len();
    let mut kept: Vec<Particle> = Vec::new();
    let mut i: usize = 0;
    while i < n
        invariant
            n == particles@.len(),
            i <= n,
            particles_all_wf(particles@),
            player_vel.bounded(VEL_CAP as int),
            abs_i(gravity as int) <= CFG_MAX,
            0 <= dt <= DT_MAX,
            kept@.len() <= i,
            particles_all_wf(kept@),
            forall|j: int| 0 <= j < kept@.len() ==> (#[trigger] kept@[j]).alive(),
        decreases n - i,
    {
        let mut p: Particle = particles[i];
        let alive: bool = p.update(player_vel, gravity, dt);
        if alive {
            kept.push(p);
        }
        i = i + 1;
    }
    *particles = kept;
}

impl GameState {
    /// One shop tick: the countdown runs; at zero the shop auto-skips to
    /// aiming, and on a click it skips after purchasing the highlighted
    /// card; the trajectory is pinned at the origin; the slot selector
    /// advances and wraps around the three slots.
    pub fn step_buy(&mut self, released: bool, settings: &Settings, dt: i64)
        requires
            old(self).wf(),
            settings.wf(),
            0 < dt <= DT_MAX,
            old(self).phase == Phase::Buy,
        ensures
            final(self).wf(),
            step_buy_post(*old(self), *final(self), released, settings, dt as int),
    {
        let t: i64 = add_clamp(self.buy_timeout, -dt, OSC_CAP);
        self.buy_timeout = t;
        if t <= 0 {
            self.phase = Phase::LaunchSetAngle;
        } else if released {
            self.phase = Phase::LaunchSetAngle;
            let idx: usize = buy_index(self.buy_item);
            let card: Card = self.card_options[idx].clone();
            card.apply(self);
        }
        self.pos = Vec2 { x: 0, y: 0 };
        self.vel = Vec2 { x: 0, y: 0 };
        self.rot = 0;
        proof {
            lemma_fx_mul_abs_le(settings.buy_speed as int, dt as int, CFG_MAX as int, DT_MAX as int);
        }
        let adv: i64 = add_clamp(self.buy_item, fx_mul(settings.buy_speed, dt), OSC_CAP);
        self.buy_item = if adv >= 3 * SCALE {
            adv - 3 * SCALE
        } else {
            adv
        };
    }

    /// One aiming tick: on a click the game moves on to powering and the
    /// sweep direction resets forward; either way the launch angle sweeps
    /// on between its bounds and the trajectory stays pinned at the origin.
    pub fn step_launch_angle(&mut self, released: bool, settings: &Settings, dt: i64)
        requires
            old(self).wf(),
            settings.wf(),
            0 < dt <= DT_MAX,
            old(self).phase == Phase::LaunchSetAngle,
        ensures
            final(self).wf(),
            step_launch_angle_post(*old(self), *final(self), released, settings, dt as int),
    {
        if released {
            self.phase = Phase::LaunchSetSpeed;
            self.sign = 1;
        }
        let r: (i64, i64) = osc_step(
            self.initial_angle,
            self.sign,
            settings.min_angle,
            settings.max_angle,
            settings.angle_delta,
            dt,
        );
        self.initial_angle = r.0;
        self.sign = r.1;
        self.pos = Vec2 { x: 0, y: 0 };
        self.vel = Vec2 { x: 0, y: 0 };
        self.rot = 0;
    }

    /// One powering tick: on a click the projectile launches along the
    /// aimed angle at the swept speed plus the purchased bonus, the boost
    /// cooldown arms, and flight begins; either way the launch speed sweeps
    /// on between its bounds.
    pub fn step_launch_speed(&mut self, released: bool, settings: &Settings, dt: i64)
        requires
            old(self).wf(),
            settings.wf(),
            0 < dt <= DT_MAX,
            old(self).phase == Phase::LaunchSetSpeed,
        ensures
            final(self).wf(),
            step_launch_speed_post(*old(self), *final(self), released, settings, dt as int),
    {
        if released {
            self.phase = Phase::Fly;
            self.sign = 1;
            let sp: i64 = self.initial_speed + self.extra_initial_speed;
            let c: i64 = cos_fx(self.initial_angle);
            let s: i64 = sin_fx(self.initial_angle);
            proof {
                lemma_fx_mul_abs_le(
                    cos_i(self.initial_angle as int),
                    sp as int,
                    SCALE as int,
                    (OSC_CAP + EXTRA_MAX) as int,
                );
                lemma_fx_mul_abs_le(
                    sin_i(self.initial_angle as int),
                    sp as int,
                    SCALE as int,
                    (OSC_CAP + EXTRA_MAX) as int,
                );
            }
            self.vel.x = crate::fx::clamp(fx_mul(c, sp), -VEL_CAP, VEL_CAP);
            self.vel.y = crate::fx::clamp(fx_mul(s, sp), -VEL_CAP, VEL_CAP);
            self.boost_delay = settings.boost_delay;
        }
        let r: (i64, i64) = osc_step(
            self.initial_speed,
            self.sign,
            settings.min_speed,
            settings.max_speed,
            settings.speed_delta,
            dt,
        );
        self.initial_speed = r.0;
        self.sign = r.1;
    }

    /// One flight tick: an explicit Euler step of the trajectory under
    /// gravity, the card-driven gravity modifier and air friction, with the
    /// cosmetic rotation following the damped velocity; the boost meter
    /// sweeps and its cooldown counts down; a click with the cooldown spent
    /// pays out the meter's zone onto the velocity, re-rolls the meter at
    /// random and re-arms the cooldown; and a projectile back at ground
    /// level either bounces with restitution or, once slower than the
    /// halting threshold on both axes, ends the run.
    #[verifier::rlimit(80)]
    #[verifier::spinoff_prover]
    pub fn step_fly(&mut self, released: bool, settings: &Settings, dt: i64)
        requires
            old(self).wf(),
            settings.wf(),
            0 < dt <= DT_MAX,
            old(self).phase == Phase::Fly,
        ensures
            final(self).wf(),
            step_fly_post(*old(self), *final(self), released, settings, dt as int),
    {
        proof {
            lemma_fx_mul_abs_le(self.vel.x as int, dt as int, VEL_CAP as int, DT_MAX as int);
            lemma_fx_mul_abs_le(self.vel.y as int, dt as int, VEL_CAP as int, DT_MAX as int);
            lemma_fx_mul_abs_le(
                settings.gravity + self.extra_gravity,
                dt as int,
                (CFG_MAX + EXTRA_MAX) as int,
                DT_MAX as int,
            );
        }
        let gtot: i64 = settings.gravity + self.extra_gravity;
        let ipx: i64 = add_clamp(self.pos.x, fx_mul(self.vel.x, dt), POS_CAP);
        let ipy: i64 = add_clamp(self.pos.y, fx_mul(self.vel.y, dt), POS_CAP);
        let vy1: i64 = add_clamp(self.vel.y, fx_mul(gtot, dt), VEL_CAP);
        proof {
            lemma_fx_mul_shrink(self.vel.x as int, settings.air_friction as int);
            lemma_fx_mul_shrink(vy1 as int, settings.air_friction as int);
            lemma_fx_mul_abs_le(
                self.vel.x as int,
                settings.air_friction as int,
                VEL_CAP as int,
                SCALE as int,
            );
            lemma_fx_mul_abs_le(vy1 as int, settings.air_friction as int, VEL_CAP as int, SCALE as int);
        }
        let ivx: i64 = fx_mul(self.vel.x, settings.air_friction);
        let ivy: i64 = fx_mul(vy1, settings.air_friction);
        proof {
            lemma_fx_mul_abs_le(ivx as int, settings.rot_factor.x as int, VEL_CAP as int, CFG_MAX as int);
            lemma_fx_mul_abs_le(
                clamp_i(ivy as int, -settings.rot_y_clamp as int, settings.rot_y_clamp as int),
                settings.rot_factor.y as int,
                CFG_MAX as int,
                CFG_MAX as int,
            );
        }
        let rclamped: i64 = crate::fx::clamp(ivy, -settings.rot_y_clamp, settings.rot_y_clamp);
        let rterm: i64 = fx_mul(ivx, settings.rot_factor.x) + fx_mul(
            rclamped,
            settings.rot_factor.y,
        );
        proof {
            lemma_fx_mul_abs_le(rterm as int, dt as int, 0x800000000000, DT_MAX as int);
        }
        let rot1: i64 = add_clamp(self.rot, fx_mul(rterm, dt), ROT_CAP);
        self.pos.x = ipx;
        self.pos.y = ipy;
        self.vel.x = ivx;
        self.vel.y = ivy;
        self.rot = rot1;

        let total: i64 = settings.boost_meter_penalty_area + settings.boost_meter_safe_area
            + settings.boost_meter_crit_area;
        let m: (i64, i64) = meter_step(
            self.boost,
            self.boost_sign,
            settings.boost_meter_speed,
            total,
            dt,
        );
        self.boost = m.0;
        self.boost_sign = m.1;
        if self.boost_delay > 0 {
            self.boost_delay = self.boost_delay - dt;
        }

        if self.boost_delay <= 0 && released {
            let mult: Vec2 = if self.boost > settings.boost_meter_safe_area
                + settings.boost_meter_penalty_area {
                spawn_particles(
                    &mut self.particles,
                    settings.crit_particle_amount,
                    settings.player_offset,
                    Vec2 { x: 0, y: 0 },
                    settings.crit_particle_force,
                    Color::DarkGreen,
                    false,
                    settings.crit_particle_life,
                );
                settings.boost_crit
            } else if self.boost > settings.boost_meter_penalty_area {
                settings.boost_safe
            } else {
                settings.boost_penalty
            };
            proof {
                lemma_fx_mul_abs_le(self.vel.x as int, mult.x as int, VEL_CAP as int, CFG_MAX as int);
                lemma_fx_mul_abs_le(self.vel.y as int, mult.y as int, VEL_CAP as int, CFG_MAX as int);
            }
            let tx: i64 = fx_mul(self.vel.x, mult.x);
            let ty: i64 = fx_mul(self.vel.y, mult.y);
            let bx: i64 = crate::fx::clamp(
                if tx < settings.max_boost_velocity.x {
                    tx
                } else {
                    settings.max_boost_velocity.x
                },
                -VEL_CAP,
                VEL_CAP,
            );
            let by: i64 = crate::fx::clamp(
                if ty < settings.max_boost_velocity.y {
                    ty
                } else {
                    settings.max_boost_velocity.y
                },
                -VEL_CAP,
                VEL_CAP,
            );
            self.vel.x = bx;
            self.vel.y = by;
            if mult.x > SCALE {
                proof {
                    assert(0 <= (bx as int) * (bx as int) <= 0x10000000000000000
                        && 0 <= (by as int) * (by as int) <= 0x10000000000000000
                        && 0 <= (settings.static_velocity_boost_treshold as int)
                            * (settings.static_velocity_boost_treshold as int)
                            <= 0x10000000000000000) by (nonlinear_arith)
                        requires
                            -0x100000000i64 <= bx <= 0x100000000i64,
                            -0x100000000i64 <= by <= 0x100000000i64,
                            0 <= settings.static_velocity_boost_treshold <= 0x1000000i64;
                }
                let m2: i128 = (bx as i128) * (bx as i128) + (by as i128) * (by as i128);
                let t2: i128 = (settings.static_velocity_boost_treshold as i128)
                    * (settings.static_velocity_boost_treshold as i128);
                if m2 > t2 {
                    self.vel.x = add_clamp(bx, settings.static_velocity_boost.x, VEL_CAP);
                    let sy: i64 = if by < 0 {
                        -settings.static_velocity_boost.y
                    } else {
                        settings.static_velocity_boost.y
                    };
                    self.vel.y = add_clamp(by, sy, VEL_CAP);
                }
            }
            self.boost = random_fx(0, total - 1);
            self.boost_delay = settings.boost_delay;
        }

        if self.pos.y > 0 {
            if abs64(self.vel.x) < settings.halting_velocity.x && abs64(self.vel.y)
                < settings.halting_velocity.y {
                self.phase = Phase::Dead;
                self.dead_timeout = settings.dead_wait_time;
            } else {
                proof {
                    lemma_fx_mul_shrink(self.vel.x as int, settings.restitution.x as int);
                    lemma_fx_mul_shrink(abs_i(self.vel.y as int), settings.restitution.y as int);
                    lemma_fx_mul_abs_le(
                        self.vel.x as int,
                        settings.restitution.x as int,
                        VEL_CAP as int,
                        SCALE as int,
                    );
                    lemma_fx_mul_abs_le(
                        abs_i(self.vel.y as int),
                        settings.restitution.y as int,
                        VEL_CAP as int,
                        SCALE as int,
                    );
                }
                self.pos.y = 0;
                self.vel.x = fx_mul(self.vel.x, settings.restitution.x);
                self.vel.y = -fx_mul(abs64(self.vel.y), settings.restitution.y);
                proof {
                    lemma_fx_mul_abs_le(
                        self.vel.x as int,
                        settings.bounce_particle_vel_multiplier.x as int,
                        VEL_CAP as int,
                        CFG_MAX as int,
                    );
                    lemma_fx_mul_abs_le(
                        self.vel.y as int,
                        settings.bounce_particle_vel_multiplier.y as int,
                        VEL_CAP as int,
                        CFG_MAX as int,
                    );
                }
                let bvel: Vec2 = Vec2 {
                    x: fx_mul(self.vel.x, settings.bounce_particle_vel_multiplier.x),
                    y: fx_mul(self.vel.y, settings.bounce_particle_vel_multiplier.y),
                };
                spawn_particles(
                    &mut self.particles,
                    settings.bounce_particle_amount,
                    settings.player_offset,
                    bvel,
                    settings.bounce_particle_force,
                    Color::Green,
                    true,
                    settings.bounce_particle_life,
                );
            }
        }
    }

    /// One run-over tick: the countdown runs; at zero the best distance is
    /// recorded and the shop reopens.
    pub fn step_dead(&mut self, settings: &Settings, dt: i64)
        requires
            old(self).wf(),
            settings.wf(),
            0 < dt <= DT_MAX,
            old(self).phase == Phase::Dead,
        ensures
            final(self).wf(),
            step_dead_post(*old(self), *final(self), settings, dt as int),
    {
        let t: i64 = add_clamp(self.dead_timeout, -dt, OSC_CAP);
        self.dead_timeout = t;
        if t <= 0 {
            let m: i64 = if self.pos.x > self.max_distance {
                self.pos.x
            } else {
                self.max_distance
            };
            self.max_distance = m;
            self.switch_to_buy(settings);
        }
    }

    /// The per-tick pass over the scrolling world, run in every phase but
    /// Dead: all objects scroll, particles integrate and the dead ones are
    /// culled, and each disk pickup overlapping the player pays one money,
    /// bursts particles and respawns.
    fn scene_step(&mut self, settings: &Settings, dt: i64)
        requires
            old(self).wf(),
            settings.wf(),
            0 < dt <= DT_MAX,
        ensures
            final(self).wf(),
            scene_post(*old(self), *final(self), settings, dt as int),
    {
        let p: Vec2 = self.pos;
        let v: Vec2 = self.vel;
        crate::object::update_all(&mut self.clouds, p, v, settings.player_offset, dt);
        crate::object::update_all(&mut self.trees, p, v, settings.player_offset, dt);
        crate::object::update_all(&mut self.disks, p, v, settings.player_offset, dt);
        crate::object::update_all(&mut self.rocks, p, v, settings.player_offset, dt);
        retain_particles(&mut self.particles, v, settings.particle_gravity, dt);
        let ghost scrolled = self.disks@;
        disk_pass(&mut self.disks, &mut self.particles, &mut self.money, p, v, settings);
        proof {
            lemma_count_le_len(scrolled, settings.player_collider);
            assert(scene_disks_post(*old(self), *self, scrolled, settings, dt as int));
        }
    }

    /// One simulation tick: in every phase but Dead the world scrolls,
    /// particles live out their lives and disk pickups pay out; then the
    /// active phase takes its step, driven by the timestep and by whether
    /// the primary button was released this tick.
    pub fn update(&mut self, released: bool, settings: &Settings, dt: i64)
        requires
            old(self).wf(),
            settings.wf(),
            0 < dt <= DT_MAX,
        ensures
            final(self).wf(),
            exists|mid: GameState| #[trigger] tick_post(
                *old(self),
                mid,
                *final(self),
                released,
                settings,
                dt as int,
            ),
            ({
                let purchase = old(self).phase == Phase::Buy && old(self).buy_timeout - dt > 0
                    && released;
                let cost = if purchase {
                    old(self).card_options@[buy_index_i(old(self).buy_item as int)].cost as int
                } else {
                    0
                };
                &&& final(self).money + cost >= old(self).money
                &&& (!purchase ==> final(self).money >= old(self).money)
            }),
            final(self).money <= old(self).money + old(self).disks@.len(),
            (old(self).phase == Phase::Fly && released && delay_after(*old(self), dt as int) <= 0
                ==> 0 <= final(self).boost < settings.meter_total() && final(self).boost_delay
                == settings.boost_delay),
            (old(self).phase == Phase::Buy ==> final(self).pos == (Vec2 { x: 0, y: 0 })
                && final(self).vel == (Vec2 { x: 0, y: 0 }) && final(self).rot == 0
                && (old(self).buy_timeout - dt <= 0 ==> final(self).phase
                    == Phase::LaunchSetAngle)
                && (old(self).buy_timeout - dt > 0 && released ==> final(self).phase
                    == Phase::LaunchSetAngle)
                && (old(self).buy_timeout - dt > 0 && !released ==> final(self).phase
                    == Phase::Buy)),
            (old(self).phase == Phase::LaunchSetAngle ==> final(self).phase == (if released {
                Phase::LaunchSetSpeed
            } else {
                Phase::LaunchSetAngle
            })),
            (old(self).phase == Phase::LaunchSetSpeed ==> final(self).phase == (if released {
                Phase::Fly
            } else {
                Phase::LaunchSetSpeed
            })),
            (old(self).phase == Phase::LaunchSetSpeed && released ==> ({
                let sp = old(self).initial_speed + old(self).extra_initial_speed;
                &&& final(self).vel.x == clamp_i(
                    fx_mul_i(cos_i(old(self).initial_angle as int), sp),
                    -VEL_CAP as int,
                    VEL_CAP as int,
                )
                &&& final(self).vel.y == clamp_i(
                    fx_mul_i(sin_i(old(self).initial_angle as int), sp),
                    -VEL_CAP as int,
                    VEL_CAP as int,
                )
                &&& final(self).boost_delay == settings.boost_delay
            })),
            (old(self).phase == Phase::Dead ==> final(self).money == old(self).money
                && final(self).vel == old(self).vel && final(self).pos == old(self).pos
                && (old(self).dead_timeout - dt <= 0 ==> final(self).phase == Phase::Buy
                    && final(self).buy_timeout == settings.buy_time
                    && final(self).initial_angle == settings.min_angle
                    && final(self).initial_speed == settings.min_speed
                    && final(self).max_distance == (if old(self).pos.x > old(self).max_distance {
                        old(self).pos.x
                    } else {
                        old(self).max_distance
                    }))
                && (old(self).dead_timeout - dt > 0 ==> final(self).phase == Phase::Dead
                    && final(self).dead_timeout == clamp_i(
                        old(self).dead_timeout - dt,
                        -OSC_CAP as int,
                        OSC_CAP as int,
                    ) && final(self).max_distance == old(self).max_distance)),
            final(self).card_defs@ == old(self).card_defs@,
            (old(self).phase == Phase::Fly ==> final(self).pos.x == fly_pos_x(
                *old(self),
                dt as int,
            ) && final(self).rot == fly_rot(*old(self), settings, dt as int)
                && final(self).boost_sign == meter_sign(*old(self), settings, dt as int)),
            (old(self).phase == Phase::Buy ==> final(self).buy_timeout == clamp_i(
                old(self).buy_timeout - dt,
                -OSC_CAP as int,
                OSC_CAP as int,
            )),
            (old(self).phase != Phase::Dead ==> {
                &&& final(self).trees@.len() == old(self).trees@.len()
                &&& final(self).rocks@.len() == old(self).rocks@.len()
                &&& (forall|i: int| 0 <= i < final(self).trees@.len()
                    ==> Object::scroll_post(
                        old(self).trees@[i],
                        #[trigger] final(self).trees@[i],
                        old(self).pos,
                        old(self).vel,
                        settings.player_offset,
                        dt as int,
                    ))
                &&& (forall|i: int| 0 <= i < final(self).rocks@.len()
                    ==> Object::scroll_post(
                        old(self).rocks@[i],
                        #[trigger] final(self).rocks@[i],
                        old(self).pos,
                        old(self).vel,
                        settings.player_offset,
                        dt as int,
                    ))
            }),
    {
        let ghost pre = *self;
        if self.phase != Phase::Dead {
            self.scene_step(settings, dt);
        }
        let ghost mid = *self;
        let ph: Phase = self.phase;
        match ph {
            Phase::Buy => self.step_buy(released, settings, dt),
            Phase::LaunchSetAngle => self.step_launch_angle(released, settings, dt),
            Phase::LaunchSetSpeed => self.step_launch_speed(released, settings, dt),
            Phase::Fly => self.step_fly(released, settings, dt),
            Phase::Dead => self.step_dead(settings, dt),
        }
        proof {
            assert(tick_post(pre, mid, *self, released, settings, dt as int));
        }
    }

    /// Where the ground line sits on screen, for the renderer.
    pub fn ground_height(&self, settings: &Settings) -> (r: i64)
        requires
            self.wf(),
            settings.wf(),
        ensures
            r == clamp_i(settings.player_offset.y - self.pos.y, 0, SIZE_H_FX as int),
    {
        crate::fx::clamp(settings.player_offset.y - self.pos.y, 0, SIZE_H_FX)
    }

    /// How far the shop's slot selector has cycled, as a fixed-point
    /// fraction of one.
    pub fn buy_fraction(&self) -> (r: i64)
        requires
            self.wf(),
        ensures
            r == self.buy_item as int / 3,
            0 <= r,
    {
        ((self.buy_item as u64) / 3) as i64
    }

    /// How far the swept launch speed sits between its bounds, as a
    /// fixed-point fraction of one.
    pub fn speed_fraction(&self, settings: &Settings) -> (r: i64)
        requires
            self.wf(),
            settings.wf(),
        ensures
            ({
                let den = settings.max_speed - settings.min_speed;
                let num = clamp_i(self.initial_speed - settings.min_speed, 0, den);
                r == (if den <= 0 {
                    0
                } else {
                    (num * SCALE) / den
                })
            }),
            0 <= r <= SCALE,
    {
        let den: i64 = settings.max_speed - settings.min_speed;
        if den <= 0 {
            0
        } else {
            let num: i64 = crate::fx::clamp(self.initial_speed - settings.min_speed, 0, den);
            proof {
                fraction_bound(num as int, den as int);
            }
            (((num as u64) * (SCALE as u64)) / (den as u64)) as i64
        }
    }

    /// How far the boost meter has filled, as a fixed-point fraction of one.
    pub fn boost_fraction(&self, settings: &Settings) -> (r: i64)
        requires
            self.wf(),
            settings.wf(),
        ensures
            ({
                let den = settings.meter_total();
                let num = clamp_i(self.boost as int, 0, den);
                r == (num * SCALE) / den
            }),
            0 <= r <= SCALE,
    {
        let den: i64 = settings.boost_meter_penalty_area + settings.boost_meter_safe_area
            + settings.boost_meter_crit_area;
        let num: i64 = crate::fx::clamp(self.boost, 0, den);
        proof {
            fraction_bound(num as int, den as int);
        }
        (((num as u64) * (SCALE as u64)) / (den as u64)) as i64
    }
}

/// A numerator no larger than its positive denominator yields a fraction of
/// at most one, on the fixed-point scale.
proof fn fraction_bound(num: int, den: int)
    requires
        0 < den,
        0 <= num <= den,
    ensures
        0 <= (num * SCALE) / den <= SCALE,
{
    vstd::arithmetic::mul::lemma_mul_nonnegative(num, SCALE as int);
    vstd::arithmetic::div_mod::lemma_div_pos_is_pos(num * SCALE, den);
    vstd::arithmetic::mul::lemma_mul_inequality(num, den, SCALE as int);
    vstd::arithmetic::div_mod::lemma_div_is_ordered(num * SCALE, den * SCALE, den);
    vstd::arithmetic::mul::lemma_mul_is_commutative(den, SCALE as int);
    vstd::arithmetic::div_mod::lemma_div_multiples_vanish(SCALE as int, den);
}

/// The collider rectangle an object presents at its current position.
pub open spec fn object_rect(o: Object) -> Rect {
    Rect { x: o.pos.x, y: o.pos.y, w: o.collider.w, h: o.collider.h }
}

/// How many of the objects' colliders overlap the given rectangle.
pub open spec fn count_overlapping(s: Seq<Object>, r: Rect) -> nat
    decreases s.len(),
{
    if s.len() == 0 {
        0
    } else {
        count_overlapping(s.drop_last(), r) + (if crate::geom::rects_overlap(
            object_rect(s.last()),
            r,
        ) {
            1nat
        } else {
            0nat
        })
    }
}

/// No more objects overlap than there are objects.
pub proof fn lemma_count_le_len(s: Seq<Object>, r: Rect)
    ensures
        count_overlapping(s, r) <= s.len(),
    decreases s.len(),
{
    if s.len() > 0 {
        lemma_count_le_len(s.drop_last(), r);
    }
}

/// One collision pass over the disk pickups: a disk overlapping the
/// player's collider pays one money, bursts particles at the disk and at
/// the money readout, and respawns; the rest stay put.
fn disk_pass(
    disks: &mut Vec<Object>,
    particles: &mut Vec<Particle>,
    money: &mut u64,
    pos: Vec2,
    vel: Vec2,
    settings: &Settings,
)
    requires
        crate::object::all_wf(old(disks)@),
        particles_all_wf(old(particles)@),
        pos.bounded(POS_CAP as int),
        vel.bounded(VEL_CAP as int),
        settings.wf(),
    ensures
        final(disks)@.len() == old(disks)@.len(),
        crate::object::all_wf(final(disks)@),
        forall|i: int| 0 <= i < final(disks)@.len()
            ==> Object::same_but_pos(old(disks)@[i], #[trigger] final(disks)@[i]),
        particles_all_wf(final(particles)@),
        final(particles)@.len() >= old(particles)@.len(),
        *final(money) == min_i(
            *old(money) + count_overlapping(old(disks)@, settings.player_collider),
            u64::MAX as int,
        ),
        *old(money) <= *final(money),
        forall|i: int| 0 <= i < final(disks)@.len() ==> {
            let d = old(disks)@[i];
            let n = #[trigger] final(disks)@[i];
            if crate::geom::rects_overlap(
                Rect { x: d.pos.x, y: d.pos.y, w: d.collider.w, h: d.collider.h },
                settings.player_collider,
            ) {
                Object::reset_post(d, n, pos, vel)
            } else {
                n == d
            }
        },
{
    let n: usize = disks.len();
    let mut i: usize = 0;
    while i < n
        invariant
            n == disks@.len(),
            n == old(disks)@.len(),
            i <= n,
            pos.bounded(POS_CAP as int),
            vel.bounded(VEL_CAP as int),
            settings.wf(),
            crate::object::all_wf(disks@),
            forall|k: int| i <= k < n ==> disks@[k] == old(disks)@[k],
            forall|k: int| 0 <= k < n
                ==> Object::same_but_pos(old(disks)@[k], #[trigger] disks@[k]),
            forall|k: int| 0 <= k < i ==> {
                let d = old(disks)@[k];
                let nd = #[trigger] disks@[k];
                if crate::geom::rects_overlap(
                    Rect { x: d.pos.x, y: d.pos.y, w: d.collider.w, h: d.collider.h },
                    settings.player_collider,
                ) {
                    Object::reset_post(d, nd, pos, vel)
                } else {
                    nd == d
                }
            },
            particles_all_wf(particles@),
            particles@.len() >= old(particles)@.len(),
            *money == min_i(
                *old(money) + count_overlapping(
                    old(disks)@.take(i as int),
                    settings.player_collider,
                ),
                u64::MAX as int,
            ),
        decreases n - i,
    {
        let collide: bool = disks[i].collides_user(settings.player_collider);
        proof {
            assert(old(disks)@.take(i as int + 1).drop_last() =~= old(disks)@.take(i as int));
            assert(old(disks)@.take(i as int + 1).last() == old(disks)@[i as int]);
        }
        if collide {
            *money = if *money == u64::MAX {
                u64::MAX
            } else {
                *money + 1
            };
            let dpos: Vec2 = disks[i].pos;
            proof {
                lemma_fx_mul_abs_le(
                    vel.x as int,
                    settings.particle_vel_multiplier.x as int,
                    VEL_CAP as int,
                    CFG_MAX as int,
                );
                lemma_fx_mul_abs_le(
                    vel.y as int,
                    settings.particle_vel_multiplier.y as int,
                    VEL_CAP as int,
                    CFG_MAX as int,
                );
            }
            let pvel: Vec2 = Vec2 {
                x: fx_mul(vel.x, settings.particle_vel_multiplier.x),
                y: fx_mul(vel.y, settings.particle_vel_multiplier.y),
            };
            spawn_particles(
                particles,
                settings.particle_amount,
                dpos,
                pvel,
                settings.particle_force,
                Color::Brown,
                true,
                settings.particle_life,
            );
            spawn_particles(
                particles,
                settings.topleft_particle_amount,
                Vec2 { x: 33 * SCALE, y: 10 * SCALE },
                Vec2 { x: 0, y: 0 },
                settings.topleft_particle_force,
                Color::White,
                false,
                settings.topleft_particle_life,
            );
            disks[i].reset(pos, vel);
        }
        i = i + 1;
    }
    proof {
        assert(old(disks)@.take(n as int) =~= old(disks)@);
    }
}

} // verus!
