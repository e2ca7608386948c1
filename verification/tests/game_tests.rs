use flycore::card::{Card, CardTarget};
use flycore::fx::SCALE;
use flycore::game::{GameState, Phase, Settings};
use flycore::geom::{Extent, Rect, Vec2};
use flycore::object::{Object, ObjectsSpawner};
use flycore::rng::RandomRange;

fn base_settings() -> Settings {
    Settings {
        min_angle: -2 * SCALE,
        max_angle: 0,
        angle_delta: SCALE,
        min_speed: 10 * SCALE,
        max_speed: 50 * SCALE,
        speed_delta: 20 * SCALE,
        gravity: 5 * SCALE,
        cannon_offset: Vec2 { x: 0, y: 0 },
        player_offset: Vec2 { x: 20 * SCALE, y: 100 * SCALE },
        boost_meter_offset: Vec2 { x: 0, y: 0 },
        speed_meter_offset: Vec2 { x: 0, y: 0 },
        buy_meter_offset: Vec2 { x: 0, y: 0 },
        buy_meter_size: Extent { w: 40 * SCALE, h: 8 * SCALE },
        rot_factor: Vec2 { x: 10, y: 10 },
        rot_y_clamp: 2 * SCALE,
        air_friction: SCALE,
        restitution: Vec2 { x: 512, y: 512 },
        halting_velocity: Vec2 { x: SCALE, y: SCALE },
        tree_amount: 0,
        rock_amount: 0,
        boost_meter_speed: 0,
        boost_meter_penalty_area: 10 * SCALE,
        boost_meter_safe_area: 10 * SCALE,
        boost_meter_crit_area: 10 * SCALE,
        boost_penalty: Vec2 { x: 512, y: 512 },
        boost_crit: Vec2 { x: 3 * SCALE, y: 3 * SCALE },
        boost_safe: Vec2 { x: 2 * SCALE, y: 2 * SCALE },
        boost_delay: 2 * SCALE,
        max_boost_velocity: Vec2 { x: 100 * SCALE, y: 100 * SCALE },
        static_velocity_boost: Vec2 { x: 0, y: 0 },
        static_velocity_boost_treshold: 4096,
        player_collider: Rect { x: 0, y: 0, w: 20 * SCALE, h: 20 * SCALE },
        particle_amount: 2,
        particle_gravity: 0,
        particle_force: 10,
        particle_vel_multiplier: Vec2 { x: 0, y: 0 },
        particle_life: 2 * SCALE,
        topleft_particle_amount: 1,
        topleft_particle_gravity: 0,
        topleft_particle_force: 10,
        topleft_particle_life: 2 * SCALE,
        crit_particle_amount: 3,
        crit_particle_gravity: 0,
        crit_particle_force: 10,
        crit_particle_life: 2 * SCALE,
        bounce_particle_amount: 0,
        bounce_particle_gravity: 0,
        bounce_particle_force: 10,
        bounce_particle_vel_multiplier: Vec2 { x: 0, y: 0 },
        bounce_particle_life: 2 * SCALE,
        buy_time: 10 * SCALE,
        buy_speed: SCALE,
        dead_wait_time: 2 * SCALE,
    }
}

fn card(index: usize, target: CardTarget, value: i64, cost: u64, max_amount: u64) -> Card {
    Card {
        title: String::from("card"),
        description: Vec::new(),
        target,
        value,
        cost,
        max_amount,
        index,
    }
}

fn base_defs() -> Vec<Card> {
    vec![
        card(0, CardTarget::InitialSpeed, 4 * SCALE, 3, 2),
        card(1, CardTarget::Gravity, -SCALE, 5, 0),
        card(2, CardTarget::Nothing, 0, 0, 0),
    ]
}

fn empty_spawner() -> ObjectsSpawner {
    ObjectsSpawner {
        repeat_distance: 0,
        amount: 0,
        sprite_path: String::from("none"),
        parallax_x: RandomRange { min: 0, max: 0 },
        parallax_y_factor: 0,
        lock_x: None,
        lock_y: None,
        start_at: Vec2 { x: 0, y: 0 },
        collider: Extent { w: 0, h: 0 },
    }
}

fn base_game(settings: &Settings) -> GameState {
    let sp = empty_spawner();
    GameState::new(settings, base_defs(), &sp, &sp, &sp, &sp)
}

#[test]
fn settings_check_accepts_the_base_configuration() {
    assert!(base_settings().check());
    let mut bad = base_settings();
    bad.air_friction = 2000;
    assert!(!bad.check());
    let mut empty_meter = base_settings();
    empty_meter.boost_meter_penalty_area = 0;
    empty_meter.boost_meter_safe_area = 0;
    empty_meter.boost_meter_crit_area = 0;
    assert!(!empty_meter.check());
}

#[test]
fn new_game_opens_the_shop_with_everything_at_zero() {
    let s = base_settings();
    let g = base_game(&s);
    assert_eq!(g.phase, Phase::Buy);
    assert_eq!(g.money, 0);
    assert_eq!(g.initial_angle, s.min_angle);
    assert_eq!(g.initial_speed, s.min_speed);
    assert_eq!(g.buy_timeout, s.buy_time);
    assert_eq!(g.pos, Vec2 { x: 0, y: 0 });
    assert_eq!(g.vel, Vec2 { x: 0, y: 0 });
    assert_eq!(g.rot, 0);
    assert_eq!(g.extra_initial_speed, 0);
    assert_eq!(g.extra_gravity, 0);
    assert_eq!(g.max_distance, 0);
    assert_eq!(g.selected_cards, vec![0, 0, 0]);
    assert_eq!(g.card_options.len(), 3);
}

#[test]
fn shop_timeout_skips_to_aiming_with_the_trajectory_at_the_origin() {
    let s = base_settings();
    let mut g = base_game(&s);
    g.buy_timeout = 100;
    g.pos = Vec2 { x: 9, y: 9 };
    g.vel = Vec2 { x: 9, y: 9 };
    g.rot = 9;
    g.update(false, &s, 512);
    assert_eq!(g.phase, Phase::LaunchSetAngle);
    assert_eq!(g.pos, Vec2 { x: 0, y: 0 });
    assert_eq!(g.vel, Vec2 { x: 0, y: 0 });
    assert_eq!(g.rot, 0);
    assert_eq!(g.money, 0);
}

#[test]
fn shop_click_matches_the_forced_skip() {
    let s = base_settings();
    // A click on the free no-effect card leaves the same state behind as a
    // timeout skip: aiming phase, trajectory at the origin.
    let mut clicked = base_game(&s);
    clicked.buy_timeout = 10 * SCALE;
    clicked.buy_item = 2 * SCALE + 100;
    clicked.card_options = base_defs();
    clicked.update(true, &s, 512);
    assert_eq!(clicked.phase, Phase::LaunchSetAngle);
    assert_eq!(clicked.pos, Vec2 { x: 0, y: 0 });
    assert_eq!(clicked.vel, Vec2 { x: 0, y: 0 });
    assert_eq!(clicked.rot, 0);
    assert_eq!(clicked.money, 0);
    assert_eq!(clicked.extra_initial_speed, 0);
    assert_eq!(clicked.extra_gravity, 0);
}

#[test]
fn purchase_deducts_exactly_the_cost_and_counts_the_card() {
    let s = base_settings();
    let mut g = base_game(&s);
    g.money = 10;
    g.buy_timeout = 10 * SCALE;
    g.buy_item = 0;
    g.card_options = base_defs();
    g.update(true, &s, 512);
    assert_eq!(g.phase, Phase::LaunchSetAngle);
    assert_eq!(g.money, 7);
    assert_eq!(g.selected_cards, vec![1, 0, 0]);
    assert_eq!(g.extra_initial_speed, 4 * SCALE);
    assert_eq!(g.extra_gravity, 0);
}

#[test]
fn unaffordable_card_is_a_silent_no_op() {
    let s = base_settings();
    let mut g = base_game(&s);
    g.money = 1;
    g.buy_timeout = 10 * SCALE;
    g.buy_item = 0;
    g.card_options = base_defs();
    g.update(true, &s, 512);
    assert_eq!(g.phase, Phase::LaunchSetAngle);
    assert_eq!(g.money, 1);
    assert_eq!(g.selected_cards, vec![0, 0, 0]);
    assert_eq!(g.extra_initial_speed, 0);
}

#[test]
fn gravity_card_feeds_the_gravity_accumulator() {
    let s = base_settings();
    let mut g = base_game(&s);
    g.money = 10;
    g.buy_timeout = 10 * SCALE;
    g.buy_item = SCALE;
    g.card_options = base_defs();
    g.update(true, &s, 512);
    assert_eq!(g.money, 5);
    assert_eq!(g.selected_cards, vec![0, 1, 0]);
    assert_eq!(g.extra_gravity, -SCALE);
    assert_eq!(g.extra_initial_speed, 0);
}

#[test]
fn angle_oscillates_while_aiming() {
    let s = base_settings();
    let mut g = base_game(&s);
    g.phase = Phase::LaunchSetAngle;
    g.initial_angle = -2 * SCALE;
    g.sign = 1;
    g.update(false, &s, SCALE);
    assert_eq!(g.initial_angle, -SCALE);
    assert_eq!(g.sign, 1);
    g.update(false, &s, SCALE);
    assert_eq!(g.initial_angle, 0);
    assert_eq!(g.sign, -1);
    g.update(false, &s, SCALE);
    assert_eq!(g.initial_angle, -SCALE);
    assert_eq!(g.phase, Phase::LaunchSetAngle);
    g.update(true, &s, SCALE);
    assert_eq!(g.phase, Phase::LaunchSetSpeed);
    // the click resets the sweep direction, so the step climbs back to the
    // upper bound and reflects there
    assert_eq!(g.initial_angle, 0);
    assert_eq!(g.sign, -1);
}

#[test]
fn buy_selector_advances_and_wraps() {
    let s = base_settings();
    let mut g = base_game(&s);
    g.buy_timeout = 10 * SCALE;
    g.buy_item = 2 * SCALE + 512;
    g.update(false, &s, SCALE);
    // advanced by buy_speed * dt = one slot, wrapping past three
    assert_eq!(g.buy_item, 512);
    assert_eq!(g.phase, Phase::Buy);
}

#[test]
fn launch_uses_the_aimed_angle_and_swept_speed() {
    let s = base_settings();
    let mut g = base_game(&s);
    g.phase = Phase::LaunchSetSpeed;
    g.initial_angle = 0;
    g.initial_speed = 10 * SCALE;
    g.update(true, &s, 512);
    assert_eq!(g.phase, Phase::Fly);
    // cos(0) is 1023/1024 in the parabola approximation
    assert_eq!(g.vel.x, 10230);
    assert_eq!(g.vel.y, 0);
    assert_eq!(g.boost_delay, s.boost_delay);
}

#[test]
fn launch_straight_up_is_vertical() {
    let s = base_settings();
    let mut g = base_game(&s);
    g.phase = Phase::LaunchSetSpeed;
    g.initial_angle = -1608;
    g.initial_speed = 10 * SCALE;
    g.extra_initial_speed = 10 * SCALE;
    g.update(true, &s, 512);
    assert_eq!(g.vel.x, 0);
    assert_eq!(g.vel.y, -20460);
}

#[test]
fn speed_oscillates_while_powering() {
    let s = base_settings();
    let mut g = base_game(&s);
    g.phase = Phase::LaunchSetSpeed;
    g.initial_speed = 10 * SCALE;
    g.sign = 1;
    let dt = SCALE;
    g.update(false, &s, dt);
    assert_eq!(g.initial_speed, 30 * SCALE);
    assert_eq!(g.sign, 1);
    g.update(false, &s, dt);
    assert_eq!(g.initial_speed, 50 * SCALE);
    assert_eq!(g.sign, -1);
    g.update(false, &s, dt);
    assert_eq!(g.initial_speed, 30 * SCALE);
    assert_eq!(g.phase, Phase::LaunchSetSpeed);
}

fn flying_game(s: &Settings) -> GameState {
    let mut g = base_game(s);
    g.phase = Phase::Fly;
    g.pos = Vec2 { x: 0, y: -1000 * SCALE };
    g.vel = Vec2 { x: SCALE, y: SCALE };
    g.boost_delay = 10 * SCALE;
    g
}

#[test]
fn flight_integrates_position_gravity_and_friction() {
    let mut s = base_settings();
    s.air_friction = 512;
    s.gravity = 5 * SCALE;
    let mut g = flying_game(&s);
    g.vel = Vec2 { x: 1000, y: 2000 };
    let old_pos = g.pos;
    g.update(false, &s, SCALE);
    assert_eq!(g.pos.x, old_pos.x + 1000);
    assert_eq!(g.pos.y, old_pos.y + 2000);
    // gravity pulls first, then friction halves
    assert_eq!(g.vel.x, 500);
    assert_eq!(g.vel.y, (2000 + 5 * SCALE) / 2);
    assert_eq!(g.phase, Phase::Fly);
}

#[test]
fn friction_never_amplifies_the_velocity() {
    let mut s = base_settings();
    s.air_friction = 1000;
    s.gravity = 0;
    let mut g = flying_game(&s);
    g.vel = Vec2 { x: 12345, y: -6789 };
    let before = (g.vel.x.abs(), g.vel.y.abs());
    g.update(false, &s, SCALE);
    assert!(g.vel.x.abs() <= before.0);
    assert!(g.vel.y.abs() <= before.1);
}

#[test]
fn boost_meter_sweeps_and_cooldown_counts_down() {
    let mut s = base_settings();
    s.boost_meter_speed = SCALE;
    let mut g = flying_game(&s);
    g.boost = 0;
    g.boost_sign = 1;
    g.boost_delay = 2 * SCALE;
    g.update(false, &s, SCALE);
    assert_eq!(g.boost, SCALE);
    assert_eq!(g.boost_delay, SCALE);
}

#[test]
fn penalty_zone_halves_the_velocity() {
    let mut s = base_settings();
    s.gravity = 0;
    let mut g = flying_game(&s);
    g.vel = Vec2 { x: 10 * SCALE, y: 10 * SCALE };
    g.boost = 5 * SCALE;
    g.boost_delay = 0;
    g.update(true, &s, SCALE);
    assert_eq!(g.vel.x, 5 * SCALE);
    assert_eq!(g.vel.y, 5 * SCALE);
}

#[test]
fn safe_zone_doubles_the_velocity() {
    let mut s = base_settings();
    s.gravity = 0;
    let mut g = flying_game(&s);
    g.vel = Vec2 { x: 10 * SCALE, y: 10 * SCALE };
    g.boost = 15 * SCALE;
    g.boost_delay = 0;
    g.update(true, &s, SCALE);
    assert_eq!(g.vel.x, 20 * SCALE);
    assert_eq!(g.vel.y, 20 * SCALE);
}

#[test]
fn crit_zone_triples_the_velocity_and_bursts_particles() {
    let mut s = base_settings();
    s.gravity = 0;
    let mut g = flying_game(&s);
    g.vel = Vec2 { x: 10 * SCALE, y: 10 * SCALE };
    g.boost = 25 * SCALE;
    g.boost_delay = 0;
    g.update(true, &s, SCALE);
    assert_eq!(g.vel.x, 30 * SCALE);
    assert_eq!(g.vel.y, 30 * SCALE);
    assert_eq!(g.particles.len(), s.crit_particle_amount);
}

#[test]
fn boost_caps_at_the_maximum_velocity() {
    let mut s = base_settings();
    s.max_boost_velocity = Vec2 { x: 15 * SCALE, y: 12 * SCALE };
    let mut g = flying_game(&s);
    g.vel = Vec2 { x: 10 * SCALE, y: 10 * SCALE };
    g.boost = 15 * SCALE;
    g.boost_delay = 0;
    g.update(true, &s, SCALE);
    assert_eq!(g.vel.x, 15 * SCALE);
    assert_eq!(g.vel.y, 12 * SCALE);
}

#[test]
fn fast_enough_boost_earns_the_static_bonus() {
    let mut s = base_settings();
    s.gravity = 0;
    s.static_velocity_boost = Vec2 { x: 100, y: 50 };
    s.static_velocity_boost_treshold = 0;
    let mut g = flying_game(&s);
    g.vel = Vec2 { x: 2 * SCALE, y: -2 * SCALE };
    g.boost = 15 * SCALE;
    g.boost_delay = 0;
    g.update(true, &s, SCALE);
    // doubled, then the flat bonus, its vertical part signed downward
    assert_eq!(g.vel.x, 4 * SCALE + 100);
    assert_eq!(g.vel.y, -4 * SCALE - 50);
}

#[test]
fn boost_rearms_the_cooldown_and_rerolls_the_meter() {
    let s = base_settings();
    let total = s.boost_meter_penalty_area + s.boost_meter_safe_area + s.boost_meter_crit_area;
    for _ in 0..20 {
        let mut g = flying_game(&s);
        g.boost = 25 * SCALE;
        g.boost_delay = 0;
        g.update(true, &s, SCALE);
        assert!(0 <= g.boost && g.boost < total);
        assert_eq!(g.boost_delay, s.boost_delay);
    }
}

#[test]
fn boost_during_cooldown_is_ignored() {
    let mut s = base_settings();
    s.gravity = 0;
    let mut g = flying_game(&s);
    g.vel = Vec2 { x: 10 * SCALE, y: 10 * SCALE };
    g.boost = 15 * SCALE;
    g.boost_delay = 10 * SCALE;
    g.update(true, &s, SCALE);
    assert_eq!(g.vel.x, 10 * SCALE);
    assert_eq!(g.vel.y, 10 * SCALE);
    assert_eq!(g.boost_delay, 9 * SCALE);
}

#[test]
fn fast_ground_contact_bounces_with_restitution() {
    let mut s = base_settings();
    s.gravity = 0;
    let mut g = flying_game(&s);
    g.pos = Vec2 { x: 50 * SCALE, y: -512 };
    g.vel = Vec2 { x: 8 * SCALE, y: 4 * SCALE };
    g.update(false, &s, SCALE);
    // the step carried it below ground level, so it bounced
    assert_eq!(g.phase, Phase::Fly);
    assert_eq!(g.pos.y, 0);
    assert_eq!(g.vel.x, 4 * SCALE);
    assert_eq!(g.vel.y, -2 * SCALE);
}

#[test]
fn slow_ground_contact_ends_the_run() {
    let mut s = base_settings();
    s.gravity = 0;
    s.air_friction = SCALE;
    let mut g = flying_game(&s);
    g.pos = Vec2 { x: 50 * SCALE, y: -1 };
    g.vel = Vec2 { x: 100, y: 100 };
    g.update(false, &s, SCALE);
    assert_eq!(g.phase, Phase::Dead);
    assert_eq!(g.dead_timeout, s.dead_wait_time);
}

#[test]
fn dead_countdown_reopens_the_shop_on_the_fourth_half_second() {
    let s = base_settings();
    let mut g = base_game(&s);
    g.phase = Phase::Dead;
    g.dead_timeout = 2 * SCALE;
    g.pos = Vec2 { x: 500 * SCALE, y: 0 };
    let dt = SCALE / 2;
    g.update(false, &s, dt);
    assert_eq!(g.phase, Phase::Dead);
    assert_eq!(g.dead_timeout, 3 * SCALE / 2);
    g.update(false, &s, dt);
    assert_eq!(g.phase, Phase::Dead);
    g.update(false, &s, dt);
    assert_eq!(g.phase, Phase::Dead);
    g.update(false, &s, dt);
    assert_eq!(g.phase, Phase::Buy);
    assert_eq!(g.buy_timeout, s.buy_time);
    assert_eq!(g.max_distance, 500 * SCALE);
    assert_eq!(g.initial_speed, s.min_speed);
}

#[test]
fn disk_pickup_pays_one_money_and_respawns_the_disk() {
    let s = base_settings();
    let mut g = base_game(&s);
    g.phase = Phase::LaunchSetAngle;
    let mut disk = Object {
        repeat_distance: 0,
        pos: Vec2 { x: 5 * SCALE, y: 5 * SCALE },
        parallax: Vec2 { x: 0, y: 0 },
        sprite_path: String::from("disk"),
        lock_x: None,
        lock_y: None,
        start_at: Vec2 { x: 300 * SCALE, y: 100 * SCALE },
        collider: Extent { w: 10 * SCALE, h: 10 * SCALE },
    };
    disk.pos = Vec2 { x: 5 * SCALE, y: 5 * SCALE };
    g.disks = vec![disk];
    g.update(false, &s, SCALE);
    assert_eq!(g.money, 1);
    // the collected disk respawned at its origin offset (player still at
    // the origin, repeat distance zero)
    assert_eq!(g.disks[0].pos, Vec2 { x: 300 * SCALE, y: 100 * SCALE });
    assert_eq!(
        g.particles.len(),
        s.particle_amount + s.topleft_particle_amount
    );
    // a second tick without contact leaves money alone
    g.update(false, &s, SCALE);
    assert_eq!(g.money, 1);
}

#[test]
fn purchase_counts_never_exceed_the_cap() {
    let s = base_settings();
    let mut g = base_game(&s);
    g.money = 1000;
    for _ in 0..20 {
        g.buy_timeout = 10 * SCALE;
        g.update(true, &s, 512);
        assert!(g.selected_cards[0] <= 2);
        // run the round out so the shop reopens with fresh offers
        g.phase = Phase::Dead;
        g.dead_timeout = 1;
        g.update(false, &s, 512);
        assert_eq!(g.phase, Phase::Buy);
    }
    assert!(g.selected_cards[0] <= 2);
}

#[test]
fn each_overlapping_disk_pays_exactly_one() {
    let s = base_settings();
    let mut g = base_game(&s);
    g.phase = Phase::LaunchSetAngle;
    let mk = |x: i64, y: i64| Object {
        repeat_distance: 0,
        pos: Vec2 { x, y },
        parallax: Vec2 { x: 0, y: 0 },
        sprite_path: String::from("disk"),
        lock_x: None,
        lock_y: None,
        start_at: Vec2 { x: 300 * SCALE, y: 100 * SCALE },
        collider: Extent { w: 10 * SCALE, h: 10 * SCALE },
    };
    // two disks overlap the player collider, one is far away
    g.disks = vec![mk(5 * SCALE, 5 * SCALE), mk(200 * SCALE, 0), mk(0, 12 * SCALE)];
    g.update(false, &s, SCALE);
    assert_eq!(g.money, 2);
    assert_eq!(g.disks[1].pos, Vec2 { x: 200 * SCALE, y: 0 });
}

#[test]
fn bounce_bursts_the_configured_particles() {
    let mut s = base_settings();
    s.gravity = 0;
    s.bounce_particle_amount = 4;
    let mut g = flying_game(&s);
    g.pos = Vec2 { x: 50 * SCALE, y: -512 };
    g.vel = Vec2 { x: 8 * SCALE, y: 4 * SCALE };
    g.update(false, &s, SCALE);
    assert_eq!(g.pos.y, 0);
    assert_eq!(g.particles.len(), 4);
}

#[test]
fn definition_and_spawner_validators_match_their_requirements() {
    assert!(flycore::game::check_defs(&base_defs()));
    // a definition set without a free uncapped card is refused
    let no_evergreen = vec![card(0, CardTarget::Nothing, 0, 7, 0)];
    assert!(!flycore::game::check_defs(&no_evergreen));
    // a definition naming the wrong slot is refused
    let misindexed = vec![card(1, CardTarget::Nothing, 0, 0, 0)];
    assert!(!flycore::game::check_defs(&misindexed));
    assert!(!flycore::game::check_defs(&Vec::new()));

    let good = empty_spawner();
    assert!(good.check());
    let mut bad = empty_spawner();
    bad.parallax_x = RandomRange { min: 100, max: 2000 };
    assert!(!bad.check());
}

#[test]
fn money_only_moves_at_pickups_and_purchases() {
    let s = base_settings();
    let mut g = base_game(&s);
    g.money = 42;
    g.phase = Phase::LaunchSetAngle;
    for _ in 0..10 {
        g.update(false, &s, 512);
        assert_eq!(g.money, 42);
    }
}

#[test]
fn eligible_draw_respects_cost_and_cap() {
    let defs = base_defs();
    // Too poor for anything but the free cards.
    for _ in 0..20 {
        let c = Card::random(&defs, 1, &vec![0, 0, 0]).unwrap();
        assert_eq!(c.index, 2);
    }
    // Rich, but the speed card is bought out: its slot never comes up.
    for _ in 0..20 {
        let c = Card::random(&defs, 100, &vec![2, 0, 0]).unwrap();
        assert!(c.index == 1 || c.index == 2);
    }
}

#[test]
fn empty_eligible_set_is_reported_not_invented() {
    let defs = vec![card(0, CardTarget::Nothing, 0, 7, 0)];
    assert!(Card::random(&defs, 3, &vec![0]).is_none());
    assert!(Card::random(&defs, 7, &vec![0]).is_some());
}

#[test]
fn meter_fractions_stay_within_one() {
    let s = base_settings();
    let mut g = base_game(&s);
    g.initial_speed = 30 * SCALE;
    assert_eq!(g.speed_fraction(&s), SCALE / 2);
    g.boost = 15 * SCALE;
    assert_eq!(g.boost_fraction(&s), SCALE / 2);
    g.buy_item = 3 * SCALE / 2;
    assert_eq!(g.buy_fraction(), SCALE / 2);
    g.pos = Vec2 { x: 0, y: 0 };
    assert_eq!(g.ground_height(&s), 100 * SCALE);
}
