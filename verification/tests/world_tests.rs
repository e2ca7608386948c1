use flycore::fx::SCALE;
use flycore::geom::{Extent, Rect, Vec2, SIZE_H_FX, SIZE_W_FX};
use flycore::object::{Object, ObjectsSpawner};
use flycore::particle::{Color, Particle};
use flycore::pickup::Pickup;
use flycore::rng::RandomRange;

fn disk_at(x: i64, y: i64) -> Object {
    Object {
        repeat_distance: 0,
        pos: Vec2 { x, y },
        parallax: Vec2 { x: 0, y: 0 },
        sprite_path: String::from("disk"),
        lock_x: None,
        lock_y: None,
        start_at: Vec2 { x: 0, y: 0 },
        collider: Extent { w: 10 * SCALE, h: 10 * SCALE },
    }
}

#[test]
fn disk_collides_with_the_player_when_overlapping() {
    let player = Rect { x: 0, y: 0, w: 20 * SCALE, h: 20 * SCALE };
    let near = disk_at(5 * SCALE, 5 * SCALE);
    assert!(near.collides_user(player));
    let far = disk_at(100 * SCALE, 100 * SCALE);
    assert!(!far.collides_user(player));
}

#[test]
fn touching_rectangles_do_not_collide() {
    let player = Rect { x: 0, y: 0, w: 20 * SCALE, h: 20 * SCALE };
    let touching = disk_at(20 * SCALE, 0);
    assert!(!touching.collides_user(player));
}

#[test]
fn locked_object_tracks_the_player_frame() {
    let mut o = disk_at(0, 0);
    o.lock_x = Some(7 * SCALE);
    o.lock_y = Some(3 * SCALE);
    o.start_at = Vec2 { x: SCALE, y: 2 * SCALE };
    let ppos = Vec2 { x: 10 * SCALE, y: 0 };
    let pvel = Vec2 { x: 0, y: 0 };
    let off = Vec2 { x: 4 * SCALE, y: 5 * SCALE };
    o.update(ppos, pvel, off, SCALE);
    // lock - player position scaled by (1 - parallax) + offset + origin,
    // on both axes
    assert_eq!(o.pos.x, 7 * SCALE - 10 * SCALE + 4 * SCALE + SCALE);
    assert_eq!(o.pos.y, 3 * SCALE - 0 + 5 * SCALE + 2 * SCALE);
}

#[test]
fn locked_axes_scale_the_player_position_by_parallax() {
    let mut o = disk_at(0, 0);
    o.lock_x = Some(7 * SCALE);
    o.lock_y = Some(3 * SCALE);
    // Half parallax: the pinning tracks half of the player's position.
    o.parallax = Vec2 { x: 512, y: 512 };
    o.start_at = Vec2 { x: SCALE, y: 2 * SCALE };
    let ppos = Vec2 { x: 10 * SCALE, y: 6 * SCALE };
    o.update(ppos, Vec2 { x: 0, y: 0 }, Vec2 { x: 4 * SCALE, y: 5 * SCALE }, SCALE);
    assert_eq!(o.pos.x, 7 * SCALE - 5 * SCALE + 4 * SCALE + SCALE);
    assert_eq!(o.pos.y, 3 * SCALE - 3 * SCALE + 5 * SCALE + 2 * SCALE);
}

#[test]
fn free_object_scrolls_against_the_velocity() {
    let mut o = disk_at(50 * SCALE, 6 * SCALE);
    // Half parallax: the object ignores half of the world's scroll speed.
    o.parallax = Vec2 { x: 512, y: 512 };
    let ppos = Vec2 { x: 10 * SCALE, y: 0 };
    let pvel = Vec2 { x: 8 * SCALE, y: 4 * SCALE };
    o.update(ppos, pvel, Vec2 { x: 0, y: 0 }, SCALE);
    assert_eq!(o.pos.x, 50 * SCALE - 4 * SCALE);
    assert_eq!(o.pos.y, 6 * SCALE - 2 * SCALE);
}

#[test]
fn object_leaving_the_left_edge_respawns_ahead() {
    let mut o = disk_at(-SIZE_W_FX + 512, 0);
    o.start_at = Vec2 { x: 2 * SCALE, y: 0 };
    let ppos = Vec2 { x: 400 * SCALE, y: 0 };
    let pvel = Vec2 { x: 5 * SCALE, y: 0 };
    o.update(ppos, pvel, Vec2 { x: 0, y: 0 }, SCALE);
    // The scroll pushed it past the left edge, so it respawned in the
    // direction of travel: at or beyond its origin offset measured against
    // the player.
    assert!(o.pos.x >= o.start_at.x - ppos.x);
    assert!(o.pos.y <= -o.start_at.y - ppos.y);
}

#[test]
fn round_start_respawn_lands_on_the_origin_offset_when_unscaled() {
    let mut o = disk_at(5 * SCALE, 5 * SCALE);
    o.start_at = Vec2 { x: 300 * SCALE, y: 100 * SCALE };
    o.repeat_distance = 0;
    o.reset(Vec2 { x: 0, y: 0 }, Vec2 { x: 0, y: 0 });
    assert_eq!(o.pos.x, 300 * SCALE);
    assert_eq!(o.pos.y, 100 * SCALE);
}

#[test]
fn round_start_respawn_scatters_within_three_screens() {
    let mut o = disk_at(0, 0);
    o.start_at = Vec2 { x: 10 * SCALE, y: 20 * SCALE };
    o.repeat_distance = SCALE;
    for _ in 0..50 {
        o.reset(Vec2 { x: 0, y: 0 }, Vec2 { x: 0, y: 0 });
        assert!(o.pos.x >= 10 * SCALE);
        assert!(o.pos.x <= 10 * SCALE + 3 * SIZE_W_FX);
        assert!(o.pos.y >= 20 * SCALE);
        assert!(o.pos.y <= 20 * SCALE + 3 * SIZE_H_FX);
    }
}

#[test]
fn axis_locked_object_respawns_two_screens_ahead() {
    let mut o = disk_at(5 * SCALE, 9 * SCALE);
    o.lock_y = Some(3 * SCALE);
    o.repeat_distance = 0;
    o.reset(Vec2 { x: 50 * SCALE, y: 0 }, Vec2 { x: SCALE, y: 0 });
    assert_eq!(o.pos.x, 2 * SIZE_W_FX);
    assert_eq!(o.pos.y, 9 * SCALE);
}

#[test]
fn spawner_stamps_a_sorted_batch() {
    let sp = ObjectsSpawner {
        repeat_distance: SCALE,
        amount: 8,
        sprite_path: String::from("cloud"),
        parallax_x: RandomRange { min: 100, max: 900 },
        parallax_y_factor: 512,
        lock_x: None,
        lock_y: Some(4 * SCALE),
        start_at: Vec2 { x: 0, y: 0 },
        collider: Extent { w: 0, h: 0 },
    };
    let objs = sp.to_objects();
    assert_eq!(objs.len(), 8);
    for w in objs.windows(2) {
        assert!(w[0].parallax.x >= w[1].parallax.x);
    }
    for o in objs.iter() {
        assert!(100 <= o.parallax.x && o.parallax.x <= 900);
        assert_eq!(o.lock_y, Some(4 * SCALE));
        assert_eq!(o.sprite_path, "cloud");
    }
}

#[test]
fn particle_integrates_and_ages() {
    let mut p = Particle {
        pos: Vec2 { x: 10 * SCALE, y: 10 * SCALE },
        vel: Vec2 { x: SCALE, y: 0 },
        color: Color::White,
        affected_by_world: false,
        life: 3 * SCALE,
    };
    let alive = p.update(Vec2 { x: 0, y: 0 }, 5, SCALE);
    assert!(alive);
    assert_eq!(p.pos.x, 11 * SCALE);
    assert_eq!(p.pos.y, 10 * SCALE);
    assert_eq!(p.vel.y, 5);
    assert_eq!(p.life, 2 * SCALE);
}

#[test]
fn world_anchored_particle_subtracts_the_player_motion() {
    let mut p = Particle {
        pos: Vec2 { x: 10 * SCALE, y: 10 * SCALE },
        vel: Vec2 { x: SCALE, y: 0 },
        color: Color::Brown,
        affected_by_world: true,
        life: 3 * SCALE,
    };
    p.update(Vec2 { x: 3 * SCALE, y: SCALE }, 0, SCALE);
    assert_eq!(p.pos.x, 10 * SCALE + SCALE - 3 * SCALE);
    assert_eq!(p.pos.y, 10 * SCALE - SCALE);
}

#[test]
fn particle_dies_at_the_screen_edge_or_out_of_life() {
    let mut edge = Particle {
        pos: Vec2 { x: SIZE_W_FX - SCALE, y: 10 * SCALE },
        vel: Vec2 { x: SCALE, y: 0 },
        color: Color::Green,
        affected_by_world: false,
        life: 3 * SCALE,
    };
    assert!(!edge.update(Vec2 { x: 0, y: 0 }, 0, SCALE));
    let mut spent = Particle {
        pos: Vec2 { x: 10 * SCALE, y: 10 * SCALE },
        vel: Vec2 { x: 0, y: 0 },
        color: Color::Green,
        affected_by_world: false,
        life: SCALE,
    };
    assert!(!spent.update(Vec2 { x: 0, y: 0 }, 0, SCALE));
}

#[test]
fn particle_jitter_stays_within_the_force() {
    for _ in 0..50 {
        let p = Particle::new(
            Vec2 { x: 10 * SCALE, y: 10 * SCALE },
            Vec2 { x: 100, y: -100 },
            40,
            Color::White,
            false,
            SCALE,
        );
        assert!(60 <= p.vel.x && p.vel.x <= 140);
        assert!(-140 <= p.vel.y && p.vel.y <= -60);
        assert_eq!(p.life, SCALE);
        assert_eq!(p.pos, Vec2 { x: 10 * SCALE, y: 10 * SCALE });
    }
}

#[test]
fn pickups_scatter_ahead_and_wrap_around() {
    let mut bank = Pickup::new("disk", SCALE, 12);
    assert_eq!(bank.active.len(), 12);
    for p in bank.active.iter() {
        assert!(SIZE_W_FX <= p.x && p.x < 2 * SIZE_W_FX);
        assert!(0 <= p.y && p.y < SIZE_H_FX);
    }
    let player = Vec2 { x: 5 * SIZE_W_FX, y: 7 * SCALE };
    bank.active[0] = Vec2 { x: 3 * SIZE_W_FX, y: 0 };
    bank.active[1] = Vec2 { x: 5 * SIZE_W_FX, y: 9 * SCALE };
    let untouched = bank.active[1];
    bank.update(player, SCALE);
    assert_eq!(bank.active[0].x, player.x + SIZE_W_FX);
    assert!(player.y - SIZE_H_FX <= bank.active[0].y);
    assert!(bank.active[0].y < player.y + SIZE_H_FX);
    assert_eq!(bank.active[1], untouched);
}
