//! Tick pipeline: movement, shooting, fuse lifecycle, determinism.

use tanks_core::fx::Vec2;
use tanks_core::input::BoxInput;
use tanks_core::state::{
    duplicate, initial_state, Bullet, Fuse, GameState, Player, PlayerRow, Rigidbody, Wall,
};
use tanks_core::tick::{clean_fuses, movement, move_players, shoot, tick};

fn neutral() -> BoxInput {
    BoxInput { inp: 0, sx: 127, sy: 127 }
}

fn hold_right() -> BoxInput {
    BoxInput { inp: 8, sx: 127, sy: 127 }
}

fn player_at(handle: usize, x: i64, y: i64, speed: i64, friction: i64) -> PlayerRow {
    PlayerRow {
        player: Player { handle, speed, radius: 614400 },
        pos: Vec2 { x, y },
        rb: Rigidbody { vel: Vec2 { x: 0, y: 0 }, friction },
    }
}

#[test]
fn initial_players_line_up() {
    let s = initial_state(3);
    assert_eq!(s.players.len(), 3);
    assert_eq!(s.bullets.len(), 0);
    for (i, row) in s.players.iter().enumerate() {
        assert_eq!(row.player.handle, i);
        assert_eq!(row.player.speed, 61440);
        assert_eq!(row.player.radius, 614400);
        assert_eq!(row.rb.friction, 12288);
        assert_eq!(row.pos, Vec2 { x: i as i64 * 1228800, y: 0 });
        assert_eq!(row.rb.vel, Vec2 { x: 0, y: 0 });
    }
}

#[test]
fn movement_accelerates_by_speed() {
    let mut s = GameState { players: vec![player_at(0, 0, 0, 9216000, 0)], bullets: vec![] };
    let inputs = vec![hold_right()];
    movement(&mut s, &inputs);
    assert_eq!(s.players[0].rb.vel, Vec2 { x: 9216000, y: 0 });
    assert_eq!(s.players[0].pos, Vec2 { x: 0, y: 0 });
}

#[test]
fn shoot_spawns_offset_bullet() {
    let mut s = GameState { players: vec![player_at(0, 0, 0, 61440, 0)], bullets: vec![] };
    // aim straight right, no movement keys
    let inputs = vec![BoxInput { inp: 0, sx: 255, sy: 127 }];
    shoot(&mut s, &inputs);
    assert_eq!(s.bullets.len(), 1);
    let b = &s.bullets[0];
    // muzzle offset (2 units) plus radius (10 units), along +x
    assert_eq!(b.pos, Vec2 { x: 737280, y: 0 });
    // ten units per tick
    assert_eq!(b.rb.vel, Vec2 { x: 614400, y: 0 });
    assert_eq!(b.rb.friction, 0);
    assert!(b.fuse.lit);
    assert_eq!(b.fuse.time_left, 122880);
}

#[test]
fn zero_aim_never_fires() {
    let mut s = GameState { players: vec![player_at(0, 0, 0, 61440, 0)], bullets: vec![] };
    let inputs = vec![BoxInput { inp: 15, sx: 127, sy: 127 }];
    shoot(&mut s, &inputs);
    assert_eq!(s.bullets.len(), 0);
}

fn lone_bullet(time_left: i64) -> GameState {
    GameState {
        players: vec![],
        bullets: vec![
            Bullet {
                pos: Vec2 { x: 0, y: 0 },
                rb: Rigidbody { vel: Vec2 { x: 0, y: 0 }, friction: 0 },
                fuse: Fuse { lit: true, time_left },
            },
        ],
    }
}

#[test]
fn fuse_two_seconds_is_one_hundred_twenty_ticks() {
    let mut s = lone_bullet(122880);
    let inputs: Vec<BoxInput> = vec![];
    let walls: Vec<Wall> = vec![];
    for _ in 0..119 {
        tick(&mut s, &inputs, &walls);
    }
    assert_eq!(s.bullets.len(), 1);
    assert_eq!(s.bullets[0].fuse.time_left, 1024);
    tick(&mut s, &inputs, &walls);
    assert_eq!(s.bullets.len(), 0);
}

#[test]
fn zeroed_fuse_despawns_next_sweep() {
    // a fuse zeroed by an impact goes at the very next lifecycle sweep,
    // regardless of prior elapsed time
    let mut s = lone_bullet(0);
    clean_fuses(&mut s);
    assert_eq!(s.bullets.len(), 0);
}

#[test]
fn unlit_fuse_never_burns() {
    let mut s = lone_bullet(122880);
    s.bullets[0].fuse.lit = false;
    let inputs: Vec<BoxInput> = vec![];
    let walls: Vec<Wall> = vec![];
    for _ in 0..200 {
        tick(&mut s, &inputs, &walls);
    }
    assert_eq!(s.bullets.len(), 1);
    assert_eq!(s.bullets[0].fuse.time_left, 122880);
}

#[test]
fn bullet_impact_zeroes_fuse_but_keeps_moving() {
    // a bullet starting inside a player's circle is marked this tick,
    // still integrates its position, and is gone after the sweep
    let mut s = GameState {
        players: vec![player_at(0, 0, 0, 61440, 0)],
        bullets: vec![
            Bullet {
                pos: Vec2 { x: -307200, y: 0 },
                rb: Rigidbody { vel: Vec2 { x: 61440, y: 0 }, friction: 0 },
                fuse: Fuse { lit: true, time_left: 122880 },
            },
        ],
    };
    let inputs = vec![neutral()];
    let walls: Vec<Wall> = vec![];
    tick(&mut s, &inputs, &walls);
    assert_eq!(s.bullets.len(), 0);
}

#[test]
fn player_clamped_by_wall_in_tick() {
    // wall spanning x in [20, 40] units at y in [-10, 10]; the player
    // approaches from the left and is clamped to one radius before the face
    let wall = Wall {
        center: Vec2 { x: 1843200, y: 0 },
        half: Vec2 { x: 614400, y: 614400 },
        kind: 1,
    };
    let mut s = GameState {
        players: vec![player_at(0, 368640, 0, 9216000, 0)],
        bullets: vec![],
    };
    let inputs = vec![hold_right()];
    let walls = vec![wall];
    tick(&mut s, &inputs, &walls);
    // clamped to lo.x - radius, then integrated by the damped velocity
    let p = &s.players[0];
    assert_eq!(p.pos, Vec2 { x: 1228800 - 614400 - 921600, y: 0 });
    assert_eq!(p.rb.vel, Vec2 { x: -921600, y: 0 });
}

#[test]
fn pipeline_is_deterministic() {
    let inputs = vec![
        BoxInput { inp: 9, sx: 255, sy: 0 },
        BoxInput { inp: 6, sx: 0, sy: 255 },
    ];
    let walls = vec![
        Wall { center: Vec2 { x: 1843200, y: 0 }, half: Vec2 { x: 614400, y: 614400 }, kind: 3 },
    ];
    let mut s1 = initial_state(2);
    let mut s2 = duplicate(&s1);
    for _ in 0..30 {
        tick(&mut s1, &inputs, &walls);
        tick(&mut s2, &inputs, &walls);
    }
    assert_eq!(s1, s2);
    assert!(s1.bullets.len() > 0);
}
