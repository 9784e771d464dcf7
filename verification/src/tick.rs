//! Tick systems: the ordered transformations one fixed tick applies.
//!
//! Order is a correctness requirement, not an optimization: movement,
//! shoot, move players, move bullets, lifecycle sweep.  Each system is
//! total over its state input and is specified exactly, so running the
//! pipeline twice from the same state and inputs gives identical results
//! on every machine.

use vstd::prelude::*;
use crate::fx::{
    fx_add, fx_sub, sat, spec_normalize, spec_v2_add, spec_v2_scale, v2_add, v2_fits, v2_scale,
    v2_sub, normalize, Vec2, FX_MAX, SCALE,
};
use crate::geom::{
    collision_player_wall, intersect_segment_circle, intersect_segment_segment,
    spec_collision_player_wall, spec_intersect_segment_circle, spec_intersect_segment_segment,
};
use crate::input::{spec_decode_aim, spec_decode_direction, decode_aim, decode_direction, BoxInput};
use crate::state::{
    wall_hi, wall_lo, wf_bullets, wf_players, wf_state, wf_walls, Bullet, Fuse, GameState,
    PlayerRow, Rigidbody, Wall,
};

verus! {

/// Duration of one tick in fixed-point seconds: exactly 1/60 s.
pub const TICK_DT: i64 = 1024;

/// Initial bullet speed: ten world units per tick.
pub const BULLET_SPEED: i64 = 614400;

/// Burn time of a freshly lit fuse: two seconds.
pub const BULLET_LIFETIME: i64 = 122880;

/// Muzzle offset: a bullet spawns this far beyond the shooter's radius,
/// two world units.
pub const MUZZLE_OFFSET: i64 = 122880;

/// Movement: add the decoded direction times the player's speed to its
/// velocity.  Position is untouched here.
pub open spec fn spec_movement_row(p: PlayerRow, inp: BoxInput) -> PlayerRow {
    PlayerRow {
        player: p.player,
        pos: p.pos,
        rb: Rigidbody {
            vel: spec_v2_add(
                p.rb.vel,
                spec_v2_scale(spec_decode_direction(inp.inp), p.player.speed as int),
            ),
            friction: p.rb.friction,
        },
    }
}

pub open spec fn spec_movement(players: Seq<PlayerRow>, inputs: Seq<BoxInput>) -> Seq<PlayerRow> {
    Seq::new(
        players.len(),
        |i: int| spec_movement_row(players[i], inputs[players[i].player.handle as int]),
    )
}

pub fn movement(state: &mut GameState, inputs: &Vec<BoxInput>)
    requires
        wf_state(*old(state)),
        inputs@.len() == old(state).players@.len(),
    ensures
        final(state).players@ == spec_movement(old(state).players@, inputs@),
        final(state).bullets@ == old(state).bullets@,
        wf_state(*final(state)),
{
    let ghost orig = state.players@;
    let n = state.players.len();
    let mut updated: Vec<PlayerRow> = Vec::new();
    let mut i: usize = 0;
    while i < n
        invariant
            i <= n,
            n == orig.len(),
            state.players@ == orig,
            inputs@.len() == orig.len(),
            wf_players(orig),
            updated@.len() == i,
            forall|k: int|
                0 <= k < i ==> updated@[k] == spec_movement_row(
                    orig[k],
                    inputs@[orig[k].player.handle as int],
                ),
            wf_players(updated@),
        decreases n - i,
    {
        let p = state.players[i];
        let inp = inputs[p.player.handle];
        let acc = decode_direction(inp.inp);
        let dv = v2_scale(acc, p.player.speed);
        let vel = v2_add(p.rb.vel, dv);
        updated.push(
            PlayerRow {
                player: p.player,
                pos: p.pos,
                rb: Rigidbody { vel, friction: p.rb.friction },
            },
        );
        i = i + 1;
    }
    state.players = updated;
    proof {
        assert(state.players@ =~= spec_movement(orig, inputs@));
    }
}

/// Shoot: a player whose aim vector is non-zero spawns one bullet, offset
/// from the player along the aim direction by the muzzle offset plus the
/// player's radius, with a lit two-second fuse and no friction.  A zero
/// aim vector means "not aiming" and spawns nothing.
pub open spec fn spec_bullet_for(p: PlayerRow, inp: BoxInput) -> Option<Bullet> {
    let aim = spec_decode_aim(inp.sx, inp.sy);
    if aim.x == 0 && aim.y == 0 {
        None
    } else {
        let unit = spec_normalize(aim);
        Some(
            Bullet {
                pos: spec_v2_add(
                    p.pos,
                    spec_v2_scale(unit, sat(MUZZLE_OFFSET + p.player.radius)),
                ),
                rb: Rigidbody { vel: spec_v2_scale(unit, BULLET_SPEED as int), friction: 0 },
                fuse: Fuse { lit: true, time_left: BULLET_LIFETIME },
            },
        )
    }
}

/// Bullets spawned by the first `n` players, in player order.
pub open spec fn spec_spawned_upto(
    players: Seq<PlayerRow>,
    inputs: Seq<BoxInput>,
    n: int,
) -> Seq<Bullet>
    decreases n,
{
    if n <= 0 {
        Seq::empty()
    } else {
        let rest = spec_spawned_upto(players, inputs, n - 1);
        match spec_bullet_for(players[n - 1], inputs[players[n - 1].player.handle as int]) {
            Some(b) => rest.push(b),
            None => rest,
        }
    }
}

pub open spec fn spec_shoot(players: Seq<PlayerRow>, inputs: Seq<BoxInput>) -> Seq<Bullet> {
    spec_spawned_upto(players, inputs, players.len() as int)
}

pub fn shoot(state: &mut GameState, inputs: &Vec<BoxInput>)
    requires
        wf_state(*old(state)),
        inputs@.len() == old(state).players@.len(),
    ensures
        final(state).players@ == old(state).players@,
        final(state).bullets@ == old(state).bullets@ + spec_shoot(old(state).players@, inputs@),
        wf_state(*final(state)),
{
    let ghost orig_players = state.players@;
    let ghost orig_bullets = state.bullets@;
    let n = state.players.len();
    let mut i: usize = 0;
    while i < n
        invariant
            i <= n,
            n == orig_players.len(),
            state.players@ == orig_players,
            inputs@.len() == orig_players.len(),
            wf_players(orig_players),
            wf_bullets(orig_bullets),
            state.bullets@ == orig_bullets + spec_spawned_upto(orig_players, inputs@, i as int),
            wf_bullets(state.bullets@),
        decreases n - i,
    {
        let p = state.players[i];
        let inp = inputs[p.player.handle];
        let aim = decode_aim(inp.sx, inp.sy);
        if !(aim.x == 0 && aim.y == 0) {
            let unit = normalize(aim);
            let reach = fx_add(MUZZLE_OFFSET, p.player.radius);
            let bullet = Bullet {
                pos: v2_add(p.pos, v2_scale(unit, reach)),
                rb: Rigidbody { vel: v2_scale(unit, BULLET_SPEED), friction: 0 },
                fuse: Fuse { lit: true, time_left: BULLET_LIFETIME },
            };
            state.bullets.push(bullet);
        }
        i = i + 1;
    }
}

/// The player's position and velocity after resolving every wall in
/// order: each wall sees the pair the previous wall produced.
pub open spec fn spec_after_walls(pos: Vec2, vel: Vec2, rad: i64, walls: Seq<Wall>, n: int) -> (
    Vec2,
    Vec2,
)
    decreases n,
{
    if n <= 0 {
        (pos, vel)
    } else {
        let pv = spec_after_walls(pos, vel, rad, walls, n - 1);
        spec_collision_player_wall(pv.0, pv.1, rad, wall_lo(walls[n - 1]), wall_hi(walls[n - 1])).1
    }
}

/// Velocity after one tick of friction: the fraction kept is
/// `SCALE - friction`.
pub open spec fn spec_apply_friction(v: Vec2, friction: i64) -> Vec2 {
    spec_v2_scale(v, SCALE - friction)
}

/// Move players: resolve every wall, integrate position by the corrected
/// velocity, then apply friction.
pub open spec fn spec_move_player_row(p: PlayerRow, walls: Seq<Wall>) -> PlayerRow {
    let pv = spec_after_walls(p.pos, p.rb.vel, p.player.radius, walls, walls.len() as int);
    PlayerRow {
        player: p.player,
        pos: spec_v2_add(pv.0, pv.1),
        rb: Rigidbody { vel: spec_apply_friction(pv.1, p.rb.friction), friction: p.rb.friction },
    }
}

pub open spec fn spec_move_players(players: Seq<PlayerRow>, walls: Seq<Wall>) -> Seq<PlayerRow> {
    Seq::new(players.len(), |i: int| spec_move_player_row(players[i], walls))
}

pub fn move_players(state: &mut GameState, walls: &Vec<Wall>)
    requires
        wf_state(*old(state)),
        wf_walls(walls@),
    ensures
        final(state).players@ == spec_move_players(old(state).players@, walls@),
        final(state).bullets@ == old(state).bullets@,
        wf_state(*final(state)),
{
    let ghost orig = state.players@;
    let n = state.players.len();
    let mut updated: Vec<PlayerRow> = Vec::new();
    let mut i: usize = 0;
    while i < n
        invariant
            i <= n,
            n == orig.len(),
            state.players@ == orig,
            wf_players(orig),
            wf_walls(walls@),
            updated@.len() == i,
            forall|k: int| 0 <= k < i ==> updated@[k] == spec_move_player_row(orig[k], walls@),
            wf_players(updated@),
        decreases n - i,
    {
        let p = state.players[i];
        let mut pos = p.pos;
        let mut vel = p.rb.vel;
        let m = walls.len();
        let mut j: usize = 0;
        while j < m
            invariant
                j <= m,
                m == walls@.len(),
                wf_walls(walls@),
                v2_fits(pos),
                v2_fits(vel),
                0 <= p.player.radius <= FX_MAX,
                (pos, vel) == spec_after_walls(p.pos, p.rb.vel, p.player.radius, walls@, j as int),
            decreases m - j,
        {
            let w = walls[j];
            let lo = v2_sub(w.center, w.half);
            let hi = v2_add(w.center, w.half);
            let res = collision_player_wall(pos, vel, p.player.radius, lo, hi);
            pos = res.1.0;
            vel = res.1.1;
            j = j + 1;
        }
        let newpos = v2_add(pos, vel);
        let newvel = v2_scale(vel, SCALE - p.rb.friction);
        updated.push(
            PlayerRow {
                player: p.player,
                pos: newpos,
                rb: Rigidbody { vel: newvel, friction: p.rb.friction },
            },
        );
        i = i + 1;
    }
    state.players = updated;
    proof {
        assert(state.players@ =~= spec_move_players(orig, walls@));
    }
}

/// The bullet's segment endpoint this tick: its position plus its
/// velocity, exact (positions and velocities both fit, so the sum cannot
/// overflow).
pub open spec fn spec_bullet_end(b: Bullet) -> Vec2 {
    Vec2 { x: (b.pos.x + b.rb.vel.x) as i64, y: (b.pos.y + b.rb.vel.y) as i64 }
}

/// Did the bullet's path this tick cross any player's circle?
pub open spec fn spec_bullet_hits_player(b: Bullet, players: Seq<PlayerRow>) -> bool {
    exists|j: int|
        0 <= j < players.len() && spec_intersect_segment_circle(
            b.pos,
            b.rb.vel,
            players[j].pos,
            players[j].player.radius,
        )
}

/// Did the bullet's path this tick cross one of the four edges of this
/// wall?
pub open spec fn spec_bullet_hits_wall(b: Bullet, w: Wall) -> bool {
    let from = b.pos;
    let to = spec_bullet_end(b);
    let lo = wall_lo(w);
    let hi = wall_hi(w);
    let bl = Vec2 { x: hi.x, y: lo.y };
    let br = Vec2 { x: lo.x, y: lo.y };
    let tr = Vec2 { x: lo.x, y: hi.y };
    let tl = Vec2 { x: hi.x, y: hi.y };
    spec_intersect_segment_segment(from, to, bl, br) || spec_intersect_segment_segment(
        from,
        to,
        br,
        tr,
    ) || spec_intersect_segment_segment(from, to, tr, tl) || spec_intersect_segment_segment(
        from,
        to,
        tl,
        bl,
    )
}

pub open spec fn spec_bullet_hits_any_wall(b: Bullet, walls: Seq<Wall>) -> bool {
    exists|j: int| 0 <= j < walls.len() && spec_bullet_hits_wall(b, walls[j])
}

/// Move bullets: an impact with a player or a wall edge zeroes and lights
/// the fuse but does not stop the motion this tick; the bullet still
/// integrates its position and applies friction, and is removed at the
/// lifecycle sweep.
pub open spec fn spec_move_bullet_row(b: Bullet, players: Seq<PlayerRow>, walls: Seq<Wall>) -> Bullet {
    let hit = spec_bullet_hits_player(b, players) || spec_bullet_hits_any_wall(b, walls);
    Bullet {
        pos: spec_v2_add(b.pos, b.rb.vel),
        rb: Rigidbody { vel: spec_apply_friction(b.rb.vel, b.rb.friction), friction: b.rb.friction },
        fuse: if hit {
            Fuse { lit: true, time_left: 0 }
        } else {
            b.fuse
        },
    }
}

pub open spec fn spec_move_bullets(
    bullets: Seq<Bullet>,
    players: Seq<PlayerRow>,
    walls: Seq<Wall>,
) -> Seq<Bullet> {
    Seq::new(bullets.len(), |i: int| spec_move_bullet_row(bullets[i], players, walls))
}

pub fn move_bullets(state: &mut GameState, walls: &Vec<Wall>)
    requires
        wf_state(*old(state)),
        wf_walls(walls@),
    ensures
        final(state).players@ == old(state).players@,
        final(state).bullets@ == spec_move_bullets(old(state).bullets@, old(state).players@, walls@),
        wf_state(*final(state)),
{
    let ghost orig_players = state.players@;
    let ghost orig_bullets = state.bullets@;
    let n = state.bullets.len();
    let mut updated: Vec<Bullet> = Vec::new();
    let mut i: usize = 0;
    while i < n
        invariant
            i <= n,
            n == orig_bullets.len(),
            state.players@ == orig_players,
            state.bullets@ == orig_bullets,
            wf_players(orig_players),
            wf_bullets(orig_bullets),
            wf_walls(walls@),
            updated@.len() == i,
            forall|k: int|
                0 <= k < i ==> updated@[k] == spec_move_bullet_row(
                    orig_bullets[k],
                    orig_players,
                    walls@,
                ),
            wf_bullets(updated@),
        decreases n - i,
    {
        let b = state.bullets[i];
        let mut hit: bool = false;
        let np = state.players.len();
        let mut j: usize = 0;
        while j < np
            invariant
                j <= np,
                np == orig_players.len(),
                state.players@ == orig_players,
                wf_players(orig_players),
                v2_fits(b.pos),
                v2_fits(b.rb.vel),
                hit <==> (exists|k: int|
                    0 <= k < j && spec_intersect_segment_circle(
                        b.pos,
                        b.rb.vel,
                        orig_players[k].pos,
                        orig_players[k].player.radius,
                    )),
            decreases np - j,
        {
            let p = state.players[j];
            if intersect_segment_circle(b.pos, b.rb.vel, p.pos, p.player.radius) {
                hit = true;
                proof {
                    assert(spec_intersect_segment_circle(
                        b.pos,
                        b.rb.vel,
                        orig_players[j as int].pos,
                        orig_players[j as int].player.radius,
                    ));
                }
            }
            j = j + 1;
        }
        proof {
            assert(hit == spec_bullet_hits_player(b, orig_players));
        }
        let ghost hit_players = hit;

        let to = Vec2 { x: b.pos.x + b.rb.vel.x, y: b.pos.y + b.rb.vel.y };
        let nw = walls.len();
        let mut t: usize = 0;
        while t < nw
            invariant
                t <= nw,
                nw == walls@.len(),
                wf_walls(walls@),
                v2_fits(b.pos),
                v2_fits(b.rb.vel),
                to == spec_bullet_end(b),
                hit <==> hit_players || (exists|k: int|
                    0 <= k < t && spec_bullet_hits_wall(b, walls@[k])),
            decreases nw - t,
        {
            let w = walls[t];
            let lo = v2_sub(w.center, w.half);
            let hi = v2_add(w.center, w.half);
            let bl = Vec2 { x: hi.x, y: lo.y };
            let br = Vec2 { x: lo.x, y: lo.y };
            let tr = Vec2 { x: lo.x, y: hi.y };
            let tl = Vec2 { x: hi.x, y: hi.y };
            if intersect_segment_segment(b.pos, to, bl, br) || intersect_segment_segment(
                b.pos,
                to,
                br,
                tr,
            ) || intersect_segment_segment(b.pos, to, tr, tl) || intersect_segment_segment(
                b.pos,
                to,
                tl,
                bl,
            ) {
                hit = true;
                proof {
                    assert(spec_bullet_hits_wall(b, walls@[t as int]));
                }
            }
            t = t + 1;
        }
        proof {
            assert(hit == (spec_bullet_hits_player(b, orig_players) || spec_bullet_hits_any_wall(
                b,
                walls@,
            )));
        }

        let fuse = if hit {
            Fuse { lit: true, time_left: 0 }
        } else {
            b.fuse
        };
        let newpos = v2_add(b.pos, b.rb.vel);
        let newvel = v2_scale(b.rb.vel, SCALE - b.rb.friction);
        updated.push(
            Bullet { pos: newpos, rb: Rigidbody { vel: newvel, friction: b.rb.friction }, fuse },
        );
        i = i + 1;
    }
    state.bullets = updated;
    proof {
        assert(state.bullets@ =~= spec_move_bullets(orig_bullets, orig_players, walls@));
    }
}

/// One lifecycle step of a fuse: a lit fuse burns down by the tick
/// duration; an unlit fuse is untouched.
pub open spec fn spec_burn(f: Fuse) -> Fuse {
    if f.lit {
        Fuse { lit: f.lit, time_left: sat(f.time_left - TICK_DT) as i64 }
    } else {
        f
    }
}

/// A burned fuse whose time has run out despawns its owner.
pub open spec fn spec_expired(f: Fuse) -> bool {
    f.lit && f.time_left <= 0
}

/// The bullets that survive the lifecycle sweep of the first `n`, each
/// with its fuse burned down.
pub open spec fn spec_clean_upto(bullets: Seq<Bullet>, n: int) -> Seq<Bullet>
    decreases n,
{
    if n <= 0 {
        Seq::empty()
    } else {
        let rest = spec_clean_upto(bullets, n - 1);
        let b = bullets[n - 1];
        let f2 = spec_burn(b.fuse);
        if spec_expired(f2) {
            rest
        } else {
            rest.push(Bullet { pos: b.pos, rb: b.rb, fuse: f2 })
        }
    }
}

pub open spec fn spec_clean_fuses(bullets: Seq<Bullet>) -> Seq<Bullet> {
    spec_clean_upto(bullets, bullets.len() as int)
}

/// Lifecycle sweep: burn every lit fuse down by one tick and despawn the
/// bullets whose time has reached zero or below.
pub fn clean_fuses(state: &mut GameState)
    requires
        wf_state(*old(state)),
    ensures
        final(state).players@ == old(state).players@,
        final(state).bullets@ == spec_clean_fuses(old(state).bullets@),
        wf_state(*final(state)),
{
    let ghost orig_bullets = state.bullets@;
    let n = state.bullets.len();
    let mut kept: Vec<Bullet> = Vec::new();
    let mut i: usize = 0;
    while i < n
        invariant
            i <= n,
            n == orig_bullets.len(),
            state.bullets@ == orig_bullets,
            wf_bullets(orig_bullets),
            kept@ == spec_clean_upto(orig_bullets, i as int),
            wf_bullets(kept@),
        decreases n - i,
    {
        let b = state.bullets[i];
        let fuse = if b.fuse.lit {
            Fuse { lit: b.fuse.lit, time_left: fx_sub(b.fuse.time_left, TICK_DT) }
        } else {
            b.fuse
        };
        if !(fuse.lit && fuse.time_left <= 0) {
            kept.push(Bullet { pos: b.pos, rb: b.rb, fuse });
        }
        i = i + 1;
    }
    state.bullets = kept;
}

/// All players after one tick.
pub open spec fn spec_tick_players(
    players: Seq<PlayerRow>,
    inputs: Seq<BoxInput>,
    walls: Seq<Wall>,
) -> Seq<PlayerRow> {
    spec_move_players(spec_movement(players, inputs), walls)
}

/// All bullets after one tick: the old ones plus this tick's spawns, all
/// moved against the post-move players and swept for expired fuses.
pub open spec fn spec_tick_bullets(
    players: Seq<PlayerRow>,
    bullets: Seq<Bullet>,
    inputs: Seq<BoxInput>,
    walls: Seq<Wall>,
) -> Seq<Bullet> {
    let players1 = spec_movement(players, inputs);
    let players2 = spec_move_players(players1, walls);
    let spawned = spec_shoot(players1, inputs);
    spec_clean_fuses(spec_move_bullets(bullets + spawned, players2, walls))
}

/// Advance the state by exactly one tick: the five systems in their fixed
/// order.  The result is a function of the starting state, the inputs and
/// the walls alone, which is the determinism contract rollback relies on.
pub fn tick(state: &mut GameState, inputs: &Vec<BoxInput>, walls: &Vec<Wall>)
    requires
        wf_state(*old(state)),
        wf_walls(walls@),
        inputs@.len() == old(state).players@.len(),
    ensures
        final(state).players@ == spec_tick_players(old(state).players@, inputs@, walls@),
        final(state).bullets@ == spec_tick_bullets(
            old(state).players@,
            old(state).bullets@,
            inputs@,
            walls@,
        ),
        final(state).players@.len() == old(state).players@.len(),
        wf_state(*final(state)),
{
    movement(state, inputs);
    shoot(state, inputs);
    move_players(state, walls);
    move_bullets(state, walls);
    clean_fuses(state);
}

} // verus!
