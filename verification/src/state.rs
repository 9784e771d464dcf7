//! Simulation state: the entity tables the tick systems advance.
//!
//! Entities live in per-kind dense arrays (players, bullets, walls), so a
//! snapshot is an array copy and a rollback restores it exactly.  Walls
//! are static: they are kept beside the rolled-back state, never inside
//! it.

use vstd::prelude::*;
use crate::fx::{clamp_i128, fits, lemma_mul_bounds, sat, v2_fits, Vec2, FX_MAX, SCALE};

verus! {

/// Fraction of velocity lost by a player per tick (a fifth).
pub const PLAYER_FRICTION: i64 = 12288;

/// Default player movement acceleration: one world unit per tick of held
/// input.
pub const PLAYER_SPEED: i64 = 61440;

/// Player collision circle radius: ten world units.
pub const PLAYER_RADIUS: i64 = 614400;

/// Horizontal spacing between player spawn points: twenty world units.
pub const PLAYER_SPACING: i64 = 1228800;

/// A network participant's avatar: its stable handle and movement
/// parameters.  One per connected handle, created at session start and
/// never destroyed.
#[derive(Clone, Copy, PartialEq, Eq, Structural, Debug)]
pub struct Player {
    /// Stable small integer identifying the participant; equals the
    /// player's index in the state table.
    pub handle: usize,
    /// Movement acceleration added per tick of held direction input.
    pub speed: i64,
    /// Collision circle radius.
    pub radius: i64,
}

/// Velocity and per-tick friction of a movable entity.
#[derive(Clone, Copy, PartialEq, Eq, Structural, Debug)]
pub struct Rigidbody {
    pub vel: Vec2,
    /// Fraction of velocity lost per tick, in `[0, SCALE]`.
    pub friction: i64,
}

/// A timed self-destruct: counts down while lit; an impact zeroes it so
/// the owner despawns at the next lifecycle sweep.
#[derive(Clone, Copy, PartialEq, Eq, Structural, Debug)]
pub struct Fuse {
    pub lit: bool,
    /// Remaining burn time, in fixed-point seconds.
    pub time_left: i64,
}

/// A bullet: position, rigid body and fuse.
#[derive(Clone, Copy, PartialEq, Eq, Structural, Debug)]
pub struct Bullet {
    pub pos: Vec2,
    pub rb: Rigidbody,
    pub fuse: Fuse,
}

/// A player's full per-entity state: parameters, position and rigid body.
#[derive(Clone, Copy, PartialEq, Eq, Structural, Debug)]
pub struct PlayerRow {
    pub player: Player,
    pub pos: Vec2,
    pub rb: Rigidbody,
}

/// A static wall rectangle: centre, half-extents and render kind.  Loaded
/// once from the arena geometry and never mutated.
#[derive(Clone, Copy, PartialEq, Eq, Structural, Debug)]
pub struct Wall {
    pub center: Vec2,
    pub half: Vec2,
    /// Selects the render colour; opaque to the simulation.
    pub kind: i32,
}

/// Minimum corner of a wall rectangle.
pub open spec fn wall_lo(w: Wall) -> Vec2 {
    crate::fx::spec_v2_sub(w.center, w.half)
}

/// Maximum corner of a wall rectangle.
pub open spec fn wall_hi(w: Wall) -> Vec2 {
    crate::fx::spec_v2_add(w.center, w.half)
}

/// The mutable entity set one tick advances: this is the object that is
/// snapshotted, rolled back and resimulated.
#[derive(Clone, PartialEq, Eq, Debug)]
pub struct GameState {
    pub players: Vec<PlayerRow>,
    pub bullets: Vec<Bullet>,
}

/// The mathematical value of a `GameState`: its two entity tables as
/// sequences.
pub ghost struct StateView {
    pub players: Seq<PlayerRow>,
    pub bullets: Seq<Bullet>,
}

impl View for GameState {
    type V = StateView;

    open spec fn view(&self) -> StateView {
        StateView { players: self.players@, bullets: self.bullets@ }
    }
}

pub open spec fn wf_rigidbody(rb: Rigidbody) -> bool {
    v2_fits(rb.vel) && 0 <= rb.friction <= SCALE
}

pub open spec fn wf_player_row(p: PlayerRow) -> bool {
    v2_fits(p.pos) && wf_rigidbody(p.rb) && 0 <= p.player.speed <= FX_MAX && 0 <= p.player.radius
        <= FX_MAX
}

pub open spec fn wf_bullet(b: Bullet) -> bool {
    v2_fits(b.pos) && wf_rigidbody(b.rb) && fits(b.fuse.time_left as int)
}

pub open spec fn wf_wall(w: Wall) -> bool {
    v2_fits(w.center) && v2_fits(w.half)
}

/// Every player row fits the representable band and sits at the index its
/// handle names.
pub open spec fn wf_players(players: Seq<PlayerRow>) -> bool {
    forall|i: int| #![trigger players[i]]
        0 <= i < players.len() ==> wf_player_row(players[i]) && players[i].player.handle == i
}

pub open spec fn wf_bullets(bullets: Seq<Bullet>) -> bool {
    forall|i: int| #![trigger bullets[i]] 0 <= i < bullets.len() ==> wf_bullet(bullets[i])
}

pub open spec fn wf_walls(walls: Seq<Wall>) -> bool {
    forall|i: int| #![trigger walls[i]] 0 <= i < walls.len() ==> wf_wall(walls[i])
}

/// Well-formedness of the whole mutable state.
pub open spec fn wf_state(s: GameState) -> bool {
    wf_players(s.players@) && wf_bullets(s.bullets@)
}

/// The player spawned for `handle`: twenty world units to the right per
/// handle, at rest, with the default speed, radius and friction.
pub open spec fn spec_initial_player(handle: int) -> PlayerRow {
    PlayerRow {
        player: Player { handle: handle as usize, speed: PLAYER_SPEED, radius: PLAYER_RADIUS },
        pos: Vec2 { x: sat(handle * PLAYER_SPACING) as i64, y: 0 },
        rb: Rigidbody { vel: Vec2 { x: 0, y: 0 }, friction: PLAYER_FRICTION },
    }
}

/// Build the session-start state: one player per handle, no bullets.
pub fn initial_state(num_players: usize) -> (s: GameState)
    ensures
        s.players@.len() == num_players,
        forall|i: int| 0 <= i < num_players ==> s.players@[i] == spec_initial_player(i),
        s.bullets@.len() == 0,
        wf_state(s),
{
    let mut players: Vec<PlayerRow> = Vec::new();
    let mut handle: usize = 0;
    while handle < num_players
        invariant
            handle <= num_players,
            players@.len() == handle,
            forall|i: int| 0 <= i < handle ==> players@[i] == spec_initial_player(i),
        decreases num_players - handle,
    {
        proof {
            lemma_mul_bounds(handle as int, PLAYER_SPACING as int, 18446744073709551616);
        }
        let px: i64 = clamp_i128((handle as i128) * (PLAYER_SPACING as i128));
        players.push(
            PlayerRow {
                player: Player { handle, speed: PLAYER_SPEED, radius: PLAYER_RADIUS },
                pos: Vec2 { x: px, y: 0 },
                rb: Rigidbody { vel: Vec2 { x: 0, y: 0 }, friction: PLAYER_FRICTION },
            },
        );
        handle = handle + 1;
    }
    proof {
        assert forall|i: int| #![trigger players@[i]] 0 <= i < players@.len() implies wf_player_row(
            players@[i],
        ) && players@[i].player.handle == i by {
            assert(players@[i] == spec_initial_player(i));
        }
    }
    GameState { players, bullets: Vec::new() }
}

/// An exact copy of the state, suitable as a rollback snapshot: every
/// entity of the copy equals the original.
pub fn duplicate(s: &GameState) -> (r: GameState)
    ensures
        r.players@ == s.players@,
        r.bullets@ == s.bullets@,
{
    let mut players: Vec<PlayerRow> = Vec::new();
    let mut i: usize = 0;
    while i < s.players.len()
        invariant
            i <= s.players@.len(),
            players@ == s.players@.take(i as int),
        decreases s.players@.len() - i,
    {
        players.push(s.players[i]);
        proof {
            assert(players@ =~= s.players@.take(i + 1));
        }
        i = i + 1;
    }
    let mut bullets: Vec<Bullet> = Vec::new();
    let mut j: usize = 0;
    while j < s.bullets.len()
        invariant
            j <= s.bullets@.len(),
            bullets@ == s.bullets@.take(j as int),
        decreases s.bullets@.len() - j,
    {
        bullets.push(s.bullets[j]);
        proof {
            assert(bullets@ =~= s.bullets@.take(j + 1));
        }
        j = j + 1;
    }
    proof {
        assert(players@ =~= s.players@);
        assert(bullets@ =~= s.bullets@);
    }
    GameState { players, bullets }
}

} // verus!
