//! Rollback scheduler: exact restore and resimulation equivalence.

use tanks_core::fx::Vec2;
use tanks_core::input::BoxInput;
use tanks_core::sched::Scheduler;
use tanks_core::state::{GameState, Player, PlayerRow, Rigidbody, Wall};

fn neutral() -> BoxInput {
    BoxInput { inp: 0, sx: 127, sy: 127 }
}

fn hold_right() -> BoxInput {
    BoxInput { inp: 8, sx: 127, sy: 127 }
}

/// Two players, speed 150 units per tick, frictionless, at (0,0) and
/// (100,0).
fn scenario_scheduler() -> Scheduler {
    let mk = |handle: usize, x: i64| PlayerRow {
        player: Player { handle, speed: 9216000, radius: 614400 },
        pos: Vec2 { x, y: 0 },
        rb: Rigidbody { vel: Vec2 { x: 0, y: 0 }, friction: 0 },
    };
    Scheduler {
        walls: vec![],
        state: GameState { players: vec![mk(0, 0), mk(1, 6144000)], bullets: vec![] },
        frame: 0,
        snapshots: vec![],
        window: 12,
        num_players: 2,
    }
}

fn ten_ticks_right() -> Vec<Vec<BoxInput>> {
    (0..10).map(|_| vec![hold_right(), neutral()]).collect()
}

#[test]
fn held_input_accumulates_velocity() {
    let mut s = scenario_scheduler();
    s.run_ticks(&ten_ticks_right());
    // ten ticks of held "right" at speed 150: velocity 10 * 150 units
    assert_eq!(s.state.players[0].rb.vel, Vec2 { x: 92160000, y: 0 });
    // integrated position: 150 * (1 + 2 + ... + 10) = 8250 units
    assert_eq!(s.state.players[0].pos, Vec2 { x: 506880000, y: 0 });
    // the idle player never moved
    assert_eq!(s.state.players[1].pos, Vec2 { x: 6144000, y: 0 });
    assert_eq!(s.frame, 10);
}

#[test]
fn batch_equals_two_resimulation_passes() {
    let plan = ten_ticks_right();
    let first: Vec<Vec<BoxInput>> = plan[..5].to_vec();
    let second: Vec<Vec<BoxInput>> = plan[5..].to_vec();

    // single-shot batch
    let mut direct = scenario_scheduler();
    direct.run_ticks(&plan);

    // two passes of five, with a rollback to the midpoint in between
    let mut replayed = scenario_scheduler();
    replayed.run_ticks(&first);
    replayed.save();
    replayed.run_ticks(&second);
    assert!(replayed.rollback_to(5));
    assert_eq!(replayed.frame, 5);
    replayed.run_ticks(&second);

    assert_eq!(direct.state, replayed.state);
    assert_eq!(direct.frame, replayed.frame);
}

#[test]
fn rollback_restores_exactly() {
    let mut s = scenario_scheduler();
    s.save();
    let before = s.state.clone();
    s.run_ticks(&ten_ticks_right());
    assert_ne!(s.state, before);
    assert!(s.rollback_to(0));
    assert_eq!(s.state, before);
    assert_eq!(s.frame, 0);
}

#[test]
fn rollback_without_snapshot_fails() {
    let mut s = scenario_scheduler();
    s.save();
    s.run_ticks(&ten_ticks_right());
    let frame_before = s.frame;
    assert!(!s.rollback_to(7));
    assert_eq!(s.frame, frame_before);
}

#[test]
fn rollback_discards_the_future() {
    let mut s = scenario_scheduler();
    for k in 0..4u64 {
        s.save();
        assert_eq!(s.frame, k);
        s.run_ticks(&vec![vec![hold_right(), neutral()]]);
    }
    assert!(s.rollback_to(2));
    // snapshots at and past tick 2 are gone; older ones remain
    assert_eq!(s.snapshots.len(), 2);
    assert!(s.snapshots.iter().all(|sn| sn.frame < 2));
    assert!(s.rollback_to(1));
    assert!(!s.rollback_to(2));
}

#[test]
fn ring_is_bounded_by_window() {
    let mut s = scenario_scheduler();
    s.window = 3;
    for _ in 0..10 {
        s.save();
        s.run_ticks(&vec![vec![neutral(), neutral()]]);
    }
    assert_eq!(s.snapshots.len(), 3);
    assert_eq!(s.snapshots[0].frame, 7);
    assert_eq!(s.snapshots[2].frame, 9);
}

#[test]
fn resave_at_same_frame_replaces() {
    let mut s = scenario_scheduler();
    s.save();
    s.run_ticks(&vec![vec![hold_right(), neutral()]]);
    s.rollback_to(0);
    s.save();
    assert_eq!(s.snapshots.len(), 1);
    assert_eq!(s.snapshots[0].frame, 0);
}

#[test]
fn scheduler_new_starts_at_spawn() {
    let s = Scheduler::new(vec![], 2, 12);
    assert_eq!(s.frame, 0);
    assert_eq!(s.state.players.len(), 2);
    assert_eq!(s.state.players[1].pos, Vec2 { x: 1228800, y: 0 });
    assert_eq!(s.snapshots.len(), 0);
}

#[test]
fn resimulation_with_corrected_input_diverges() {
    // the point of rollback: replaying with different (corrected) inputs
    // from the same snapshot gives the state those inputs demand
    let mut s = scenario_scheduler();
    s.save();
    s.run_ticks(&ten_ticks_right());
    let predicted = s.state.clone();
    assert!(s.rollback_to(0));
    let corrected: Vec<Vec<BoxInput>> = (0..10).map(|_| vec![neutral(), neutral()]).collect();
    s.run_ticks(&corrected);
    assert_ne!(s.state, predicted);
    assert_eq!(s.state.players[0].pos, Vec2 { x: 0, y: 0 });
}
