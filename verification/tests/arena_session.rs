//! Arena building and session planning.

use tanks_core::arena::{build_arena, ArenaError, WallRecord};
use tanks_core::fx::Vec2;
use tanks_core::session::{
    plan_session, session_num_players, PlayerSlot, SessionError, SessionRole, INPUT_DELAY,
    MAX_PREDICTION_WINDOW,
};

fn rec(x0: i32, y0: i32, x1: i32, y1: i32, kind: i32) -> WallRecord {
    WallRecord { x0, y0, x1, y1, kind }
}

#[test]
fn empty_map_is_rejected() {
    assert_eq!(build_arena(&vec![]), Err(ArenaError::NoWalls));
}

#[test]
fn walls_are_centred_on_the_bounding_box() {
    let records = vec![rec(0, 0, 100, 50, 1), rec(200, 0, 300, 50, 2)];
    let arena = build_arena(&records).unwrap();
    assert_eq!(arena.walls.len(), 2);
    // bounding box x in [0, 300], y in [0, 50]: origin (300, 50)
    let w0 = &arena.walls[0];
    assert_eq!(w0.center, Vec2 { x: -200 * 30720, y: 0 });
    assert_eq!(w0.half, Vec2 { x: 100 * 30720, y: 50 * 30720 });
    assert_eq!(w0.kind, 1);
    let w1 = &arena.walls[1];
    assert_eq!(w1.center, Vec2 { x: 200 * 30720, y: 0 });
    assert_eq!(w1.half, Vec2 { x: 100 * 30720, y: 50 * 30720 });
    assert_eq!(w1.kind, 2);
}

#[test]
fn single_wall_lands_at_the_origin() {
    let records = vec![rec(-10, -10, 10, 10, 3)];
    let arena = build_arena(&records).unwrap();
    // one wall is its own bounding box, so its centre is the world origin
    assert_eq!(arena.walls[0].center, Vec2 { x: 0, y: 0 });
    assert_eq!(arena.walls[0].half, Vec2 { x: 10 * 61440, y: 10 * 61440 });
}

#[test]
fn centering_is_independent_of_the_box_position() {
    // the same box far from zero still lands centred on the origin
    let records = vec![rec(100, 100, 200, 150, 1)];
    let arena = build_arena(&records).unwrap();
    assert_eq!(arena.walls[0].center, Vec2 { x: 0, y: 0 });
    assert_eq!(arena.walls[0].half, Vec2 { x: 100 * 30720, y: 50 * 30720 });
}

#[test]
fn session_zero_players_is_fatal() {
    let none: Vec<String> = vec![];
    assert!(matches!(plan_session(&none, 0), Err(SessionError::NoPlayers)));
}

#[test]
fn session_classifies_local_and_remote() {
    let players = vec!["localhost".to_string(), "127.0.0.1:7001".to_string()];
    let plan = plan_session(&players, 1).unwrap();
    assert_eq!(plan.slots, vec![PlayerSlot::Local, PlayerSlot::Remote]);
    assert_eq!(plan.spectator_handles, vec![2]);
}

#[test]
fn session_spectators_numbered_after_players() {
    let players = vec![
        "10.0.0.1:7000".to_string(),
        "localhost".to_string(),
        "10.0.0.2:7000".to_string(),
    ];
    let plan = plan_session(&players, 2).unwrap();
    assert_eq!(plan.slots.len(), 3);
    assert_eq!(plan.slots[1], PlayerSlot::Local);
    assert_eq!(plan.spectator_handles, vec![3, 4]);
}

#[test]
fn scheduling_parameters() {
    assert_eq!(MAX_PREDICTION_WINDOW, 12);
    assert_eq!(INPUT_DELAY, 2);
}

#[test]
fn role_prefers_peer_to_peer() {
    assert_eq!(
        session_num_players(Some(2), Some(3), Some(4)),
        Ok((SessionRole::PeerToPeer, 2))
    );
    assert_eq!(
        session_num_players(None, Some(3), Some(4)),
        Ok((SessionRole::SyncTest, 3))
    );
    assert_eq!(
        session_num_players(None, None, Some(4)),
        Ok((SessionRole::Spectator, 4))
    );
    assert_eq!(session_num_players(None, None, None), Err(SessionError::NoSession));
}
