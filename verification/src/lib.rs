//! Deterministic, rollback-networked simulation core of a top-down arena
//! shooter.
//!
//! The simulation advances one fixed tick at a time from per-player input
//! and produces bit-identical results on every machine given identical
//! inputs, so a peer can rewind to a past tick and resimulate forward
//! when a remote input arrives late.  All physically meaningful
//! quantities are fixed-point integers ([`fx`]); the tick pipeline
//! ([`tick`]) is specified exactly as a function of state and inputs, and
//! the rollback guarantees are proved in [`sched`].
//!
//! Module map: [`fx`] fixed-point arithmetic, [`input`] the 3-byte input
//! codec, [`geom`] the collision engine, [`state`] the entity tables,
//! [`arena`] static wall geometry, [`tick`] the per-tick systems,
//! [`sched`] the rollback scheduler, [`session`] session planning.

pub mod arena;
pub mod fx;
pub mod geom;
pub mod input;
pub mod sched;
pub mod session;
pub mod state;
pub mod tick;

use vstd::prelude::*;

verus! {

/// Number of simulation ticks per second.
pub const TICKS_PER_SECOND: i64 = 60;

} // verus!
