//! Rollback scheduler: snapshots keyed by tick, exact restore, and
//! resimulation.
//!
//! The scheduler keeps a ring of recent state snapshots bounded by the
//! prediction window.  When a late remote input arrives, the driver rolls
//! the state back to the snapshot at the offending tick and re-runs the
//! tick pipeline forward with the corrected inputs.  The proofs here are
//! the two guarantees that make this sound: the pipeline is a function of
//! state and inputs alone, and running ticks in one pass equals running a
//! prefix, restoring, and running the rest.

use vstd::prelude::*;
use crate::input::BoxInput;
use crate::state::{duplicate, initial_state, wf_state, GameState, StateView, Wall, wf_walls};
use crate::tick::{spec_tick_bullets, spec_tick_players, tick};

verus! {

/// One tick of the pipeline, as a function on state views.
pub open spec fn spec_tick_state(s: StateView, inputs: Seq<BoxInput>, walls: Seq<Wall>) -> StateView {
    StateView {
        players: spec_tick_players(s.players, inputs, walls),
        bullets: spec_tick_bullets(s.players, s.bullets, inputs, walls),
    }
}

/// The state after running the tick pipeline once per entry of `plan`,
/// in order.
pub open spec fn spec_run(s: StateView, plan: Seq<Seq<BoxInput>>, walls: Seq<Wall>) -> StateView
    decreases plan.len(),
{
    if plan.len() == 0 {
        s
    } else {
        spec_run(spec_tick_state(s, plan[0], walls), plan.skip(1), walls)
    }
}

/// Determinism: the sequence of ticks is a pure function of the starting
/// snapshot, the input plan and the walls.  Two executions from equal
/// data end in equal states -- bit-identical positions and velocities.
pub proof fn lemma_determinism(
    s1: StateView,
    s2: StateView,
    plan1: Seq<Seq<BoxInput>>,
    plan2: Seq<Seq<BoxInput>>,
    walls1: Seq<Wall>,
    walls2: Seq<Wall>,
)
    requires
        s1 == s2,
        plan1 == plan2,
        walls1 == walls2,
    ensures
        spec_run(s1, plan1, walls1) == spec_run(s2, plan2, walls2),
{
}

/// Peeling the last tick off a run.
pub proof fn lemma_run_snoc(s: StateView, plan: Seq<Seq<BoxInput>>, walls: Seq<Wall>)
    requires
        plan.len() > 0,
    ensures
        spec_run(s, plan, walls) == spec_tick_state(
            spec_run(s, plan.drop_last(), walls),
            plan.last(),
            walls,
        ),
    decreases plan.len(),
{
    if plan.len() == 1 {
        assert(plan.drop_last() =~= Seq::<Seq<BoxInput>>::empty());
        assert(plan.skip(1) =~= Seq::<Seq<BoxInput>>::empty());
        assert(spec_run(s, plan, walls) == spec_run(
            spec_tick_state(s, plan[0], walls),
            plan.skip(1),
            walls,
        ));
        assert(spec_run(spec_tick_state(s, plan[0], walls), plan.skip(1), walls)
            == spec_tick_state(s, plan[0], walls));
        assert(spec_run(s, plan.drop_last(), walls) == s);
        assert(plan.last() == plan[0]);
    } else {
        let s1 = spec_tick_state(s, plan[0], walls);
        lemma_run_snoc(s1, plan.skip(1), walls);
        assert(plan.skip(1).drop_last() =~= plan.drop_last().skip(1));
        assert(plan.skip(1).last() == plan.last());
        assert(plan.drop_last()[0] == plan[0]);
        assert(plan.drop_last().len() > 0);
        assert(spec_run(s, plan, walls) == spec_run(s1, plan.skip(1), walls));
        assert(spec_run(s, plan.drop_last(), walls) == spec_run(
            spec_tick_state(s, plan.drop_last()[0], walls),
            plan.drop_last().skip(1),
            walls,
        ));
        assert(spec_run(s, plan.drop_last(), walls) == spec_run(
            s1,
            plan.skip(1).drop_last(),
            walls,
        ));
    }
}

/// Rollback equivalence: simulating all of `plan` in one pass equals
/// running the first `k` ticks, restoring that intermediate state, and
/// resimulating the remaining ticks -- for every rollback point `k`.
pub proof fn lemma_rollback_equivalence(
    s: StateView,
    plan: Seq<Seq<BoxInput>>,
    walls: Seq<Wall>,
    k: int,
)
    requires
        0 <= k <= plan.len(),
    ensures
        spec_run(s, plan, walls) == spec_run(
            spec_run(s, plan.take(k), walls),
            plan.skip(k),
            walls,
        ),
    decreases k,
{
    if k == 0 {
        assert(plan.take(0) =~= Seq::<Seq<BoxInput>>::empty());
        assert(plan.skip(0) =~= plan);
    } else {
        let s1 = spec_tick_state(s, plan[0], walls);
        lemma_rollback_equivalence(s1, plan.skip(1), walls, k - 1);
        assert(plan.skip(1).take(k - 1) =~= plan.take(k).skip(1));
        assert(plan.skip(1).skip(k - 1) =~= plan.skip(k));
        assert(plan.take(k)[0] == plan[0]);
        assert(plan.take(k).len() == k);
    }
}

/// A saved state keyed by the tick it belongs to.
pub struct Snapshot {
    pub frame: u64,
    pub state: GameState,
}

/// The mathematical value of a snapshot.
pub ghost struct SnapView {
    pub frame: u64,
    pub state: StateView,
}

impl View for Snapshot {
    type V = SnapView;

    open spec fn view(&self) -> SnapView {
        SnapView { frame: self.frame, state: self.state@ }
    }
}

pub open spec fn snaps_view(s: Seq<Snapshot>) -> Seq<SnapView> {
    s.map_values(|sn: Snapshot| sn@)
}

/// Is a snapshot for tick `f` available to roll back to?
pub open spec fn has_snapshot(snaps: Seq<SnapView>, f: u64) -> bool {
    exists|i: int| 0 <= i < snaps.len() && snaps[i].frame == f
}

/// What saving does to the ring: a second save at the same tick replaces
/// the first; the ring then holds at most `window` snapshots, oldest
/// evicted first.
pub open spec fn spec_save(snaps: Seq<SnapView>, sv: SnapView, window: int) -> Seq<SnapView> {
    let base = if snaps.len() > 0 && snaps.last().frame == sv.frame {
        snaps.drop_last()
    } else {
        snaps
    };
    let pushed = base.push(sv);
    if pushed.len() > window {
        pushed.skip(pushed.len() - window)
    } else {
        pushed
    }
}

/// The deterministic-lockstep driver's state: the live simulation, the
/// static walls, and the snapshot ring.
pub struct Scheduler {
    /// Static collision geometry, shared read-only by every tick.
    pub walls: Vec<Wall>,
    /// The live simulation state, exposed for rendering.
    pub state: GameState,
    /// The tick `state` belongs to.
    pub frame: u64,
    /// Recent snapshots, frames strictly increasing, at most `window`.
    pub snapshots: Vec<Snapshot>,
    /// Maximum prediction window: entities are never rolled back further
    /// than this many saved ticks.
    pub window: usize,
    /// Number of connected players; fixed for the whole session.
    pub num_players: usize,
}

/// Scheduler well-formedness: every held state is well formed and has one
/// row per connected player; snapshot frames grow strictly and never pass
/// the live frame; the ring respects the window.
pub open spec fn wf_sched(s: Scheduler) -> bool {
    &&& wf_state(s.state)
    &&& wf_walls(s.walls@)
    &&& s.state.players@.len() == s.num_players
    &&& s.window >= 1
    &&& s.snapshots@.len() <= s.window
    &&& forall|i: int|
        #![trigger s.snapshots@[i]]
        0 <= i < s.snapshots@.len() ==> wf_state(s.snapshots@[i].state)
            && s.snapshots@[i].state.players@.len() == s.num_players && s.snapshots@[i].frame
            <= s.frame
    &&& forall|i: int, j: int|
        0 <= i < j < s.snapshots@.len() ==> #[trigger] s.snapshots@[i].frame < #[trigger] s.snapshots@[j].frame
}

impl Scheduler {
    /// Start a session: the initial state at tick zero, an empty ring.
    pub fn new(walls: Vec<Wall>, num_players: usize, window: usize) -> (s: Scheduler)
        requires
            wf_walls(walls@),
            window >= 1,
        ensures
            s.walls@ == walls@,
            s.state@.players.len() == num_players,
            forall|i: int|
                0 <= i < num_players ==> s.state@.players[i]
                    == crate::state::spec_initial_player(i),
            s.state@.bullets.len() == 0,
            s.frame == 0,
            s.snapshots@.len() == 0,
            s.window == window,
            s.num_players == num_players,
            wf_sched(s),
    {
        Scheduler {
            walls,
            state: initial_state(num_players),
            frame: 0,
            snapshots: Vec::new(),
            window,
            num_players,
        }
    }

    /// Save the live state into the ring under the current tick.
    pub fn save(&mut self)
        requires
            wf_sched(*old(self)),
        ensures
            snaps_view(final(self).snapshots@) == spec_save(
                snaps_view(old(self).snapshots@),
                SnapView { frame: old(self).frame, state: old(self).state@ },
                old(self).window as int,
            ),
            final(self).state@ == old(self).state@,
            final(self).frame == old(self).frame,
            final(self).walls@ == old(self).walls@,
            final(self).window == old(self).window,
            final(self).num_players == old(self).num_players,
            wf_sched(*final(self)),
    {
        let copy = duplicate(&self.state);
        let n = self.snapshots.len();
        if n > 0 {
            let same = self.snapshots[n - 1].frame == self.frame;
            if same {
                let _ = self.snapshots.pop();
            }
        }
        self.snapshots.push(Snapshot { frame: self.frame, state: copy });
        if self.snapshots.len() > self.window {
            let _ = self.snapshots.remove(0);
        }
        proof {
            assert(snaps_view(self.snapshots@) =~= spec_save(
                snaps_view(old(self).snapshots@),
                SnapView { frame: old(self).frame, state: old(self).state@ },
                old(self).window as int,
            ));
        }
    }

    /// Roll back to the snapshot for tick `f`, if the ring holds one.
    ///
    /// On success the restore is exact and total: the live state equals
    /// the saved state, the live tick becomes `f`, and every snapshot of
    /// a tick at or past `f` is discarded, so nothing from the abandoned
    /// future is visible afterward.
    pub fn rollback_to(&mut self, f: u64) -> (r: bool)
        requires
            wf_sched(*old(self)),
        ensures
            r == has_snapshot(snaps_view(old(self).snapshots@), f),
            r ==> exists|i: int|
                0 <= i < old(self).snapshots@.len() && old(self).snapshots@[i].frame == f
                    && final(self).state@ == old(self).snapshots@[i].state@,
            r ==> final(self).frame == f,
            r ==> forall|i: int|
                #![trigger final(self).snapshots@[i]]
                0 <= i < final(self).snapshots@.len() ==> final(self).snapshots@[i]
                    == old(self).snapshots@[i] && final(self).snapshots@[i].frame < f,
            !r ==> final(self).state@ == old(self).state@ && final(self).frame == old(self).frame
                && final(self).snapshots@ == old(self).snapshots@,
            final(self).walls@ == old(self).walls@,
            final(self).window == old(self).window,
            final(self).num_players == old(self).num_players,
            wf_sched(*final(self)),
    {
        let n = self.snapshots.len();
        let mut i: usize = 0;
        while i < n
            invariant
                i <= n,
                n == self.snapshots@.len(),
                *self == *old(self),
                wf_sched(*self),
                forall|k: int| 0 <= k < i ==> #[trigger] self.snapshots@[k].frame != f,
            decreases n - i,
        {
            if self.snapshots[i].frame == f {
                let restored = duplicate(&self.snapshots[i].state);
                self.state = restored;
                self.frame = f;
                self.snapshots.truncate(i);
                proof {
                    assert(snaps_view(old(self).snapshots@)[i as int] == old(
                        self,
                    ).snapshots@[i as int]@);
                    assert(has_snapshot(snaps_view(old(self).snapshots@), f));
                    assert(self.snapshots@ =~= old(self).snapshots@.take(i as int));
                    assert forall|k: int|
                        0 <= k < self.snapshots@.len() implies #[trigger] self.snapshots@[k]
                        == old(self).snapshots@[k] && self.snapshots@[k].frame < f by {
                        assert(old(self).snapshots@[k].frame < old(self).snapshots@[i as int].frame);
                    }
                }
                return true;
            }
            i = i + 1;
        }
        proof {
            assert(!has_snapshot(snaps_view(old(self).snapshots@), f));
        }
        false
    }

    /// Install an externally kept snapshot of tick `f` as the live state:
    /// the restore used when the ring no longer holds that tick but a
    /// collaborator (the network session) still does.  Exact and total
    /// like `rollback_to`: the live state becomes the snapshot and every
    /// ring entry at or past `f` is discarded.
    pub fn restore(&mut self, f: u64, snapshot: GameState)
        requires
            wf_sched(*old(self)),
            wf_state(snapshot),
            snapshot.players@.len() == old(self).num_players,
        ensures
            final(self).state@ == snapshot@,
            final(self).frame == f,
            final(self).snapshots@.len() <= old(self).snapshots@.len(),
            forall|i: int|
                #![trigger final(self).snapshots@[i]]
                0 <= i < final(self).snapshots@.len() ==> final(self).snapshots@[i]
                    == old(self).snapshots@[i] && final(self).snapshots@[i].frame < f,
            forall|i: int|
                final(self).snapshots@.len() <= i < old(self).snapshots@.len() ==> #[trigger] old(
                    self,
                ).snapshots@[i].frame >= f,
            final(self).walls@ == old(self).walls@,
            final(self).window == old(self).window,
            final(self).num_players == old(self).num_players,
            wf_sched(*final(self)),
    {
        self.state = snapshot;
        self.frame = f;
        proof {
            assert(self.snapshots@ =~= old(self).snapshots@.take(self.snapshots@.len() as int));
        }
        while self.snapshots.len() > 0 && self.snapshots[self.snapshots.len() - 1].frame >= f
            invariant
                wf_walls(self.walls@),
                self.window >= 1,
                self.snapshots@.len() <= self.window,
                self.snapshots@.len() <= old(self).snapshots@.len(),
                self.snapshots@ == old(self).snapshots@.take(self.snapshots@.len() as int),
                forall|i: int|
                    self.snapshots@.len() <= i < old(self).snapshots@.len() ==> #[trigger] old(
                        self,
                    ).snapshots@[i].frame >= f,
                self.state == snapshot,
                self.frame == f,
                self.walls@ == old(self).walls@,
                self.window == old(self).window,
                self.num_players == old(self).num_players,
                forall|i: int, j: int|
                    0 <= i < j < self.snapshots@.len() ==> #[trigger] self.snapshots@[i].frame
                        < #[trigger] self.snapshots@[j].frame,
                forall|i: int|
                    #![trigger self.snapshots@[i]]
                    0 <= i < self.snapshots@.len() ==> wf_state(self.snapshots@[i].state)
                        && self.snapshots@[i].state.players@.len() == self.num_players,
            decreases self.snapshots@.len(),
        {
            let _ = self.snapshots.pop();
            proof {
                assert(self.snapshots@ =~= old(self).snapshots@.take(
                    self.snapshots@.len() as int,
                ));
            }
        }
        proof {
            assert forall|i: int|
                #![trigger self.snapshots@[i]]
                0 <= i < self.snapshots@.len() implies self.snapshots@[i] == old(
                self,
            ).snapshots@[i] && self.snapshots@[i].frame < f by {
                let n = self.snapshots@.len() as int;
                if i < n - 1 {
                    assert(self.snapshots@[i].frame < self.snapshots@[n - 1].frame);
                }
            }
        }
    }

    /// Advance one tick with the given per-player inputs.
    pub fn advance(&mut self, inputs: &Vec<BoxInput>)
        requires
            wf_sched(*old(self)),
            inputs@.len() == old(self).num_players,
            old(self).frame < u64::MAX,
        ensures
            final(self).state@ == spec_tick_state(old(self).state@, inputs@, old(self).walls@),
            final(self).frame == old(self).frame + 1,
            final(self).snapshots@ == old(self).snapshots@,
            final(self).walls@ == old(self).walls@,
            final(self).window == old(self).window,
            final(self).num_players == old(self).num_players,
            wf_sched(*final(self)),
    {
        tick(&mut self.state, inputs, &self.walls);
        self.frame = self.frame + 1;
    }

    /// The per-tick plans of a resimulation pass, as sequences.
    pub open spec fn plan_view(plan: Seq<Vec<BoxInput>>) -> Seq<Seq<BoxInput>> {
        plan.map_values(|v: Vec<BoxInput>| v@)
    }

    /// Run the pipeline once per entry of `plan`, in order: the
    /// resimulate-forward step of a rollback, or plain simulation when no
    /// rollback happened.
    pub fn run_ticks(&mut self, plan: &Vec<Vec<BoxInput>>)
        requires
            wf_sched(*old(self)),
            forall|i: int| 0 <= i < plan@.len() ==> #[trigger] plan@[i]@.len() == old(self).num_players,
            old(self).frame + plan@.len() <= u64::MAX,
        ensures
            final(self).state@ == spec_run(
                old(self).state@,
                Self::plan_view(plan@),
                old(self).walls@,
            ),
            final(self).frame == old(self).frame + plan@.len(),
            final(self).snapshots@ == old(self).snapshots@,
            final(self).walls@ == old(self).walls@,
            final(self).window == old(self).window,
            final(self).num_players == old(self).num_players,
            wf_sched(*final(self)),
    {
        let n = plan.len();
        let mut i: usize = 0;
        while i < n
            invariant
                i <= n,
                n == plan@.len(),
                forall|k: int| 0 <= k < plan@.len() ==> #[trigger] plan@[k]@.len() == self.num_players,
                self.state@ == spec_run(
                    old(self).state@,
                    Self::plan_view(plan@).take(i as int),
                    old(self).walls@,
                ),
                self.frame == old(self).frame + i,
                old(self).frame + plan@.len() <= u64::MAX,
                self.snapshots@ == old(self).snapshots@,
                self.walls@ == old(self).walls@,
                self.window == old(self).window,
                self.num_players == old(self).num_players,
                wf_sched(*self),
            decreases n - i,
        {
            let inputs = &plan[i];
            self.advance(inputs);
            proof {
                let pv = Self::plan_view(plan@);
                lemma_run_snoc(old(self).state@, pv.take(i + 1), old(self).walls@);
                assert(pv.take(i + 1).drop_last() =~= pv.take(i as int));
                assert(pv.take(i + 1).last() == pv[i as int]);
            }
            i = i + 1;
        }
        proof {
            assert(Self::plan_view(plan@).take(n as int) =~= Self::plan_view(plan@));
        }
    }
}

} // verus!
