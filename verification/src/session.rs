//! Session adapter: classifying a run and planning its participants.
//!
//! The network layer supplies, once per tick, an input and a status per
//! player handle; this module holds the deterministic decisions of
//! session construction: which configured player is local, which handles
//! the spectators get, and the fixed scheduling parameters.  Address
//! strings are classified here; actually parsing and binding sockets is
//! outside I/O and stays with the caller.

use vstd::prelude::*;

verus! {

/// Maximum prediction window: how many ticks the scheduler may run ahead
/// of the latest fully confirmed input.
pub const MAX_PREDICTION_WINDOW: usize = 12;

/// Ticks of delay applied to the local input source to smooth out
/// misprediction frequency; a fixed scheduling parameter.
pub const INPUT_DELAY: usize = 2;

/// How a run participates in the session.
#[derive(Clone, Copy, PartialEq, Eq, Structural, Debug)]
pub enum SessionRole {
    /// Every local and remote handle participates; missing remote inputs
    /// are predicted.
    PeerToPeer,
    /// Receives the input stream but contributes no local input.
    Spectator,
    /// All handles local; resimulation is forced every tick to validate
    /// determinism.
    SyncTest,
}

/// Whether an input value is the peer's confirmed choice or a guess used
/// to keep simulating before confirmation arrives.  The tick systems
/// treat both alike; the scheduler uses the distinction to decide how far
/// to roll back.
#[derive(Clone, Copy, PartialEq, Eq, Structural, Debug)]
pub enum InputStatus {
    Confirmed,
    Predicted,
}

/// One configured player: the local seat or a remote peer (whose address
/// string the caller parses and connects).
#[derive(Clone, Copy, PartialEq, Eq, Structural, Debug)]
pub enum PlayerSlot {
    Local,
    Remote,
}

/// Why a session could not be planned.  Startup-fatal: the caller aborts
/// rather than retries.
#[derive(Clone, Copy, PartialEq, Eq, Structural, Debug)]
pub enum SessionError {
    /// Zero players are configured.
    NoPlayers,
    /// No session resource of any role was provided.
    NoSession,
}

/// The deterministic part of session construction: a slot per configured
/// player and a handle per spectator.
pub struct SessionPlan {
    /// `Local` where the configured string is exactly `localhost`,
    /// `Remote` otherwise, in configuration order.
    pub slots: Vec<PlayerSlot>,
    /// Spectator handles, numbered after the players.
    pub spectator_handles: Vec<usize>,
}

/// The configured name that selects the local seat.
pub open spec fn spec_is_localhost(s: Seq<char>) -> bool {
    s == "localhost"@
}

/// Plan the session from the configured player strings and spectator
/// count.  Fails exactly when no players are configured.
pub fn plan_session(players: &Vec<String>, num_spectators: usize) -> (r: Result<
    SessionPlan,
    SessionError,
>)
    requires
        players@.len() + num_spectators <= usize::MAX,
    ensures
        players@.len() == 0 <==> r is Err,
        r is Err ==> r->Err_0 == SessionError::NoPlayers,
        r is Ok ==> {
            let plan = r->Ok_0;
            &&& plan.slots@.len() == players@.len()
            &&& forall|i: int|
                0 <= i < players@.len() ==> (#[trigger] plan.slots@[i]) == (if spec_is_localhost(
                    players@[i]@,
                ) {
                    PlayerSlot::Local
                } else {
                    PlayerSlot::Remote
                })
            &&& plan.spectator_handles@.len() == num_spectators
            &&& forall|j: int|
                0 <= j < num_spectators ==> #[trigger] plan.spectator_handles@[j] == players@.len()
                    + j
        },
{
    if players.len() == 0 {
        return Err(SessionError::NoPlayers);
    }
    let localhost: String = localhost_name();
    let n = players.len();
    let mut slots: Vec<PlayerSlot> = Vec::new();
    let mut i: usize = 0;
    while i < n
        invariant
            i <= n,
            n == players@.len(),
            localhost@ == "localhost"@,
            slots@.len() == i,
            forall|k: int|
                0 <= k < i ==> (#[trigger] slots@[k]) == (if spec_is_localhost(players@[k]@) {
                    PlayerSlot::Local
                } else {
                    PlayerSlot::Remote
                }),
        decreases n - i,
    {
        if players[i] == localhost {
            slots.push(PlayerSlot::Local);
        } else {
            slots.push(PlayerSlot::Remote);
        }
        i = i + 1;
    }
    let mut spectator_handles: Vec<usize> = Vec::new();
    let mut j: usize = 0;
    while j < num_spectators
        invariant
            j <= num_spectators,
            n == players@.len(),
            n + num_spectators <= usize::MAX,
            spectator_handles@.len() == j,
            forall|k: int| 0 <= k < j ==> #[trigger] spectator_handles@[k] == n + k,
        decreases num_spectators - j,
    {
        spectator_handles.push(n + j);
        j = j + 1;
    }
    Ok(SessionPlan { slots, spectator_handles })
}

/// Pick the role and player count of this run from whichever session
/// resources the host provides, preferring peer-to-peer, then the
/// synchronization test, then the spectator stream.  Fails (fatally, at
/// startup) when none is provided.
pub fn session_num_players(
    p2p: Option<usize>,
    synctest: Option<usize>,
    spectator: Option<usize>,
) -> (r: Result<(SessionRole, usize), SessionError>)
    ensures
        r == (match (p2p, synctest, spectator) {
            (Some(n), _, _) => Ok::<(SessionRole, usize), SessionError>((
                SessionRole::PeerToPeer,
                n,
            )),
            (None, Some(n), _) => Ok((SessionRole::SyncTest, n)),
            (None, None, Some(n)) => Ok((SessionRole::Spectator, n)),
            (None, None, None) => Err(SessionError::NoSession),
        }),
{
    match (p2p, synctest, spectator) {
        (Some(n), _, _) => Ok((SessionRole::PeerToPeer, n)),
        (None, Some(n), _) => Ok((SessionRole::SyncTest, n)),
        (None, None, Some(n)) => Ok((SessionRole::Spectator, n)),
        (None, None, None) => Err(SessionError::NoSession),
    }
}

/// The literal the local seat is configured as.
fn localhost_name() -> (r: String)
    ensures
        r@ == "localhost"@,
{
    let s: &str = "localhost";
    s.to_string()
}

} // verus!
