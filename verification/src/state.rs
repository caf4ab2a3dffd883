//! The whole world as one value: what a snapshot saves and a step advances.

use crate::components::{Bullet, Player, Wall};
use crate::geometry::MAP_LIMIT;
use crate::seed::Scoreboard;
use vstd::prelude::*;

verus! {

/// How long a round that has ended lingers before the next one starts, in
/// microseconds of simulated time.
pub const ROUND_END_DURATION: u32 = 1_000_000;

/// The largest distance from the origin at which a projectile can rest
/// between two frames: one step inside the arena edge.
pub const REST_REACH: i64 = MAP_LIMIT - 1;

/// The phase of a round.
#[derive(Clone, Copy, Debug, PartialEq, Eq, Structural)]
pub enum RoundPhase {
    /// The players run and shoot.
    InRound,
    /// A player is dead and the next round is about to start.
    RoundEnding,
}

/// The simulated time for which the current round has been ending, in
/// microseconds. It wraps at [`ROUND_END_DURATION`] and carries the surplus
/// into the next time a round ends.
#[derive(Clone, Copy, Debug, PartialEq, Eq, Structural)]
pub struct RoundEndTimer {
    pub elapsed: u32,
}

impl Default for RoundPhase {
    /// A session begins with a round that is on.
    fn default() -> (phase: RoundPhase)
        ensures
            phase == RoundPhase::InRound,
    {
        RoundPhase::InRound
    }
}

impl Default for RoundEndTimer {
    /// A timer that has not run.
    fn default() -> (timer: RoundEndTimer)
        ensures
            timer == (RoundEndTimer { elapsed: 0 }),
    {
        RoundEndTimer { elapsed: 0 }
    }
}

/// The world. Slot 0 holds the player with handle 0, slot 1 the one with
/// handle 1; a dead player's slot is empty. Projectiles are kept in the order
/// in which they were fired.
#[derive(Debug, PartialEq, Eq)]
pub struct SimulationState {
    pub player0: Option<Player>,
    pub player1: Option<Player>,
    pub bullets: Vec<Bullet>,
    pub walls: Vec<Wall>,
    pub scores: Scoreboard,
    pub phase: RoundPhase,
    pub timer: RoundEndTimer,
    pub session_seed: u64,
}

/// The mathematical content of a [`SimulationState`].
pub struct StateView {
    pub player0: Option<Player>,
    pub player1: Option<Player>,
    pub bullets: Seq<Bullet>,
    pub walls: Seq<Wall>,
    pub scores: Scoreboard,
    pub phase: RoundPhase,
    pub timer: RoundEndTimer,
    pub session_seed: u64,
}

impl View for SimulationState {
    type V = StateView;

    open spec fn view(&self) -> StateView {
        StateView {
            player0: self.player0,
            player1: self.player1,
            bullets: self.bullets@,
            walls: self.walls@,
            scores: self.scores,
            phase: self.phase,
            timer: self.timer,
            session_seed: self.session_seed,
        }
    }
}

/// Every projectile of `bullets` lies within `reach` of the origin and
/// travels along a unit vector.
pub open spec fn bullets_wf(bullets: Seq<Bullet>, reach: int) -> bool {
    forall|i: int| 0 <= i < bullets.len() ==> (#[trigger] bullets[i]).wf(reach)
}

/// Every wall of `walls` has a positive size and lies inside the arena.
pub open spec fn walls_wf(walls: Seq<Wall>) -> bool {
    forall|i: int| 0 <= i < walls.len() ==> (#[trigger] walls[i]).wf()
}

impl StateView {
    /// Each player sits in its slot, within the bound that no player leaves,
    /// and faces along a unit vector.
    pub open spec fn players_wf(self) -> bool {
        &&& self.player0 matches Some(p) ==> p.wf(0)
        &&& self.player1 matches Some(p) ==> p.wf(1)
    }

    /// Validity with projectiles allowed as far out as `reach`: between the
    /// stages of one frame a projectile may be outside the arena.
    pub open spec fn bounded(self, reach: int) -> bool {
        &&& self.players_wf()
        &&& bullets_wf(self.bullets, reach)
        &&& walls_wf(self.walls)
        &&& self.timer.elapsed < ROUND_END_DURATION
    }

    /// Validity between two frames: each player in its slot and within the
    /// bound that no player leaves, each projectile strictly inside the arena,
    /// each wall inside the arena, the timer short of its duration.
    pub open spec fn wf(self) -> bool {
        self.bounded(REST_REACH as int)
    }

    /// While a round is on, both players are alive.
    pub open spec fn both_alive_in_round(self) -> bool {
        self.phase == RoundPhase::InRound ==> self.player0.is_some() && self.player1.is_some()
    }
}

impl SimulationState {
    /// [`StateView::wf`] of the content.
    pub open spec fn wf(&self) -> bool {
        self@.wf()
    }

    /// Whether [`SimulationState::wf`] holds: to be asked before a value that
    /// was put together by hand is stepped.
    pub fn is_wf(&self) -> (b: bool)
        ensures
            b == self.wf(),
    {
        let ok0: bool = match &self.player0 {
            Some(p) => p.is_wf(0),
            None => true,
        };
        let ok1: bool = match &self.player1 {
            Some(p) => p.is_wf(1),
            None => true,
        };
        if !ok0 || !ok1 || self.timer.elapsed >= ROUND_END_DURATION {
            return false;
        }
        let mut i: usize = 0;
        while i < self.bullets.len()
            invariant
                i <= self.bullets.len(),
                bullets_wf(self.bullets@.take(i as int), REST_REACH as int),
            decreases self.bullets.len() - i,
        {
            if !self.bullets[i].is_wf(REST_REACH) {
                return false;
            }
            i = i + 1;
        }
        assert(self.bullets@.take(i as int) == self.bullets@);
        let mut j: usize = 0;
        while j < self.walls.len()
            invariant
                j <= self.walls.len(),
                walls_wf(self.walls@.take(j as int)),
            decreases self.walls.len() - j,
        {
            if !self.walls[j].is_wf() {
                return false;
            }
            j = j + 1;
        }
        assert(self.walls@.take(j as int) == self.walls@);
        true
    }
}

} // verus!
