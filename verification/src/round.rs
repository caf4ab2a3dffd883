//! The round: how it starts, and how an ended round gives way to the next.

use crate::components::Player;
use crate::geometry::{Vec2, MAP_LIMIT};
use crate::map::{generate, generated, WALL_COUNT};
use crate::seed::{derive_round_seed, round_seed, Scoreboard};
use crate::state::{
    walls_wf, RoundEndTimer, RoundPhase, SimulationState, StateView, ROUND_END_DURATION,
};
use vstd::prelude::*;

verus! {

/// The timer after `dt` more microseconds: it wraps at its duration and keeps
/// the surplus.
pub open spec fn ticked(timer: RoundEndTimer, dt: u32) -> RoundEndTimer {
    RoundEndTimer { elapsed: ((timer.elapsed + dt) % (ROUND_END_DURATION as int)) as u32 }
}

/// The timer reaches its duration within `dt` more microseconds.
pub open spec fn expires(timer: RoundEndTimer, dt: u32) -> bool {
    timer.elapsed + dt >= ROUND_END_DURATION
}

/// The world with the walls of the round that starts at its score.
pub open spec fn map_regenerated(s: StateView) -> StateView {
    StateView { walls: generated(round_seed(s.scores, s.session_seed)).walls, ..s }
}

/// The world with two fresh players at the given points and no projectile.
pub open spec fn players_spawned(s: StateView, spawn0: Vec2, spawn1: Vec2) -> StateView {
    StateView {
        player0: Some(Player::fresh(0, spawn0)),
        player1: Some(Player::fresh(1, spawn1)),
        bullets: Seq::empty(),
        ..s
    }
}

/// The world at the start of the round that its score and session seed call
/// for: the walls of that round's map, two fresh players at its spawn points,
/// no projectile.
pub open spec fn round_started(s: StateView) -> StateView {
    let map = generated(round_seed(s.scores, s.session_seed));
    players_spawned(map_regenerated(s), map.spawn0, map.spawn1)
}

/// The world after the timer stage of a frame of `dt` microseconds. While the
/// round is on, the timer rests. While the round is ending, the timer goes on,
/// and when it reaches its duration the next round starts.
pub open spec fn round_timed_out(s: StateView, dt: u32) -> StateView {
    match s.phase {
        RoundPhase::InRound => s,
        RoundPhase::RoundEnding => {
            let waited = StateView { timer: ticked(s.timer, dt), ..s };
            if expires(s.timer, dt) {
                round_started(StateView { phase: RoundPhase::InRound, ..waited })
            } else {
                waited
            }
        },
    }
}

/// The world before the first frame of a session.
pub open spec fn initial(session_seed: u64) -> StateView {
    round_started(
        StateView {
            player0: None,
            player1: None,
            bullets: Seq::empty(),
            walls: Seq::empty(),
            scores: Scoreboard { p0: 0, p1: 0 },
            phase: RoundPhase::InRound,
            timer: RoundEndTimer { elapsed: 0 },
            session_seed,
        },
    )
}

/// Replaces the walls by those of the round that starts at the current score,
/// and returns that round's two spawn points.
pub fn generate_map(state: &mut SimulationState) -> (spawns: (Vec2, Vec2))
    ensures
        final(state)@ == map_regenerated(old(state)@),
        spawns.0 == generated(round_seed(old(state)@.scores, old(state)@.session_seed)).spawn0,
        spawns.1 == generated(round_seed(old(state)@.scores, old(state)@.session_seed)).spawn1,
        walls_wf(final(state)@.walls),
        final(state)@.walls.len() == WALL_COUNT,
        spawns.0.within(MAP_LIMIT as int),
        spawns.1.within(MAP_LIMIT as int),
{
    let seed = derive_round_seed(&state.scores, state.session_seed);
    let map = generate(seed);
    state.walls = map.walls;
    (map.spawn0, map.spawn1)
}

/// Removes all players and projectiles and puts a fresh player on each of the
/// two points.
pub fn spawn_players(state: &mut SimulationState, spawn0: Vec2, spawn1: Vec2)
    ensures
        final(state)@ == players_spawned(old(state)@, spawn0, spawn1),
{
    state.bullets = Vec::new();
    state.player0 = Some(Player::spawn(0, spawn0));
    state.player1 = Some(Player::spawn(1, spawn1));
}

/// Starts the round that the score and the session seed call for.
pub fn start_round(state: &mut SimulationState)
    requires
        old(state)@.timer.elapsed < ROUND_END_DURATION,
    ensures
        final(state)@ == round_started(old(state)@),
        final(state)@.wf(),
        final(state)@.walls.len() == WALL_COUNT,
{
    let spawns = generate_map(state);
    spawn_players(state, spawns.0, spawns.1);
}

/// Lets the timer of an ending round go on by `dt` microseconds and starts
/// the next round when it reaches its duration: the last stage of a frame.
/// While the round is on it does nothing.
pub fn round_end_timeout(state: &mut SimulationState, dt: u32)
    requires
        old(state)@.timer.elapsed < ROUND_END_DURATION,
    ensures
        final(state)@ == round_timed_out(old(state)@, dt),
        final(state)@.timer.elapsed < ROUND_END_DURATION,
        old(state)@.wf() ==> final(state)@.wf(),
        old(state)@.both_alive_in_round() ==> final(state)@.both_alive_in_round(),
{
    match state.phase {
        RoundPhase::InRound => {},
        RoundPhase::RoundEnding => {
            let total: u64 = state.timer.elapsed as u64 + dt as u64;
            let finished: bool = total >= ROUND_END_DURATION as u64;
            state.timer = RoundEndTimer { elapsed: (total % (ROUND_END_DURATION as u64)) as u32 };
            if finished {
                state.phase = RoundPhase::InRound;
                start_round(state);
            }
        },
    }
}

impl SimulationState {
    /// The world before the first frame: no score, a round that is on, and
    /// the first round's map and players.
    pub fn new(session_seed: u64) -> (state: SimulationState)
        ensures
            state@ == initial(session_seed),
            state@.wf(),
            state@.both_alive_in_round(),
            state@.walls.len() == WALL_COUNT,
    {
        let mut state = SimulationState {
            player0: None,
            player1: None,
            bullets: Vec::new(),
            walls: Vec::new(),
            scores: Scoreboard { p0: 0, p1: 0 },
            phase: RoundPhase::InRound,
            timer: RoundEndTimer { elapsed: 0 },
            session_seed,
        };
        start_round(&mut state);
        state
    }
}

} // verus!
