//! One frame: the fixed order of the stages, and what a rollback relies on.

use crate::checksum::{digest_of, state_words};
use crate::combat::{kill_players, players_killed};
use crate::components::{Bullet, Player, Wall};
use crate::input::{pressed, INPUT_FIRE};
use crate::map::generated;
use crate::movement::{
    move_players, moved_slot, players_moved, players_resolved, resolve_wall_collisions,
    resolved_slot,
};
use crate::projectile::{
    bullet_wall_collisions, bullets_culled, bullets_fired, bullets_moved, fire_bullets, in_play,
    move_bullet, players_reloaded, reload_bullet, reloaded_slot, shots,
};
use crate::round::{expires, round_end_timeout, round_timed_out, ticked};
use crate::seed::round_seed;
use crate::state::{RoundPhase, SimulationState, StateView};
use vstd::prelude::*;

verus! {

/// What one frame is made of: the input code of each player, by handle, and
/// the length of the frame in microseconds.
#[derive(Clone, Copy, Debug)]
pub struct Frame {
    pub inputs: [u8; 2],
    pub dt: u32,
}

/// The world after a frame in which the round is on. The stages run in this
/// order, each on what the one before has left: the players move, the walls
/// push them out, latches open, shots are fired, projectiles fly, projectiles
/// end at the edge or in a wall, players die.
pub open spec fn in_round_frame(s: StateView, inputs: [u8; 2], dt: u32) -> StateView {
    players_killed(
        bullets_culled(
            bullets_moved(
                bullets_fired(
                    players_reloaded(players_resolved(players_moved(s, inputs, dt)), inputs),
                    inputs,
                ),
                dt,
            ),
        ),
    )
}

/// The world after the stages of play of one frame: those of
/// [`in_round_frame`] while the round is on, none while it is ending.
pub open spec fn played(s: StateView, inputs: [u8; 2], dt: u32) -> StateView {
    match s.phase {
        RoundPhase::InRound => in_round_frame(s, inputs, dt),
        RoundPhase::RoundEnding => s,
    }
}

/// The world after one frame: the stages of play, then the timer stage,
/// which runs whatever the phase was and sees the phase that play has left.
/// So the frame in which a player dies already counts toward the wait.
pub open spec fn stepped(s: StateView, inputs: [u8; 2], dt: u32) -> StateView {
    round_timed_out(played(s, inputs, dt), dt)
}

/// [`stepped`] as a value, to fold with.
pub open spec fn stepper() -> spec_fn(StateView, Frame) -> StateView {
    |s: StateView, frame: Frame| stepped(s, frame.inputs, frame.dt)
}

/// The world after the frames `frames`, one after the other.
pub open spec fn replayed(s: StateView, frames: Seq<Frame>) -> StateView {
    frames.fold_left(s, stepper())
}

/// A copy of `items`.
fn copied<T: Copy>(items: &Vec<T>) -> (copy: Vec<T>)
    ensures
        copy@ == items@,
{
    let mut copy: Vec<T> = Vec::new();
    let mut i: usize = 0;
    while i < items.len()
        invariant
            i <= items.len(),
            copy@ == items@.take(i as int),
        decreases items.len() - i,
    {
        copy.push(items[i]);
        i = i + 1;
    }
    copy
}

impl SimulationState {
    /// Advances the world by one frame. The result depends on the world, the
    /// inputs and the length of the frame, and on nothing else.
    pub fn step(&mut self, inputs: [u8; 2], frame_dt: u32)
        requires
            old(self)@.wf(),
        ensures
            final(self)@ == stepped(old(self)@, inputs, frame_dt),
            final(self)@.wf(),
            old(self)@.both_alive_in_round() ==> final(self)@.both_alive_in_round(),
            old(self)@.scores.p0 <= final(self)@.scores.p0 <= old(self)@.scores.p0 + 1,
            old(self)@.scores.p1 <= final(self)@.scores.p1 <= old(self)@.scores.p1 + 1,
            old(self)@.phase == RoundPhase::InRound ==> forall|i: int|
                0 <= i < final(self)@.bullets.len() ==> in_play(
                    #[trigger] final(self)@.bullets[i],
                    final(self)@.walls,
                ),
    {
        match self.phase {
            RoundPhase::InRound => {
                move_players(self, inputs, frame_dt);
                resolve_wall_collisions(self);
                reload_bullet(self, inputs);
                fire_bullets(self, inputs);
                move_bullet(self, frame_dt);
                bullet_wall_collisions(self);
                kill_players(self);
            },
            RoundPhase::RoundEnding => {},
        }
        round_end_timeout(self, frame_dt);
    }

    /// Advances the world by the frames `frames`, one after the other: what a
    /// rollback does from a restored snapshot.
    pub fn replay(&mut self, frames: &Vec<Frame>)
        requires
            old(self)@.wf(),
        ensures
            final(self)@ == replayed(old(self)@, frames@),
            final(self)@.wf(),
    {
        let mut i: usize = 0;
        while i < frames.len()
            invariant
                i <= frames.len(),
                self@.wf(),
                self@ == replayed(old(self)@, frames@.take(i as int)),
            decreases frames.len() - i,
        {
            assert(frames@.take(i + 1).drop_last() == frames@.take(i as int));
            self.step(frames[i].inputs, frames[i].dt);
            i = i + 1;
        }
    }

    /// A copy of the world that shares nothing with it.
    pub fn save_snapshot(&self) -> (snapshot: SimulationState)
        ensures
            snapshot@ == self@,
    {
        SimulationState {
            player0: self.player0,
            player1: self.player1,
            bullets: copied::<Bullet>(&self.bullets),
            walls: copied::<Wall>(&self.walls),
            scores: self.scores,
            phase: self.phase,
            timer: self.timer,
            session_seed: self.session_seed,
        }
    }

    /// Makes the world a copy of `snapshot`.
    pub fn load_snapshot(&mut self, snapshot: &SimulationState)
        ensures
            final(self)@ == snapshot@,
    {
        self.player0 = snapshot.player0;
        self.player1 = snapshot.player1;
        self.bullets = copied::<Bullet>(&snapshot.bullets);
        self.walls = copied::<Wall>(&snapshot.walls);
        self.scores = snapshot.scores;
        self.phase = snapshot.phase;
        self.timer = snapshot.timer;
        self.session_seed = snapshot.session_seed;
    }
}

/// Two peers that start from the same world and feed it the same frames hold
/// the same world afterwards, and the same checksum.
pub proof fn lemma_replay_deterministic(a: StateView, b: StateView, frames: Seq<Frame>)
    requires
        a == b,
    ensures
        replayed(a, frames) == replayed(b, frames),
        digest_of(state_words(replayed(a, frames))) == digest_of(state_words(replayed(b, frames))),
{
}

/// A run may be cut anywhere: the world saved after the frames `before` and
/// advanced by the frames `after` is the world that the whole run leads to.
pub proof fn lemma_replay_resumes(s: StateView, before: Seq<Frame>, after: Seq<Frame>)
    ensures
        replayed(s, before + after) == replayed(replayed(s, before), after),
    decreases after.len(),
{
    if after.len() > 0 {
        lemma_replay_resumes(s, before, after.drop_last());
        assert((before + after).drop_last() =~= before + after.drop_last());
    }
}

/// A player that holds fire with a closed latch fires nothing in a frame,
/// wherever the frame moves it.
pub proof fn lemma_closed_latch_fires_nothing(p: Player, input: u8, dt: u32, walls: Seq<Wall>)
    requires
        !p.bullet_ready.0,
        pressed(input, INPUT_FIRE),
    ensures
        shots(reloaded_slot(resolved_slot(moved_slot(Some(p), input, dt), walls), input), input)
            == Seq::<Bullet>::empty(),
{
}

/// While a round is ending and its timer has not run out, a frame changes
/// nothing but the timer, whatever the inputs are.
pub proof fn lemma_ending_round_rests(s: StateView, inputs: [u8; 2], dt: u32)
    requires
        s.phase == RoundPhase::RoundEnding,
        !expires(s.timer, dt),
    ensures
        stepped(s, inputs, dt) == (StateView { timer: ticked(s.timer, dt), ..s }),
        ticked(s.timer, dt).elapsed == s.timer.elapsed + dt,
{
}

/// The frame in which the timer of an ending round runs out starts the next
/// round: the round is on again, with two fresh players on the spawn points
/// and with the walls of the map whose seed comes from the score as it stands
/// and the session seed, and without projectiles. The score stays.
pub proof fn lemma_round_restarts(s: StateView, inputs: [u8; 2], dt: u32)
    requires
        s.phase == RoundPhase::RoundEnding,
        expires(s.timer, dt),
    ensures
        ({
            let next = stepped(s, inputs, dt);
            let map = generated(round_seed(s.scores, s.session_seed));
            &&& next.phase == RoundPhase::InRound
            &&& next.player0 == Some(Player::fresh(0, map.spawn0))
            &&& next.player1 == Some(Player::fresh(1, map.spawn1))
            &&& next.walls == map.walls
            &&& next.bullets == Seq::<Bullet>::empty()
            &&& next.scores == s.scores
            &&& next.session_seed == s.session_seed
        }),
{
}

} // verus!
