//! Death and score: a projectile that comes close enough to a player kills it.

use crate::components::{Bullet, Player};
use crate::geometry::{magnitude, Vec2, FLIGHT_BOUND, LETHAL_RANGE, PLAYER_BOUND};
use crate::seed::Scoreboard;
use crate::state::{bullets_wf, RoundPhase, SimulationState, StateView};
use vstd::prelude::*;

verus! {

/// A projectile at `bullet` kills a player at `player`: the distance between
/// the two centres is less than the sum of the two radii.
pub open spec fn lethal(player: Vec2, bullet: Vec2) -> bool {
    player.dist2(bullet) < LETHAL_RANGE * LETHAL_RANGE
}

/// Some projectile of `bullets` kills a player at `player`.
pub open spec fn struck(player: Vec2, bullets: Seq<Bullet>) -> bool {
    exists|i: int| 0 <= i < bullets.len() && lethal(player, (#[trigger] bullets[i]).position)
}

/// The player in `slot`, if there is one, is killed by some projectile.
pub open spec fn dies(slot: Option<Player>, bullets: Seq<Bullet>) -> bool {
    match slot {
        Some(p) => struck(p.position, bullets),
        None => false,
    }
}

/// Projectile `b` kills the player in `slot`.
pub open spec fn hits(b: Bullet, slot: Option<Player>) -> bool {
    match slot {
        Some(p) => lethal(p.position, b.position),
        None => false,
    }
}

/// Projectile `b` kills neither player and so goes on.
pub open spec fn harmless(player0: Option<Player>, player1: Option<Player>) -> spec_fn(
    Bullet,
) -> bool {
    |b: Bullet| !hits(b, player0) && !hits(b, player1)
}

/// `score` and one more, held at the largest `u32`.
pub open spec fn one_more(score: u32) -> u32 {
    if score == u32::MAX {
        score
    } else {
        (score + 1) as u32
    }
}

/// `score`, and one more if `earned`.
pub open spec fn scored(score: u32, earned: bool) -> u32 {
    if earned {
        one_more(score)
    } else {
        score
    }
}

/// The world after the death stage. Every player is held against every
/// projectile as they stand before the stage. A player that is struck leaves
/// its slot, and the other player's score grows by one, once, however many
/// projectiles struck. The projectiles that struck are gone. A death ends
/// the round.
pub open spec fn players_killed(s: StateView) -> StateView {
    let dead0 = dies(s.player0, s.bullets);
    let dead1 = dies(s.player1, s.bullets);
    StateView {
        player0: if dead0 {
            None
        } else {
            s.player0
        },
        player1: if dead1 {
            None
        } else {
            s.player1
        },
        bullets: s.bullets.filter(harmless(s.player0, s.player1)),
        scores: Scoreboard { p0: scored(s.scores.p0, dead1), p1: scored(s.scores.p1, dead0) },
        phase: if dead0 || dead1 {
            RoundPhase::RoundEnding
        } else {
            s.phase
        },
        ..s
    }
}

/// Whether a projectile at `bullet` kills a player at `player`.
pub fn is_lethal(player: &Vec2, bullet: &Vec2) -> (b: bool)
    requires
        player.within(PLAYER_BOUND as int),
        bullet.within(FLIGHT_BOUND as int),
    ensures
        b == lethal(*player, *bullet),
{
    let dx: i64 = magnitude(player.x - bullet.x);
    let dy: i64 = magnitude(player.y - bullet.y);
    assert((player.x - bullet.x) * (player.x - bullet.x) == dx * dx) by (nonlinear_arith)
        requires
            dx == player.x - bullet.x || dx == -(player.x - bullet.x),
    ;
    assert((player.y - bullet.y) * (player.y - bullet.y) == dy * dy) by (nonlinear_arith)
        requires
            dy == player.y - bullet.y || dy == -(player.y - bullet.y),
    ;
    if dx >= LETHAL_RANGE || dy >= LETHAL_RANGE {
        assert(dx * dx + dy * dy >= LETHAL_RANGE * LETHAL_RANGE) by (nonlinear_arith)
            requires
                dx >= 0,
                dy >= 0,
                dx >= LETHAL_RANGE || dy >= LETHAL_RANGE,
                LETHAL_RANGE > 0,
        ;
        return false;
    }
    assert(dx * dx <= LETHAL_RANGE * LETHAL_RANGE && dy * dy <= LETHAL_RANGE * LETHAL_RANGE)
        by (nonlinear_arith)
        requires
            0 <= dx < LETHAL_RANGE,
            0 <= dy < LETHAL_RANGE,
    ;
    dx * dx + dy * dy < LETHAL_RANGE * LETHAL_RANGE
}

/// Whether some projectile of `bullets` kills a player at `player`.
pub fn is_struck(player: &Vec2, bullets: &Vec<Bullet>) -> (b: bool)
    requires
        player.within(PLAYER_BOUND as int),
        bullets_wf(bullets@, FLIGHT_BOUND as int),
    ensures
        b == struck(*player, bullets@),
{
    let mut i: usize = 0;
    while i < bullets.len()
        invariant
            i <= bullets.len(),
            player.within(PLAYER_BOUND as int),
            bullets_wf(bullets@, FLIGHT_BOUND as int),
            forall|k: int| 0 <= k < i ==> !lethal(*player, (#[trigger] bullets@[k]).position),
        decreases bullets.len() - i,
    {
        if is_lethal(player, &bullets[i].position) {
            return true;
        }
        i = i + 1;
    }
    false
}

/// Whether projectile `b` kills the player in `slot`.
fn is_hit(b: &Bullet, slot: &Option<Player>) -> (r: bool)
    requires
        b.position.within(FLIGHT_BOUND as int),
        slot matches Some(p) ==> p.position.within(PLAYER_BOUND as int),
    ensures
        r == hits(*b, *slot),
{
    match slot {
        Some(p) => is_lethal(&p.position, &b.position),
        None => false,
    }
}

/// Kills each player that a projectile has reached, scores for the other
/// player, and ends the round: the seventh stage of a frame.
pub fn kill_players(state: &mut SimulationState)
    requires
        old(state)@.players_wf(),
        bullets_wf(old(state)@.bullets, FLIGHT_BOUND as int),
    ensures
        final(state)@ == players_killed(old(state)@),
        final(state)@.players_wf(),
        forall|i: int|
            0 <= i < final(state)@.bullets.len() ==> old(state)@.bullets.contains(
                #[trigger] final(state)@.bullets[i],
            ),
{
    let dead0: bool = match &state.player0 {
        Some(p) => is_struck(&p.position, &state.bullets),
        None => false,
    };
    let dead1: bool = match &state.player1 {
        Some(p) => is_struck(&p.position, &state.bullets),
        None => false,
    };
    let mut out: Vec<Bullet> = Vec::new();
    let mut i: usize = 0;
    while i < state.bullets.len()
        invariant
            i <= state.bullets.len(),
            state@ == old(state)@,
            state@.players_wf(),
            bullets_wf(state@.bullets, FLIGHT_BOUND as int),
            out@ == state@.bullets.take(i as int).filter(harmless(state@.player0, state@.player1)),
            forall|k: int| 0 <= k < out@.len() ==> state@.bullets.contains(#[trigger] out@[k]),
        decreases state.bullets.len() - i,
    {
        proof {
            reveal(Seq::filter);
            assert(state@.bullets.take(i + 1).drop_last() == state@.bullets.take(i as int));
        }
        let b = state.bullets[i];
        if !is_hit(&b, &state.player0) && !is_hit(&b, &state.player1) {
            out.push(b);
        }
        i = i + 1;
    }
    assert(state@.bullets.take(i as int) == state@.bullets);
    state.bullets = out;
    if dead0 {
        state.player0 = None;
        if state.scores.p1 < u32::MAX {
            state.scores.p1 = state.scores.p1 + 1;
        }
    }
    if dead1 {
        state.player1 = None;
        if state.scores.p0 < u32::MAX {
            state.scores.p0 = state.scores.p0 + 1;
        }
    }
    if dead0 || dead1 {
        state.phase = RoundPhase::RoundEnding;
    }
}

/// When projectiles reach one player and not the other, the one that is
/// reached leaves its slot, the other stays as it is and scores one point, and
/// the round ends.
pub proof fn lemma_single_death(s: StateView)
    requires
        dies(s.player0, s.bullets),
        !dies(s.player1, s.bullets),
    ensures
        players_killed(s).player0 == None::<Player>,
        players_killed(s).player1 == s.player1,
        players_killed(s).scores.p0 == s.scores.p0,
        players_killed(s).scores.p1 == one_more(s.scores.p1),
        players_killed(s).phase == RoundPhase::RoundEnding,
{
}

} // verus!
