//! The checksum by which peers notice that their worlds have drifted apart.
//!
//! A world is laid out as a sequence of words in one fixed order, and the
//! words are fed to the hasher one by one. What is only shown and never read
//! by a later frame, the length of a player's way, stays out.

use crate::components::{Bullet, MoveDir, Player, Wall};
use crate::digest::{absorb, absorbed, finish, finished, fresh_state, hasher_state, hasher_written};
use crate::geometry::Vec2;
use crate::state::{RoundPhase, SimulationState, StateView};
use vstd::prelude::*;

verus! {

/// A world with more projectiles and walls than this has no checksum: the
/// hasher counts its bytes in a `u64`.
pub const ENTITY_LIMIT: u64 = 0x0100_0000_0000_0000;

/// [`absorbed`] as a value, to fold with.
pub open spec fn absorber() -> spec_fn(Seq<u64>, i64) -> Seq<u64> {
    |state: Seq<u64>, word: i64| absorbed(state, word)
}

/// The digest of `words`: what the hasher returns after it has been fed the
/// words in their order, starting fresh.
pub open spec fn digest_of(words: Seq<i64>) -> u64 {
    finished(words.fold_left(fresh_state(), absorber()), (8 * words.len()) as nat)
}

/// A flag as a word.
pub open spec fn flag_word(b: bool) -> i64 {
    if b {
        1
    } else {
        0
    }
}

/// The words of a position and a direction.
pub open spec fn transform_words(position: Vec2, direction: MoveDir) -> Seq<i64> {
    seq![position.x, position.y, direction.0.x, direction.0.y]
}

/// The words of a player slot: a zero for an empty slot, else a one, the
/// player's position and facing, and its latch.
pub open spec fn player_words(slot: Option<Player>) -> Seq<i64> {
    match slot {
        Some(p) => seq![1i64] + transform_words(p.position, p.facing) + seq![
            flag_word(p.bullet_ready.0),
        ],
        None => seq![0i64],
    }
}

/// The words of a projectile.
pub open spec fn bullet_words(b: Bullet) -> Seq<i64> {
    transform_words(b.position, b.direction)
}

/// The words of a wall.
pub open spec fn wall_words(w: Wall) -> Seq<i64> {
    seq![w.position.x, w.position.y, w.half_extents.x, w.half_extents.y]
}

/// The words of all projectiles, in their order.
pub open spec fn bullets_words(bullets: Seq<Bullet>) -> Seq<i64>
    decreases bullets.len(),
{
    if bullets.len() == 0 {
        Seq::empty()
    } else {
        bullets_words(bullets.drop_last()) + bullet_words(bullets.last())
    }
}

/// The words of all walls, in their order.
pub open spec fn walls_words(walls: Seq<Wall>) -> Seq<i64>
    decreases walls.len(),
{
    if walls.len() == 0 {
        Seq::empty()
    } else {
        walls_words(walls.drop_last()) + wall_words(walls.last())
    }
}

/// The words of the phase, the timer, the score and the session seed, the
/// seed as its upper and its lower half.
pub open spec fn header_words(s: StateView) -> Seq<i64> {
    seq![
        flag_word(s.phase == RoundPhase::RoundEnding),
        s.timer.elapsed as i64,
        s.scores.p0 as i64,
        s.scores.p1 as i64,
        (s.session_seed >> 32) as i64,
        (s.session_seed & 0xffff_ffff) as i64,
    ]
}

/// The words of a world: its header, player 0, player 1, the number of
/// projectiles and the projectiles, the number of walls and the walls.
pub open spec fn state_words(s: StateView) -> Seq<i64> {
    header_words(s) + player_words(s.player0) + player_words(s.player1) + seq![
        s.bullets.len() as i64,
    ] + bullets_words(s.bullets) + seq![s.walls.len() as i64] + walls_words(s.walls)
}

/// The digest of `words`, fed to a fresh hasher in their order.
pub fn digest_words(words: &Vec<i64>) -> (digest: u64)
    requires
        8 * words.len() + 8 <= u64::MAX,
    ensures
        digest == digest_of(words@),
{
    let mut hasher = bevy_ggrs::checksum_hasher();
    let mut i: usize = 0;
    while i < words.len()
        invariant
            i <= words.len(),
            8 * words.len() + 8 <= u64::MAX,
            hasher_written(hasher) == 8 * i,
            hasher_state(hasher) == words@.take(i as int).fold_left(fresh_state(), absorber()),
        decreases words.len() - i,
    {
        assert(words@.take(i + 1).drop_last() == words@.take(i as int));
        absorb(&mut hasher, words[i]);
        i = i + 1;
    }
    finish(&hasher)
}

/// The checksum of one position and direction.
pub fn checksum_transform(position: &Vec2, direction: &MoveDir) -> (digest: u64)
    ensures
        digest == digest_of(transform_words(*position, *direction)),
{
    let mut words: Vec<i64> = Vec::new();
    words.push(position.x);
    words.push(position.y);
    words.push(direction.0.x);
    words.push(direction.0.y);
    assert(words@ =~= transform_words(*position, *direction));
    digest_words(&words)
}

/// Appends the words of a player slot.
fn push_player(words: &mut Vec<i64>, slot: &Option<Player>)
    ensures
        final(words)@ == old(words)@ + player_words(*slot),
        final(words)@.len() <= old(words)@.len() + 6,
{
    match slot {
        Some(p) => {
            words.push(1);
            words.push(p.position.x);
            words.push(p.position.y);
            words.push(p.facing.0.x);
            words.push(p.facing.0.y);
            words.push(
                if p.bullet_ready.0 {
                    1
                } else {
                    0
                },
            );
        },
        None => {
            words.push(0);
        },
    }
}

impl SimulationState {
    /// The words of the world, in the order in which they are hashed.
    pub fn canonical_words(&self) -> (words: Vec<i64>)
        ensures
            words@ == state_words(self@),
            words@.len() <= 20 + 4 * (self@.bullets.len() + self@.walls.len()),
    {
        let mut words: Vec<i64> = Vec::new();
        words.push(
            match self.phase {
                RoundPhase::InRound => 0,
                RoundPhase::RoundEnding => 1,
            },
        );
        words.push(self.timer.elapsed as i64);
        words.push(self.scores.p0 as i64);
        words.push(self.scores.p1 as i64);
        words.push((self.session_seed >> 32) as i64);
        words.push((self.session_seed & 0xffff_ffff) as i64);
        push_player(&mut words, &self.player0);
        push_player(&mut words, &self.player1);
        words.push(self.bullets.len() as i64);
        let ghost prefix = words@;
        let mut i: usize = 0;
        while i < self.bullets.len()
            invariant
                i <= self.bullets.len(),
                words@ == prefix + bullets_words(self.bullets@.take(i as int)),
                words@.len() == prefix.len() + 4 * i,
            decreases self.bullets.len() - i,
        {
            assert(self.bullets@.take(i + 1).drop_last() == self.bullets@.take(i as int));
            let b = self.bullets[i];
            words.push(b.position.x);
            words.push(b.position.y);
            words.push(b.direction.0.x);
            words.push(b.direction.0.y);
            i = i + 1;
        }
        assert(self.bullets@.take(i as int) == self.bullets@);
        words.push(self.walls.len() as i64);
        let ghost prefix = words@;
        let mut j: usize = 0;
        while j < self.walls.len()
            invariant
                j <= self.walls.len(),
                words@ == prefix + walls_words(self.walls@.take(j as int)),
                words@.len() == prefix.len() + 4 * j,
            decreases self.walls.len() - j,
        {
            assert(self.walls@.take(j + 1).drop_last() == self.walls@.take(j as int));
            let w = self.walls[j];
            words.push(w.position.x);
            words.push(w.position.y);
            words.push(w.half_extents.x);
            words.push(w.half_extents.y);
            j = j + 1;
        }
        assert(self.walls@.take(j as int) == self.walls@);
        words
    }

    /// The checksum of the world. Worlds with the same content have the same
    /// checksum, whatever steps led to them.
    pub fn checksum(&self) -> (digest: u64)
        requires
            self@.bullets.len() + self@.walls.len() <= ENTITY_LIMIT,
        ensures
            digest == digest_of(state_words(self@)),
    {
        let words = self.canonical_words();
        digest_words(&words)
    }
}

} // verus!
