//! Seeds that every peer derives alike without exchanging them: the session
//! seed from the peers' connection identifiers, the round seed from the score.

use vstd::prelude::*;
use vstd::seq_lib::{commutative_foldl, lemma_fold_left_permutation};

verus! {

/// The score of each player. It lasts for the match.
#[derive(Clone, Copy, Debug, PartialEq, Eq, Structural)]
pub struct Scoreboard {
    pub p0: u32,
    pub p1: u32,
}

impl Default for Scoreboard {
    /// Nobody has scored.
    fn default() -> (scores: Scoreboard)
        ensures
            scores == (Scoreboard { p0: 0, p1: 0 }),
    {
        Scoreboard { p0: 0, p1: 0 }
    }
}

/// The seed of the round that starts at the score `scores`: the sum of both
/// counters, combined with the session seed by exclusive or.
pub open spec fn round_seed(scores: Scoreboard, session_seed: u64) -> u64 {
    ((scores.p0 + scores.p1) as u64) ^ session_seed
}

/// One connection identifier, as its two halves, folded into `acc`.
pub open spec fn mix(acc: u64, id: (u64, u64)) -> u64 {
    acc ^ (id.0 ^ id.1)
}

/// [`mix`] as a value, to fold with.
pub open spec fn mixer() -> spec_fn(u64, (u64, u64)) -> u64 {
    |acc: u64, id: (u64, u64)| mix(acc, id)
}

/// The session seed of the peers with the identifiers `ids`: all their halves,
/// combined by exclusive or.
pub open spec fn combined(ids: Seq<(u64, u64)>) -> u64 {
    ids.fold_left(0u64, mixer())
}

/// Derives the seed of the next round from the score and the session seed.
pub fn derive_round_seed(scores: &Scoreboard, session_seed: u64) -> (seed: u64)
    ensures
        seed == round_seed(*scores, session_seed),
{
    let sum: u64 = scores.p0 as u64 + scores.p1 as u64;
    sum ^ session_seed
}

/// Combines the connection identifiers of all peers, one's own among them,
/// into the session seed.
pub fn session_seed(ids: &Vec<(u64, u64)>) -> (seed: u64)
    ensures
        seed == combined(ids@),
{
    let mut seed: u64 = 0;
    let mut i: usize = 0;
    while i < ids.len()
        invariant
            i <= ids.len(),
            seed == combined(ids@.take(i as int)),
        decreases ids.len() - i,
    {
        assert(ids@.take(i + 1).drop_last() == ids@.take(i as int));
        let id = ids[i];
        seed = seed ^ (id.0 ^ id.1);
        i = i + 1;
    }
    seed
}

/// The round seed does not depend on which player holds which score, nor on
/// the side from which the session seed is combined with their sum.
pub proof fn lemma_round_seed_symmetric(p0: u32, p1: u32, session_seed: u64)
    ensures
        round_seed(Scoreboard { p0, p1 }, session_seed) == round_seed(
            Scoreboard { p0: p1, p1: p0 },
            session_seed,
        ),
        round_seed(Scoreboard { p0, p1 }, session_seed) == session_seed ^ ((p0 + p1) as u64),
{
    let sum = (p0 + p1) as u64;
    assert(sum ^ session_seed == session_seed ^ sum) by (bit_vector);
}

/// Folding in two identifiers gives the same in either order.
pub proof fn lemma_mix_commutes()
    ensures
        commutative_foldl(mixer()),
{
    assert forall|x: (u64, u64), y: (u64, u64), v: u64| #[trigger]
        mixer()(mixer()(v, x), y) == mixer()(mixer()(v, y), x) by {
        let a = x.0 ^ x.1;
        let b = y.0 ^ y.1;
        assert((v ^ a) ^ b == (v ^ b) ^ a) by (bit_vector);
    }
}

/// Two peers that list the same identifiers, each in an order of its own,
/// arrive at the same session seed.
pub proof fn lemma_session_seed_order_independent(a: Seq<(u64, u64)>, b: Seq<(u64, u64)>)
    requires
        a.to_multiset() == b.to_multiset(),
    ensures
        combined(a) == combined(b),
{
    lemma_mix_commutes();
    lemma_fold_left_permutation(a, b, mixer(), 0u64);
}

} // verus!
