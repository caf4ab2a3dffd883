//! The portable hasher behind checksums.
//!
//! `bevy_ggrs::checksum_hasher` hands out a `seahash` hasher. Its mixing
//! function is not restated here: the state after a write and the digest of a
//! state are named functions.

use seahash::SeaHasher;
use vstd::prelude::*;

verus! {

#[verifier::external_type_specification]
#[verifier::external_body]
pub struct ExSeaHasher(SeaHasher);

/// The mixing state of a hasher: its four lanes and its pending tail.
pub uninterp spec fn hasher_state(hasher: SeaHasher) -> Seq<u64>;

/// The number of bytes that a hasher has absorbed.
pub uninterp spec fn hasher_written(hasher: SeaHasher) -> nat;

/// The mixing state that `Hasher::write_i64` leaves behind, given the state
/// before and the word written.
pub uninterp spec fn absorbed(state: Seq<u64>, word: i64) -> Seq<u64>;

/// The value of `Hasher::finish` for a hasher in the given state that has
/// absorbed `written` bytes.
pub uninterp spec fn finished(state: Seq<u64>, written: nat) -> u64;

/// The four lanes with which `SeaHasher::new` starts, followed by its empty
/// tail and tail length.
pub open spec fn fresh_state() -> Seq<u64> {
    seq![
        0x16f11fe89b0d677cu64,
        0xb480a793d8e6c86cu64,
        0x6fe2e5aaf078ebc9u64,
        0x14f994a4c5259381u64,
        0u64,
        0u64,
    ]
}

/// `bevy_ggrs::checksum_hasher` returns `SeaHasher::new()`: the default lanes,
/// nothing written, no tail.
pub assume_specification[ bevy_ggrs::checksum_hasher ]() -> (hasher: SeaHasher)
    ensures
        hasher_state(hasher) == fresh_state(),
        hasher_written(hasher) == 0,
;

/// Calls `Hasher::write_i64`, which feeds the eight little-endian bytes of
/// `word` to the hasher and adds eight to its byte count. The count is a `u64`,
/// so the call is kept away from its overflow.
#[verifier::external_body]
pub(crate) fn absorb(hasher: &mut SeaHasher, word: i64)
    requires
        hasher_written(*old(hasher)) + 8 <= u64::MAX,
    ensures
        hasher_state(*final(hasher)) == absorbed(hasher_state(*old(hasher)), word),
        hasher_written(*final(hasher)) == hasher_written(*old(hasher)) + 8,
{
    std::hash::Hasher::write_i64(hasher, word)
}

/// Calls `Hasher::finish`, which reads the hasher and leaves it unchanged. It
/// adds the length of the tail, less than eight, to the byte count, so the
/// call is kept away from that overflow too.
#[verifier::external_body]
pub(crate) fn finish(hasher: &SeaHasher) -> (digest: u64)
    requires
        hasher_written(*hasher) + 8 <= u64::MAX,
    ensures
        digest == finished(hasher_state(*hasher), hasher_written(*hasher)),
{
    std::hash::Hasher::finish(hasher)
}

} // verus!
