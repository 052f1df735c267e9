//! The random source and the outside calls that draw from it.
use rand::seq::SliceRandom;
use rand::Rng;
use rand_chacha::ChaCha20Rng;
use uuid::Builder;
use vstd::prelude::*;

use crate::player::PlayerId;

verus! {

/// The single random source threaded through every operation that draws.
#[verifier::external_type_specification]
#[verifier::external_body]
pub struct ExChaCha20Rng(ChaCha20Rng);

/// Relies on rand's `Rng::gen_range` over the half-open range `lo..hi`: the value
/// lies in that range. The call panics on an empty range, which `requires` rules out.
#[verifier::external_body]
pub(crate) fn draw_in(rng: &mut ChaCha20Rng, lo: u64, hi: u64) -> (r: u64)
    requires
        lo < hi,
    ensures
        lo <= r < hi,
{
    rng.gen_range(lo..hi)
}

/// Relies on rand's `SliceRandom::shuffle`: it only swaps entries in place, so the
/// result holds the same ids, each as often as before.
#[verifier::external_body]
pub(crate) fn shuffle_ids(ids: &mut Vec<PlayerId>, rng: &mut ChaCha20Rng)
    ensures
        final(ids)@.len() == old(ids)@.len(),
        final(ids)@.to_multiset() == old(ids)@.to_multiset(),
{
    ids.shuffle(rng);
}

/// Relies on rand's `SliceRandom::choose`: `None` exactly on an empty list,
/// otherwise a reference to one of its entries.
#[verifier::external_body]
pub(crate) fn choose_word<'a>(words: &'a Vec<String>, rng: &mut ChaCha20Rng) -> (r: Option<&'a String>)
    ensures
        words@.len() == 0 <==> r is None,
        r matches Some(w) ==> exists|i: int| 0 <= i < words@.len() && words@[i] == *w,
{
    words.as_slice().choose(rng)
}

/// Relies on rand's `Rng::gen` for a 16-byte array: bytes drawn from the
/// generator. Nothing is promised of their values.
#[verifier::external_body]
pub(crate) fn draw_bytes(rng: &mut ChaCha20Rng) -> (r: [u8; 16]) {
    rng.gen()
}

/// Relies on uuid's `Builder::from_random_bytes`, read back through
/// `Builder::into_uuid` and `Uuid::as_u128`: the version-4 token that the bytes
/// make. Nothing about the value is used.
#[verifier::external_body]
pub(crate) fn v4_token(bytes: [u8; 16]) -> (r: u128) {
    Builder::from_random_bytes(bytes).into_uuid().as_u128()
}

/// A random version-4 token drawn from the generator.
pub fn random_token(rng: &mut ChaCha20Rng) -> (r: u128) {
    let bytes = draw_bytes(rng);
    v4_token(bytes)
}

} // verus!
