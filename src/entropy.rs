//! Outcome derivation from block entropy.

use sha2::{Digest, Sha256};
use crate::bytes::{be_bytes_spec, be_prefix_u64, be_value, copy_bytes, extend_bytes, push_be_u64};
use crate::msg::BlockInfo;
use vstd::prelude::*;
use vstd::utf8::encode_utf8;

verus! {

/// The SHA-256 digest of a byte string.
pub uninterp spec fn sha256_of(data: Seq<u8>) -> Seq<u8>;

/// Relies on sha2's `Sha256::digest`: the SHA-256 digest of `data`, whose output
/// type holds exactly 32 bytes.
#[verifier::external_body]
fn sha256(data: &Vec<u8>) -> (r: Vec<u8>)
    ensures
        r@ == sha256_of(data@),
        r@.len() == 32,
{
    Sha256::digest(data.as_slice()).as_slice().to_vec()
}

/// Number of equally likely outcomes of a bet.
pub const OUTCOMES: u64 = 59;

/// The block entropy drawn on for `bettor`: the bettor's identifier, the
/// chain identifier, and the block height, seconds and nanoseconds, each
/// big-endian.
pub open spec fn entropy_input(bettor: Seq<u8>, block: BlockInfo) -> Seq<u8> {
    bettor + encode_utf8(block.chain_id@) + be_bytes_spec(block.height) + be_bytes_spec(block.time)
        + be_bytes_spec(block.time_nanos)
}

/// The seed material: the digest of the entropy, salted again with the block
/// seconds.
pub open spec fn salted_digest(bettor: Seq<u8>, block: BlockInfo) -> Seq<u8> {
    sha256_of(entropy_input(bettor, block)) + be_bytes_spec(block.time)
}

/// The generator's state, seeded with the bettor's identifier and the seed
/// material.
pub open spec fn generator_state(bettor: Seq<u8>, block: BlockInfo) -> Seq<u8> {
    sha256_of(bettor + salted_digest(bettor, block))
}

/// The outcome a generator state yields: its leading (at most) eight bytes,
/// read big-endian, reduced modulo the number of outcomes.
pub open spec fn outcome_of_state(state: Seq<u8>) -> nat {
    be_value(state.subrange(0, if state.len() < 8 { state.len() as int } else { 8 })) % (OUTCOMES as nat)
}

/// The outcome of `bettor`'s bet resolved in `block`.
pub open spec fn outcome_for(bettor: Seq<u8>, block: BlockInfo) -> nat {
    outcome_of_state(generator_state(bettor, block))
}

/// The outcome a generator state yields.
pub fn outcome_from_digest(state: &Vec<u8>) -> (r: u8)
    ensures
        r as nat == outcome_of_state(state@),
        r < OUTCOMES,
{
    let v = be_prefix_u64(state);
    (v % OUTCOMES) as u8
}

/// The outcome, in `0..59`, of `bettor`'s bet resolved in `block`.
pub fn derive_outcome(bettor: &Vec<u8>, block: &BlockInfo) -> (r: u8)
    ensures
        r as nat == outcome_for(bettor@, *block),
        r < OUTCOMES,
{
    let mut input = copy_bytes(bettor);
    extend_bytes(&mut input, block.chain_id.as_str().as_bytes());
    push_be_u64(&mut input, block.height);
    push_be_u64(&mut input, block.time);
    push_be_u64(&mut input, block.time_nanos);
    assert(input@ =~= entropy_input(bettor@, *block));
    let mut salted = sha256(&input);
    push_be_u64(&mut salted, block.time);
    let mut seeded = copy_bytes(bettor);
    extend_bytes(&mut seeded, salted.as_slice());
    let state = sha256(&seeded);
    outcome_from_digest(&state)
}

} // verus!
