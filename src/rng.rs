use vstd::prelude::*;
use rand::rngs::SmallRng;
use rand::{RngCore, SeedableRng};
use crate::cli_args::MdType;

verus! {

#[verifier::external_type_specification]
#[verifier::external_body]
pub struct ExSmallRng(SmallRng);

/// Relies on SeedableRng::seed_from_u64 for SmallRng: a generator started from `seed`.
#[verifier::external_body]
fn small_rng_from_seed(seed: u64) -> (r: SmallRng) {
    SmallRng::seed_from_u64(seed)
}

/// Relies on RngCore::fill_bytes for SmallRng: overwrites every byte of the buffer,
/// which keeps its length.
#[verifier::external_body]
fn small_rng_fill(rng: &mut SmallRng, buf: &mut Vec<u8>)
    ensures
        final(buf)@.len() == old(buf)@.len(),
{
    rng.fill_bytes(buf.as_mut_slice())
}

/// A pseudo-random source owned by one worker thread, so that no thread shares
/// generator state with another.
pub struct TestRng {
    rng: SmallRng,
}

impl TestRng {
    pub fn new(seed: u64) -> (r: TestRng) {
        TestRng { rng: small_rng_from_seed(seed) }
    }

    /// Fills `buf` with pseudo-random bytes; its length stays as it was.
    pub fn fill_random_bytes(&mut self, buf: &mut Vec<u8>)
        ensures
            final(buf)@.len() == old(buf)@.len(),
    {
        small_rng_fill(&mut self.rng, buf);
    }

    /// A pseudo-random message as long as a digest of kind `md`, to be signed as
    /// if it were one.
    pub fn random_digest(&mut self, md: MdType) -> (r: Vec<u8>)
        ensures
            r@.len() == md.spec_digest_len(),
    {
        let len = md.digest_len();
        let mut data: Vec<u8> = Vec::new();
        let mut i: usize = 0;
        while i < len
            invariant
                i <= len,
                data@.len() == i,
            decreases len - i,
        {
            data.push(0u8);
            i = i + 1;
        }
        self.fill_random_bytes(&mut data);
        data
    }
}

} // verus!
