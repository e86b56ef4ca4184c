//! Calls into outside crates, each with the contract that the crate documents.

use vstd::prelude::*;
use rand::Rng;
use sha2::Digest;

verus! {

/// The thread-local random generator of the `rand` crate.
#[verifier::external_type_specification]
#[verifier::external_body]
pub struct ExThreadRng(rand::rngs::ThreadRng);

/// `rand::thread_rng`: a handle on the thread-local generator. Nothing is
/// promised of the generator's state.
#[verifier::external_body]
pub(crate) fn new_rng() -> rand::rngs::ThreadRng {
    rand::thread_rng()
}

/// `Rng::gen::<bool>` on the thread-local generator: a fair coin. Any value
/// may come back.
#[verifier::external_body]
pub(crate) fn rng_coin(rng: &mut rand::rngs::ThreadRng) -> bool {
    rng.gen::<bool>()
}

/// `Rng::gen_range(0..n)`: a uniform index below `n`. The crate panics on an
/// empty range, so `n` must be positive; the result lies in `0..n`.
#[verifier::external_body]
pub(crate) fn rng_below(rng: &mut rand::rngs::ThreadRng, n: usize) -> (r: usize)
    requires
        n > 0,
    ensures
        r < n,
{
    rng.gen_range(0..n)
}

/// `uuid::Uuid::new_v4`, taken as its 128-bit value: a random identifier.
/// Nothing is promised of the value (in particular not uniqueness).
#[verifier::external_body]
pub(crate) fn fresh_id() -> u128 {
    uuid::Uuid::new_v4().as_u128()
}

/// `chrono::Utc::now`, taken as milliseconds since the Unix epoch. The clock
/// is read; nothing is promised of the value.
#[verifier::external_body]
pub(crate) fn now_millis() -> i64 {
    chrono::Utc::now().timestamp_millis()
}

/// What `sha2::Sha256::digest` returns for the given bytes.
pub uninterp spec fn sha256_of(data: Seq<u8>) -> Seq<u8>;

/// `sha2::Sha256::digest`: the SHA-256 digest of `data`, a 32-byte array.
#[verifier::external_body]
pub(crate) fn sha256_digest(data: &[u8]) -> (r: Vec<u8>)
    ensures
        r@ == sha256_of(data@),
        r@.len() == 32,
{
    sha2::Sha256::digest(data).to_vec()
}

} // verus!
