//! The random source: a seeded generator whose byte stream is a
//! deterministic function of the seed, supplied by the `rand` crate.

use vstd::prelude::*;

verus! {

/// The bytes a seeded generator hands out for a request of `len` bytes,
/// after it has already served requests of the sizes in `history`.
pub uninterp spec fn rng_fill(seed: u64, history: Seq<int>, len: int) -> Seq<u8>;

/// Determinism: two generators seeded alike that have served the same
/// requests hand out identical bytes for their next request, so two
/// sessions with the same seed see byte-identical buffer sequences.
pub proof fn lemma_fill_deterministic(
    seed1: u64,
    seed2: u64,
    history1: Seq<int>,
    history2: Seq<int>,
    len: int,
)
    requires
        seed1 == seed2,
        history1 == history2,
    ensures
        rng_fill(seed1, history1, len) == rng_fill(seed2, history2, len),
{
}

#[verifier::external_type_specification]
#[verifier::external_body]
pub struct ExStdRng(rand::rngs::StdRng);

/// A random byte source seeded with a 64-bit value.
///
/// The ghost fields record the seed and the sizes of the requests served so
/// far; together they determine every byte the source will hand out.
pub struct SeededRng {
    inner: rand::rngs::StdRng,
    seed: Ghost<u64>,
    history: Ghost<Seq<int>>,
}

/// Relies on rand::rngs::StdRng::seed_from_u64: seeding is a deterministic,
/// platform-independent function of the 64-bit seed, so the stream a
/// [`SeededRng`] hands out is pinned by the seed it records.
#[verifier::external_body]
fn std_rng_from_seed(seed: u64) -> rand::rngs::StdRng {
    <rand::rngs::StdRng as rand::SeedableRng>::seed_from_u64(seed)
}

impl SeededRng {
    /// The seed the source was created from.
    pub closed spec fn seed(&self) -> u64 {
        self.seed@
    }

    /// The sizes of the fill requests served so far.
    pub closed spec fn requests(&self) -> Seq<int> {
        self.history@
    }

    /// Create a source that will hand out the byte stream of `seed`.
    pub(crate) fn new(seed: u64) -> (r: SeededRng)
        ensures
            r.seed() == seed,
            r.requests() == Seq::<int>::empty(),
    {
        SeededRng {
            inner: std_rng_from_seed(seed),
            seed: Ghost(seed),
            history: Ghost(Seq::empty()),
        }
    }

    /// Relies on rand::RngCore::fill_bytes on StdRng: it overwrites the
    /// whole buffer with the next bytes of the seeded stream, which are a
    /// function of the seed and the sizes of the requests served before.
    #[verifier::external_body]
    pub(crate) fn fill(&mut self, buf: &mut Vec<u8>)
        ensures
            final(self).seed() == old(self).seed(),
            final(self).requests() == old(self).requests().push(old(buf)@.len() as int),
            final(buf)@.len() == old(buf)@.len(),
            final(buf)@ == rng_fill(old(self).seed(), old(self).requests(), old(buf)@.len() as int),
    {
        rand::RngCore::fill_bytes(&mut self.inner, buf.as_mut_slice());
    }
}

/// Relies on rand::random: a fresh seed drawn from the operating system's
/// entropy; nothing is promised of its value.
#[verifier::external_body]
pub(crate) fn fresh_seed() -> u64 {
    rand::random()
}

} // verus!
