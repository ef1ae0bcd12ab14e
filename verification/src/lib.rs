//! A small property-testing engine.
//!
//! The engine repeatedly draws a random byte buffer from a seeded source,
//! hands it to a test [`Target`] — which derives a typed instance and runs
//! the user's predicate on it — and watches the verdict. When a trial
//! fails, the consumed prefix of the buffer is shrunk to a minimal
//! reproduction and reported, text-encoded, so that [`replay`] can turn it
//! back into a single deterministic re-run.

use vstd::prelude::*;

mod checker;
mod encoding;
mod rng;
mod shrink;
mod shrinker;

pub use checker::CheckResult;
pub use checker::INITIAL_VEC_LEN;
pub use checker::MAX_PASSES;
pub use checker::FailureReport;
pub use checker::HeckCheck;
pub use checker::Target;
pub use checker::TrialOutcome;
pub use checker::grown_len;
pub use checker::lemma_growth_doubles;
pub use encoding::b64_of;
pub use rng::rng_fill;
pub use rng::lemma_fill_deterministic;
pub use shrink::Shrink;
pub use shrink::ShrinkReport;
pub use shrinker::Shrinker;
pub use shrinker::byte_steps;
pub use shrinker::lemma_byte_steps_le;
pub use shrinker::lemma_zero_steps_le;
pub use shrinker::zero_steps;
pub use shrinker::ZeroShrinker;

verus! {

/// A single replayed trial: the exact bytes that were handed to the target,
/// and the verdict the target returned on them.
pub struct ReplayRun {
    /// The decoded bytes the instance was derived from.
    pub input: Vec<u8>,
    /// What the target returned for that input.
    pub outcome: TrialOutcome,
}

/// Check a target with a fresh random seed and the default trial budget.
pub fn check<T: Target>(target: &mut T) -> (r: CheckResult)
    ensures
        r matches CheckResult::Passed { trials } ==> trials == MAX_PASSES,
        r matches CheckResult::Failed(rep) ==> rep.wf(),
{
    let mut checker = HeckCheck::new();
    checker.check(target)
}

/// Replay a previously reported failing case.
///
/// Decodes the reported text back into bytes and runs the target exactly
/// once on them: no retry, no growth, no shrinking. Returns `None` when the
/// text is the encoding of no byte sequence; otherwise the bytes run are
/// exactly the ones the report was made from, so the single trial it
/// reproduces is the minimized one.
pub fn replay<T: Target>(encoded: &str, target: &mut T) -> (r: Option<ReplayRun>)
    ensures
        r is None ==> forall|b: Seq<u8>| encoded@ != b64_of(b),
        r matches Some(run) ==> forall|b: Seq<u8>| encoded@ == b64_of(b) ==> run.input@ == b,
{
    match encoding::b64_decode(encoded) {
        Some(bytes) => {
            let outcome = target.run(bytes.as_slice());
            Some(ReplayRun { input: bytes, outcome })
        },
        None => None,
    }
}

} // verus!
