//! The execution loop: seed a buffer, derive and test instances, and on a
//! failing trial shrink the consumed prefix to a minimal reproduction.

use vstd::prelude::*;

use crate::encoding::b64_encode;
use crate::encoding::b64_of;
use crate::rng::fresh_seed;
use crate::rng::SeededRng;
use crate::shrink::Shrink;
use crate::shrink::ShrinkReport;
use crate::shrinker::copy_prefix;
use crate::shrinker::Shrinker;

verus! {

/// The base number of trials performed to find an error.
pub const MAX_PASSES: u64 = 100;

/// The amount of data we initially allocate.
pub const INITIAL_VEC_LEN: usize = 1024;

/// What a single trial of the target returned.
#[derive(Debug, Clone, Copy, PartialEq, Eq, Structural)]
pub enum TrialOutcome {
    /// The predicate held on the derived instance.
    Success,
    /// There were not enough bytes to finish the trial: a backpressure
    /// signal asking for a larger buffer and a retry of the same trial.
    InsufficientData,
    /// The predicate's invariant broke. `consumed` is the number of buffer
    /// bytes the derivation actually read.
    Failure {
        /// How many bytes of the buffer the derivation read.
        consumed: usize,
    },
    /// The generation capability broke its contract; not recoverable.
    Defect,
}

/// A test target: derives a typed instance from raw bytes and checks the
/// user's predicate on it, reporting the verdict as a plain value.
///
/// Implementations bundle the generation capability with the predicate and
/// form the abrupt-termination capture boundary: where the predicate
/// signals a broken invariant by terminating abruptly, the implementation
/// catches that here and returns [`TrialOutcome::Failure`], so that no
/// abrupt termination crosses into the engine.
pub trait Target {
    /// A structural lower bound on the buffer size the derivation needs,
    /// independent of the buffer's content.
    fn min_size(&self) -> usize;

    /// Derive one instance from `input` and run the predicate on it.
    fn run(&mut self, input: &[u8]) -> TrialOutcome;
}

/// A minimized failing case, ready to hand to `replay`.
pub struct FailureReport {
    /// The failing byte sequence, text-encoded.
    pub encoded: String,
    /// The minimized bytes themselves, as a ghost companion of the text.
    pub minimized: Ghost<Seq<u8>>,
}

impl FailureReport {
    /// The encoded text is exactly the encoding of the minimized bytes, and
    /// it is empty exactly when the minimized slice is.
    pub open spec fn wf(&self) -> bool {
        &&& self.encoded@ == b64_of(self.minimized@)
        &&& (self.minimized@.len() == 0 <==> self.encoded@.len() == 0)
    }
}

/// What a whole `check` call found.
pub enum CheckResult {
    /// Every trial of the budget succeeded and no failure was found.
    Passed {
        /// How many successful trials were run.
        trials: u64,
    },
    /// A trial failed; the report carries the minimized reproduction.
    Failed(FailureReport),
    /// The generation capability, or the predicate during shrinking,
    /// returned something the protocol does not allow: a fatal contract
    /// breach, not a discoverable property failure.
    Defect,
}

/// The buffer length after a backpressure growth step: doubled, clamped to
/// the largest machine length.
pub open spec fn grown_len(len: nat) -> nat {
    if len <= usize::MAX as nat / 2 {
        2 * len
    } else {
        usize::MAX as nat
    }
}

/// Growth law: a growth step never shrinks the buffer, and as long as a
/// doubled length still fits in a machine word, a buffer of length L grows
/// to at least 2 L.
pub proof fn lemma_growth_doubles(len: nat)
    requires
        len <= usize::MAX as nat,
    ensures
        grown_len(len) >= len,
        len <= usize::MAX as nat / 2 ==> grown_len(len) >= 2 * len,
{
}

/// Append zero bytes until `v` has length `target`.
fn extend_zeros(v: &mut Vec<u8>, target: usize)
    requires
        old(v)@.len() <= target,
    ensures
        final(v)@.len() == target,
{
    while v.len() < target
        invariant
            v@.len() <= target,
        decreases target - v@.len(),
    {
        v.push(0);
    }
}

/// The main test checker.
pub struct HeckCheck {
    bytes: Vec<u8>,
    max_count: u64,
    seed: u64,
    rng: SeededRng,
}

impl HeckCheck {
    /// The seed this session draws its buffers from.
    pub closed spec fn seed(&self) -> u64 {
        self.seed
    }

    /// The trial budget.
    pub closed spec fn max_trials(&self) -> u64 {
        self.max_count
    }

    /// The current length of the byte buffer.
    pub closed spec fn buf_len(&self) -> nat {
        self.bytes@.len()
    }

    /// The sizes of the random fills drawn so far; together with the seed
    /// they determine every buffer this session has handed to a target.
    pub closed spec fn requests(&self) -> Seq<int> {
        self.rng.requests()
    }

    /// The random source is the one the recorded seed created, and the
    /// buffer is never empty.
    pub closed spec fn wf(&self) -> bool {
        &&& self.rng.seed() == self.seed
        &&& self.bytes@.len() >= 1
    }

    /// Create a new instance with a fresh random seed.
    pub fn new() -> (r: Self)
        ensures
            r.wf(),
            r.max_trials() == MAX_PASSES,
            r.buf_len() == INITIAL_VEC_LEN,
            r.requests() == Seq::<int>::empty(),
    {
        let seed = fresh_seed();
        Self::from_seed(seed)
    }

    /// Create a new instance from a seed.
    ///
    /// The buffers the session will draw are a function of the seed alone,
    /// so two sessions created from the same seed hand byte-identical
    /// buffers to their targets, trial for trial.
    pub fn from_seed(seed: u64) -> (r: Self)
        ensures
            r.wf(),
            r.seed() == seed,
            r.max_trials() == MAX_PASSES,
            r.buf_len() == INITIAL_VEC_LEN,
            r.requests() == Seq::<int>::empty(),
    {
        let rng = SeededRng::new(seed);
        let mut bytes: Vec<u8> = Vec::new();
        extend_zeros(&mut bytes, INITIAL_VEC_LEN);
        HeckCheck { seed, rng, bytes, max_count: MAX_PASSES }
    }

    /// Check the target.
    ///
    /// Runs up to the trial budget of randomized trials: each trial fills
    /// the whole buffer with the seeded stream's next bytes and hands it to
    /// the target. Backpressure grows the buffer (at least doubling it) and
    /// retries without spending a trial; the buffer is never shrunk. On a
    /// failing trial the consumed prefix is shrunk to a minimal
    /// reproduction and returned as a well-formed encoded report.
    pub fn check<T: Target>(&mut self, target: &mut T) -> (r: CheckResult)
        requires
            old(self).wf(),
        ensures
            final(self).wf(),
            final(self).seed() == old(self).seed(),
            final(self).max_trials() == old(self).max_trials(),
            final(self).buf_len() >= old(self).buf_len(),
            r matches CheckResult::Passed { trials } ==> trials == old(self).max_trials(),
            r matches CheckResult::Failed(rep) ==> rep.wf(),
            r matches CheckResult::Failed(rep) ==> rep.minimized@.len() <= final(self).buf_len(),
    {
        // Make sure we have enough bytes in our buffer before we start
        // testing: the structural minimum the derivation declares.
        let min = target.min_size();
        if self.bytes.len() < min {
            self.grow_vec(Some(min));
        }
        let mut successes: u64 = 0;
        while successes < self.max_count
            invariant
                self.wf(),
                self.seed() == old(self).seed(),
                self.max_trials() == old(self).max_trials(),
                self.buf_len() >= old(self).buf_len(),
                successes <= self.max_count,
            decreases
                self.max_count - successes,
                usize::MAX - self.bytes@.len(),
        {
            // Overwrite the whole buffer with fresh random content.
            self.rng.fill(&mut self.bytes);
            let outcome = target.run(self.bytes.as_slice());
            match outcome {
                TrialOutcome::Success => {
                    successes = successes + 1;
                },
                TrialOutcome::InsufficientData => {
                    // Backpressure: grow the buffer and retry the same
                    // conceptual trial without spending the budget.
                    if self.bytes.len() == usize::MAX {
                        // The buffer cannot grow further: the target asks
                        // for more bytes than a length can hold.
                        return CheckResult::Defect;
                    }
                    self.grow_vec(None);
                },
                TrialOutcome::Failure { consumed } => {
                    // Shrink over exactly the consumed prefix of the
                    // buffer, discarding the unread tail.
                    let upper = if consumed <= self.bytes.len() {
                        consumed
                    } else {
                        self.bytes.len()
                    };
                    let failing = copy_prefix(&self.bytes, upper);
                    return shrink_failure(target, failing);
                },
                TrialOutcome::Defect => {
                    return CheckResult::Defect;
                },
            }
        }
        CheckResult::Passed { trials: successes }
    }

    /// Grow the buffer: up to a requested structural minimum, or — when no
    /// minimum is given — by doubling, clamped to the largest machine
    /// length. The buffer is never made smaller.
    fn grow_vec(&mut self, target: Option<usize>)
        ensures
            final(self).seed == old(self).seed,
            final(self).max_count == old(self).max_count,
            final(self).rng == old(self).rng,
            final(self).bytes@.len() == match target {
                Some(t) => if t > old(self).bytes@.len() {
                    t as nat
                } else {
                    old(self).bytes@.len()
                },
                None => grown_len(old(self).bytes@.len()),
            },
            final(self).bytes@.len() >= old(self).bytes@.len(),
    {
        match target {
            Some(t) => {
                if t > self.bytes.len() {
                    extend_zeros(&mut self.bytes, t);
                }
            },
            None => {
                let len = self.bytes.len();
                let new_len = if len <= usize::MAX / 2 {
                    len * 2
                } else {
                    usize::MAX
                };
                extend_zeros(&mut self.bytes, new_len);
            },
        }
    }
}

impl Default for HeckCheck {
    fn default() -> (r: Self)
        ensures
            r.wf(),
            r.max_trials() == MAX_PASSES,
    {
        Self::new()
    }
}

/// Drive a shrink session over a failing buffer to convergence and build
/// the final report from the minimized slice it yields.
fn shrink_failure<T: Target>(target: &mut T, failing: Vec<u8>) -> (r: CheckResult)
    ensures
        !(r is Passed),
        r matches CheckResult::Failed(rep) ==> rep.wf(),
        r matches CheckResult::Failed(rep) ==> {
            &&& rep.minimized@.len() <= failing@.len()
            &&& rep.minimized@ == failing@.subrange(0, rep.minimized@.len() as int)
        },
{
    let mut session = Shrinker::shrink(failing);
    loop
        invariant
            session.wf(),
            !session.awaiting_report(),
            session.origin() == failing@,
        decreases session.measure(),
    {
        let candidate = session.next();
        let outcome = target.run(candidate.as_slice());
        let verdict = match outcome {
            TrialOutcome::Success => ShrinkReport::Pass,
            TrialOutcome::Failure { consumed: _ } => ShrinkReport::Fail,
            _ => {
                // During shrinking only success or abrupt failure is
                // expected; anything else is a contract breach.
                return CheckResult::Defect;
            },
        };
        match session.report(verdict) {
            Some(minimized) => {
                let encoded = b64_encode(&minimized);
                return CheckResult::Failed(FailureReport { encoded, minimized: Ghost(minimized@) });
            },
            None => {},
        }
    }
}

} // verus!
