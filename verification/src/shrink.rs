//! The shrink protocol: the contract every shrink strategy satisfies.

use vstd::prelude::*;

verus! {

/// The verdict the driver hands back to a shrink session after running the
/// candidate it was given.
#[derive(Debug, Clone, Copy, PartialEq, Eq, Structural)]
pub enum ShrinkReport {
    /// The candidate no longer reproduces the failure.
    Pass,
    /// The candidate still reproduces the failure.
    Fail,
}

impl ShrinkReport {
    /// Returns `true` if the report is [`ShrinkReport::Pass`].
    pub fn is_pass(&self) -> (r: bool)
        ensures
            r <==> *self is Pass,
    {
        matches!(self, ShrinkReport::Pass)
    }

    /// Returns `true` if the report is [`ShrinkReport::Fail`].
    pub fn is_fail(&self) -> (r: bool)
        ensures
            r <==> *self is Fail,
    {
        matches!(self, ShrinkReport::Fail)
    }
}

/// A stateful shrinking session over a failing byte buffer.
///
/// The driver alternates strictly between [`Shrink::next`], which hands out
/// the current candidate, and [`Shrink::report`], which takes the verdict on
/// that candidate. Each `report` that does not end the session strictly
/// lowers the session's measure, so a session over a buffer with measure M
/// yields a final slice within at most M reports.
///
/// Soundness is tracked by `known_fail`: it starts as the whole failing
/// buffer and is only ever replaced by a candidate whose verdict was
/// [`ShrinkReport::Fail`], and the final slice a session yields is exactly
/// `known_fail` — a buffer that was observed to reproduce the failure.
pub trait Shrink: Sized {
    /// The session's internal consistency.
    spec fn wf(&self) -> bool;

    /// True between a `next` and the `report` that answers it.
    spec fn awaiting_report(&self) -> bool;

    /// The candidate most recently handed out by `next`.
    spec fn candidate(&self) -> Seq<u8>;

    /// The latest buffer known to reproduce the failure.
    spec fn known_fail(&self) -> Seq<u8>;

    /// An upper bound on the number of reports left before the session
    /// must yield its final slice.
    spec fn measure(&self) -> nat;

    /// Start shrinking the provided data, a buffer that reproduced the
    /// failure.
    fn shrink(source: Vec<u8>) -> (s: Self)
        ensures
            s.wf(),
            !s.awaiting_report(),
            s.known_fail() == source@,
    ;

    /// Get the next candidate to try.
    fn next(&mut self) -> (c: Vec<u8>)
        requires
            old(self).wf(),
            !old(self).awaiting_report(),
        ensures
            final(self).wf(),
            final(self).awaiting_report(),
            c@ == final(self).candidate(),
            final(self).known_fail() == old(self).known_fail(),
            final(self).measure() <= old(self).measure(),
    ;

    /// Report whether the last candidate passed or failed.
    ///
    /// Returns the final minimized case once no more reduction is possible,
    /// otherwise advances the session and returns nothing.
    fn report(&mut self, report: ShrinkReport) -> (r: Option<Vec<u8>>)
        requires
            old(self).wf(),
            old(self).awaiting_report(),
        ensures
            final(self).wf(),
            !final(self).awaiting_report(),
            final(self).known_fail() == (if report is Fail {
                old(self).candidate()
            } else {
                old(self).known_fail()
            }),
            r is None ==> final(self).measure() < old(self).measure(),
            r matches Some(m) ==> m@ == final(self).known_fail(),
    ;
}

} // verus!
