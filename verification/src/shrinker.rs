//! The two shrink strategies: prefix truncation and per-byte reduction.

use vstd::prelude::*;

use crate::shrink::Shrink;
use crate::shrink::ShrinkReport;

verus! {

/// Copy the first `n` bytes of `v` into a fresh buffer.
pub(crate) fn copy_prefix(v: &Vec<u8>, n: usize) -> (r: Vec<u8>)
    requires
        n <= v@.len(),
    ensures
        r@ == v@.subrange(0, n as int),
{
    let mut r: Vec<u8> = Vec::new();
    let mut i: usize = 0;
    while i < n
        invariant
            i <= n,
            n <= v@.len(),
            r@ == v@.subrange(0, i as int),
        decreases n - i,
    {
        r.push(v[i]);
        proof {
            assert(v@.subrange(0, i + 1 as int) =~= v@.subrange(0, i as int).push(v@[i as int]));
        }
        i = i + 1;
    }
    r
}

/// The default shrinker: it walks a cursor from the front of the failing
/// buffer and offers ever longer prefixes, accepting the first prefix that
/// still reproduces the failure.
///
/// A `Pass` advances the cursor by one; a `Fail` ends the session at the
/// current prefix. When the cursor sweeps the whole buffer without finding
/// a shorter reproduction, the session terminates at the full buffer rather
/// than overrunning it, so a session over an N-byte buffer ends within at
/// most N reports. Every candidate, and the final slice, is a prefix of
/// the failing buffer the session started from.
pub struct Shrinker {
    offset_start: usize,
    source: Vec<u8>,
    awaiting: Ghost<bool>,
    best: Ghost<Seq<u8>>,
    original: Ghost<Seq<u8>>,
}

impl Shrinker {
    /// The failing buffer the session started from.
    pub closed spec fn origin(&self) -> Seq<u8> {
        self.original@
    }

    /// The cursor: the length of the next candidate prefix.
    pub closed spec fn cursor(&self) -> int {
        self.offset_start as int
    }

    /// The bytes the session currently holds.
    pub closed spec fn live(&self) -> Seq<u8> {
        self.source@
    }

    /// `s` is a prefix of the buffer the session started from.
    pub open spec fn prefix_of_origin(&self, s: Seq<u8>) -> bool {
        &&& s.len() <= self.origin().len()
        &&& s == self.origin().subrange(0, s.len() as int)
    }
}

impl Shrink for Shrinker {
    closed spec fn wf(&self) -> bool {
        &&& self.offset_start <= self.source@.len()
        &&& self.best@ == self.source@
        &&& self.prefix_of_origin(self.source@)
    }

    closed spec fn awaiting_report(&self) -> bool {
        self.awaiting@
    }

    closed spec fn candidate(&self) -> Seq<u8> {
        self.source@.subrange(0, self.offset_start as int)
    }

    closed spec fn known_fail(&self) -> Seq<u8> {
        self.best@
    }

    closed spec fn measure(&self) -> nat {
        (self.source@.len() - self.offset_start) as nat
    }

    fn shrink(source: Vec<u8>) -> (s: Self)
        ensures
            s.measure() == source@.len(),
            s.origin() == source@,
            s.cursor() == 0,
            s.live() == source@,
    {
        let ghost b = source@;
        let s = Shrinker {
            offset_start: 0,
            source,
            awaiting: Ghost(false),
            best: Ghost(b),
            original: Ghost(b),
        };
        proof {
            assert(s.source@.subrange(0, s.source@.len() as int) =~= s.source@);
        }
        s
    }

    fn next(&mut self) -> (c: Vec<u8>)
        ensures
            final(self).origin() == old(self).origin(),
            final(self).prefix_of_origin(c@),
            final(self).cursor() == old(self).cursor(),
            final(self).live() == old(self).live(),
            c@ == old(self).live().subrange(0, old(self).cursor()),
    {
        self.awaiting = Ghost(true);
        let c = copy_prefix(&self.source, self.offset_start);
        proof {
            assert(c@ =~= self.original@.subrange(0, c@.len() as int));
        }
        c
    }

    fn report(&mut self, report: ShrinkReport) -> (r: Option<Vec<u8>>)
        ensures
            final(self).origin() == old(self).origin(),
            r matches Some(m) ==> final(self).prefix_of_origin(m@),
            report is Fail ==> {
                &&& r matches Some(m) && m@ == old(self).live().subrange(0, old(self).cursor())
                &&& final(self).live() == old(self).live().subrange(0, old(self).cursor())
            },
            report is Pass && old(self).cursor() + 1 < old(self).live().len() ==> {
                &&& r is None
                &&& final(self).cursor() == old(self).cursor() + 1
                &&& final(self).live() == old(self).live()
            },
            report is Pass && old(self).cursor() + 1 >= old(self).live().len() ==> (
                r matches Some(m) && m@ == old(self).live()
            ),
    {
        self.awaiting = Ghost(false);
        match report {
            ShrinkReport::Pass => {
                if self.offset_start < self.source.len() {
                    self.offset_start = self.offset_start + 1;
                }
                if self.offset_start >= self.source.len() {
                    // The cursor reached the end without a shorter
                    // reproduction: terminate at the full buffer, which is
                    // the latest input known to fail.
                    let m = copy_prefix(&self.source, self.source.len());
                    proof {
                        assert(self.source@.subrange(0, self.source@.len() as int) =~= self.source@);
                    }
                    Some(m)
                } else {
                    None
                }
            },
            ShrinkReport::Fail => {
                // The candidate prefix still reproduces the failure: it is
                // the minimized case. Drop the unread tail so the session
                // keeps only what failed.
                let m = copy_prefix(&self.source, self.offset_start);
                self.best = Ghost(m@);
                self.source.truncate(self.offset_start);
                proof {
                    assert(m@ =~= self.original@.subrange(0, m@.len() as int));
                }
                Some(m)
            },
        }
    }
}

/// How many times a byte must be halved before it reaches zero.
pub open spec fn byte_steps(b: u8) -> nat
    decreases b,
{
    if b == 0 {
        0
    } else {
        (1 + byte_steps(b / 2)) as nat
    }
}

/// The total halving budget of the bytes of `s` from position `from` on.
pub open spec fn zero_steps(s: Seq<u8>, from: int) -> nat
    decreases s.len() - from,
{
    if from < 0 || from >= s.len() {
        0
    } else {
        (byte_steps(s[from]) + zero_steps(s, from + 1)) as nat
    }
}

/// No byte takes more than eight halvings to reach zero.
pub proof fn lemma_byte_steps_le(b: u8)
    ensures
        byte_steps(b) <= 8,
{
    let b1 = b / 2;
    let b2 = b1 / 2;
    let b3 = b2 / 2;
    let b4 = b3 / 2;
    let b5 = b4 / 2;
    let b6 = b5 / 2;
    let b7 = b6 / 2;
    let b8 = b7 / 2;
    assert(b8 == 0);
    assert(byte_steps(b8) == 0);
    assert(byte_steps(b7) <= 1);
    assert(byte_steps(b6) <= 2);
    assert(byte_steps(b5) <= 3);
    assert(byte_steps(b4) <= 4);
    assert(byte_steps(b3) <= 5);
    assert(byte_steps(b2) <= 6);
    assert(byte_steps(b1) <= 7);
    assert(byte_steps(b) <= 8);
}

/// Termination budget law: the halving budget of an N-byte
/// buffer is at most 8 N, so a reducing session over it answers at most
/// 8 N reports before it yields its final slice.
pub proof fn lemma_zero_steps_le(s: Seq<u8>, from: int)
    requires
        0 <= from <= s.len(),
    ensures
        zero_steps(s, from) <= 8 * (s.len() - from),
    decreases s.len() - from,
{
    if from < s.len() {
        lemma_byte_steps_le(s[from]);
        lemma_zero_steps_le(s, from + 1);
    }
}

/// Skipping zero bytes does not change the halving budget.
proof fn lemma_zero_steps_skip(s: Seq<u8>, i: int, j: int)
    requires
        0 <= i <= j <= s.len(),
        forall|k: int| i <= k < j ==> s[k] == 0,
    ensures
        zero_steps(s, i) == zero_steps(s, j),
    decreases j - i,
{
    if i < j {
        assert(byte_steps(s[i]) == 0);
        lemma_zero_steps_skip(s, i + 1, j);
    }
}

/// The halving budget from a position only depends on the bytes from that
/// position on.
proof fn lemma_zero_steps_agree(s: Seq<u8>, t: Seq<u8>, from: int)
    requires
        s.len() == t.len(),
        forall|k: int| from <= k < s.len() ==> s[k] == t[k],
    ensures
        zero_steps(s, from) == zero_steps(t, from),
    decreases s.len() - from,
{
    if 0 <= from && from < s.len() {
        lemma_zero_steps_agree(s, t, from + 1);
    }
}

/// The other shrink strategy: keep reducing bytes (halving them toward
/// zero) for as long as the reduced buffer still triggers the failure.
///
/// The session walks an index over the buffer, skipping bytes that already
/// hold zero. Each candidate halves the byte under the index. On `Pass` the
/// byte is restored to its remembered value and the index moves on; on
/// `Fail` the halved value is kept and halving continues at the same index.
/// Within a session a byte only ever moves toward zero — no candidate and
/// no final slice holds a byte above its starting value — and the session
/// ends within at most 8 N reports over an N-byte buffer.
pub struct ZeroShrinker {
    source: Vec<u8>,
    index: usize,
    value: u8,
    awaiting: Ghost<bool>,
    original: Ghost<Seq<u8>>,
}

impl ZeroShrinker {
    /// The position of the byte currently being reduced.
    pub closed spec fn cursor(&self) -> int {
        self.index as int
    }

    /// The bytes the session currently holds.
    pub closed spec fn buffer(&self) -> Seq<u8> {
        self.source@
    }

    /// The remembered value of the byte under the cursor before it was
    /// halved.
    pub closed spec fn remembered(&self) -> u8 {
        self.value
    }

    /// The failing buffer the session started from.
    pub closed spec fn origin(&self) -> Seq<u8> {
        self.original@
    }

    /// Reduction is monotone: every byte of `s` sits at or below the byte
    /// the session started from at that position.
    pub open spec fn reduced_from_origin(&self, s: Seq<u8>) -> bool {
        &&& s.len() == self.origin().len()
        &&& forall|k: int| 0 <= k < s.len() ==> s[k] <= self.origin()[k]
    }

    /// Advance the cursor to the next byte to reduce, skipping bytes that
    /// already hold zero.
    pub fn find_next_index_to_zeroify(&mut self)
        requires
            old(self).cursor() <= old(self).buffer().len(),
        ensures
            final(self).buffer() == old(self).buffer(),
            final(self).remembered() == old(self).remembered(),
            final(self).awaiting_report() == old(self).awaiting_report(),
            final(self).origin() == old(self).origin(),
            old(self).cursor() <= final(self).cursor() <= final(self).buffer().len(),
            forall|k: int| old(self).cursor() <= k < final(self).cursor()
                ==> final(self).buffer()[k] == 0,
            final(self).cursor() < final(self).buffer().len()
                ==> final(self).buffer()[final(self).cursor()] != 0,
    {
        while self.index < self.source.len() && self.source[self.index] == 0
            invariant
                old(self).cursor() <= self.index as int <= self.source@.len(),
                self.source@ == old(self).buffer(),
                self.value == old(self).remembered(),
                self.awaiting == old(self).awaiting,
                self.original == old(self).original,
                forall|k: int| old(self).cursor() <= k < self.index as int
                    ==> self.source@[k] == 0,
            decreases self.source@.len() - self.index,
        {
            self.index = self.index + 1;
        }
    }
}

impl Shrink for ZeroShrinker {
    closed spec fn wf(&self) -> bool {
        &&& self.index <= self.source@.len()
        &&& !self.awaiting@ && self.index < self.source@.len()
            ==> self.source@[self.index as int] != 0
        &&& self.awaiting@ && self.index < self.source@.len()
            ==> self.value != 0 && self.source@[self.index as int] == self.value / 2
        &&& self.reduced_from_origin(self.source@)
        &&& self.awaiting@ && self.index < self.source@.len()
            ==> self.value <= self.original@[self.index as int]
    }

    closed spec fn awaiting_report(&self) -> bool {
        self.awaiting@
    }

    closed spec fn candidate(&self) -> Seq<u8> {
        self.source@
    }

    closed spec fn known_fail(&self) -> Seq<u8> {
        if self.awaiting@ && self.index < self.source@.len() {
            self.source@.update(self.index as int, self.value)
        } else {
            self.source@
        }
    }

    closed spec fn measure(&self) -> nat {
        zero_steps(self.known_fail(), self.index as int)
    }

    fn shrink(source: Vec<u8>) -> (s: Self)
        ensures
            s.measure() <= 8 * source@.len(),
            s.origin() == source@,
            s.buffer() == source@,
            0 <= s.cursor() <= source@.len(),
            forall|k: int| 0 <= k < s.cursor() ==> source@[k] == 0,
            s.cursor() < source@.len() ==> source@[s.cursor()] != 0,
    {
        let ghost o = source@;
        let mut s = ZeroShrinker { source, index: 0, value: 0, awaiting: Ghost(false), original: Ghost(o) };
        s.find_next_index_to_zeroify();
        proof {
            lemma_zero_steps_skip(s.source@, 0, s.index as int);
            lemma_zero_steps_le(s.source@, 0);
        }
        s
    }

    fn next(&mut self) -> (c: Vec<u8>)
        ensures
            final(self).origin() == old(self).origin(),
            final(self).reduced_from_origin(c@),
            final(self).cursor() == old(self).cursor(),
            c@ == final(self).buffer(),
            old(self).cursor() < old(self).buffer().len() ==> {
                &&& final(self).buffer() == old(self).buffer().update(
                    old(self).cursor(),
                    ((old(self).buffer()[old(self).cursor()] as int) / 2) as u8,
                )
                &&& final(self).remembered() == old(self).buffer()[old(self).cursor()]
            },
            old(self).cursor() >= old(self).buffer().len()
                ==> final(self).buffer() == old(self).buffer(),
    {
        if self.index < self.source.len() {
            self.value = self.source[self.index];
            self.source[self.index] = self.value / 2;
            proof {
                assert(self.source@.update(self.index as int, self.value)
                    =~= old(self).known_fail());
            }
        }
        self.awaiting = Ghost(true);
        let c = copy_prefix(&self.source, self.source.len());
        proof {
            assert(self.source@.subrange(0, self.source@.len() as int) =~= self.source@);
        }
        c
    }

    fn report(&mut self, report: ShrinkReport) -> (r: Option<Vec<u8>>)
        ensures
            final(self).origin() == old(self).origin(),
            r matches Some(m) ==> final(self).reduced_from_origin(m@),
            old(self).cursor() < old(self).buffer().len() && report is Pass
                ==> final(self).buffer() == old(self).buffer().update(
                    old(self).cursor(),
                    old(self).remembered(),
                ),
            old(self).cursor() < old(self).buffer().len() && report is Fail
                ==> final(self).buffer() == old(self).buffer(),
            old(self).cursor() >= old(self).buffer().len()
                ==> final(self).buffer() == old(self).buffer(),
            final(self).cursor() >= old(self).cursor(),
            report is Pass && old(self).cursor() < old(self).buffer().len()
                ==> final(self).cursor() > old(self).cursor(),
            final(self).cursor() <= final(self).buffer().len(),
            final(self).cursor() < final(self).buffer().len()
                ==> final(self).buffer()[final(self).cursor()] != 0,
            report is Fail ==> forall|k: int|
                old(self).cursor() <= k < final(self).cursor()
                    ==> final(self).buffer()[k] == 0,
            report is Pass ==> forall|k: int|
                old(self).cursor() + 1 <= k < final(self).cursor()
                    ==> final(self).buffer()[k] == 0,
            r is Some <==> final(self).cursor() >= final(self).buffer().len(),
            r matches Some(m) ==> m@ == final(self).buffer(),
    {
        let ghost pre = *self;
        if self.index < self.source.len() {
            if matches!(report, ShrinkReport::Pass) {
                // The reduced byte no longer reproduces the failure: put the
                // remembered value back and move past it.
                self.source[self.index] = self.value;
                self.index = self.index + 1;
                proof {
                    assert(self.source@ =~= pre.known_fail());
                    lemma_zero_steps_agree(
                        self.source@,
                        pre.known_fail(),
                        self.index as int,
                    );
                }
            } else {
                // The halved value still reproduces: keep it and reduce
                // further on the next round.
                proof {
                    lemma_zero_steps_agree(
                        self.source@,
                        pre.known_fail(),
                        self.index as int + 1,
                    );
                    assert(byte_steps(pre.value) == 1 + byte_steps(pre.value / 2));
                }
            }
        }
        self.awaiting = Ghost(false);
        let ghost mid = *self;
        self.find_next_index_to_zeroify();
        proof {
            lemma_zero_steps_skip(self.source@, mid.index as int, self.index as int);
        }
        if self.index >= self.source.len() {
            let m = copy_prefix(&self.source, self.source.len());
            proof {
                assert(self.source@.subrange(0, self.source@.len() as int) =~= self.source@);
            }
            Some(m)
        } else {
            None
        }
    }
}

} // verus!
