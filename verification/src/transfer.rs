//! Bookkeeping for moving a whole message through calls that may each move
//! only part of it (stream reads and writes, datagram sends and receives).
use vstd::prelude::*;

verus! {

/// What to do after a call has reported how many bytes it moved.
#[derive(PartialEq, Eq, Structural, Clone, Copy, Debug)]
pub enum Step {
    /// Part of the message is still outstanding: issue another call.
    Continue,
    /// At least `target` bytes have been moved.
    Complete,
    /// The call moved nothing (end of stream): stop, whatever is outstanding.
    Stalled,
}

/// How much of a message of `target` bytes has been moved so far.
#[derive(PartialEq, Eq, Structural, Clone, Copy, Debug)]
pub struct Progress {
    pub target: usize,
    pub done: usize,
}

impl Progress {
    /// The state after a call that moved `count` bytes.
    pub open spec fn after(self, count: usize) -> Progress {
        if count == 0 {
            self
        } else {
            Progress { target: self.target, done: (self.done + count) as usize }
        }
    }

    /// The decision after a call that moved `count` bytes.
    pub open spec fn step_for(self, count: usize) -> Step {
        if count == 0 {
            Step::Stalled
        } else if self.done + count >= self.target {
            Step::Complete
        } else {
            Step::Continue
        }
    }

    /// The bytes still outstanding.
    pub open spec fn outstanding(self) -> nat {
        if self.done >= self.target {
            0
        } else {
            (self.target - self.done) as nat
        }
    }

    /// Nothing moved yet of a message of `target` bytes.
    pub fn new(target: usize) -> (p: Progress)
        ensures
            p.target == target,
            p.done == 0,
    {
        Progress { target, done: 0 }
    }

    /// Records a call that moved `count` bytes and says what to do next: a
    /// call that moved nothing stalls the transfer and changes nothing; any
    /// other call adds its count, and the transfer is complete once the total
    /// reaches the target.
    pub fn advance(&mut self, count: usize) -> (step: Step)
        requires
            old(self).done + count <= usize::MAX,
        ensures
            *final(self) == old(self).after(count),
            step == old(self).step_for(count),
            final(self).target == old(self).target,
            count == 0 ==> final(self).done == old(self).done,
            count > 0 ==> final(self).done == old(self).done + count,
            step == Step::Stalled <==> count == 0,
            step == Step::Complete <==> (count > 0 && old(self).done + count >= old(self).target),
            step == Step::Continue <==> (count > 0 && old(self).done + count < old(self).target),
    {
        if count == 0 {
            Step::Stalled
        } else {
            self.done = self.done + count;
            if self.done >= self.target {
                Step::Complete
            } else {
                Step::Continue
            }
        }
    }

    /// The bytes still outstanding, 0 once the target has been reached.
    pub fn remaining(&self) -> (r: usize)
        ensures
            r == self.outstanding(),
            self.done <= self.target ==> r == self.target - self.done,
            self.done >= self.target ==> r == 0,
            self.done + r >= self.target,
    {
        if self.done >= self.target {
            0
        } else {
            self.target - self.done
        }
    }

    /// Whether the whole message has been moved.
    pub fn is_complete(&self) -> (b: bool)
        ensures
            b == (self.done >= self.target),
    {
        self.done >= self.target
    }
}

/// What one call does to a transfer, in arithmetic on its fields: a call
/// that moved nothing stalls it and changes nothing; a call that moved
/// `count > 0` bytes adds `count` to the bytes done, keeps the target, and
/// completes the transfer exactly when the new total reaches the target.
pub proof fn lemma_advance_arithmetic(p: Progress, count: usize)
    requires
        p.done + count <= usize::MAX,
    ensures
        p.after(count).target == p.target,
        count == 0 ==> p.after(count) == p && p.step_for(count) == Step::Stalled,
        count > 0 ==> p.after(count).done == p.done + count,
        p.step_for(count) == Step::Complete <==> (count > 0 && p.done + count >= p.target),
        p.step_for(count) == Step::Continue <==> (count > 0 && p.done + count < p.target),
        p.step_for(count) == Step::Stalled <==> count == 0,
{
}

/// What is outstanding is the rest of the target: the target less the bytes
/// done while they fall short of it, nothing once they reach it, and moving
/// exactly what is outstanding completes the transfer.
pub proof fn lemma_outstanding_is_rest(p: Progress)
    ensures
        p.done <= p.target ==> p.outstanding() == p.target - p.done,
        p.done >= p.target ==> p.outstanding() == 0,
        p.done + p.outstanding() >= p.target,
        p.done < p.target ==> p.step_for(p.outstanding() as usize) == Step::Complete,
        p.done < p.target ==> p.after(p.outstanding() as usize).done == p.target,
{
}

/// The sum of a run of counts.
pub open spec fn total(counts: Seq<usize>) -> int
    decreases counts.len(),
{
    if counts.len() == 0 {
        0
    } else {
        total(counts.drop_last()) + counts.last()
    }
}

/// The state after a run of calls that moved `counts` bytes, in order.
pub open spec fn after_all(p: Progress, counts: Seq<usize>) -> Progress
    decreases counts.len(),
{
    if counts.len() == 0 {
        p
    } else {
        after_all(p, counts.drop_last()).after(counts.last())
    }
}

/// Every byte that a call reports is counted once: after any run of calls the
/// bytes done are those done before plus the sum of the counts, and the
/// target is unchanged.
pub proof fn lemma_progress_counts_every_byte(p: Progress, counts: Seq<usize>)
    requires
        p.done + total(counts) <= usize::MAX,
    ensures
        after_all(p, counts).done == p.done + total(counts),
        after_all(p, counts).target == p.target,
    decreases counts.len(),
{
    if counts.len() > 0 {
        lemma_total_nonnegative(counts.drop_last());
        lemma_progress_counts_every_byte(p, counts.drop_last());
    }
}

proof fn lemma_total_nonnegative(counts: Seq<usize>)
    ensures
        total(counts) >= 0,
    decreases counts.len(),
{
    if counts.len() > 0 {
        lemma_total_nonnegative(counts.drop_last());
    }
}

/// A transfer fed calls that each move at most what is outstanding ends
/// exactly on the target: it is complete just when the counts sum to it.
pub proof fn lemma_progress_never_overshoots(p: Progress, counts: Seq<usize>)
    requires
        p.done <= p.target,
        forall|i: int|
            0 <= i < counts.len() ==> #[trigger] counts[i] <= after_all(p, counts.take(i)).outstanding(),
    ensures
        after_all(p, counts).done <= p.target,
        after_all(p, counts).done == p.done + total(counts),
        after_all(p, counts).target == p.target,
    decreases counts.len(),
{
    if counts.len() > 0 {
        let prefix = counts.drop_last();
        assert forall|i: int| 0 <= i < prefix.len() implies #[trigger] prefix[i] <= after_all(
            p,
            prefix.take(i),
        ).outstanding() by {
            assert(prefix.take(i) =~= counts.take(i));
            assert(prefix[i] == counts[i]);
        }
        lemma_progress_never_overshoots(p, prefix);
        let last = counts.len() - 1;
        assert(counts.take(last) =~= prefix);
        assert(counts[last] <= after_all(p, counts.take(last)).outstanding());
    }
}

} // verus!
