//! Receiving a message over a socket with a read timeout: the loop stops at
//! the first timeout, at an empty receive, or once the whole message is in.
use vstd::prelude::*;

verus! {

/// How one receive call ended.
#[derive(PartialEq, Eq, Structural, Clone, Copy, Debug)]
pub enum RecvOutcome {
    /// The call delivered this many bytes.
    Received(usize),
    /// The call gave up because the read timeout expired.
    TimedOut,
    /// The call failed for another reason.
    Failed,
}

/// What to do after a receive call.
#[derive(PartialEq, Eq, Structural, Clone, Copy, Debug)]
pub enum RecvAction {
    /// Receive again into the rest of the buffer.
    ReceiveMore,
    /// Stop receiving this message.
    Finished,
}

/// The state of receiving one message of `target` bytes: the bytes counted
/// so far, the count the last successful call delivered, and whether a
/// timeout has been seen.
#[derive(PartialEq, Eq, Structural, Clone, Copy, Debug)]
pub struct TimedReceive {
    pub target: usize,
    pub received: usize,
    pub last: usize,
    pub timed_out: bool,
}

impl TimedReceive {
    /// The last count after `outcome`: a failure that is not a timeout keeps
    /// the count of the call before it.
    pub open spec fn last_after(self, outcome: RecvOutcome) -> usize {
        match outcome {
            RecvOutcome::Received(n) => n,
            _ => self.last,
        }
    }

    pub open spec fn timed_out_after(self, outcome: RecvOutcome) -> bool {
        self.timed_out || outcome == RecvOutcome::TimedOut
    }

    /// Whether the loop goes on to count the last delivery after `outcome`.
    pub open spec fn counts_after(self, outcome: RecvOutcome) -> bool {
        self.last_after(outcome) > 0 && !self.timed_out_after(outcome)
    }

    /// The state after a call that ended with `outcome`.
    pub open spec fn after(self, outcome: RecvOutcome) -> TimedReceive {
        TimedReceive {
            target: self.target,
            received: if self.counts_after(outcome) {
                (self.received + self.last_after(outcome)) as usize
            } else {
                self.received
            },
            last: self.last_after(outcome),
            timed_out: self.timed_out_after(outcome),
        }
    }

    /// The decision after a call that ended with `outcome`.
    pub open spec fn action_for(self, outcome: RecvOutcome) -> RecvAction {
        if self.counts_after(outcome) && self.received + self.last_after(outcome) < self.target {
            RecvAction::ReceiveMore
        } else {
            RecvAction::Finished
        }
    }

    /// Nothing received yet of a message of `target` bytes.
    pub fn new(target: usize) -> (r: TimedReceive)
        ensures
            r == (TimedReceive { target, received: 0, last: 0, timed_out: false }),
    {
        TimedReceive { target, received: 0, last: 0, timed_out: false }
    }

    /// Records how a receive call ended and says whether to receive again.
    /// A timeout stops the loop for good; a delivery of `n > 0` bytes is
    /// counted, and the loop goes on while the count is below the target; a
    /// delivery of 0 bytes stops it. A failure that is not a timeout leaves
    /// the last count in place, so that count is added again.
    pub fn observe(&mut self, outcome: RecvOutcome) -> (action: RecvAction)
        requires
            old(self).received + old(self).last_after(outcome) <= usize::MAX,
        ensures
            *final(self) == old(self).after(outcome),
            action == old(self).action_for(outcome),
            final(self).target == old(self).target,
            outcome matches RecvOutcome::Received(n) ==> {
                &&& final(self).last == n
                &&& final(self).timed_out == old(self).timed_out
                &&& (n > 0 && !old(self).timed_out) ==> final(self).received == old(self).received + n
                &&& (n > 0 && !old(self).timed_out) ==> (action == RecvAction::ReceiveMore <==> old(self).received + n < old(self).target)
                &&& (n == 0 || old(self).timed_out) ==> final(self).received == old(self).received && action == RecvAction::Finished
            },
            outcome == RecvOutcome::TimedOut ==> {
                &&& final(self).timed_out
                &&& final(self).last == old(self).last
                &&& final(self).received == old(self).received
                &&& action == RecvAction::Finished
            },
            outcome == RecvOutcome::Failed ==> {
                &&& final(self).timed_out == old(self).timed_out
                &&& final(self).last == old(self).last
                &&& (old(self).last > 0 && !old(self).timed_out) ==> final(self).received == old(self).received + old(self).last
                &&& (old(self).last > 0 && !old(self).timed_out) ==> (action == RecvAction::ReceiveMore <==> old(self).received + old(self).last < old(self).target)
                &&& (old(self).last == 0 || old(self).timed_out) ==> final(self).received == old(self).received && action == RecvAction::Finished
            },
    {
        match outcome {
            RecvOutcome::Received(n) => {
                self.last = n;
            },
            RecvOutcome::TimedOut => {
                self.timed_out = true;
            },
            RecvOutcome::Failed => {},
        }
        if self.last > 0 && !self.timed_out {
            self.received = self.received + self.last;
            if self.received >= self.target {
                RecvAction::Finished
            } else {
                RecvAction::ReceiveMore
            }
        } else {
            RecvAction::Finished
        }
    }

    /// The status the benchmark reports: -1 after a timeout, 0 otherwise.
    pub fn status_code(&self) -> (code: i32)
        ensures
            code == (if self.timed_out { -1i32 } else { 0i32 }),
    {
        if self.timed_out {
            -1
        } else {
            0
        }
    }
}

/// What one receive call does, in arithmetic on the fields: a delivery of
/// `n > 0` bytes before any timeout adds `n` to the bytes received and asks
/// for more exactly while the total is below the target; an empty delivery,
/// or any call after a timeout, adds nothing and finishes; a timeout adds
/// nothing and finishes; a failure of another kind adds the last delivery
/// again when there was one before any timeout.
pub proof fn lemma_observe_arithmetic(r: TimedReceive, outcome: RecvOutcome)
    requires
        r.received + r.last_after(outcome) <= usize::MAX,
    ensures
            r.after(outcome).target == r.target,
            outcome matches RecvOutcome::Received(n) ==> {
                &&& r.after(outcome).last == n
                &&& r.after(outcome).timed_out == r.timed_out
                &&& (n > 0 && !r.timed_out) ==> r.after(outcome).received == r.received + n
                &&& (n > 0 && !r.timed_out) ==> (r.action_for(outcome) == RecvAction::ReceiveMore <==> r.received + n < r.target)
                &&& (n == 0 || r.timed_out) ==> r.after(outcome).received == r.received && r.action_for(outcome) == RecvAction::Finished
            },
            outcome == RecvOutcome::TimedOut ==> {
                &&& r.after(outcome).timed_out
                &&& r.after(outcome).last == r.last
                &&& r.after(outcome).received == r.received
                &&& r.action_for(outcome) == RecvAction::Finished
            },
            outcome == RecvOutcome::Failed ==> {
                &&& r.after(outcome).timed_out == r.timed_out
                &&& r.after(outcome).last == r.last
                &&& (r.last > 0 && !r.timed_out) ==> r.after(outcome).received == r.received + r.last
                &&& (r.last > 0 && !r.timed_out) ==> (r.action_for(outcome) == RecvAction::ReceiveMore <==> r.received + r.last < r.target)
                &&& (r.last == 0 || r.timed_out) ==> r.after(outcome).received == r.received && r.action_for(outcome) == RecvAction::Finished
            },
{
}

/// A timeout is final: after one, every later call finishes the loop and
/// adds nothing to the bytes received.
pub proof fn lemma_timeout_is_final(r: TimedReceive, outcome: RecvOutcome)
    requires
        r.timed_out,
    ensures
        r.action_for(outcome) == RecvAction::Finished,
        r.after(outcome).received == r.received,
        r.after(outcome).timed_out,
{
}

/// The bytes received never decrease, and the target never changes.
pub proof fn lemma_received_monotone(r: TimedReceive, outcome: RecvOutcome)
    requires
        r.received + r.last_after(outcome) <= usize::MAX,
    ensures
        r.after(outcome).received >= r.received,
        r.after(outcome).target == r.target,
{
}

} // verus!
