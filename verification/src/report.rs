//! Turning a throughput run into the figures that are reported.
use vstd::prelude::*;

verus! {

/// What a throughput receiver reports for one message size: the bytes the
/// sender sent, those that arrived, and those that were lost.
#[derive(PartialEq, Eq, Structural, Clone, Copy, Debug)]
pub struct DropReport {
    pub sent: usize,
    pub received: usize,
    pub dropped: usize,
}

/// The report for `iterations` messages of `size` bytes of which `received`
/// bytes arrived.
pub fn drop_report(size: usize, iterations: usize, received: usize) -> (r: DropReport)
    requires
        size * iterations <= usize::MAX,
        received <= size * iterations,
    ensures
        r.sent == size * iterations,
        r.received == received,
        r.dropped == r.sent - received,
        r.received + r.dropped == r.sent,
{
    let sent = size * iterations;
    DropReport { sent, received, dropped: sent - received }
}

} // verus!
