//! The parameters the benchmarks run with.
use vstd::prelude::*;

verus! {

/// Round trips per message size in the latency benchmarks.
pub const LATENCY_ITERATIONS: usize = 100_000;

/// Messages per size in the throughput benchmarks.
pub const THROUGHPUT_ITERATIONS: usize = 1_000_000;

/// Samples taken by the clock and system-call benchmarks.
pub const CLOCK_SAMPLES: usize = 1_000_000;

/// Child processes spawned by the pipe benchmark.
pub const PIPE_SAMPLES: usize = 10_000;

/// Measured round trips of the socket-pair benchmark.
pub const PAIR_ROUND_TRIPS: usize = 1_000_000;

/// Warm-up round trips the socket-pair child answers before the measured ones.
pub const PAIR_WARM_UP: usize = 1_000_001;

/// Empty loop iterations timed by the counter benchmark.
pub const SPIN_ITERATIONS: usize = 1_000;

/// The starting point of a running minimum: larger than any expected sample.
pub const SAMPLE_CEILING: u64 = 1_000_000_000;

/// The size of the single message of the datagram latency benchmark.
pub const LARGEST_MESSAGE: usize = 16 * 1024;

/// The message sizes, in bytes, of the stream benchmarks and the datagram
/// throughput benchmark, smallest first.
pub open spec fn message_sizes_spec() -> Seq<usize> {
    seq![4usize, 16, 64, 256, 1024, 4096, 16384]
}

/// The message sizes, in bytes, smallest first.
pub fn message_sizes() -> (sizes: Vec<usize>)
    ensures
        sizes@ == message_sizes_spec(),
{
    let sizes: Vec<usize> = vec![4, 16, 64, 256, 1024, 4096, 16 * 1024];
    assert(sizes@ =~= message_sizes_spec());
    sizes
}

/// Every message size is positive, no larger than the largest message, and
/// the sizes grow strictly.
pub proof fn lemma_message_sizes_ordered()
    ensures
        forall|i: int| 0 <= i < message_sizes_spec().len() ==> 0 < #[trigger] message_sizes_spec()[i] <= LARGEST_MESSAGE,
        forall|i: int, j: int| 0 <= i < j < message_sizes_spec().len() ==> message_sizes_spec()[i] < message_sizes_spec()[j],
{
}

} // verus!
