//! Building blocks of the inter-process communication latency and throughput
//! benchmarks: buffer warm-up, clock-reading arithmetic, sample statistics and
//! the bookkeeping of partial reads, writes, sends and receives.

pub mod buffer;
pub mod config;
pub mod counter;
pub mod stats;
pub mod transfer;
pub mod receive;
pub mod report;
