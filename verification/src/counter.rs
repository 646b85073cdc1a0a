//! Arithmetic on clock readings: the processor's time-stamp counter and the
//! seconds-and-nanoseconds readings of the system clock.
use vstd::prelude::*;

verus! {

/// The 64-bit counter value that the instruction hands out as two 32-bit
/// halves: the high half shifted up by 32 bits, combined with the low half.
pub open spec fn counter_value(high: u32, low: u32) -> int {
    high * 0x1_0000_0000 + low
}

/// Joins the two halves of a counter reading (`edx:eax`) into one value, as
/// `shl rdx, 32; or rax, rdx` does.
pub fn counter_from_halves(high: u32, low: u32) -> (value: u64)
    ensures
        value == counter_value(high, low),
        value == high * 0x1_0000_0000 + low,
        value >> 32u64 == high,
        value & 0xffff_ffffu64 == low,
{
    let h: u64 = high as u64;
    let l: u64 = low as u64;
    let value: u64 = (h << 32u64) | l;
    assert(h < 0x1_0000_0000 && l < 0x1_0000_0000 ==> ((h << 32u64) | l) == h * 0x1_0000_0000 + l)
        by (bit_vector);
    assert(h < 0x1_0000_0000 && l < 0x1_0000_0000 ==> ((h << 32u64) | l) >> 32u64 == h)
        by (bit_vector);
    assert(h < 0x1_0000_0000 && l < 0x1_0000_0000 ==> ((h << 32u64) | l) & 0xffff_ffffu64 == l)
        by (bit_vector);
    value
}

/// The number of counter ticks between two readings taken in order.
pub fn elapsed(early: u64, late: u64) -> (ticks: u64)
    requires
        early <= late,
    ensures
        ticks == late - early,
        early + ticks == late,
{
    late - early
}

/// The nanoseconds between two clock readings given as seconds and
/// nanoseconds, the later one second.
pub open spec fn elapsed_ns_spec(start_sec: i64, start_nsec: i64, end_sec: i64, end_nsec: i64) -> int {
    (end_sec - start_sec) * 1_000_000_000 + (end_nsec - start_nsec)
}

/// The nanoseconds from one clock reading to a later one.
pub fn timespec_elapsed_ns(start_sec: i64, start_nsec: i64, end_sec: i64, end_nsec: i64) -> (ns: i64)
    requires
        start_sec <= end_sec,
        (end_sec - start_sec) * 1_000_000_000 <= i64::MAX,
        i64::MIN <= end_nsec - start_nsec <= i64::MAX,
        i64::MIN <= elapsed_ns_spec(start_sec, start_nsec, end_sec, end_nsec) <= i64::MAX,
    ensures
        ns == elapsed_ns_spec(start_sec, start_nsec, end_sec, end_nsec),
        start_sec * 1_000_000_000 + start_nsec + ns == end_sec * 1_000_000_000 + end_nsec,
{
    let secs: i64 = end_sec - start_sec;
    let whole: i64 = secs * 1_000_000_000;
    let part: i64 = end_nsec - start_nsec;
    whole + part
}

/// The elapsed nanoseconds are what the earlier reading lacks of the later
/// one, both read as nanoseconds since the epoch.
pub proof fn lemma_elapsed_ns_closes_gap(start_sec: i64, start_nsec: i64, end_sec: i64, end_nsec: i64)
    ensures
        start_sec * 1_000_000_000 + start_nsec + elapsed_ns_spec(start_sec, start_nsec, end_sec, end_nsec)
            == end_sec * 1_000_000_000 + end_nsec,
{
}

/// The counter value puts the high half above the low half: dividing by 2^32
/// gives the high half back and the remainder is the low half.
pub proof fn lemma_counter_value_splits(high: u32, low: u32)
    ensures
        counter_value(high, low) / 0x1_0000_0000 == high,
        counter_value(high, low) % 0x1_0000_0000 == low,
{
}

} // verus!
