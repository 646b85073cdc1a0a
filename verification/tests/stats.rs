use ipc_clock::stats::{keep_lower, keep_min, min_below_i64, min_below_u64, min_unset};

#[test]
fn keep_min_takes_first_sample() {
    assert_eq!(keep_min(0, 5), 5);
}

#[test]
fn keep_min_keeps_smaller() {
    assert_eq!(keep_min(3, 5), 3);
    assert_eq!(keep_min(7, 5), 5);
    assert_eq!(keep_min(5, 5), 5);
}

#[test]
fn keep_min_zero_sample_resets() {
    assert_eq!(keep_min(4, 0), 0);
}

#[test]
fn min_unset_of_nothing_is_zero() {
    assert_eq!(min_unset(&[]), 0);
}

#[test]
fn min_unset_of_positive_samples_is_minimum() {
    assert_eq!(min_unset(&[5, 3, 8]), 3);
    assert_eq!(min_unset(&[9]), 9);
    assert_eq!(min_unset(&[4, 4, 4]), 4);
}

#[test]
fn min_unset_restarts_after_zero_sample() {
    assert_eq!(min_unset(&[5, 0, 7]), 7);
    assert_eq!(min_unset(&[5, 7, 0]), 0);
}

#[test]
fn min_below_ceiling_without_samples() {
    assert_eq!(min_below_u64(&[], 1_000_000_000), 1_000_000_000);
}

#[test]
fn min_below_picks_smallest_sample() {
    assert_eq!(min_below_u64(&[5, 3, 8], 1_000_000_000), 3);
    assert_eq!(min_below_u64(&[2_000_000_000], 1_000_000_000), 1_000_000_000);
}

#[test]
fn min_below_signed_samples() {
    assert_eq!(min_below_i64(&[-5, 3], 1_000_000_000), -5);
    assert_eq!(min_below_i64(&[40, 31, 77], 1_000_000_000), 31);
}

#[test]
fn keep_lower_is_minimum() {
    assert_eq!(keep_lower(1_000_000_000, 250), 250);
    assert_eq!(keep_lower(250, 300), 250);
}

#[test]
fn running_keep_lower_matches_min_below() {
    let samples = [700u64, 2_000_000_000, 310, 450];
    let mut best = 1_000_000_000u64;
    for s in samples {
        best = keep_lower(best, s);
    }
    assert_eq!(best, min_below_u64(&samples, 1_000_000_000));
    assert_eq!(best, 310);
}
