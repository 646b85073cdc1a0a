//! Picking the fastest round trip out of the samples a benchmark took.
use vstd::prelude::*;

verus! {

/// The running best when 0 stands for "no sample yet": the first sample, and
/// after that any sample below the best, replaces it.
pub open spec fn keep_min_spec(best: u64, sample: u64) -> u64 {
    if best == 0 || sample < best {
        sample
    } else {
        best
    }
}

/// `keep_min_spec` applied to the samples in order, starting from 0.
pub open spec fn min_unset_spec(samples: Seq<u64>) -> u64
    decreases samples.len(),
{
    if samples.len() == 0 {
        0
    } else {
        keep_min_spec(min_unset_spec(samples.drop_last()), samples.last())
    }
}

/// The running minimum after one more sample.
pub open spec fn lower_spec(best: u64, sample: u64) -> u64 {
    if sample < best {
        sample
    } else {
        best
    }
}

/// `lower_spec` applied to the samples in order, starting from `start`.
pub open spec fn running_lower(samples: Seq<u64>, start: u64) -> u64
    decreases samples.len(),
{
    if samples.len() == 0 {
        start
    } else {
        lower_spec(running_lower(samples.drop_last(), start), samples.last())
    }
}

/// `m` is no greater than any of `samples`.
pub open spec fn is_lower_bound(m: int, samples: Seq<int>) -> bool {
    forall|i: int| 0 <= i < samples.len() ==> m <= #[trigger] samples[i]
}

/// `m` is one of `samples`.
pub open spec fn is_member(m: int, samples: Seq<int>) -> bool {
    exists|i: int| 0 <= i < samples.len() && #[trigger] samples[i] == m
}

pub open spec fn widen_u64(samples: Seq<u64>) -> Seq<int> {
    samples.map_values(|s: u64| s as int)
}

pub open spec fn widen_i64(samples: Seq<i64>) -> Seq<int> {
    samples.map_values(|s: i64| s as int)
}

/// Updates the best time seen so far with a new sample, where a best of 0
/// means that nothing has been recorded yet.
pub fn keep_min(best: u64, sample: u64) -> (kept: u64)
    ensures
        kept == keep_min_spec(best, sample),
        best == 0 ==> kept == sample,
        best != 0 ==> kept <= best && kept <= sample && (kept == best || kept == sample),
{
    if best == 0 || sample < best {
        sample
    } else {
        best
    }
}

/// The best of `samples` under `keep_min`, starting from "nothing recorded".
pub fn min_unset(samples: &[u64]) -> (m: u64)
    ensures
        m == min_unset_spec(samples@),
        m == 0 || is_member(m as int, widen_u64(samples@)),
        (forall|i: int| 0 <= i < samples@.len() ==> samples@[i] != 0) ==> {
            &&& is_lower_bound(m as int, widen_u64(samples@))
            &&& (samples@.len() == 0 <==> m == 0)
        },
{
    proof {
        lemma_min_unset_is_sample(samples@);
        if forall|i: int| 0 <= i < samples@.len() ==> samples@[i] != 0 {
            lemma_min_unset_is_minimum(samples@);
        }
    }
    let mut m: u64 = 0;
    let n = samples.len();
    for i in 0..n
        invariant
            n == samples@.len(),
            m == min_unset_spec(samples@.subrange(0, i as int)),
    {
        assert(samples@.subrange(0, i + 1).drop_last() =~= samples@.subrange(0, i as int));
        m = keep_min(m, samples[i]);
    }
    assert(samples@.subrange(0, n as int) =~= samples@);
    m
}

/// The smallest of `samples` and `ceiling`: the running minimum of a run
/// that starts from `ceiling`.
pub fn min_below_u64(samples: &[u64], ceiling: u64) -> (m: u64)
    ensures
        m <= ceiling,
        is_lower_bound(m as int, widen_u64(samples@)),
        m == ceiling || is_member(m as int, widen_u64(samples@)),
{
    let mut m: u64 = ceiling;
    let n = samples.len();
    let ghost w = widen_u64(samples@);
    for i in 0..n
        invariant
            n == samples@.len(),
            w == widen_u64(samples@),
            m <= ceiling,
            forall|k: int| 0 <= k < i ==> m <= #[trigger] w[k],
            m == ceiling || exists|k: int| 0 <= k < i && #[trigger] w[k] == m,
    {
        assert(w[i as int] == samples@[i as int]);
        if samples[i] < m {
            m = samples[i];
        }
    }
    m
}

/// The smallest of `samples` and `ceiling`, for signed samples.
pub fn min_below_i64(samples: &[i64], ceiling: i64) -> (m: i64)
    ensures
        m <= ceiling,
        is_lower_bound(m as int, widen_i64(samples@)),
        m == ceiling || is_member(m as int, widen_i64(samples@)),
{
    let mut m: i64 = ceiling;
    let n = samples.len();
    let ghost w = widen_i64(samples@);
    for i in 0..n
        invariant
            n == samples@.len(),
            w == widen_i64(samples@),
            m <= ceiling,
            forall|k: int| 0 <= k < i ==> m <= #[trigger] w[k],
            m == ceiling || exists|k: int| 0 <= k < i && #[trigger] w[k] == m,
    {
        assert(w[i as int] == samples@[i as int]);
        if samples[i] < m {
            m = samples[i];
        }
    }
    m
}

/// Updates a running minimum with a new sample.
pub fn keep_lower(best: u64, sample: u64) -> (kept: u64)
    ensures
        kept == lower_spec(best, sample),
        kept <= best,
        kept <= sample,
        kept == best || kept == sample,
{
    if sample < best {
        sample
    } else {
        best
    }
}

/// One update of the best time: the first sample (best 0) is taken as is;
/// after that the best becomes the smaller of the best and the sample.
pub proof fn lemma_keep_min_arithmetic(best: u64, sample: u64)
    ensures
        best == 0 ==> keep_min_spec(best, sample) == sample,
        best != 0 ==> keep_min_spec(best, sample) <= best && keep_min_spec(best, sample) <= sample,
        best != 0 ==> (keep_min_spec(best, sample) == best || keep_min_spec(best, sample) == sample),
{
}

/// When no sample is 0, the best under `keep_min` is the smallest sample
/// (and 0 only for an empty run).
pub proof fn lemma_min_unset_is_minimum(samples: Seq<u64>)
    requires
        forall|i: int| 0 <= i < samples.len() ==> samples[i] != 0,
    ensures
        is_lower_bound(min_unset_spec(samples) as int, widen_u64(samples)),
        samples.len() == 0 <==> min_unset_spec(samples) == 0,
        samples.len() > 0 ==> is_member(min_unset_spec(samples) as int, widen_u64(samples)),
    decreases samples.len(),
{
    if samples.len() > 0 {
        let prefix = samples.drop_last();
        lemma_min_unset_is_minimum(prefix);
        let wp = widen_u64(prefix);
        let w = widen_u64(samples);
        assert(forall|i: int| 0 <= i < prefix.len() ==> w[i] == wp[i]);
        assert(w[samples.len() - 1] == samples.last());
        if prefix.len() > 0 {
            let k = choose|k: int| 0 <= k < wp.len() && #[trigger] wp[k] == min_unset_spec(prefix);
            assert(w[k] == wp[k]);
        }
    }
}

/// Whatever the samples, the best under `keep_min` is 0 or one of them.
pub proof fn lemma_min_unset_is_sample(samples: Seq<u64>)
    ensures
        min_unset_spec(samples) == 0 || is_member(min_unset_spec(samples) as int, widen_u64(samples)),
    decreases samples.len(),
{
    if samples.len() > 0 {
        let prefix = samples.drop_last();
        lemma_min_unset_is_sample(prefix);
        let wp = widen_u64(prefix);
        let w = widen_u64(samples);
        assert(w[samples.len() - 1] == samples.last());
        if min_unset_spec(prefix) != 0 && min_unset_spec(samples) == min_unset_spec(prefix) {
            let k = choose|k: int| 0 <= k < wp.len() && #[trigger] wp[k] == min_unset_spec(prefix);
            assert(w[k] == wp[k]);
        }
    }
}

/// Keeping a running minimum sample by sample, from a ceiling, ends where
/// `min_below_u64` over all the samples does: at or below the ceiling, at or
/// below every sample, and equal to the ceiling or to one of the samples.
pub proof fn lemma_running_lower_is_min_below(samples: Seq<u64>, ceiling: u64)
    ensures
        running_lower(samples, ceiling) <= ceiling,
        is_lower_bound(running_lower(samples, ceiling) as int, widen_u64(samples)),
        running_lower(samples, ceiling) == ceiling || is_member(
            running_lower(samples, ceiling) as int,
            widen_u64(samples),
        ),
    decreases samples.len(),
{
    if samples.len() > 0 {
        let prefix = samples.drop_last();
        lemma_running_lower_is_min_below(prefix, ceiling);
        let wp = widen_u64(prefix);
        let w = widen_u64(samples);
        assert(forall|i: int| 0 <= i < prefix.len() ==> w[i] == wp[i]);
        assert(w[samples.len() - 1] == samples.last());
        if running_lower(prefix, ceiling) != ceiling && running_lower(samples, ceiling) == running_lower(prefix, ceiling) {
            let k = choose|k: int| 0 <= k < wp.len() && #[trigger] wp[k] == running_lower(prefix, ceiling);
            assert(w[k] == wp[k]);
        }
    }
}

} // verus!
