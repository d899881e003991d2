//! Summaries of benchmark samples, and the configuration a benchmark report records.
use vstd::prelude::*;

verus! {

/// What a benchmark run was configured with and built as.
#[derive(Debug, Clone)]
pub struct BenchmarkConfig {
    pub eve_version: &'static str,
    pub iterations: usize,
    pub warmup_iterations: usize,
    pub tokens: usize,
    pub prompt_bytes: usize,
    pub build_profile: &'static str,
    pub target_os: &'static str,
    pub target_arch: &'static str,
}

/// Order statistics and mean of a set of samples, in nanoseconds.
#[derive(Debug, Clone, Copy, PartialEq, Eq)]
pub struct BenchmarkStats {
    pub min_ns: u64,
    pub median_ns: u64,
    pub mean_ns: u64,
    pub p95_ns: u64,
    pub max_ns: u64,
}

/// The samples ascend.
pub open spec fn ascending(s: Seq<u64>) -> bool {
    forall|i: int, j: int| 0 <= i <= j < s.len() ==> s[i] <= s[j]
}

/// The sum of the samples.
pub open spec fn sample_sum(s: Seq<u64>) -> int
    decreases s.len(),
{
    if s.len() == 0 {
        0
    } else {
        sample_sum(s.drop_last()) + s.last()
    }
}

/// The position of the 95th percentile among `len` ascending samples: the
/// ceiling of 95% of `len`, counted from one.
pub open spec fn p95_position(len: nat) -> int {
    if (len * 95 + 99) / 100 == 0 {
        0
    } else {
        (len * 95 + 99) / 100 - 1
    }
}

/// Calls `slice::sort_unstable`, which puts the samples in ascending order; the same
/// samples remain.
#[verifier::external_body]
fn sort_samples(samples: &mut Vec<u64>)
    ensures
        final(samples)@.to_multiset() == old(samples)@.to_multiset(),
        final(samples)@.len() == old(samples)@.len(),
        ascending(final(samples)@),
{
    samples.sort_unstable()
}

/// The summary of the samples: smallest, middle (the upper one of an even count), mean
/// rounded down, 95th percentile and largest.
pub fn stats(samples: Vec<u64>) -> (r: BenchmarkStats)
    requires
        samples.len() > 0,
        samples.len() * 95 <= usize::MAX,
    ensures
        exists|s: Seq<u64>| {
            &&& ascending(s)
            &&& s.to_multiset() == samples@.to_multiset()
            &&& s.len() == samples.len()
            &&& r.min_ns == s[0]
            &&& r.median_ns == s[(s.len() / 2) as int]
            &&& r.mean_ns == sample_sum(s) / (s.len() as int)
            &&& r.p95_ns == s[p95_position(s.len())]
            &&& r.max_ns == s[s.len() - 1]
        },
{
    let mut samples = samples;
    sort_samples(&mut samples);
    let len = samples.len();
    let mut sum: u128 = 0;
    let mut i: usize = 0;
    while i < len
        invariant
            len == samples.len(),
            i <= len,
            sum == sample_sum(samples@.subrange(0, i as int)),
            sum <= i * 18446744073709551615,
        decreases len - i,
    {
        assert(samples@.subrange(0, i + 1).drop_last() =~= samples@.subrange(0, i as int));
        proof {
            assert(i * 18446744073709551615 + 18446744073709551615 == (i + 1) * 18446744073709551615) by (nonlinear_arith);
            assert((i + 1) * 18446744073709551615 <= 18446744073709551615 * 18446744073709551615) by (nonlinear_arith)
                requires
                    i + 1 <= 18446744073709551615,
            ;
        }
        sum = sum + samples[i] as u128;
        i = i + 1;
    }
    assert(samples@.subrange(0, len as int) =~= samples@);
    proof {
        lemma_mean_bounded(samples@);
    }
    let mean = sum / (len as u128);
    let scaled = len * 95;
    let ceiling = scaled / 100 + if scaled % 100 == 0 {
        0
    } else {
        1
    };
    let p95_index = if ceiling == 0 {
        0
    } else {
        ceiling - 1
    };
    assert(p95_index == p95_position(len as nat) && p95_index < len) by {
        assert((len * 95 + 99) / 100 == scaled / 100 + if scaled % 100 == 0 {
            0int
        } else {
            1int
        }) by (nonlinear_arith)
            requires
                scaled == len * 95,
        ;
        assert(scaled / 100 < len) by (nonlinear_arith)
            requires
                scaled == len * 95,
                len > 0,
        ;
    }
    BenchmarkStats {
        min_ns: samples[0],
        median_ns: samples[len / 2],
        mean_ns: mean as u64,
        p95_ns: samples[p95_index],
        max_ns: samples[len - 1],
    }
}

/// The mean of samples is at most their largest.
proof fn lemma_mean_bounded(s: Seq<u64>)
    requires
        s.len() > 0,
        ascending(s),
    ensures
        0 <= sample_sum(s) <= s.len() * s[s.len() - 1],
        sample_sum(s) / (s.len() as int) <= s[s.len() - 1],
    decreases s.len(),
{
    let n = s.len() as int;
    let top = s[n - 1] as int;
    if n > 1 {
        let t = s.drop_last();
        assert(ascending(t));
        lemma_mean_bounded(t);
        assert(t[n - 2] <= s[n - 1]);
        assert(sample_sum(t) <= (n - 1) * top) by (nonlinear_arith)
            requires
                sample_sum(t) <= (n - 1) * (t[n - 2] as int),
                t[n - 2] as int <= top,
                n > 1,
        ;
    }
    let rest = sample_sum(s.drop_last());
    assert(sample_sum(s) == rest + top);
    if n == 1 {
        assert(s.drop_last().len() == 0);
        assert(rest == 0);
    }
    assert(rest <= (n - 1) * top);
    assert(sample_sum(s) <= n * top) by (nonlinear_arith)
        requires
            sample_sum(s) == rest + top,
            rest <= (n - 1) * top,
    ;
    assert(sample_sum(s) / n <= top) by (nonlinear_arith)
        requires
            0 <= sample_sum(s) <= n * top,
            n > 0,
    ;
}

} // verus!
