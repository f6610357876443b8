//! Aggregation of repeated millisecond samples into summary statistics.
//!
//! Derived quantities (mean, median, standard deviation) are held in
//! thousandths of a millisecond, so a mean of `110` ms is stored as
//! `110_000`.  Every field is pinned by an exact integer specification:
//! the mean is the floored fixed-point quotient, the median and the 95th
//! percentile index are taken from the sorted permutation of the samples,
//! and the standard deviation is the floored square root of the scaled
//! population variance `(n·Σx² − (Σx)²) / n²`.

use vstd::prelude::*;

verus! {

use vstd::multiset::Multiset;
use vstd::seq_lib::lemma_sorted_unique;
use vstd::seq_lib::lemma_multiset_commutative;
use vstd::relations::{total_ordering, sorted_by};

/// Largest accepted single sample, in milliseconds.
pub const MAX_SAMPLE_MS: u64 = 1_000_000_000;

/// Largest accepted number of samples.
pub const MAX_SAMPLES: usize = 1_000_000;

/// The ordering under which samples are sorted.
pub open spec fn le_f() -> spec_fn(u64, u64) -> bool {
    |a: u64, b: u64| a <= b
}

/// The sorted permutation of a sample sequence.
pub open spec fn sorted_of(s: Seq<u64>) -> Seq<u64> {
    s.sort_by(le_f())
}

/// Sum of the samples.
pub open spec fn sum_of(s: Seq<u64>) -> int
    decreases s.len(),
{
    if s.len() == 0 {
        0
    } else {
        sum_of(s.drop_last()) + s.last()
    }
}

/// Sum of the squared samples.
pub open spec fn sum_sq_of(s: Seq<u64>) -> int
    decreases s.len(),
{
    if s.len() == 0 {
        0
    } else {
        sum_sq_of(s.drop_last()) + s.last() * s.last()
    }
}

/// Least sample; meaningful only for a non-empty sequence.
pub open spec fn min_of(s: Seq<u64>) -> int
    decreases s.len(),
{
    if s.len() == 0 {
        0
    } else if s.len() == 1 {
        s.last() as int
    } else {
        let m = min_of(s.drop_last());
        if s.last() < m {
            s.last() as int
        } else {
            m
        }
    }
}

/// Greatest sample; meaningful only for a non-empty sequence.
pub open spec fn max_of(s: Seq<u64>) -> int
    decreases s.len(),
{
    if s.len() == 0 {
        0
    } else if s.len() == 1 {
        s.last() as int
    } else {
        let m = max_of(s.drop_last());
        if s.last() > m {
            s.last() as int
        } else {
            m
        }
    }
}

/// The floored square root of a non-negative value.
pub open spec fn sqrt_floor(v: int) -> int {
    choose|r: int| 0 <= r && #[trigger] (r * r) <= v < (r + 1) * (r + 1)
}

/// Scaled population variance: `10^6 · (n·Σx² − (Σx)²) / n²`, floored.
pub open spec fn variance_scaled(s: Seq<u64>) -> int {
    (1000000 * ((s.len() as int) * sum_sq_of(s) - sum_of(s) * sum_of(s))) / ((s.len() as int) * (
    s.len() as int))
}

/// The zero-based index of the 95th percentile in the sorted samples:
/// `clamp(ceil(0.95·n) − 1, 0, n−1)`.
pub open spec fn p95_index(n: nat) -> nat {
    let c = (19 * n + 19) / 20;
    let i = if c >= 1 {
        (c - 1) as nat
    } else {
        0
    };
    if i <= n - 1 {
        i
    } else {
        (n - 1) as nat
    }
}

/// Median of the sorted samples in thousandths: the average of the two
/// middle elements for an even count, the middle element otherwise.
pub open spec fn median_thousandths(s: Seq<u64>) -> int {
    let t = sorted_of(s);
    let n = s.len();
    if n % 2 == 0 {
        (t[n as int / 2 - 1] + t[n as int / 2]) * 500
    } else {
        t[n as int / 2] * 1000
    }
}

/// Timing statistics for one benchmark phase.  All `*_ms` fields are in
/// thousandths of a millisecond.
#[derive(Debug, Clone, PartialEq, Eq, Structural)]
pub struct TimingStat {
    pub iterations: u32,
    pub mean_ms: u64,
    pub median_ms: Option<u64>,
    pub stddev_ms: Option<u64>,
    pub min_ms: u64,
    pub max_ms: u64,
    pub p95_ms: Option<u64>,
}

/// What `TimingStat::from_samples` returns for a sample sequence.
pub open spec fn stat_of(s: Seq<u64>) -> TimingStat {
    if s.len() == 0 {
        TimingStat {
            iterations: 0,
            mean_ms: 0,
            median_ms: None,
            stddev_ms: None,
            min_ms: 0,
            max_ms: 0,
            p95_ms: None,
        }
    } else {
        TimingStat {
            iterations: s.len() as u32,
            mean_ms: ((sum_of(s) * 1000) / s.len() as int) as u64,
            median_ms: Some(median_thousandths(s) as u64),
            stddev_ms: Some(sqrt_floor(variance_scaled(s)) as u64),
            min_ms: (min_of(s) * 1000) as u64,
            max_ms: (max_of(s) * 1000) as u64,
            p95_ms: Some((sorted_of(s)[p95_index(s.len()) as int] * 1000) as u64),
        }
    }
}

/// A sample sequence whose length and elements are within the accepted bounds.
pub open spec fn samples_ok(s: Seq<u64>) -> bool {
    &&& s.len() <= MAX_SAMPLES
    &&& forall|i: int| 0 <= i < s.len() ==> s[i] <= MAX_SAMPLE_MS
}

/// `le_f` is a total ordering on `u64`.
pub proof fn lemma_le_total()
    ensures
        total_ordering(le_f()),
{
    assert(total_ordering(le_f())) by {
        let leq = le_f();
        assert forall|x: u64| #[trigger] leq(x, x) by {}
    }
}

/// For a single sample, every summary statistic is that sample in
/// thousandths.
pub proof fn lemma_stat_of_single(s: Seq<u64>)
    requires
        s.len() == 1,
        s[0] <= MAX_SAMPLE_MS,
    ensures
        stat_of(s).iterations == 1,
        stat_of(s).mean_ms == s[0] * 1000,
        stat_of(s).min_ms == stat_of(s).mean_ms,
        stat_of(s).max_ms == stat_of(s).mean_ms,
        stat_of(s).median_ms == Some(stat_of(s).mean_ms),
        stat_of(s).p95_ms == Some(stat_of(s).mean_ms),
{
    lemma_le_total();
    s.lemma_sort_by_ensures(le_f());
    lemma_sorted_unique(s, s.sort_by(le_f()), le_f());
    assert(sorted_of(s) == s);
    let e = Seq::<u64>::empty();
    assert(s.drop_last() =~= e);
    assert(sum_of(e) == 0);
    assert(sum_of(s) == sum_of(s.drop_last()) + s.last());
    assert(s.last() == s[0]);
    assert(sum_of(s) == s[0]);
    assert(min_of(s) == s[0] && max_of(s) == s[0]);
    assert(p95_index(1) == 0);
    assert((sum_of(s) * 1000) / 1int == s[0] * 1000);
}

/// The sum of squared deviations of the elements of `s` from `x`.
spec fn sum_dev_sq(s: Seq<u64>, x: int) -> int
    decreases s.len(),
{
    if s.len() == 0 {
        0
    } else {
        sum_dev_sq(s.drop_last(), x) + (x - s.last()) * (x - s.last())
    }
}

proof fn lemma_sum_dev_sq_expand(s: Seq<u64>, x: int)
    ensures
        sum_dev_sq(s, x) == s.len() * x * x - 2 * sum_of(s) * x + sum_sq_of(s),
    decreases s.len(),
{
    if s.len() == 0 {
    } else {
        let t = s.drop_last();
        let y = s.last() as int;
        lemma_sum_dev_sq_expand(t, x);
        assert(sum_dev_sq(s, x) == s.len() * x * x - 2 * sum_of(s) * x + sum_sq_of(s)) by {
            assert(sum_dev_sq(s, x) == sum_dev_sq(t, x) + (x - y) * (x - y));
            assert(sum_dev_sq(t, x) == t.len() * x * x - 2 * sum_of(t) * x + sum_sq_of(t));
            assert(sum_of(s) == sum_of(t) + y);
            assert(sum_sq_of(s) == sum_sq_of(t) + y * y);
            assert(s.len() == t.len() + 1);
            assert((t.len() * x * x - 2 * sum_of(t) * x + sum_sq_of(t)) + (x - y) * (x - y) == (
            t.len() + 1) * x * x - 2 * (sum_of(t) + y) * x + (sum_sq_of(t) + y * y))
                by (nonlinear_arith);
        }
    }
}

proof fn lemma_sum_dev_sq_nonneg(s: Seq<u64>, x: int)
    ensures
        sum_dev_sq(s, x) >= 0,
    decreases s.len(),
{
    if s.len() == 0 {
    } else {
        lemma_sum_dev_sq_nonneg(s.drop_last(), x);
        let y = s.last() as int;
        assert((x - y) * (x - y) >= 0) by (nonlinear_arith);
    }
}

/// Cauchy–Schwarz style bound making the variance numerator non-negative.
pub proof fn lemma_variance_numerator_nonneg(s: Seq<u64>)
    ensures
        s.len() * sum_sq_of(s) - sum_of(s) * sum_of(s) >= 0,
    decreases s.len(),
{
    if s.len() == 0 {
    } else {
        let t = s.drop_last();
        let y = s.last() as int;
        lemma_variance_numerator_nonneg(t);
        lemma_sum_dev_sq_expand(t, y);
        lemma_sum_dev_sq_nonneg(t, y);
        assert(s.len() * sum_sq_of(s) - sum_of(s) * sum_of(s) == (t.len() * sum_sq_of(t) - sum_of(
        t) * sum_of(t)) + (t.len() * y * y - 2 * sum_of(t) * y + sum_sq_of(t))) by {
            assert(sum_of(s) == sum_of(t) + y);
            assert(sum_sq_of(s) == sum_sq_of(t) + y * y);
            assert(s.len() == t.len() + 1);
            assert((t.len() + 1) * (sum_sq_of(t) + y * y) - (sum_of(t) + y) * (sum_of(t) + y) == (
            t.len() * sum_sq_of(t) - sum_of(t) * sum_of(t)) + (t.len() * y * y - 2 * sum_of(t) * y
                + sum_sq_of(t))) by (nonlinear_arith);
        }
    }
}

/// Bounds on the fold functions when every sample is bounded.
pub proof fn lemma_fold_bounds(s: Seq<u64>)
    requires
        forall|i: int| 0 <= i < s.len() ==> s[i] <= MAX_SAMPLE_MS,
    ensures
        0 <= sum_of(s) <= s.len() * (MAX_SAMPLE_MS as int),
        0 <= sum_sq_of(s) <= s.len() * (MAX_SAMPLE_MS as int) * (MAX_SAMPLE_MS as int),
    decreases s.len(),
{
    if s.len() == 0 {
    } else {
        let t = s.drop_last();
        assert(forall|i: int| 0 <= i < t.len() ==> t[i] <= MAX_SAMPLE_MS);
        lemma_fold_bounds(t);
        let y = s.last() as int;
        assert(y <= MAX_SAMPLE_MS);
        assert(y * y <= (MAX_SAMPLE_MS as int) * (MAX_SAMPLE_MS as int)) by (nonlinear_arith)
            requires
                0 <= y <= MAX_SAMPLE_MS,
        ;
        assert(t.len() * (MAX_SAMPLE_MS as int) + MAX_SAMPLE_MS == s.len() * (
        MAX_SAMPLE_MS as int)) by (nonlinear_arith)
            requires
                s.len() == t.len() + 1,
        ;
        assert(t.len() * (MAX_SAMPLE_MS as int) * (MAX_SAMPLE_MS as int) + (
        MAX_SAMPLE_MS as int) * (MAX_SAMPLE_MS as int) == s.len() * (MAX_SAMPLE_MS as int) * (
        MAX_SAMPLE_MS as int)) by (nonlinear_arith)
            requires
                s.len() == t.len() + 1,
        ;
    }
}

/// Floored integer square root by binary search.
fn isqrt(v: u128) -> (r: u128)
    requires
        v < 1000000000000000000000000000000000000000,
    ensures
        r * r <= v,
        v < (r + 1) * (r + 1),
{
    if v == 0 {
        return 0;
    }
    let mut lo: u128 = 0;
    let mut hi: u128 = 0x1000000000000000000000000;  // 2^96
    proof {
        assert(0x1000000000000000000000000u128 * 0x1000000000000000000000000u128
            > 1000000000000000000000000000000000000000) by (nonlinear_arith);
    }
    while lo + 1 < hi
        invariant
            lo < hi,
            hi <= 0x1000000000000000000000000,
            lo * lo <= v,
            v < hi * hi,
        decreases hi - lo,
    {
        let mid = lo + (hi - lo) / 2;
        proof {
            assert(lo < mid < hi);
        }
        let q = v / mid;
        if q >= mid {
            proof {
                assert((mid as int) * (mid as int) <= v as int) by (nonlinear_arith)
                    requires
                        mid >= 1,
                        (q as int) == (v as int) / (mid as int),
                        (q as int) >= (mid as int),
                        v >= 0,
                ;
            }
            lo = mid;
        } else {
            proof {
                assert((v as int) < (mid as int) * (mid as int)) by (nonlinear_arith)
                    requires
                        mid >= 1,
                        (q as int) == (v as int) / (mid as int),
                        (q as int) < (mid as int),
                        v >= 0,
                ;
            }
            hi = mid;
        }
    }
    lo
}

/// The floored square root is unique, so the exec result equals `sqrt_floor`.
proof fn lemma_sqrt_floor_eq(v: int, r: int)
    requires
        0 <= r,
        r * r <= v,
        v < (r + 1) * (r + 1),
    ensures
        sqrt_floor(v) == r,
{
    assert(exists|q: int| 0 <= q && #[trigger] (q * q) <= v < (q + 1) * (q + 1)) by {
        assert(0 <= r && r * r <= v < (r + 1) * (r + 1));
    }
    let q = sqrt_floor(v);
    assert(0 <= q && q * q <= v < (q + 1) * (q + 1));
    assert(q == r) by (nonlinear_arith)
        requires
            0 <= r,
            0 <= q,
            r * r <= v < (r + 1) * (r + 1),
            q * q <= v < (q + 1) * (q + 1),
    ;
}

/// Inserts `x` into the sorted vector `out`, keeping it sorted.
fn insert_sorted(out: &Vec<u64>, x: u64) -> (r: Vec<u64>)
    requires
        sorted_by(out@, le_f()),
    ensures
        sorted_by(r@, le_f()),
        r@.to_multiset() == out@.to_multiset().insert(x),
{
    let mut idx: usize = 0;
    while idx < out.len() && out[idx] <= x
        invariant
            idx <= out.len(),
            forall|k: int| 0 <= k < idx ==> out@[k] <= x,
        decreases out.len() - idx,
    {
        idx = idx + 1;
    }
    let mut r: Vec<u64> = Vec::new();
    let mut i: usize = 0;
    while i < idx
        invariant
            idx <= out.len(),
            i <= idx,
            r@ == out@.subrange(0, i as int),
        decreases idx - i,
    {
        let v = out[i];
        r.push(v);
        proof {
            assert(r@ =~= out@.subrange(0, i + 1 as int));
        }
        i = i + 1;
    }
    r.push(x);
    let mut j: usize = idx;
    while j < out.len()
        invariant
            idx <= j <= out.len(),
            r@ == out@.subrange(0, idx as int) + seq![x] + out@.subrange(idx as int, j as int),
        decreases out.len() - j,
    {
        let v = out[j];
        r.push(v);
        proof {
            assert(r@ =~= out@.subrange(0, idx as int) + seq![x] + out@.subrange(
                idx as int,
                j + 1 as int,
            ));
        }
        j = j + 1;
    }
    proof {
        let a = out@.subrange(0, idx as int);
        let b = out@.subrange(idx as int, out@.len() as int);
        assert(out@ =~= a + b);
        assert(r@ =~= a + seq![x] + b);
        // multiset equality
        broadcast use vstd::seq_lib::group_to_multiset_ensures;

        lemma_multiset_commutative(a + seq![x], b);
        lemma_multiset_commutative(a, seq![x]);
        lemma_multiset_commutative(a, b);
        assert(seq![x].to_multiset() =~= Multiset::empty().insert(x)) by {
            assert(seq![x].drop_last() =~= Seq::<u64>::empty());
        }
        assert(r@.to_multiset() =~= out@.to_multiset().insert(x));
        // sortedness
        let leq = le_f();
        assert forall|p: int, q: int| 0 <= p < q < r@.len() implies leq(r@[p], r@[q]) by {
            if q < idx {
                assert(leq(out@[p], out@[q]));
            } else if q == idx {
                assert(out@[p] <= x);
            } else if p >= idx + 1 {
                if p - 1 < q - 1 {
                    assert(leq(out@[p - 1], out@[q - 1]));
                }
            } else {
                // p <= idx < q: r[q] == out[q - 1] with q - 1 >= idx
                assert(r@[q] == out@[q - 1]);
                if q - 1 == idx {
                    assert(!(out@[idx as int] <= x));
                } else {
                    assert(!(out@[idx as int] <= x));
                    assert(leq(out@[idx as int], out@[q - 1]));
                }
                if p < idx {
                    assert(out@[p] <= x);
                }
            }
        }
    }
    r
}

/// Sorts the samples; the result is exactly the specification-level sorted
/// permutation.
fn sort_samples(samples: &Vec<u64>) -> (r: Vec<u64>)
    ensures
        r@ == sorted_of(samples@),
        r@.len() == samples@.len(),
        r@.to_multiset() == samples@.to_multiset(),
{
    let mut r: Vec<u64> = Vec::new();
    let mut i: usize = 0;
    proof {
        broadcast use vstd::seq_lib::group_to_multiset_ensures;

        assert(samples@.subrange(0, 0).to_multiset() =~= r@.to_multiset()) by {
            assert(samples@.subrange(0, 0) =~= Seq::<u64>::empty());
            assert(r@ =~= Seq::<u64>::empty());
        }
    }
    while i < samples.len()
        invariant
            i <= samples.len(),
            sorted_by(r@, le_f()),
            r@.to_multiset() == samples@.subrange(0, i as int).to_multiset(),
        decreases samples.len() - i,
    {
        let x = samples[i];
        let r2 = insert_sorted(&r, x);
        proof {
            broadcast use vstd::seq_lib::group_to_multiset_ensures;

            let pre = samples@.subrange(0, i as int);
            let post = samples@.subrange(0, i + 1 as int);
            assert(post =~= pre.push(samples@[i as int]));
            assert(post.to_multiset() =~= pre.to_multiset().insert(x));
        }
        r = r2;
        i = i + 1;
    }
    proof {
        assert(samples@.subrange(0, samples@.len() as int) =~= samples@);
        lemma_le_total();
        samples@.lemma_sort_by_ensures(le_f());
        lemma_sorted_unique(r@, sorted_of(samples@), le_f());
        broadcast use vstd::seq_lib::group_to_multiset_ensures;

        assert(r@.len() == r@.to_multiset().len());
        assert(samples@.len() == samples@.to_multiset().len());
    }
    r
}

impl TimingStat {
    /// Reduces a sequence of millisecond samples into summary statistics.
    /// An empty sequence yields the zeroed statistic with every optional
    /// field absent.
    pub fn from_samples(samples: &Vec<u64>) -> (r: TimingStat)
        requires
            samples_ok(samples@),
        ensures
            r == stat_of(samples@),
    {
        let n = samples.len();
        if n == 0 {
            return TimingStat {
                iterations: 0,
                mean_ms: 0,
                median_ms: None,
                stddev_ms: None,
                min_ms: 0,
                max_ms: 0,
                p95_ms: None,
            };
        }
        let mut sum: u128 = 0;
        let mut sumsq: u128 = 0;
        let mut mn: u64 = samples[0];
        let mut mx: u64 = samples[0];
        let mut i: usize = 0;
        proof {
            assert(samples@.subrange(0, 0) =~= Seq::<u64>::empty());
        }
        while i < n
            invariant
                samples_ok(samples@),
                n == samples@.len(),
                1 <= n,
                i <= n,
                sum == sum_of(samples@.subrange(0, i as int)),
                sumsq == sum_sq_of(samples@.subrange(0, i as int)),
                i == 0 ==> mn == samples@[0] && mx == samples@[0],
                i >= 1 ==> mn == min_of(samples@.subrange(0, i as int)),
                i >= 1 ==> mx == max_of(samples@.subrange(0, i as int)),
                mn <= MAX_SAMPLE_MS,
                mx <= MAX_SAMPLE_MS,
            decreases n - i,
        {
            let x = samples[i];
            proof {
                let pre = samples@.subrange(0, i as int);
                let post = samples@.subrange(0, i + 1 as int);
                assert(post.drop_last() =~= pre);
                assert(post.last() == samples@[i as int]);
                lemma_fold_bounds(pre);
                assert(x * x <= (MAX_SAMPLE_MS as int) * (MAX_SAMPLE_MS as int))
                    by (nonlinear_arith)
                    requires
                        0 <= x <= MAX_SAMPLE_MS,
                ;
                assert(pre.len() * (MAX_SAMPLE_MS as int) <= (MAX_SAMPLES as int) * (
                MAX_SAMPLE_MS as int)) by (nonlinear_arith)
                    requires
                        pre.len() <= MAX_SAMPLES,
                ;
                assert(pre.len() * (MAX_SAMPLE_MS as int) * (MAX_SAMPLE_MS as int) <= (
                MAX_SAMPLES as int) * (MAX_SAMPLE_MS as int) * (MAX_SAMPLE_MS as int))
                    by (nonlinear_arith)
                    requires
                        pre.len() <= MAX_SAMPLES,
                ;
            }
            sum = sum + (x as u128);
            sumsq = sumsq + (x as u128) * (x as u128);
            if i == 0 {
                mn = x;
                mx = x;
            } else {
                if x < mn {
                    mn = x;
                }
                if x > mx {
                    mx = x;
                }
            }
            i = i + 1;
        }
        proof {
            assert(samples@.subrange(0, n as int) =~= samples@);
            lemma_fold_bounds(samples@);
            assert(samples@.len() * (MAX_SAMPLE_MS as int) <= (MAX_SAMPLES as int) * (
            MAX_SAMPLE_MS as int)) by (nonlinear_arith)
                requires
                    samples@.len() <= MAX_SAMPLES,
            ;
            assert(samples@.len() * (MAX_SAMPLE_MS as int) * (MAX_SAMPLE_MS as int) <= (
            MAX_SAMPLES as int) * (MAX_SAMPLE_MS as int) * (MAX_SAMPLE_MS as int))
                by (nonlinear_arith)
                requires
                    samples@.len() <= MAX_SAMPLES,
            ;
        }
        let mean_wide: u128 = (sum * 1000) / (n as u128);
        proof {
            assert(mean_wide as int == (sum_of(samples@) * 1000) / (n as int)) by {
                assert((sum as int) * 1000 == sum_of(samples@) * 1000);
            }
            assert((sum_of(samples@) * 1000) / (n as int) <= sum_of(samples@) * 1000) by (
            nonlinear_arith)
                requires
                    n >= 1,
                    sum_of(samples@) >= 0,
            ;
        }
        let mean: u64 = mean_wide as u64;
        // variance
        proof {
            lemma_variance_numerator_nonneg(samples@);
            assert((n as u128) * sumsq >= sum * sum) by {
                assert((n as int) * sum_sq_of(samples@) - sum_of(samples@) * sum_of(samples@)
                    >= 0);
            }
            assert((n as int) * sum_sq_of(samples@) <= (MAX_SAMPLES as int) * ((MAX_SAMPLES as int)
                * (MAX_SAMPLE_MS as int) * (MAX_SAMPLE_MS as int))) by (nonlinear_arith)
                requires
                    0 <= sum_sq_of(samples@) <= (MAX_SAMPLES as int) * (MAX_SAMPLE_MS as int) * (
                    MAX_SAMPLE_MS as int),
                    1 <= (n as int) <= MAX_SAMPLES,
            ;
            assert(1000000 * ((n as int) * sum_sq_of(samples@) - sum_of(samples@) * sum_of(
            samples@)) <= 1000000 * ((MAX_SAMPLES as int) * ((MAX_SAMPLES as int) * (
            MAX_SAMPLE_MS as int) * (MAX_SAMPLE_MS as int)))) by (nonlinear_arith)
                requires
                    0 <= (n as int) * sum_sq_of(samples@) - sum_of(samples@) * sum_of(samples@) <= (
                    MAX_SAMPLES as int) * ((MAX_SAMPLES as int) * (MAX_SAMPLE_MS as int) * (
                    MAX_SAMPLE_MS as int)),
            ;
            assert(1000000 * ((MAX_SAMPLES as int) * ((MAX_SAMPLES as int) * (MAX_SAMPLE_MS as int)
                * (MAX_SAMPLE_MS as int))) < 1000000000000000000000000000000000000000)
                by (nonlinear_arith);
        }
        proof {
            assert((n as int) * (n as int) <= 1000000000000) by (nonlinear_arith)
                requires
                    1 <= (n as int) <= 1000000,
            ;
            assert((sum as int) * (sum as int) <= (n as int) * (sumsq as int));
        }
        let num: u128 = 1000000u128 * ((n as u128) * sumsq - sum * sum);
        let den: u128 = (n as u128) * (n as u128);
        proof {
            assert(den >= 1) by (nonlinear_arith)
                requires
                    den == (n as int) * (n as int),
                    n >= 1,
            ;
        }
        let vs: u128 = num / den;
        proof {
            assert(num == 1000000 * ((n as int) * sum_sq_of(samples@) - sum_of(samples@) * sum_of(
            samples@)));
            assert(den == (n as int) * (n as int));
            assert(vs == variance_scaled(samples@));
            assert(vs <= num) by (nonlinear_arith)
                requires
                    den >= 1,
                    num >= 0,
                    vs == num / den,
            ;
        }
        let sd: u128 = isqrt(vs);
        proof {
            lemma_sqrt_floor_eq(vs as int, sd as int);
            assert(sd * sd <= vs);
            assert(sd < 0x10000000000000000) by (nonlinear_arith)
                requires
                    sd * sd <= vs,
                    vs < 1000000000000000000000000000000000000000,
                    0 <= sd,
            ;
        }
        let stddev: u64 = sd as u64;
        // sorted order statistics
        let sorted = sort_samples(samples);
        proof {
            broadcast use vstd::seq_lib::group_to_multiset_ensures;

            assert forall|k: int| 0 <= k < sorted@.len() implies sorted@[k] <= MAX_SAMPLE_MS by {
                assert(sorted@.contains(sorted@[k]));
                assert(sorted@.to_multiset().count(sorted@[k]) > 0);
                assert(samples@.to_multiset().count(sorted@[k]) > 0);
                assert(samples@.contains(sorted@[k]));
                let w = choose|w: int| 0 <= w < samples@.len() && samples@[w] == sorted@[k];
                assert(samples@[w] <= MAX_SAMPLE_MS);
            }
        }
        let median: u64 = if n % 2 == 0 {
            (sorted[n / 2 - 1] + sorted[n / 2]) * 500
        } else {
            sorted[n / 2] * 1000
        };
        let p95_idx_raw: usize = (19 * n + 19) / 20;
        let p95_idx: usize = if p95_idx_raw >= 1 {
            if p95_idx_raw - 1 <= n - 1 {
                p95_idx_raw - 1
            } else {
                n - 1
            }
        } else {
            0
        };
        proof {
            assert(p95_idx == p95_index(n as nat));
            assert(p95_index(n as nat) < n as nat);
        }
        let p95: u64 = sorted[p95_idx] * 1000;
        TimingStat {
            iterations: n as u32,
            mean_ms: mean,
            median_ms: Some(median),
            stddev_ms: Some(stddev),
            min_ms: mn * 1000,
            max_ms: mx * 1000,
            p95_ms: Some(p95),
        }
    }
}

} // verus!
