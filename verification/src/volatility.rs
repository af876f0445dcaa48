//! Realized volatility from the return ring: standard deviation, the running
//! exponentially weighted variance, and the median absolute deviation.

use vstd::prelude::*;
use vstd::relations::{sorted_by, total_ordering};
use vstd::seq_lib::{lemma_sorted_unique, to_multiset_update};
use crate::errors::ErrorCode;
use crate::fixed_point::{
    abs_diff, floor_sqrt, fp_to_bps, isqrt_u128, min_int, std_to_bps, trunc_div,
};

verus! {

/// The estimator that turns returns into a realized volatility.
#[derive(Clone, Copy, Debug, PartialEq, Eq, Hash)]
pub enum VolMode {
    /// Population standard deviation over the whole ring.
    Stdev,
    /// Square root of the running exponentially weighted variance.
    Ewma,
    /// Median absolute deviation, scaled to a standard deviation.
    Mad,
}

impl VolMode {
    /// The number that stands for the mode in parameters and events.
    pub open spec fn spec_code(self) -> u8 {
        match self {
            VolMode::Stdev => 0,
            VolMode::Ewma => 1,
            VolMode::Mad => 2,
        }
    }

    /// The number that stands for the mode in parameters and events.
    #[verifier::when_used_as_spec(spec_code)]
    pub fn code(self) -> (c: u8)
        ensures
            c == self.spec_code(),
    {
        match self {
            VolMode::Stdev => 0,
            VolMode::Ewma => 1,
            VolMode::Mad => 2,
        }
    }

    /// The mode a number stands for, if any.
    pub open spec fn spec_from_code(c: u8) -> Option<VolMode> {
        if c == 0 {
            Some(VolMode::Stdev)
        } else if c == 1 {
            Some(VolMode::Ewma)
        } else if c == 2 {
            Some(VolMode::Mad)
        } else {
            None
        }
    }

    /// The mode a number stands for, if any.
    #[verifier::when_used_as_spec(spec_from_code)]
    pub fn from_code(c: u8) -> (m: Option<VolMode>)
        ensures
            m == VolMode::spec_from_code(c),
    {
        if c == 0 {
            Some(VolMode::Stdev)
        } else if c == 1 {
            Some(VolMode::Ewma)
        } else if c == 2 {
            Some(VolMode::Mad)
        } else {
            None
        }
    }
}

/// The order of return samples.
pub open spec fn leq_i32() -> spec_fn(i32, i32) -> bool {
    |a: i32, b: i32| a <= b
}

/// The samples in ascending order.
pub open spec fn ascending(s: Seq<i32>) -> Seq<i32> {
    s.sort_by(leq_i32())
}

/// The median of an even number of samples: the mean of the two middle ones
/// in ascending order, rounded toward zero.
pub open spec fn median_of(s: Seq<i32>) -> int {
    trunc_div(ascending(s)[(s.len() as int) / 2 - 1] + ascending(s)[(s.len() as int) / 2], 2)
}

/// The sum of the samples.
pub open spec fn sum_of(s: Seq<i32>) -> int
    decreases s.len(),
{
    if s.len() == 0 {
        0
    } else {
        sum_of(s.drop_last()) + s.last()
    }
}

/// The mean of the samples, rounded toward zero.
pub open spec fn mean_of(s: Seq<i32>) -> int {
    trunc_div(sum_of(s), s.len() as int)
}

/// The sum of the squared distances of the samples from `center`.
pub open spec fn sum_sq_dev(s: Seq<i32>, center: int) -> int
    decreases s.len(),
{
    if s.len() == 0 {
        0
    } else {
        sum_sq_dev(s.drop_last(), center) + (s.last() - center) * (s.last() - center)
    }
}

/// Population variance of the samples around their mean, capped.
pub open spec fn variance_of(s: Seq<i32>) -> int {
    min_int(sum_sq_dev(s, mean_of(s)) / (s.len() as int), 10_000_000_000_000_000)
}

/// Standard-deviation estimate of the volatility, in basis points.
pub open spec fn stdev_bps(s: Seq<i32>) -> int {
    std_to_bps(floor_sqrt(variance_of(s) as nat) as int)
}

/// The distance of each sample from `center`, limited to 31 bits.
pub open spec fn abs_devs(s: Seq<i32>, center: int) -> Seq<i32> {
    Seq::new(s.len(), |i: int| min_int(abs_diff(s[i] as int, center), i32::MAX as int) as i32)
}

/// The median absolute deviation of the samples from their median.
pub open spec fn mad_of(s: Seq<i32>) -> int {
    median_of(abs_devs(s, median_of(s)))
}

/// Robust estimate of the volatility, in basis points: the median absolute
/// deviation times 1.4826, the factor that makes it a standard deviation
/// under a normal law.
pub open spec fn mad_bps(s: Seq<i32>) -> int {
    std_to_bps(mad_of(s) * 14826 / 10000)
}

/// Running-variance estimate of the volatility, in basis points.
pub open spec fn ewma_bps(ewma_var_fp2: int) -> int {
    std_to_bps(floor_sqrt(min_int(ewma_var_fp2, 10_000_000_000_000_000) as nat) as int)
}

/// The realized volatility that the selected mode gives, in basis points.
pub open spec fn realized_vol_bps(mode: VolMode, s: Seq<i32>, ewma_var_fp2: int) -> int {
    match mode {
        VolMode::Stdev => stdev_bps(s),
        VolMode::Ewma => ewma_bps(ewma_var_fp2),
        VolMode::Mad => mad_bps(s),
    }
}

/// `<=` on samples is a total order.
pub proof fn lemma_leq_total()
    ensures
        total_ordering(leq_i32()),
{
    let leq = leq_i32();
    assert(forall|x: i32| #[trigger] leq(x, x));
    assert(forall|x: i32, y: i32| #[trigger] leq(x, y) && #[trigger] leq(y, x) ==> x == y);
    assert(forall|x: i32, y: i32, z: i32| #[trigger] leq(x, y) && #[trigger] leq(y, z) ==> leq(x, z));
    assert(forall|x: i32, y: i32| #[trigger] leq(x, y) || #[trigger] leq(y, x));
}

/// The ascending order of `s` is the one sorted sequence with the samples of `s`.
pub proof fn lemma_ascending_is(s: Seq<i32>, t: Seq<i32>)
    requires
        t.to_multiset() == s.to_multiset(),
        forall|a: int, b: int| 0 <= a < b < t.len() ==> t[a] <= t[b],
    ensures
        ascending(s) == t,
{
    lemma_leq_total();
    s.lemma_sort_by_ensures(leq_i32());
    assert(sorted_by(t, leq_i32())) by {
        assert forall|a: int, b: int| 0 <= a < b < t.len() implies #[trigger] leq_i32()(
            t[a],
            t[b],
        ) by {}
    }
    lemma_sorted_unique(ascending(s), t, leq_i32());
}

/// The ascending order keeps the length, is sorted, and holds only samples of `s`.
pub proof fn lemma_ascending_properties(s: Seq<i32>)
    ensures
        ascending(s).len() == s.len(),
        ascending(s).to_multiset() == s.to_multiset(),
        forall|a: int, b: int| 0 <= a < b < s.len() ==> ascending(s)[a] <= ascending(s)[b],
        forall|k: int| 0 <= k < s.len() ==> s.contains(#[trigger] ascending(s)[k]),
{
    broadcast use vstd::seq_lib::group_to_multiset_ensures;

    lemma_leq_total();
    s.lemma_sort_by_ensures(leq_i32());
    let t = ascending(s);
    assert(t.len() == s.len()) by {
        assert(t.to_multiset().len() == t.len());
        assert(s.to_multiset().len() == s.len());
    }
    assert forall|a: int, b: int| 0 <= a < b < s.len() implies t[a] <= t[b] by {
        assert(leq_i32()(t[a], t[b]));
    }
    assert forall|k: int| 0 <= k < s.len() implies s.contains(#[trigger] t[k]) by {
        assert(t.contains(t[k]));
    }
}

/// Exchanging two entries keeps the multiset of a sequence.
proof fn lemma_exchange_keeps_multiset(s: Seq<i32>, a: int, b: int)
    requires
        0 <= a < s.len(),
        0 <= b < s.len(),
    ensures
        s.update(a, s[b]).update(b, s[a]).to_multiset() == s.to_multiset(),
{
    broadcast use vstd::multiset::group_multiset_axioms;
    broadcast use vstd::seq_lib::group_to_multiset_ensures;

    let s1 = s.update(a, s[b]);
    to_multiset_update(s, a, s[b]);
    to_multiset_update(s1, b, s[a]);
    let m = s.to_multiset();
    assert(s.contains(s[a]) && s.contains(s[b]));
    assert(m.count(s[a]) > 0 && m.count(s[b]) > 0);
    assert(s1[b] == s[b]);
    assert(m.insert(s[b]).remove(s[a]).insert(s[a]).remove(s[b]) =~= m);
}

/// Sorts the samples in place, ascending, and returns their median.
pub fn median_i32(arr: &mut [i32; 32]) -> (med: i32)
    ensures
        final(arr)@ == ascending(old(arr)@),
        med == median_of(old(arr)@),
        final(arr)@[15] <= med <= final(arr)@[16] || final(arr)@[16] <= med <= final(arr)@[15],
        forall|k: int| 0 <= k < 32 ==> old(arr)@.contains(#[trigger] final(arr)@[k]),
{
    let ghost orig = arr@;
    let mut i: usize = 1;
    while i < 32
        invariant
            1 <= i <= 32,
            arr@.len() == 32,
            arr@.to_multiset() == orig.to_multiset(),
            forall|a: int, b: int| 0 <= a < b < i ==> arr@[a] <= arr@[b],
        decreases 32 - i,
    {
        let key = arr[i];
        let mut j: usize = i;
        assert(arr@.update(j as int, key) =~= arr@);
        while j > 0 && arr[j - 1] > key
            invariant
                0 <= j <= i < 32,
                arr@.len() == 32,
                arr@.update(j as int, key).to_multiset() == orig.to_multiset(),
                forall|a: int, b: int|
                    0 <= a < b <= i && a != j && b != j ==> arr@[a] <= arr@[b],
                forall|b: int| j < b <= i ==> arr@[b] > key,
            decreases j,
        {
            let ghost before = arr@;
            let ghost hole = before.update(j as int, key);
            arr[j] = arr[j - 1];
            proof {
                lemma_exchange_keeps_multiset(hole, j as int, j - 1);
                assert(arr@.update(j - 1, key) =~= hole.update(j as int, hole[j - 1]).update(
                    j - 1,
                    hole[j as int],
                ));
            }
            j = j - 1;
        }
        arr[j] = key;
        i = i + 1;
    }
    proof {
        lemma_ascending_is(orig, arr@);
        lemma_ascending_properties(orig);
    }
    let a = arr[15] as i64;
    let b = arr[16] as i64;
    ((a + b) / 2) as i32
}

/// The sum of a run of samples is bounded by its length.
proof fn lemma_sum_bounds(s: Seq<i32>)
    ensures
        -0x8000_0000 * s.len() <= sum_of(s) <= 0x7fff_ffff * s.len(),
    decreases s.len(),
{
    if s.len() > 0 {
        lemma_sum_bounds(s.drop_last());
    }
}

/// The squared deviations of 32-bit samples from a 33-bit center sum to at
/// most 2^66 per sample.
proof fn lemma_sum_sq_dev_bounds(s: Seq<i32>, center: int)
    requires
        -0x8000_0000 <= center <= 0x7fff_ffff,
    ensures
        0 <= sum_sq_dev(s, center) <= 0x1_0000_0000_0000_0000 * s.len(),
    decreases s.len(),
{
    if s.len() > 0 {
        lemma_sum_sq_dev_bounds(s.drop_last(), center);
        let d = s.last() - center;
        assert(0 <= d * d <= 0x1_0000_0000_0000_0000) by (nonlinear_arith)
            requires
                -0x1_0000_0000 <= d <= 0x1_0000_0000,
        ;
    }
}

/// Standard-deviation estimate over the whole ring, in basis points.
pub fn stdev_vol_bps(samples: &[i32; 32]) -> (r: Result<u16, ErrorCode>)
    ensures
        r == Ok::<u16, ErrorCode>(stdev_bps(samples@) as u16),
        0 <= stdev_bps(samples@) <= 10000,
{
    let mut sum: i64 = 0;
    let mut i: usize = 0;
    while i < 32
        invariant
            0 <= i <= 32,
            samples@.len() == 32,
            sum == sum_of(samples@.take(i as int)),
        decreases 32 - i,
    {
        proof {
            lemma_sum_bounds(samples@.take(i as int));
            assert(samples@.take(i + 1).drop_last() =~= samples@.take(i as int));
        }
        sum = sum + (samples[i] as i64);
        i = i + 1;
    }
    proof {
        assert(samples@.take(32) =~= samples@);
        lemma_sum_bounds(samples@);
    }
    let mean: i64 = sum / 32;
    let mut var_acc: u128 = 0;
    let mut k: usize = 0;
    while k < 32
        invariant
            0 <= k <= 32,
            samples@.len() == 32,
            -0x8000_0000 <= mean <= 0x7fff_ffff,
            var_acc == sum_sq_dev(samples@.take(k as int), mean as int),
        decreases 32 - k,
    {
        proof {
            lemma_sum_sq_dev_bounds(samples@.take(k as int), mean as int);
            assert(samples@.take(k + 1).drop_last() =~= samples@.take(k as int));
        }
        let dev: i64 = (samples[k] as i64) - mean;
        let dev_abs: u128 = if dev < 0 {
            (-dev) as u128
        } else {
            dev as u128
        };
        assert(dev_abs * dev_abs == dev * dev && dev_abs * dev_abs <= 0x1_0000_0000_0000_0000)
            by (nonlinear_arith)
            requires
                dev_abs == dev || dev_abs == -dev,
                0 <= dev_abs <= 0x1_0000_0000,
        ;
        var_acc = var_acc + dev_abs * dev_abs;
        k = k + 1;
    }
    proof {
        assert(samples@.take(32) =~= samples@);
    }
    let mut var: u128 = var_acc / 32;
    if var > 10_000_000_000_000_000 {
        var = 10_000_000_000_000_000;
    }
    let std_fp = isqrt_u128(var);
    assert(std_fp <= 10_000_000_000_000_000) by (nonlinear_arith)
        requires
            std_fp * std_fp <= var,
            var <= 10_000_000_000_000_000,
            0 <= std_fp,
    ;
    fp_to_bps(std_fp)
}

/// Median-absolute-deviation estimate over the whole ring, in basis points.
pub fn mad_vol_bps(samples: &[i32; 32]) -> (r: Result<u16, ErrorCode>)
    ensures
        r == Ok::<u16, ErrorCode>(mad_bps(samples@) as u16),
        0 <= mad_bps(samples@) <= 10000,
{
    let mut buf: [i32; 32] = *samples;
    let med = median_i32(&mut buf);
    let mut devs: [i32; 32] = [0i32; 32];
    let mut i: usize = 0;
    while i < 32
        invariant
            0 <= i <= 32,
            samples@.len() == 32,
            devs@.len() == 32,
            forall|k: int| 0 <= k < i ==> devs@[k] == abs_devs(samples@, med as int)[k],
        decreases 32 - i,
    {
        let d: i64 = (samples[i] as i64) - (med as i64);
        let a: i64 = if d < 0 {
            -d
        } else {
            d
        };
        let limited: i64 = if a > 0x7fff_ffff {
            0x7fff_ffff
        } else {
            a
        };
        devs[i] = limited as i32;
        i = i + 1;
    }
    proof {
        assert(devs@ =~= abs_devs(samples@, med as int));
    }
    let mut devs_copy: [i32; 32] = devs;
    let mad = median_i32(&mut devs_copy);
    proof {
        assert(devs@.contains(devs_copy@[15]));
        assert(devs@.contains(devs_copy@[16]));
    }
    let mad_fp: u128 = mad as u128;
    let mad_scaled: u128 = mad_fp * 14826 / 10000;
    fp_to_bps(mad_scaled)
}

/// The realized volatility of the selected mode, in basis points. The
/// running-variance mode reads only the variance, the other two only the ring.
pub fn compute_realized_vol_bps_mode(
    mode: VolMode,
    samples: &[i32; 32],
    ewma_var_fp2: u128,
) -> (r: Result<u16, ErrorCode>)
    ensures
        r == Ok::<u16, ErrorCode>(realized_vol_bps(mode, samples@, ewma_var_fp2 as int) as u16),
        0 <= realized_vol_bps(mode, samples@, ewma_var_fp2 as int) <= 10000,
{
    match mode {
        VolMode::Ewma => {
            let capped: u128 = if ewma_var_fp2 > 10_000_000_000_000_000 {
                10_000_000_000_000_000
            } else {
                ewma_var_fp2
            };
            let std_fp = isqrt_u128(capped);
            assert(std_fp <= 10_000_000_000_000_000) by (nonlinear_arith)
                requires
                    std_fp * std_fp <= capped,
                    capped <= 10_000_000_000_000_000,
                    0 <= std_fp,
            ;
            fp_to_bps(std_fp)
        },
        VolMode::Mad => mad_vol_bps(samples),
        VolMode::Stdev => stdev_vol_bps(samples),
    }
}

/// The median absolute deviation is never negative.
pub proof fn lemma_mad_nonnegative(s: Seq<i32>)
    requires
        s.len() >= 2,
    ensures
        mad_of(s) >= 0,
{
    let devs = abs_devs(s, median_of(s));
    lemma_ascending_properties(devs);
    let lo = ascending(devs)[(devs.len() as int) / 2 - 1];
    let hi = ascending(devs)[(devs.len() as int) / 2];
    assert(devs.contains(lo));
    assert(devs.contains(hi));
    assert(forall|i: int| 0 <= i < devs.len() ==> devs[i] >= 0);
}

/// Every estimator gives a volatility between 0 and 100%.
pub proof fn lemma_realized_vol_range(mode: VolMode, s: Seq<i32>, ewma_var_fp2: int)
    requires
        s.len() >= 2,
    ensures
        0 <= realized_vol_bps(mode, s, ewma_var_fp2) <= 10000,
{
    lemma_mad_nonnegative(s);
}

} // verus!
