use vstd::prelude::*;
use vstd::multiset::Multiset;
use vstd::seq_lib::lemma_sorted_unique;
use vstd::relations::sorted_by;
use vstd::relations::total_ordering;
use crate::errors::BundlerError;
use crate::errors::BundlerResult;
use crate::types::FeeStrategy;

verus! {

/// The fee history keeps at most this many samples; the oldest leaves first.
pub const MAX_FEE_HISTORY: usize = 100;

/// One recorded fee decision.
#[derive(Debug, Clone)]
pub struct FeeDataPoint {
    /// When the price was emitted, in milliseconds.
    pub timestamp: u64,
    /// The slot the sample refers to, when known.
    pub slot: u64,
    /// The emitted price, lamports per compute unit.
    pub fee_lamports: u64,
    /// The percentile the price was derived from.
    pub percentile: u8,
}

/// Which way recent prices move.
#[derive(Debug, Clone, Copy, PartialEq, Eq, Structural)]
pub enum TrendDirection {
    Rising,
    Falling,
    Stable,
}

/// A trend over the recent price history: direction, magnitude of the
/// fitted slope, and the fit's quality, both in thousandths.
#[derive(Debug, Clone)]
pub struct FeeTrend {
    pub direction: TrendDirection,
    pub magnitude_milli: u128,
    pub confidence_milli: u64,
}

/// How urgently a caller wants inclusion.
#[derive(Debug, Clone, PartialEq, Eq, Structural)]
pub enum FeePriority {
    Low,
    Normal,
    High,
    Urgent,
}

impl FeePriority {
    /// The price multiplier for this priority, in thousandths.
    pub fn multiplier_permille(&self) -> (r: u64)
        ensures
            r == match self {
                FeePriority::Low => 800u64,
                FeePriority::Normal => 1000u64,
                FeePriority::High => 1500u64,
                FeePriority::Urgent => 2000u64,
            },
    {
        match self {
            FeePriority::Low => 800,
            FeePriority::Normal => 1000,
            FeePriority::High => 1500,
            FeePriority::Urgent => 2000,
        }
    }
}

/// The non-decreasing order on prices.
pub open spec fn fee_leq() -> spec_fn(u64, u64) -> bool {
    |a: u64, b: u64| a <= b
}

/// `fee_leq` totally orders prices.
pub proof fn lemma_fee_leq_total()
    ensures
        total_ordering(fee_leq()),
{
    let leq = fee_leq();
    assert forall|x: u64| #[trigger] leq(x, x) by {}
    assert forall|x: u64, y: u64| #[trigger] leq(x, y) && #[trigger] leq(y, x) implies x == y by {}
    assert forall|x: u64, y: u64, z: u64|
        #[trigger] leq(x, y) && #[trigger] leq(y, z) implies leq(x, z) by {}
    assert forall|x: u64, y: u64| #[trigger] leq(x, y) || #[trigger] leq(y, x) by {}
}

/// The fees in non-decreasing order.
pub open spec fn spec_sorted_fees(fees: Seq<u64>) -> Seq<u64> {
    fees.sort_by(fee_leq())
}

/// Sorts prices in non-decreasing order (selection sort).
pub fn sort_fees(fees: &Vec<u64>) -> (r: Vec<u64>)
    ensures
        r@ == spec_sorted_fees(fees@),
        r@.len() == fees@.len(),
        sorted_by(r@, fee_leq()),
{
    proof {
        lemma_fee_leq_total();
        fees@.lemma_sort_by_ensures(fee_leq());
        broadcast use vstd::seq_lib::group_to_multiset_ensures;

    }
    let mut src: Vec<u64> = fees.clone();
    let mut out: Vec<u64> = Vec::new();
    proof {
        assert(out@.to_multiset().add(src@.to_multiset()) =~= fees@.to_multiset());
    }
    while src.len() > 0
        invariant
            out@.to_multiset().add(src@.to_multiset()) == fees@.to_multiset(),
            sorted_by(out@, fee_leq()),
            forall|j: int, k: int|
                0 <= j < out@.len() && 0 <= k < src@.len() ==> out@[j] <= src@[k],
        decreases src@.len(),
    {
        let n = src.len();
        let mut m: usize = 0;
        let mut i: usize = 1;
        while i < n
            invariant
                n == src@.len(),
                m < i <= n,
                forall|j: int| 0 <= j < i ==> src@[m as int] <= src@[j],
            decreases n - i,
        {
            if src[i] < src[m] {
                m = i;
            }
            i = i + 1;
        }
        let ghost out0 = out@;
        let ghost src0 = src@;
        let x = src.remove(m);
        out.push(x);
        proof {
            broadcast use vstd::seq_lib::group_to_multiset_ensures;

            assert(src0.contains(src0[m as int]));
            assert(src0.to_multiset().count(x) > 0);
            assert(out@.to_multiset().add(src@.to_multiset()) =~= fees@.to_multiset());
            assert forall|i: int, j: int|
                0 <= i < j < out@.len() implies #[trigger] fee_leq()(out@[i], out@[j]) by {
                if j < out@.len() - 1 {
                    assert(fee_leq()(out0[i], out0[j]));
                } else {
                    assert(out@[i] == out0[i] && out@[j] == x);
                    assert(out0[i] <= src0[m as int]);
                }
            }
            assert(sorted_by(out@, fee_leq()));
            assert forall|j: int, k: int|
                0 <= j < out@.len() && 0 <= k < src@.len() implies out@[j] <= src@[k] by {
                let k0 = if k < m as int {
                    k
                } else {
                    k + 1
                };
                assert(src@[k] == src0[k0]);
                if j < out@.len() - 1 {
                    assert(out@[j] == out0[j]);
                } else {
                    assert(out@[j] == src0[m as int]);
                }
            }
        }
    }
    proof {
        broadcast use vstd::seq_lib::group_to_multiset_ensures;

        assert(src@.to_multiset() =~= Multiset::<u64>::empty());
        assert(out@.to_multiset().add(Multiset::<u64>::empty()) =~= out@.to_multiset());
        lemma_sorted_unique(out@, spec_sorted_fees(fees@), fee_leq());
        assert(out@.len() == out@.to_multiset().len());
        assert(fees@.len() == fees@.to_multiset().len());
    }
    out
}

/// The index that the `p`-th percentile selects in a sorted list of `n`
/// samples: one below the count that covers `p` percent, clamped to the
/// list.
pub open spec fn spec_percentile_index(n: int, p: int) -> int {
    let raw = (n * p + 99) / 100;
    let k = if raw == 0 {
        0
    } else {
        raw - 1
    };
    if k > n - 1 {
        n - 1
    } else {
        k
    }
}

/// The `p`-th percentile of the fees: the sample at the percentile index of
/// the sorted list, or 1 when there are no samples.
pub open spec fn spec_percentile_fee(fees: Seq<u64>, p: int) -> u64 {
    if fees.len() == 0 {
        1u64
    } else {
        spec_sorted_fees(fees)[spec_percentile_index(fees.len() as int, p)]
    }
}

/// Picks the percentile sample from the recent fees: sort ascending, take
/// the entry that covers `p` percent of the samples (rounding the count up).
/// An empty list yields the minimum price of 1.
pub fn calculate_percentile_fee(fees: &Vec<u64>, p: u8) -> (r: u64)
    ensures
        r == spec_percentile_fee(fees@, p as int),
{
    if fees.len() == 0 {
        return 1;
    }
    let sorted = sort_fees(fees);
    let n = sorted.len();
    proof {
        assert((n as u128) * (p as u128) <= (n as u128) * 255) by (nonlinear_arith)
            requires
                p as u128 <= 255,
        ;
    }
    let raw: u128 = ((n as u128) * (p as u128) + 99) / 100;
    let k: usize = if raw == 0 {
        0
    } else if raw >= n as u128 {
        n - 1
    } else {
        (raw as usize) - 1
    };
    proof {
        assert(k as int == spec_percentile_index(n as int, p as int));
    }
    sorted[k]
}

} // verus!

verus! {

/// Addition on u128 that stops at the top of the range.
pub open spec fn spec_sat_add(a: u128, b: u128) -> u128 {
    if a + b > u128::MAX {
        u128::MAX
    } else {
        (a + b) as u128
    }
}

/// Multiplication on u128 that stops at the top of the range.
pub open spec fn spec_sat_mul(a: u128, b: u128) -> u128 {
    if a * b > u128::MAX {
        u128::MAX
    } else {
        (a * b) as u128
    }
}

/// Saturating addition on u128.
pub fn sat_add(a: u128, b: u128) -> (r: u128)
    ensures
        r == spec_sat_add(a, b),
{
    match a.checked_add(b) {
        Some(v) => v,
        None => u128::MAX,
    }
}

/// Saturating multiplication on u128.
pub fn sat_mul(a: u128, b: u128) -> (r: u128)
    ensures
        r == spec_sat_mul(a, b),
{
    match a.checked_mul(b) {
        Some(v) => v,
        None => u128::MAX,
    }
}

/// The emitted prices of a history, in order.
pub open spec fn history_fees(h: Seq<FeeDataPoint>) -> Seq<u64> {
    h.map_values(|p: FeeDataPoint| p.fee_lamports)
}

/// The trend window: the most recent prices first, at most ten.
pub open spec fn spec_recent_vals(fees: Seq<u64>) -> Seq<u64> {
    let take: int = if fees.len() < 10 {
        fees.len() as int
    } else {
        10
    };
    Seq::new(take as nat, |i: int| fees[fees.len() - 1 - i])
}

/// Sum of the window values (exact).
pub open spec fn spec_sum_y(vals: Seq<u64>) -> int
    decreases vals.len(),
{
    if vals.len() == 0 {
        0
    } else {
        spec_sum_y(vals.drop_last()) + vals.last()
    }
}

/// The sum of a window is at most its length times the largest price.
pub proof fn lemma_sum_y_bound(vals: Seq<u64>)
    ensures
        0 <= spec_sum_y(vals) <= vals.len() * (u64::MAX as int),
    decreases vals.len(),
{
    if vals.len() == 0 {
    } else {
        lemma_sum_y_bound(vals.drop_last());
        assert((vals.len() - 1) * (u64::MAX as int) + (u64::MAX as int) == vals.len() * (
        u64::MAX as int)) by (nonlinear_arith);
    }
}

/// Sum of index times value over the window (saturating).
pub open spec fn spec_sum_xy(vals: Seq<u64>) -> u128
    decreases vals.len(),
{
    if vals.len() == 0 {
        0
    } else {
        spec_sat_add(
            spec_sum_xy(vals.drop_last()),
            spec_sat_mul((vals.len() - 1) as u128, vals.last() as u128),
        )
    }
}

/// Sum of squared values over the window (saturating).
pub open spec fn spec_sum_y2(vals: Seq<u64>) -> u128
    decreases vals.len(),
{
    if vals.len() == 0 {
        0
    } else {
        spec_sat_add(
            spec_sum_y2(vals.drop_last()),
            spec_sat_mul(vals.last() as u128, vals.last() as u128),
        )
    }
}

/// Sum of the indices 0 .. n-1.
pub open spec fn spec_sum_x(n: int) -> int
    decreases n,
{
    if n <= 0 {
        0
    } else {
        spec_sum_x(n - 1) + (n - 1)
    }
}

/// Sum of the squared indices 0 .. n-1.
pub open spec fn spec_sum_x2(n: int) -> int
    decreases n,
{
    if n <= 0 {
        0
    } else {
        spec_sum_x2(n - 1) + (n - 1) * (n - 1)
    }
}

/// The regression slope over the window, in thousandths: its size and
/// whether it falls. Fixed-point form of the least-squares slope
/// `(n*Sxy - Sx*Sy) / (n*Sx2 - Sx*Sx)`, saturating at the top of u128.
pub open spec fn spec_slope_milli(vals: Seq<u64>) -> (u128, bool) {
    let n = vals.len() as int;
    let sy = spec_sum_y(vals);
    let sxy = spec_sum_xy(vals);
    let sx = spec_sum_x(n);
    let sx2 = spec_sum_x2(n);
    let den = n * sx2 - sx * sx;
    if den <= 0 {
        (0u128, false)
    } else {
        let a = spec_sat_mul(n as u128, sxy);
        let b = spec_sat_mul(sx as u128, sy as u128);
        if a >= b {
            (spec_sat_mul((a - b) as u128, 1000u128) / den as u128, false)
        } else {
            (spec_sat_mul((b - a) as u128, 1000u128) / den as u128, true)
        }
    }
}

/// The fit quality of the regression over the window, in thousandths,
/// clamped to 0..=1000. Fixed-point form of `R^2 = num^2 / (den * Syy)`,
/// saturating at the top of u128.
pub open spec fn spec_r2_milli(vals: Seq<u64>) -> u64 {
    let n = vals.len() as int;
    let sy = spec_sum_y(vals);
    let sxy = spec_sum_xy(vals);
    let sx = spec_sum_x(n);
    let sx2 = spec_sum_x2(n);
    let den = n * sx2 - sx * sx;
    let sy2 = spec_sum_y2(vals);
    let syy = spec_sat_mul(n as u128, sy2);
    let syb = spec_sat_mul(sy as u128, sy as u128);
    if den <= 0 || syy <= syb {
        0u64
    } else {
        let a = spec_sat_mul(n as u128, sxy);
        let b = spec_sat_mul(sx as u128, sy as u128);
        let num = if a >= b {
            (a - b) as u128
        } else {
            (b - a) as u128
        };
        let denom = spec_sat_mul(den as u128, (syy - syb) as u128);
        let r2 = spec_sat_mul(1000u128, spec_sat_mul(num, num)) / if denom == 0 {
            1u128
        } else {
            denom
        };
        if r2 > 1000 {
            1000u64
        } else {
            r2 as u64
        }
    }
}

/// The trend of the price history: stable below five samples, else the
/// regression over the window of the last ten.
pub open spec fn spec_trend(fees: Seq<u64>) -> FeeTrend {
    if fees.len() < 5 {
        FeeTrend { direction: TrendDirection::Stable, magnitude_milli: 0, confidence_milli: 0 }
    } else {
        let vals = spec_recent_vals(fees);
        let (mag, neg) = spec_slope_milli(vals);
        let conf = spec_r2_milli(vals);
        let direction = if !neg && mag > 50 {
            TrendDirection::Rising
        } else if neg && mag > 50 {
            TrendDirection::Falling
        } else {
            TrendDirection::Stable
        };
        FeeTrend { direction, magnitude_milli: mag, confidence_milli: conf }
    }
}

/// The price-adjustment factor that a trend commands, in thousandths:
/// rising fees raise the price by at most half, falling fees lower it by at
/// most a fifth.
pub open spec fn spec_adjustment_milli(fees: Seq<u64>) -> u64 {
    let t = spec_trend(fees);
    match t.direction {
        TrendDirection::Rising => {
            let up = spec_sat_mul(t.magnitude_milli, t.confidence_milli as u128) / 1000;
            if up > 500 {
                1500u64
            } else {
                (1000 + up) as u64
            }
        },
        TrendDirection::Falling => {
            let down = spec_sat_mul(t.magnitude_milli, t.confidence_milli as u128) / 2000;
            if down > 200 {
                800u64
            } else {
                (1000 - down) as u64
            }
        },
        TrendDirection::Stable => 1000u64,
    }
}

/// The adjustment factor never leaves 800..=1500.
pub proof fn lemma_adjustment_bounds(fees: Seq<u64>)
    ensures
        800 <= spec_adjustment_milli(fees) <= 1500,
{
}

/// One bump step: half as much again, rounded up, capped at the ceiling.
pub open spec fn spec_bump_step(v: u64, ceiling: u64) -> u64 {
    let raised = (3 * (v as int) + 1) / 2;
    if raised > ceiling {
        ceiling
    } else {
        raised as u64
    }
}

/// The price after `k` bump steps from `x`, never above the ceiling.
pub open spec fn spec_bump_value(x: u64, k: nat, ceiling: u64) -> u64
    decreases k,
{
    if k == 0 {
        if x > ceiling {
            ceiling
        } else {
            x
        }
    } else {
        spec_bump_step(spec_bump_value(x, (k - 1) as nat, ceiling), ceiling)
    }
}

/// A bumped price within the ceiling never falls below where it started:
/// for a price within the ceiling, every number of bump steps yields at
/// least the original price and at most the ceiling.
pub proof fn lemma_bump_within_bounds(x: u64, k: nat, ceiling: u64)
    requires
        x <= ceiling,
    ensures
        x <= spec_bump_value(x, k, ceiling) <= ceiling,
    decreases k,
{
    if k > 0 {
        lemma_bump_within_bounds(x, (k - 1) as nat, ceiling);
    }
}

/// The price a strategy emits for the given recent fees and price history:
/// the percentile sample, adjusted by the trend when adaptive, buffered,
/// floored at the minimum price of 1, and clamped to the ceiling.
pub open spec fn spec_price(strategy: FeeStrategy, hist: Seq<u64>, fees: Seq<u64>) -> u64 {
    let base = spec_percentile_fee(fees, strategy.base_percentile as int) as int;
    let adjusted: int = if strategy.adaptive {
        base * (spec_adjustment_milli(hist) as int) / 1000
    } else {
        base
    };
    let buffered: int = adjusted * (100 + strategy.buffer_percent as int) / 100;
    let floored: int = if buffered < 1 {
        1
    } else {
        buffered
    };
    if floored > strategy.max_price_lamports as int {
        strategy.max_price_lamports
    } else {
        floored as u64
    }
}

/// What recording a price does to the history: append, and drop the oldest
/// entry once the history is longer than its cap.
pub open spec fn spec_push_capped(h: Seq<FeeDataPoint>, p: FeeDataPoint) -> Seq<FeeDataPoint> {
    let h1 = h.push(p);
    if h1.len() > 100 {
        h1.subrange(1, h1.len() as int)
    } else {
        h1
    }
}

/// Recording keeps the history within its cap and keeps insertion order:
/// the new history is a suffix of the old history with the new point
/// appended.
pub proof fn lemma_fee_history_bounded(h: Seq<FeeDataPoint>, p: FeeDataPoint)
    requires
        h.len() <= 100,
    ensures
        spec_push_capped(h, p).len() <= 100,
        spec_push_capped(h, p).last() == p,
        forall|i: int|
            0 <= i < spec_push_capped(h, p).len() ==> spec_push_capped(h, p)[i] == h.push(p)[i + (
            h.push(p).len() - spec_push_capped(h, p).len())],
{
}

/// Derives compute-unit prices from recent prioritization fees, keeps a
/// bounded history of what it emitted, and bumps prices on retry.
#[derive(Debug, Clone)]
pub struct FeeManager {
    pub strategy: FeeStrategy,
    pub fee_history: Vec<FeeDataPoint>,
}

impl FeeManager {
    /// The history never exceeds its cap.
    pub open spec fn wf(&self) -> bool {
        self.fee_history@.len() <= 100
    }

    /// A fresh manager under the given strategy, with an empty history.
    pub fn new(strategy: FeeStrategy) -> (r: FeeManager)
        ensures
            r.wf(),
            r.strategy == strategy,
            r.fee_history@.len() == 0,
    {
        FeeManager { strategy, fee_history: Vec::new() }
    }

    /// Appends one emitted price to the history, dropping the oldest entry
    /// when the cap is reached.
    pub fn record_fee_calculation(&mut self, fee: u64, now_ms: u64)
        requires
            old(self).wf(),
        ensures
            final(self).wf(),
            final(self).strategy == old(self).strategy,
            final(self).fee_history@ == spec_push_capped(
                old(self).fee_history@,
                FeeDataPoint {
                    timestamp: now_ms,
                    slot: 0,
                    fee_lamports: fee,
                    percentile: old(self).strategy.base_percentile,
                },
            ),
    {
        let point = FeeDataPoint {
            timestamp: now_ms,
            slot: 0,
            fee_lamports: fee,
            percentile: self.strategy.base_percentile,
        };
        self.fee_history.push(point);
        if self.fee_history.len() > MAX_FEE_HISTORY {
            self.fee_history.remove(0);
        }
    }

    /// The window of recent emitted prices, most recent first, at most ten.
    fn recent_vals(&self) -> (r: Vec<u64>)
        ensures
            r@ == spec_recent_vals(history_fees(self.fee_history@)),
    {
        let len = self.fee_history.len();
        let take: usize = if len < 10 {
            len
        } else {
            10
        };
        let mut vals: Vec<u64> = Vec::new();
        let mut i: usize = 0;
        while i < take
            invariant
                take <= len == self.fee_history@.len(),
                i <= take,
                vals@.len() == i,
                forall|j: int|
                    0 <= j < i ==> vals@[j] == history_fees(self.fee_history@)[len - 1 - j],
            decreases take - i,
        {
            vals.push(self.fee_history[len - 1 - i].fee_lamports);
            i = i + 1;
        }
        proof {
            assert(vals@ =~= spec_recent_vals(history_fees(self.fee_history@)));
        }
        vals
    }

    /// The trend of the emitted-price history: stable below five samples,
    /// else the fixed-point regression over the last ten.
    pub fn analyze_fee_trend(&self) -> (r: FeeTrend)
        ensures
            r == spec_trend(history_fees(self.fee_history@)),
    {
        let ghost hf = history_fees(self.fee_history@);
        if self.fee_history.len() < 5 {
            return FeeTrend {
                direction: TrendDirection::Stable,
                magnitude_milli: 0,
                confidence_milli: 0,
            };
        }
        let vals = self.recent_vals();
        let n = vals.len();
        let mut sy: u128 = 0;
        let mut sxy: u128 = 0;
        let mut sy2: u128 = 0;
        let mut sx: u128 = 0;
        let mut sx2: u128 = 0;
        let mut i: usize = 0;
        while i < n
            invariant
                n == vals@.len(),
                n <= 10,
                i <= n,
                sy == spec_sum_y(vals@.subrange(0, i as int)),
                sxy == spec_sum_xy(vals@.subrange(0, i as int)),
                sy2 == spec_sum_y2(vals@.subrange(0, i as int)),
                sx == spec_sum_x(i as int),
                sx2 == spec_sum_x2(i as int),
                sy <= i * (u64::MAX as int),
                sx <= 9 * i,
                sx2 <= 81 * i,
            decreases n - i,
        {
            let ghost pre = vals@.subrange(0, i as int);
            let y = vals[i];
            proof {
                lemma_sum_y_bound(pre);
                assert(pre.push(y) =~= vals@.subrange(0, i as int + 1));
                assert(pre.push(y).drop_last() =~= pre);
                assert((i as int) * (u64::MAX as int) + (u64::MAX as int) == (i as int + 1) * (
                u64::MAX as int)) by (nonlinear_arith);
            }
            sy = sy + y as u128;
            sxy = sat_add(sxy, sat_mul(i as u128, y as u128));
            sy2 = sat_add(sy2, sat_mul(y as u128, y as u128));
            sx = sx + i as u128;
            proof {
                assert((i as u128) * (i as u128) <= 81) by (nonlinear_arith)
                    requires
                        i as u128 <= 9,
                ;
            }
            sx2 = sx2 + (i as u128) * (i as u128);
            i = i + 1;
        }
        proof {
            assert(vals@.subrange(0, n as int) =~= vals@);
            lemma_sum_y_bound(vals@);
        }
        proof {
            assert((n as u128) * sx2 <= 8100) by (nonlinear_arith)
                requires
                    n as u128 <= 10,
                    sx2 <= 810,
            ;
            assert(sx * sx <= 8100) by (nonlinear_arith)
                requires
                    sx <= 90,
            ;
        }
        let prod: u128 = (n as u128) * sx2;
        let sxsq: u128 = sx * sx;
        let den: u128 = if prod > sxsq {
            prod - sxsq
        } else {
            0
        };
        let (mag, neg): (u128, bool) = if den == 0 {
            (0, false)
        } else {
            let a = sat_mul(n as u128, sxy);
            let b = sat_mul(sx, sy);
            if a >= b {
                (sat_mul(a - b, 1000) / den, false)
            } else {
                (sat_mul(b - a, 1000) / den, true)
            }
        };
        let syy = sat_mul(n as u128, sy2);
        let syb = sat_mul(sy, sy);
        let conf: u64 = if den == 0 || syy <= syb {
            0
        } else {
            let a = sat_mul(n as u128, sxy);
            let b = sat_mul(sx, sy);
            let num = if a >= b {
                a - b
            } else {
                b - a
            };
            let denom = sat_mul(den, syy - syb);
            let r2 = sat_mul(1000, sat_mul(num, num)) / if denom == 0 {
                1
            } else {
                denom
            };
            if r2 > 1000 {
                1000
            } else {
                r2 as u64
            }
        };
        let direction = if !neg && mag > 50 {
            TrendDirection::Rising
        } else if neg && mag > 50 {
            TrendDirection::Falling
        } else {
            TrendDirection::Stable
        };
        FeeTrend { direction, magnitude_milli: mag, confidence_milli: conf }
    }

    /// The trend's price-adjustment factor, in thousandths, within
    /// 800..=1500.
    pub fn adjustment_milli(&self) -> (r: u64)
        ensures
            r == spec_adjustment_milli(history_fees(self.fee_history@)),
            800 <= r <= 1500,
    {
        let t = self.analyze_fee_trend();
        match t.direction {
            TrendDirection::Rising => {
                let up = sat_mul(t.magnitude_milli, t.confidence_milli as u128) / 1000;
                if up > 500 {
                    1500
                } else {
                    1000 + (up as u64)
                }
            },
            TrendDirection::Falling => {
                let down = sat_mul(t.magnitude_milli, t.confidence_milli as u128) / 2000;
                if down > 200 {
                    800
                } else {
                    1000 - (down as u64)
                }
            },
            TrendDirection::Stable => 1000,
        }
    }

    /// Emits the price for a transaction given the recent prioritization
    /// fees of its accounts: the percentile sample, adjusted by the trend
    /// when adaptive, buffered, floored at the minimum price of 1, clamped
    /// to the ceiling, and recorded in the history. A price of 0 is never
    /// emitted while the ceiling admits one. An empty fee list yields the
    /// minimum price and records nothing.
    pub fn calculate_fee(&mut self, recent_fees: &Vec<u64>, now_ms: u64) -> (r: u64)
        requires
            old(self).wf(),
        ensures
            final(self).wf(),
            final(self).strategy == old(self).strategy,
            recent_fees@.len() == 0 ==> r == 1 && final(self).fee_history@ == old(
                self,
            ).fee_history@,
            recent_fees@.len() > 0 ==> {
                &&& r == spec_price(
                    old(self).strategy,
                    history_fees(old(self).fee_history@),
                    recent_fees@,
                )
                &&& r <= old(self).strategy.max_price_lamports
                &&& (old(self).strategy.max_price_lamports >= 1 ==> r >= 1)
                &&& final(self).fee_history@ == spec_push_capped(
                    old(self).fee_history@,
                    FeeDataPoint {
                        timestamp: now_ms,
                        slot: 0,
                        fee_lamports: r,
                        percentile: old(self).strategy.base_percentile,
                    },
                )
            },
            final(self).fee_history@.len() <= 100,
    {
        if recent_fees.len() == 0 {
            return 1;
        }
        let base = calculate_percentile_fee(recent_fees, self.strategy.base_percentile) as u128;
        let adjusted: u128 = if self.strategy.adaptive {
            let factor = self.adjustment_milli() as u128;
            proof {
                assert(base * factor <= base * 1500) by (nonlinear_arith)
                    requires
                        factor <= 1500,
                        base <= u64::MAX as u128,
                ;
            }
            base * factor / 1000
        } else {
            base
        };
        proof {
            assert(adjusted * (100 + self.strategy.buffer_percent as u128) <= adjusted * 355)
                by (nonlinear_arith)
                requires
                    self.strategy.buffer_percent as u128 <= 255,
                    adjusted <= u64::MAX as u128 * 1500,
            ;
        }
        let buffered: u128 = adjusted * (100 + self.strategy.buffer_percent as u128) / 100;
        let floored: u128 = if buffered < 1 {
            1
        } else {
            buffered
        };
        let final_fee: u64 = if floored > self.strategy.max_price_lamports as u128 {
            self.strategy.max_price_lamports
        } else {
            floored as u64
        };
        self.record_fee_calculation(final_fee, now_ms);
        final_fee
    }

    /// Raises a price for a retry. With bumping disabled the price stands;
    /// past the attempt budget the call fails with a `Transaction` error;
    /// otherwise each attempt raises the price by half, rounding up, capped
    /// at the ceiling.
    pub fn bump_fee(&self, original_fee: u64, attempt: u32) -> (r: BundlerResult<u64>)
        ensures
            !self.strategy.enable_bump ==> (r matches Ok(v) && v == original_fee),
            self.strategy.enable_bump && attempt > self.strategy.max_bump_attempts ==> (
            r matches Err(e) && e is Transaction),
            self.strategy.enable_bump && attempt <= self.strategy.max_bump_attempts ==> (
            r matches Ok(v) && v == spec_bump_value(
                original_fee,
                attempt as nat,
                self.strategy.max_price_lamports,
            )),
    {
        if !self.strategy.enable_bump {
            return Ok(original_fee);
        }
        if attempt > self.strategy.max_bump_attempts {
            return Err(
                BundlerError::Transaction("maximum fee bump attempts exceeded".to_owned()),
            );
        }
        let ceiling = self.strategy.max_price_lamports;
        let mut v: u64 = if original_fee > ceiling {
            ceiling
        } else {
            original_fee
        };
        let mut j: u32 = 0;
        while j < attempt
            invariant
                j <= attempt,
                v == spec_bump_value(original_fee, j as nat, ceiling),
                v <= ceiling,
            decreases attempt - j,
        {
            let raised: u128 = (3 * (v as u128) + 1) / 2;
            v = if raised > ceiling as u128 {
                ceiling
            } else {
                raised as u64
            };
            j = j + 1;
        }
        Ok(v)
    }

    /// Empties the history.
    pub fn clear_history(&mut self)
        ensures
            final(self).wf(),
            final(self).strategy == old(self).strategy,
            final(self).fee_history@.len() == 0,
    {
        self.fee_history.clear();
    }
}

} // verus!

verus! {

/// Summary statistics over the emitted-price history.
#[derive(Debug, Clone)]
pub struct FeeStatistics {
    pub min_fee: u64,
    pub max_fee: u64,
    pub median_fee: u64,
    pub avg_fee: u64,
    pub sample_count: usize,
    /// When the last price was recorded, in milliseconds.
    pub last_updated: Option<u64>,
}

impl Default for FeeStatistics {
    /// The statistics of an empty history: all zero, nothing recorded.
    fn default() -> (r: FeeStatistics)
        ensures
            r.min_fee == 0 && r.max_fee == 0 && r.median_fee == 0 && r.avg_fee == 0
                && r.sample_count == 0 && r.last_updated is None,
    {
        FeeStatistics {
            min_fee: 0,
            max_fee: 0,
            median_fee: 0,
            avg_fee: 0,
            sample_count: 0,
            last_updated: None,
        }
    }
}

impl FeeManager {
    /// Summarizes the emitted-price history: the least, greatest, median and
    /// mean price, the sample count, and the time of the last sample. An
    /// empty history reports zeros.
    pub fn get_fee_statistics(&self) -> (r: FeeStatistics)
        ensures
            self.fee_history@.len() == 0 ==> (r.min_fee == 0 && r.max_fee == 0 && r.median_fee == 0
                && r.avg_fee == 0 && r.sample_count == 0 && r.last_updated is None),
            self.fee_history@.len() > 0 ==> {
                let hf = history_fees(self.fee_history@);
                let sorted = spec_sorted_fees(hf);
                &&& r.sample_count == hf.len()
                &&& r.min_fee == sorted[0]
                &&& r.max_fee == sorted[hf.len() - 1]
                &&& r.median_fee == sorted[hf.len() as int / 2]
                &&& r.avg_fee == spec_sum_y(hf) / hf.len() as int
                &&& r.last_updated == Some(self.fee_history@.last().timestamp)
            },
    {
        let n = self.fee_history.len();
        if n == 0 {
            return FeeStatistics::default();
        }
        let ghost hf = history_fees(self.fee_history@);
        let mut fees: Vec<u64> = Vec::new();
        let mut i: usize = 0;
        while i < n
            invariant
                n == self.fee_history@.len(),
                i <= n,
                fees@.len() == i,
                forall|j: int| 0 <= j < i ==> fees@[j] == self.fee_history@[j].fee_lamports,
            decreases n - i,
        {
            fees.push(self.fee_history[i].fee_lamports);
            i = i + 1;
        }
        proof {
            assert(fees@ =~= hf);
        }
        let sorted = sort_fees(&fees);
        let mut sum: u128 = 0;
        let mut i: usize = 0;
        while i < n
            invariant
                n == fees@.len(),
                i <= n,
                sum == spec_sum_y(fees@.subrange(0, i as int)),
                sum <= i * (u64::MAX as int),
            decreases n - i,
        {
            proof {
                assert(fees@.subrange(0, i as int + 1).drop_last() =~= fees@.subrange(0, i as int));
                assert((i as int) * (u64::MAX as int) + (u64::MAX as int) == (i as int + 1) * (
                u64::MAX as int)) by (nonlinear_arith);
            }
            sum = sum + fees[i] as u128;
            i = i + 1;
        }
        proof {
            assert(fees@.subrange(0, n as int) =~= fees@);
            assert(sum / (n as u128) <= u64::MAX) by (nonlinear_arith)
                requires
                    sum <= (n as u128) * (u64::MAX as u128),
                    n >= 1,
            ;
            assert(sum as int / n as int == sum / (n as u128));
        }
        let avg = (sum / (n as u128)) as u64;
        FeeStatistics {
            min_fee: sorted[0],
            max_fee: sorted[n - 1],
            median_fee: sorted[n / 2],
            avg_fee: avg,
            sample_count: n,
            last_updated: Some(self.fee_history[n - 1].timestamp),
        }
    }
}

} // verus!

verus! {

use crate::transaction::budget_data_limit;
use crate::transaction::budget_data_price;
use crate::transaction::compute_budget_program;
use crate::transaction::spec_compute_budget_id;
use crate::types::Instruction;

impl FeeManager {
    /// The two compute-budget instructions a transaction starts with: set
    /// the unit limit (opcode 2), then set the unit price (opcode 3), both
    /// addressed to the compute-budget program with no accounts.
    pub fn create_compute_budget_instructions(&self, compute_units: u32, fee_lamports: u64) -> (r:
        Vec<Instruction>)
        ensures
            r@.len() == 2,
            r@[0].program_id.bytes@ == spec_compute_budget_id(),
            r@[1].program_id.bytes@ == spec_compute_budget_id(),
            r@[0].accounts@.len() == 0,
            r@[1].accounts@.len() == 0,
            r@[0].data@ == seq![2u8] + vstd::bytes::spec_u32_to_le_bytes(compute_units),
            r@[1].data@ == seq![3u8] + vstd::bytes::spec_u64_to_le_bytes(fee_lamports),
            vstd::bytes::spec_u64_from_le_bytes(r@[1].data@.subrange(1, 9)) == fee_lamports,
    {
        let mut out: Vec<Instruction> = Vec::new();
        out.push(
            Instruction {
                program_id: compute_budget_program(),
                accounts: Vec::new(),
                data: budget_data_limit(compute_units),
            },
        );
        out.push(
            Instruction {
                program_id: compute_budget_program(),
                accounts: Vec::new(),
                data: budget_data_price(fee_lamports),
            },
        );
        proof {
            assert(out@[1].data@.subrange(1, 9) =~= vstd::bytes::spec_u64_to_le_bytes(
                fee_lamports,
            ));
        }
        out
    }
}

} // verus!
