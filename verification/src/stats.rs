//! Fixed-window statistics: a ring of the eight most recent samples, with
//! exact fixed-point mean, unbiased variance and the delay-outlier test
//! built on them.
//!
//! Samples are durations in `2^-32` second ticks. The window always holds
//! eight values; slots start at zero and the oldest value is overwritten
//! first, so the early mean and variance are biased towards zero until the
//! window has filled once.

use vstd::prelude::*;
use vstd::arithmetic::div_mod::{
    lemma_fundamental_div_mod, lemma_fundamental_div_mod_converse,
};

verus! {

/// Largest sample magnitude the statistics accept, in ticks
/// (`2^60` ticks is about `2^28` seconds); keeps every intermediate
/// product inside `i128`.
pub const MAX_SAMPLE_TICKS: i64 = 0x1000_0000_0000_0000;

/// One tick per second fraction: `2^32`, the fixed-point unit.
pub const TICKS_PER_UNIT: i64 = 0x1_0000_0000;

/// Sum of a sequence of samples, as an unbounded integer.
pub open spec fn sum_ticks(s: Seq<i64>) -> int
    decreases s.len(),
{
    if s.len() == 0 {
        0
    } else {
        sum_ticks(s.drop_last()) + s.last()
    }
}

/// Sum of squared deviations of a sequence of samples from `m`.
pub open spec fn spread_ticks(s: Seq<i64>, m: int) -> int
    decreases s.len(),
{
    if s.len() == 0 {
        0
    } else {
        spread_ticks(s.drop_last(), m) + (s.last() - m) * (s.last() - m)
    }
}

/// Every sample's magnitude is at most `MAX_SAMPLE_TICKS`.
pub open spec fn all_bounded(s: Seq<i64>) -> bool {
    forall|i: int| 0 <= i < s.len() ==> -MAX_SAMPLE_TICKS <= #[trigger] s[i] <= MAX_SAMPLE_TICKS
}

/// Mean of a full window, rounded towards minus infinity.
pub open spec fn mean_ticks(s: Seq<i64>) -> int {
    sum_ticks(s) / 8
}

/// Unbiased sample variance of a full window (denominator seven), in
/// squared ticks, rounded towards minus infinity.
pub open spec fn var_ticks(s: Seq<i64>) -> int {
    spread_ticks(s, mean_ticks(s)) / 7
}

/// The integer square root: the unique `r >= 0` with
/// `r * r <= v < (r + 1) * (r + 1)`.
pub open spec fn sqrt_floor(v: int) -> int {
    choose|r: int| 0 <= r && #[trigger] (r * r) <= v && v < (r + 1) * (r + 1)
}

/// A delay sticks out of the window when its distance above the mean
/// exceeds `threshold` (fixed-point, `2^-32` per unit) times the standard
/// deviation of the window.
pub open spec fn is_delay_outlier(s: Seq<i64>, delay: int, threshold: int) -> bool {
    (delay - mean_ticks(s)) * TICKS_PER_UNIT > threshold * sqrt_floor(var_ticks(s))
}

/// Every nonnegative integer has an integer square root.
pub proof fn lemma_sqrt_floor_exists(v: int)
    requires
        v >= 0,
    ensures
        exists|r: int| 0 <= r && #[trigger] (r * r) <= v && v < (r + 1) * (r + 1),
    decreases v,
{
    if v == 0 {
        assert((0 + 1) * (0 + 1) == 1) by (nonlinear_arith);
        assert(0 * 0 == 0) by (nonlinear_arith);
        assert(0 <= 0 && (0 * 0) <= v && v < (0 + 1) * (0 + 1));
    } else {
        lemma_sqrt_floor_exists(v - 1);
        let r = choose|r: int| 0 <= r && #[trigger] (r * r) <= v - 1 && v - 1 < (r + 1) * (r + 1);
        if (r + 1) * (r + 1) <= v {
            // then v == (r + 1)^2, and (r + 2)^2 is strictly larger
            assert((r + 1) * (r + 1) < (r + 2) * (r + 2)) by (nonlinear_arith)
                requires
                    r >= 0,
            ;
            assert(0 <= r + 1 && (r + 1) * (r + 1) <= v && v < (r + 2) * (r + 2));
        } else {
            assert(0 <= r && r * r <= v && v < (r + 1) * (r + 1));
        }
    }
}

/// The integer square root is unique, so any witness equals `sqrt_floor`.
pub proof fn lemma_sqrt_floor_unique(v: int, r: int)
    requires
        0 <= r,
        r * r <= v,
        v < (r + 1) * (r + 1),
    ensures
        sqrt_floor(v) == r,
{
    let c = sqrt_floor(v);
    assert(0 <= c && c * c <= v && v < (c + 1) * (c + 1)) by {
        lemma_sqrt_floor_exists(v);
    }
    if c < r {
        assert((c + 1) * (c + 1) <= r * r) by (nonlinear_arith)
            requires
                0 <= c,
                c < r,
            ;
    } else if r < c {
        assert((r + 1) * (r + 1) <= c * c) by (nonlinear_arith)
            requires
                0 <= r,
                r < c,
            ;
    }
}

/// Sum of a constant window: the sample times the window length.
proof fn lemma_sum_constant(s: Seq<i64>, x: i64)
    requires
        forall|i: int| 0 <= i < s.len() ==> s[i] == x,
    ensures
        sum_ticks(s) == s.len() * x,
    decreases s.len(),
{
    if s.len() > 0 {
        lemma_sum_constant(s.drop_last(), x);
        assert(s.last() == x);
        assert(s.len() * x == (s.len() - 1) * x + x) by (nonlinear_arith);
    }
}

/// A constant window has no spread around its own value.
proof fn lemma_spread_constant(s: Seq<i64>, x: i64)
    requires
        forall|i: int| 0 <= i < s.len() ==> s[i] == x,
    ensures
        spread_ticks(s, x as int) == 0,
    decreases s.len(),
{
    if s.len() > 0 {
        lemma_spread_constant(s.drop_last(), x);
        assert(s.last() == x);
    }
}

/// A window of eight identical samples has that sample as its mean and a
/// variance of zero.
pub proof fn lemma_var_of_identical_window(s: Seq<i64>, x: i64)
    requires
        s.len() == 8,
        forall|i: int| 0 <= i < 8 ==> s[i] == x,
    ensures
        mean_ticks(s) == x,
        var_ticks(s) == 0,
{
    lemma_sum_constant(s, x);
    assert(sum_ticks(s) == 8 * x);
    assert((8 * (x as int)) / 8 == x) by {
        vstd::arithmetic::div_mod::lemma_div_multiples_vanish(x as int, 8);
    }
    lemma_spread_constant(s, x);
    assert(0int / 7 == 0) by {
        vstd::arithmetic::div_mod::lemma_div_of0(7);
    }
}

/// Extending a prefix by one sample adds that sample to its sum.
proof fn lemma_sum_take_succ(s: Seq<i64>, k: int)
    requires
        0 <= k < s.len(),
    ensures
        sum_ticks(s.take(k + 1)) == sum_ticks(s.take(k)) + s[k],
{
    assert(s.take(k + 1).drop_last() =~= s.take(k));
    assert(s.take(k + 1).last() == s[k]);
}

/// A window of four copies of one sample followed by four copies of
/// another has the midpoint of the two as its mean.
pub proof fn lemma_mean_of_split_window(s: Seq<i64>, a: i64, b: i64)
    requires
        s.len() == 8,
        forall|i: int| 0 <= i < 4 ==> s[i] == a,
        forall|i: int| 4 <= i < 8 ==> s[i] == b,
    ensures
        mean_ticks(s) == (a + b) / 2,
{
    assert(s.take(0) =~= Seq::<i64>::empty());
    lemma_sum_take_succ(s, 0);
    lemma_sum_take_succ(s, 1);
    lemma_sum_take_succ(s, 2);
    lemma_sum_take_succ(s, 3);
    lemma_sum_take_succ(s, 4);
    lemma_sum_take_succ(s, 5);
    lemma_sum_take_succ(s, 6);
    lemma_sum_take_succ(s, 7);
    assert(s.take(8) =~= s);
    assert(sum_ticks(s) == 4 * a + 4 * b);
    let c = a as int + b as int;
    lemma_fundamental_div_mod(c, 2);
    let q = c / 2;
    let r = c % 2;
    lemma_fundamental_div_mod_converse(4 * c, 8, q, 4 * r);
    assert(sum_ticks(s) == 4 * c);
}

/// Division by a positive constant, rounded towards minus infinity, which
/// is exactly the mathematical `/` of specifications.
fn div_floor(n: i128, d: u32) -> (q: i128)
    requires
        d > 0,
        -0x4000_0000_0000_0000_0000_0000_0000_0000 < n,
    ensures
        q == n as int / d as int,
{
    let dw: u128 = d as u128;
    if n >= 0 {
        let qu: u128 = (n as u128) / dw;
        proof {
            assert(qu == n as int / d as int);
            assert(qu <= n) by {
                vstd::arithmetic::div_mod::lemma_div_nonincreasing(n as int, d as int);
            }
        }
        qu as i128
    } else {
        let m: u128 = (-n) as u128;
        let qu: u128 = (m + (dw - 1)) / dw;
        proof {
            let mi = m as int;
            let di = d as int;
            lemma_fundamental_div_mod(mi, di);
            let q0 = mi / di;
            let r0 = mi % di;
            assert(qu == (mi + di - 1) / di);
            assert(q0 >= 0) by {
                vstd::arithmetic::div_mod::lemma_div_pos_is_pos(mi, di);
            }
            assert((q0 + 1) * di == q0 * di + di) by (nonlinear_arith);
            assert((-q0) * di == -(q0 * di)) by (nonlinear_arith);
            assert((-(q0 + 1)) * di == -(q0 * di) - di) by (nonlinear_arith);
            if r0 == 0 {
                lemma_fundamental_div_mod_converse(mi + di - 1, di, q0, di - 1);
                assert(qu == q0);
                lemma_fundamental_div_mod_converse(n as int, di, -q0, 0);
            } else {
                lemma_fundamental_div_mod_converse(mi + di - 1, di, q0 + 1, r0 - 1);
                assert(qu == q0 + 1);
                lemma_fundamental_div_mod_converse(n as int, di, -(q0 + 1), di - r0);
            }
            assert(qu <= mi + di - 1) by {
                vstd::arithmetic::div_mod::lemma_div_nonincreasing(mi + di - 1, di);
            }
        }
        -(qu as i128)
    }
}

/// Largest `r` with `r * r <= v`, by binary search.
fn isqrt(v: i128) -> (r: i128)
    requires
        0 <= v < 0x4000_0000_0000_0000_0000_0000_0000_0000,
    ensures
        r == sqrt_floor(v as int),
        0 <= r <= 0x8000_0000_0000_0000,
{
    let vu: u128 = v as u128;
    let mut lo: u128 = 0;
    let mut hi: u128 = 0x8000_0000_0000_0000;
    proof {
        assert((0x8000_0000_0000_0000u128 as int) * (0x8000_0000_0000_0000u128 as int)
            == 0x4000_0000_0000_0000_0000_0000_0000_0000) by (nonlinear_arith);
    }
    while hi - lo > 1
        invariant
            0 <= lo < hi <= 0x8000_0000_0000_0000,
            lo as int * lo as int <= vu as int,
            (vu as int) < hi as int * hi as int,
        decreases hi - lo,
    {
        let mid: u128 = lo + (hi - lo) / 2;
        proof {
            assert(lo < mid < hi) by {
                vstd::arithmetic::div_mod::lemma_div_decreases((hi - lo) as int, 2);
                assert((hi - lo) / 2 >= 1) by {
                    vstd::arithmetic::div_mod::lemma_div_is_ordered(2, (hi - lo) as int, 2);
                    vstd::arithmetic::div_mod::lemma_div_by_self(2);
                }
            }
            assert(mid as int * mid as int <= 0x4000_0000_0000_0000_0000_0000_0000_0000)
                by (nonlinear_arith)
                requires
                    0 <= mid as int <= 0x8000_0000_0000_0000,
            ;
        }
        let sq: u128 = mid * mid;
        if sq <= vu {
            lo = mid;
        } else {
            hi = mid;
        }
    }
    proof {
        assert(hi == lo + 1);
        lemma_sqrt_floor_unique(vu as int, lo as int);
    }
    lo as i128
}

/// The eight most recent samples and the slot the next one overwrites.
#[derive(Clone, Copy, Debug)]
pub struct StatBuffer {
    pub data: [i64; 8],
    pub next_idx: usize,
}

impl StatBuffer {
    /// The cursor always points at one of the eight slots.
    pub open spec fn wf(&self) -> bool {
        self.next_idx < 8
    }

    /// All buffered samples are small enough for exact statistics.
    pub open spec fn bounded(&self) -> bool {
        all_bounded(self.data@)
    }

    /// A window of eight zeroed slots, cursor at the first.
    pub fn empty() -> (r: Self)
        ensures
            r.wf(),
            r.bounded(),
            r.next_idx == 0,
            forall|i: int| 0 <= i < 8 ==> r.data@[i] == 0,
    {
        StatBuffer { data: [0i64; 8], next_idx: 0 }
    }

    /// Record a sample: overwrite the slot under the cursor, advance the
    /// cursor one step around the ring.
    pub fn update(&mut self, sample: i64)
        requires
            old(self).wf(),
        ensures
            final(self).wf(),
            final(self).data@ == old(self).data@.update(old(self).next_idx as int, sample),
            final(self).next_idx == (old(self).next_idx + 1) % 8,
            old(self).bounded() && -MAX_SAMPLE_TICKS <= sample <= MAX_SAMPLE_TICKS
                ==> final(self).bounded(),
    {
        self.data[self.next_idx] = sample;
        self.next_idx = (self.next_idx + 1) % 8;
    }

    /// Shift every buffered sample down by `delta`.
    pub fn shift_all(&mut self, delta: i64)
        requires
            old(self).wf(),
            forall|i: int| 0 <= i < 8
                ==> i64::MIN <= #[trigger] old(self).data@[i] - delta <= i64::MAX,
        ensures
            final(self).wf(),
            final(self).next_idx == old(self).next_idx,
            final(self).data@.len() == 8,
            forall|i: int| 0 <= i < 8
                ==> final(self).data@[i] == old(self).data@[i] - delta,
    {
        let mut k: usize = 0;
        while k < 8
            invariant
                self.next_idx == old(self).next_idx,
                self.wf(),
                k <= 8,
                self.data@.len() == 8,
                forall|i: int| 0 <= i < k ==> self.data@[i] == old(self).data@[i] - delta,
                forall|i: int| k <= i < 8 ==> self.data@[i] == old(self).data@[i],
                forall|i: int| 0 <= i < 8
                    ==> i64::MIN <= #[trigger] old(self).data@[i] - delta <= i64::MAX,
            decreases 8 - k,
        {
            self.data[k] = self.data[k] - delta;
            k = k + 1;
        }
    }

    /// Exact sum of the window.
    fn sum(&self) -> (s: i128)
        requires
            self.wf(),
            self.bounded(),
        ensures
            s == sum_ticks(self.data@),
            -8 * MAX_SAMPLE_TICKS <= s <= 8 * MAX_SAMPLE_TICKS,
    {
        let mut acc: i128 = 0;
        let mut k: usize = 0;
        proof {
            assert(self.data@.subrange(0, 0) =~= Seq::<i64>::empty());
        }
        while k < 8
            invariant
                k <= 8,
                self.bounded(),
                self.data@.len() == 8,
                acc == sum_ticks(self.data@.subrange(0, k as int)),
                -(k as int) * (MAX_SAMPLE_TICKS as int) <= acc
                    <= (k as int) * (MAX_SAMPLE_TICKS as int),
            decreases 8 - k,
        {
            proof {
                let pre = self.data@.subrange(0, k as int);
                let post = self.data@.subrange(0, k + 1);
                assert(post.drop_last() =~= pre);
                assert(post.last() == self.data@[k as int]);
                assert((k + 1) as int * (MAX_SAMPLE_TICKS as int)
                    == k as int * (MAX_SAMPLE_TICKS as int) + MAX_SAMPLE_TICKS);
                assert(-((k + 1) as int) * (MAX_SAMPLE_TICKS as int)
                    == -(k as int) * (MAX_SAMPLE_TICKS as int) - MAX_SAMPLE_TICKS);
            }
            acc = acc + self.data[k] as i128;
            k = k + 1;
        }
        proof {
            assert(self.data@.subrange(0, 8) =~= self.data@);
        }
        acc
    }

    /// Mean of the window, rounded towards minus infinity.
    pub fn mean(&self) -> (m: i64)
        requires
            self.wf(),
            self.bounded(),
        ensures
            m == mean_ticks(self.data@),
            -MAX_SAMPLE_TICKS <= m <= MAX_SAMPLE_TICKS,
    {
        let s = self.sum();
        let q = div_floor(s, 8);
        proof {
            assert(q <= MAX_SAMPLE_TICKS) by {
                vstd::arithmetic::div_mod::lemma_div_is_ordered(
                    s as int,
                    8 * MAX_SAMPLE_TICKS as int,
                    8,
                );
                vstd::arithmetic::div_mod::lemma_div_multiples_vanish(
                    MAX_SAMPLE_TICKS as int,
                    8,
                );
            }
            assert(-MAX_SAMPLE_TICKS <= q) by {
                vstd::arithmetic::div_mod::lemma_div_is_ordered(
                    -8 * MAX_SAMPLE_TICKS as int,
                    s as int,
                    8,
                );
                vstd::arithmetic::div_mod::lemma_div_multiples_vanish(
                    -MAX_SAMPLE_TICKS as int,
                    8,
                );
            }
        }
        q as i64
    }

    /// Unbiased sample variance of the window in squared ticks, rounded
    /// towards minus infinity.
    pub fn var(&self) -> (v: i128)
        requires
            self.wf(),
            self.bounded(),
        ensures
            v == var_ticks(self.data@),
            0 <= v <= 0x2000_0000_0000_0000_0000_0000_0000_0000,
    {
        let m = self.mean();
        let mw: i128 = m as i128;
        let mut acc: i128 = 0;
        let mut k: usize = 0;
        proof {
            assert(self.data@.subrange(0, 0) =~= Seq::<i64>::empty());
        }
        while k < 8
            invariant
                k <= 8,
                self.bounded(),
                self.data@.len() == 8,
                -MAX_SAMPLE_TICKS <= mw <= MAX_SAMPLE_TICKS,
                acc == spread_ticks(self.data@.subrange(0, k as int), mw as int),
                0 <= acc <= (k as int) * 0x400_0000_0000_0000_0000_0000_0000_0000,
            decreases 8 - k,
        {
            proof {
                let pre = self.data@.subrange(0, k as int);
                let post = self.data@.subrange(0, k + 1);
                assert(post.drop_last() =~= pre);
                assert(post.last() == self.data@[k as int]);
            }
            let dev: i128 = self.data[k] as i128 - mw;
            proof {
                assert(0 <= dev * dev <= 0x400_0000_0000_0000_0000_0000_0000_0000)
                    by (nonlinear_arith)
                    requires
                        -0x2000_0000_0000_0000 <= dev <= 0x2000_0000_0000_0000,
                ;
                assert((k + 1) as int * 0x400_0000_0000_0000_0000_0000_0000_0000
                    == k as int * 0x400_0000_0000_0000_0000_0000_0000_0000
                        + 0x400_0000_0000_0000_0000_0000_0000_0000);
            }
            acc = acc + dev * dev;
            k = k + 1;
        }
        proof {
            assert(self.data@.subrange(0, 8) =~= self.data@);
        }
        let v = div_floor(acc, 7);
        proof {
            assert(v >= 0) by {
                vstd::arithmetic::div_mod::lemma_div_pos_is_pos(acc as int, 7);
            }
            assert(v <= acc) by {
                vstd::arithmetic::div_mod::lemma_div_nonincreasing(acc as int, 7);
            }
        }
        v
    }

    /// The one-sided delay-outlier test: is `delay` more than
    /// `threshold` standard deviations above the mean of the window?
    pub fn delay_exceeds(&self, delay: i64, threshold: i64) -> (r: bool)
        requires
            self.wf(),
            self.bounded(),
            threshold >= 0,
        ensures
            r == is_delay_outlier(self.data@, delay as int, threshold as int),
    {
        let m = self.mean();
        let v = self.var();
        let s = isqrt(v);
        let diff: i128 = delay as i128 - m as i128;
        proof {
            assert(diff * (TICKS_PER_UNIT as i128) == diff * 0x1_0000_0000);
        }
        let lhs: i128 = diff * 0x1_0000_0000i128;
        proof {
            assert(threshold as int * s as int <= 0x4000_0000_0000_0000_0000_0000_0000_0000)
                by (nonlinear_arith)
                requires
                    0 <= threshold as int <= 0x8000_0000_0000_0000,
                    0 <= s as int <= 0x8000_0000_0000_0000,
            ;
            assert(threshold as int * s as int >= 0) by (nonlinear_arith)
                requires
                    0 <= threshold as int,
                    0 <= s as int,
            ;
        }
        let rhs: i128 = (threshold as i128) * s;
        lhs > rhs
    }
}

} // verus!
