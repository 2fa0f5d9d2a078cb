//! The smoothing filter: a sliding window over recent motion deltas and its
//! running mean.
//!
//! Deltas are fixed-point numbers, in thousandths of one device count. Means
//! are rounded down.

use vstd::prelude::*;

verus! {

/// Fixed-point units in one device count.
pub const UNITS_PER_COUNT: i64 = 1000;

/// The sum of a history.
pub open spec fn seq_sum(s: Seq<i64>) -> int
    decreases s.len(),
{
    if s.len() == 0 {
        0
    } else {
        seq_sum(s.drop_last()) + s.last()
    }
}

/// The arithmetic mean of a history, rounded down; 0 for an empty one.
pub open spec fn mean(s: Seq<i64>) -> int {
    if s.len() == 0 {
        0
    } else {
        seq_sum(s) / (s.len() as int)
    }
}

/// The history after one more sample: the sample is appended, and if that
/// makes more than `limit` entries the oldest one leaves.
pub open spec fn slide(history: Seq<i64>, sample: i64, limit: nat) -> Seq<i64> {
    let grown = history.push(sample);
    if grown.len() > limit {
        grown.drop_first()
    } else {
        grown
    }
}

/// The history after a run of samples, oldest first.
pub open spec fn slide_all(history: Seq<i64>, samples: Seq<i64>, limit: nat) -> Seq<i64>
    decreases samples.len(),
{
    if samples.len() == 0 {
        history
    } else {
        slide(slide_all(history, samples.drop_last(), limit), samples.last(), limit)
    }
}

/// The last `limit` entries of `samples`, or all of them if there are fewer.
pub open spec fn last_window(samples: Seq<i64>, limit: nat) -> Seq<i64> {
    if samples.len() <= limit {
        samples
    } else {
        samples.subrange(samples.len() - limit, samples.len() as int)
    }
}

/// A history within its limit stays within it.
pub proof fn lemma_slide_bounded(history: Seq<i64>, sample: i64, limit: nat)
    requires
        history.len() <= limit,
    ensures
        slide(history, sample, limit).len() <= limit,
        slide(history, sample, limit).len() == if history.len() < limit {
            history.len() + 1
        } else {
            history.len()
        },
{
}

/// Started empty, the filter holds exactly the last `limit` samples it was
/// given (all of them while there are fewer), oldest first.
pub proof fn lemma_window(samples: Seq<i64>, limit: nat)
    ensures
        slide_all(Seq::empty(), samples, limit) == last_window(samples, limit),
    decreases samples.len(),
{
    if samples.len() == 0 {
        assert(last_window(samples, limit) =~= Seq::<i64>::empty());
    } else {
        let front = samples.drop_last();
        lemma_window(front, limit);
        let before = last_window(front, limit);
        let after = slide(before, samples.last(), limit);
        assert(after =~= last_window(samples, limit));
    }
}

/// The sum of a history lies between its length times the least and its
/// length times the greatest `i64`.
pub proof fn lemma_sum_bounds(s: Seq<i64>)
    ensures
        s.len() * i64::MIN <= seq_sum(s) <= s.len() * i64::MAX,
    decreases s.len(),
{
    if s.len() > 0 {
        lemma_sum_bounds(s.drop_last());
        let n = s.len() as int;
        assert((n - 1) * i64::MIN + i64::MIN == n * i64::MIN && (n - 1) * i64::MAX + i64::MAX == n
            * i64::MAX) by (nonlinear_arith);
    }
}

/// The mean of a history is itself an `i64`.
pub proof fn lemma_mean_bounds(s: Seq<i64>)
    ensures
        i64::MIN <= mean(s) <= i64::MAX,
{
    if s.len() > 0 {
        lemma_sum_bounds(s);
        let n = s.len() as int;
        let t = seq_sum(s);
        assert(i64::MIN <= t / n <= i64::MAX) by (nonlinear_arith)
            requires
                n > 0,
                n * i64::MIN <= t <= n * i64::MAX,
        ;
    }
}

/// `a / b` rounded down, for a positive `b`.
pub fn floor_div(a: i128, b: i128) -> (q: i128)
    requires
        b > 0,
    ensures
        q == a / b,
{
    if a >= 0 {
        a / b
    } else {
        let n: i128 = -(a + 1);
        let q0: i128 = n / b;
        proof {
            let r0 = n as int % b as int;
            vstd::arithmetic::div_mod::lemma_fundamental_div_mod(n as int, b as int);
            vstd::arithmetic::div_mod::lemma_mod_bound(n as int, b as int);
            assert(0 <= q0) by (nonlinear_arith)
                requires
                    n >= 0,
                    b > 0,
                    q0 == n as int / b as int,
            ;
            assert(a == (-q0 - 1) * b + (b - 1 - r0)) by (nonlinear_arith)
                requires
                    n == b * q0 + r0,
                    n == -(a + 1),
            ;
            vstd::arithmetic::div_mod::lemma_fundamental_div_mod_converse(
                a as int,
                b as int,
                -q0 - 1,
                b - 1 - r0,
            );
        }
        -q0 - 1
    }
}

/// The mean of a history, rounded down; 0 for an empty one.
pub fn mean_of(history: &Vec<i64>) -> (m: i64)
    ensures
        m == mean(history@),
{
    let n: usize = history.len();
    if n == 0 {
        return 0;
    }
    let mut total: i128 = 0;
    let mut i: usize = 0;
    while i < n
        invariant
            n == history@.len(),
            i <= n,
            total == seq_sum(history@.take(i as int)),
        decreases n - i,
    {
        proof {
            lemma_sum_bounds(history@.take(i as int));
            assert(history@.take(i + 1).drop_last() =~= history@.take(i as int));
            assert(i * i64::MIN >= 0xffff_ffff_ffff_ffff * i64::MIN && i * i64::MAX
                <= 0xffff_ffff_ffff_ffff * i64::MAX) by (nonlinear_arith)
                requires
                    0 <= i <= 0xffff_ffff_ffff_ffff,
            ;
        }
        total = total + history[i] as i128;
        i = i + 1;
    }
    proof {
        assert(history@.take(n as int) =~= history@);
        lemma_mean_bounds(history@);
    }
    floor_div(total, n as i128) as i64
}

/// A fixed-length sliding window over `(dx, dy)` samples.
#[derive(Debug)]
pub struct SmoothingFilter {
    filter_length: usize,
    x_history: Vec<i64>,
    y_history: Vec<i64>,
}

impl SmoothingFilter {
    /// The most samples the window keeps.
    pub closed spec fn limit(&self) -> nat {
        self.filter_length as nat
    }

    /// The `dx` samples in the window, oldest first.
    pub closed spec fn xs(&self) -> Seq<i64> {
        self.x_history@
    }

    /// The `dy` samples in the window, oldest first.
    pub closed spec fn ys(&self) -> Seq<i64> {
        self.y_history@
    }

    /// An empty window that keeps up to `filter_length` samples.
    pub fn new(filter_length: usize) -> (filter: Self)
        ensures
            filter.limit() == filter_length,
            filter.xs() == Seq::<i64>::empty(),
            filter.ys() == Seq::<i64>::empty(),
    {
        SmoothingFilter { filter_length, x_history: Vec::new(), y_history: Vec::new() }
    }

    /// The most samples the window keeps.
    pub fn filter_length(&self) -> (n: usize)
        ensures
            n == self.limit(),
    {
        self.filter_length
    }

    /// Samples in the window now.
    pub fn len(&self) -> (n: usize)
        ensures
            n == self.xs().len(),
    {
        self.x_history.len()
    }

    /// Takes one sample and returns the mean of each window after it. The
    /// sample joins both windows; a window that then holds more than
    /// `filter_length` samples loses its oldest one.
    pub fn push(&mut self, dx: i64, dy: i64) -> (smoothed: (i64, i64))
        ensures
            final(self).limit() == old(self).limit(),
            final(self).xs() == slide(old(self).xs(), dx, old(self).limit()),
            final(self).ys() == slide(old(self).ys(), dy, old(self).limit()),
            smoothed.0 == mean(final(self).xs()),
            smoothed.1 == mean(final(self).ys()),
    {
        self.x_history.push(dx);
        if self.x_history.len() > self.filter_length {
            self.x_history.remove(0);
        }
        self.y_history.push(dy);
        if self.y_history.len() > self.filter_length {
            self.y_history.remove(0);
        }
        proof {
            assert(self.x_history@ =~= slide(old(self).xs(), dx, old(self).limit()));
            assert(self.y_history@ =~= slide(old(self).ys(), dy, old(self).limit()));
        }
        (mean_of(&self.x_history), mean_of(&self.y_history))
    }
}

} // verus!
