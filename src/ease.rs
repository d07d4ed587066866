use vstd::prelude::*;
use vstd::arithmetic::div_mod::{lemma_div_by_multiple, lemma_div_is_ordered};
use vstd::arithmetic::mul::lemma_mul_inequality;

verus! {

/// The bucket that a knob position selects among `n` equal buckets, where `scaled` is the
/// position times `n`, rounded down. The top of the knob's travel (`scaled == n`) and
/// anything past it selects the last bucket.
pub open spec fn bucket_index(scaled: int, n: int) -> int {
    if scaled < n {
        scaled
    } else {
        n - 1
    }
}

/// A choice among a fixed list of values, each owning an equal share of the knob's travel.
#[derive(Clone, Debug)]
pub struct DiscreteLinear<T> {
    pub values: Vec<T>,
}

impl<T: Copy> DiscreteLinear<T> {
    /// The value of the bucket that `scaled` selects (see `bucket_index`).
    pub fn ease_bucket(&self, scaled: usize) -> (r: T)
        requires
            self.values@.len() > 0,
        ensures
            r == self.values@[bucket_index(scaled as int, self.values@.len() as int)],
    {
        let n = self.values.len();
        if scaled < n {
            self.values[scaled]
        } else {
            self.values[n - 1]
        }
    }
}

/// Whatever the knob position, a discrete easer reads inside its list: the bottom of the
/// travel gives the first value and the top gives the last.
pub proof fn lemma_bucket_in_bounds(scaled: nat, n: nat)
    requires
        n > 0,
    ensures
        0 <= bucket_index(scaled as int, n as int) < n,
        bucket_index(0, n as int) == 0,
        bucket_index(n as int, n as int) == n - 1,
        scaled + 1 >= n ==> bucket_index(scaled as int, n as int) == n - 1,
{
}

/// A linear run from `start` to `end` that only takes `steps` evenly spread whole-number
/// values, so that automation always lands on a whole unit.
#[derive(Clone, Copy, Debug, PartialEq, Eq, Structural)]
pub struct SteppedLinear {
    pub start: i32,
    pub end: i32,
    pub steps: usize,
}

impl SteppedLinear {
    /// The index of the last point; a run of one step or none has only its start.
    pub open spec fn last_step(self) -> int {
        if self.steps <= 1 {
            0
        } else {
            self.steps - 1
        }
    }

    /// Point `k` of the run: `start + k * (end - start) / (steps - 1)`, rounded towards `start`.
    pub open spec fn point(self, k: int) -> int {
        if self.steps <= 1 {
            self.start as int
        } else if self.start <= self.end {
            self.start + (k * (self.end - self.start)) / self.last_step()
        } else {
            self.start - (k * (self.start - self.end)) / self.last_step()
        }
    }

    /// The value for step index `k`, the knob position times `steps - 1`, rounded to the
    /// nearest whole number; indexes past the last point give the last point.
    pub fn ease_step(&self, k: usize) -> (r: i32)
        ensures
            r == self.point(if k <= self.last_step() { k as int } else { self.last_step() }),
    {
        if self.steps <= 1 {
            return self.start;
        }
        let span = self.steps - 1;
        let k = if k <= span { k } else { span };
        let up = self.start <= self.end;
        let dist: u128 = if up {
            (self.end as i64 - self.start as i64) as u128
        } else {
            (self.start as i64 - self.end as i64) as u128
        };
        proof {
            lemma_mul_inequality(k as int, span as int, dist as int);
            lemma_div_is_ordered(k * dist, span * dist, span as int);
            lemma_div_by_multiple(dist as int, span as int);
            assert(span * dist == dist * span) by (nonlinear_arith);
            assert(k * dist <= 0x1_0000_0000_0000_0000 * 0x1_0000_0000) by (nonlinear_arith)
                requires
                    k <= 0xffff_ffff_ffff_ffff,
                    dist <= 0x1_0000_0000,
                    0 <= k,
                    0 <= dist,
            ;
        }
        let q = (k as u128 * dist) / span as u128;
        if up {
            (self.start as i64 + q as i64) as i32
        } else {
            (self.start as i64 - q as i64) as i32
        }
    }
}

/// The stepped run starts exactly at `start`, ends exactly at `end`, never leaves the range
/// between them, and moves in one direction only as the step index grows.
pub proof fn lemma_stepped_run(run: SteppedLinear, k1: int, k2: int)
    requires
        0 <= k1 <= k2 <= run.last_step(),
    ensures
        run.point(0) == run.start,
        run.point(run.last_step()) == run.end || run.steps <= 1,
        run.start <= run.end ==> run.start <= run.point(k1) <= run.point(k2) <= run.end,
        run.start > run.end ==> run.start >= run.point(k1) >= run.point(k2) >= run.end,
{
    if run.steps > 1 {
        let span = run.last_step();
        let dist = if run.start <= run.end {
            run.end - run.start
        } else {
            run.start - run.end
        };
        assert(0 * dist == 0);
        lemma_mul_inequality(k1, k2, dist);
        lemma_mul_inequality(k2, span, dist);
        lemma_mul_inequality(0, k1, dist);
        lemma_div_is_ordered(k1 * dist, k2 * dist, span);
        lemma_div_is_ordered(k2 * dist, span * dist, span);
        lemma_div_is_ordered(0, k1 * dist, span);
        lemma_div_by_multiple(dist, span);
        assert(span * dist == dist * span) by (nonlinear_arith);
    }
}

} // verus!
