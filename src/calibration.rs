//! Golden-section search for the axle track that makes the encoders agree
//! with the gyro.
//!
//! The search is a state machine: it names a candidate, the caller measures
//! the cost of that candidate and records it, until no candidate is left.
use vstd::prelude::*;
use crate::fixed_point::{Fix, mul_bits, one, saturate, abs};

verus! {

/// Bits of the reciprocal of the golden ratio, about 0.618.
pub const INV_PHI_BITS: i64 = 2654435769;

/// Bits of the bracket width below which the search stops (0.5).
pub const SEARCH_TOLERANCE_BITS: i64 = 0x8000_0000;

/// Bits of the golden part of a width `w`.
pub open spec fn golden_part(w: int) -> int {
    mul_bits(w, INV_PHI_BITS as int)
}

/// `f` falls strictly up to `m` and rises strictly after it.
pub open spec fn unimodal(f: spec_fn(int) -> int, m: int) -> bool {
    &&& forall|x: int, y: int| x < y <= m ==> #[trigger] f(x) > #[trigger] f(y)
    &&& forall|x: int, y: int| m <= x < y ==> #[trigger] f(x) < #[trigger] f(y)
}

/// The state of a search over `[lo, hi]`, with two inner points and the
/// costs measured at them so far.
#[derive(Clone, Copy, Debug, PartialEq, Eq, Structural)]
pub struct AxleTrackSearch {
    pub lo: Fix,
    pub hi: Fix,
    pub inner_lo: Fix,
    pub inner_hi: Fix,
    pub cost_lo: Option<Fix>,
    pub cost_hi: Option<Fix>,
}

proof fn lemma_golden_part(w: int)
    requires
        w >= SEARCH_TOLERANCE_BITS,
        w <= i64::MAX,
    ensures
        0 < golden_part(w) < w,
        2 * golden_part(w) > w,
{
    let g = INV_PHI_BITS as int;
    let p = w * g;
    assert(0 <= p < w * one()) by (nonlinear_arith)
        requires w > 0, 0 < g < one(), p == w * g;
    let s = p / one();
    assert(s * one() <= p < s * one() + one()) by (nonlinear_arith)
        requires s == p / one(), one() > 0;
    assert(s < w) by (nonlinear_arith)
        requires s * one() <= p, p < w * one(), one() > 0;
    assert(0 <= s) by (nonlinear_arith)
        requires s * one() + one() > p, p >= 0, one() > 0;
    assert(w * (2 * g - one()) > 2 * one()) by (nonlinear_arith)
        requires w >= 0x8000_0000, 2 * g - one() == 1013904242, one() == 0x1_0000_0000;
    assert(2 * s > w) by (nonlinear_arith)
        requires p < s * one() + one(), p == w * g, w * (2 * g - one()) > 2 * one(), one() > 0;
    assert(saturate(s) == s);
}

impl AxleTrackSearch {
    pub open spec fn width(self) -> int {
        self.hi.raw() - self.lo.raw()
    }

    /// No candidate is left: the bracket is narrower than the tolerance.
    pub open spec fn done(self) -> bool {
        self.width() < SEARCH_TOLERANCE_BITS
    }

    pub open spec fn wf(self) -> bool {
        &&& 0 <= self.lo.raw() <= self.hi.raw()
        &&& !self.done() ==> self.lo.raw() < self.inner_lo.raw() < self.inner_hi.raw() < self.hi.raw()
        &&& !(self.cost_lo.is_some() && self.cost_hi.is_some())
    }

    /// The minimum of a cost lies in the bracket.
    pub open spec fn brackets(self, m: int) -> bool {
        self.lo.raw() <= m <= self.hi.raw()
    }

    /// Inner points placed at the golden parts of the bracket, costs unknown.
    pub open spec fn placed(lo: int, hi: int) -> AxleTrackSearch {
        AxleTrackSearch {
            lo: Fix { bits: lo as i64 },
            hi: Fix { bits: hi as i64 },
            inner_lo: Fix { bits: (hi - golden_part(hi - lo)) as i64 },
            inner_hi: Fix { bits: (lo + golden_part(hi - lo)) as i64 },
            cost_lo: None,
            cost_hi: None,
        }
    }

    /// The next candidate to measure.
    pub open spec fn candidate(self) -> Fix {
        if self.cost_lo.is_none() {
            self.inner_lo
        } else {
            self.inner_hi
        }
    }

    /// Keep `[lo, hi]`, reusing the known inner point `keep` with its cost
    /// when the reflected point `other` is ordered with it, and placing both
    /// afresh otherwise.
    pub open spec fn narrowed(lo: int, hi: int, keep_lo: bool, keep: int, cost: Fix) -> AxleTrackSearch {
        let other = lo + hi - keep;
        if hi - lo < SEARCH_TOLERANCE_BITS {
            AxleTrackSearch::placed(lo, hi)
        } else if keep_lo && lo < keep < other < hi {
            AxleTrackSearch {
                lo: Fix { bits: lo as i64 },
                hi: Fix { bits: hi as i64 },
                inner_lo: Fix { bits: keep as i64 },
                inner_hi: Fix { bits: other as i64 },
                cost_lo: Some(cost),
                cost_hi: None,
            }
        } else if !keep_lo && lo < other < keep < hi {
            AxleTrackSearch {
                lo: Fix { bits: lo as i64 },
                hi: Fix { bits: hi as i64 },
                inner_lo: Fix { bits: other as i64 },
                inner_hi: Fix { bits: keep as i64 },
                cost_lo: None,
                cost_hi: Some(cost),
            }
        } else {
            AxleTrackSearch::placed(lo, hi)
        }
    }

    /// The recorded costs are those of `f` at the inner points.
    pub open spec fn measured_by(self, f: spec_fn(int) -> i64) -> bool {
        &&& (self.cost_lo matches Some(c) ==> c.bits == f(self.inner_lo.raw()))
        &&& (self.cost_hi matches Some(d) ==> d.bits == f(self.inner_hi.raw()))
    }

    /// How many of the two inner costs are still unknown.
    pub open spec fn missing(self) -> int {
        (if self.cost_lo.is_none() { 1int } else { 0int }) + (if self.cost_hi.is_none() { 1int } else { 0int })
    }

    /// Narrow the bracket once both inner costs are known: toward the lower
    /// inner point when its cost is smaller, else toward the upper one.
    pub open spec fn narrow(self) -> AxleTrackSearch {
        let c = self.cost_lo.unwrap();
        let d = self.cost_hi.unwrap();
        if c.raw() < d.raw() {
            AxleTrackSearch::narrowed(self.lo.raw(), self.inner_hi.raw(), false, self.inner_lo.raw(), c)
        } else {
            AxleTrackSearch::narrowed(self.inner_lo.raw(), self.hi.raw(), true, self.inner_hi.raw(), d)
        }
    }

    /// The state after recording `cost` for the current candidate.
    pub open spec fn after(self, cost: Fix) -> AxleTrackSearch {
        let s = if self.cost_lo.is_none() {
            AxleTrackSearch { cost_lo: Some(cost), ..self }
        } else {
            AxleTrackSearch { cost_hi: Some(cost), ..self }
        };
        if s.cost_lo.is_some() && s.cost_hi.is_some() {
            s.narrow()
        } else {
            s
        }
    }

    /// The estimate that the search settles on: the middle of the bracket.
    pub open spec fn estimate(self) -> int {
        self.lo.raw() + (self.width() / 2)
    }

    fn place(lo: i64, hi: i64) -> (r: AxleTrackSearch)
        requires
            0 <= lo <= hi,
        ensures
            r == AxleTrackSearch::placed(lo as int, hi as int),
            r.wf(),
    {
        proof {
            lemma_placed_wf(lo as int, hi as int);
        }
        let w = hi - lo;
        let step = Fix::from_bits(w).mul(Fix::from_bits(INV_PHI_BITS));
        let ghost s = golden_part(w as int);
        if w >= SEARCH_TOLERANCE_BITS {
            proof {
                lemma_golden_part(w as int);
            }
            AxleTrackSearch {
                lo: Fix::from_bits(lo),
                hi: Fix::from_bits(hi),
                inner_lo: Fix::from_bits(hi - step.bits),
                inner_hi: Fix::from_bits(lo + step.bits),
                cost_lo: None,
                cost_hi: None,
            }
        } else {
            assert(0 <= w * INV_PHI_BITS as int <= w * one()) by (nonlinear_arith)
                requires w >= 0, 0 < INV_PHI_BITS < one();
            assert(w * one() / one() == w) by (nonlinear_arith)
                requires one() > 0;
            assert((w * INV_PHI_BITS as int) / one() <= w) by (nonlinear_arith)
                requires 0 <= w * INV_PHI_BITS as int <= w * one(), one() > 0, w * one() / one() == w;
            assert(0 <= (w * INV_PHI_BITS as int) / one()) by (nonlinear_arith)
                requires 0 <= w * INV_PHI_BITS as int, one() > 0;
            AxleTrackSearch {
                lo: Fix::from_bits(lo),
                hi: Fix::from_bits(hi),
                inner_lo: Fix::from_bits(hi - step.bits),
                inner_hi: Fix::from_bits(lo + step.bits),
                cost_lo: None,
                cost_hi: None,
            }
        }
    }

    /// A search over `[max(centre - margin, 0), centre + margin]`.
    pub fn new(centre: Fix, margin: Fix) -> (r: AxleTrackSearch)
        requires
            centre.raw() >= 0,
            margin.raw() >= 0,
        ensures
            r.wf(),
            r == AxleTrackSearch::placed(
                if centre.raw() - margin.raw() < 0 { 0 } else { centre.raw() - margin.raw() },
                saturate(centre.raw() + margin.raw()),
            ),
    {
        let lo = if centre.bits - margin.bits < 0 { 0 } else { centre.bits - margin.bits };
        let hi = centre.add(margin).bits;
        AxleTrackSearch::place(lo, hi)
    }

    /// The candidate whose cost is needed next; `None` once the search is over.
    pub fn next_candidate(&self) -> (r: Option<Fix>)
        requires
            self.wf(),
        ensures
            self.done() ==> r.is_none(),
            !self.done() ==> r == Some(self.candidate()) && self.lo.raw() < r.unwrap().raw() < self.hi.raw(),
    {
        if self.hi.bits - self.lo.bits < SEARCH_TOLERANCE_BITS {
            None
        } else if self.cost_lo.is_none() {
            Some(self.inner_lo)
        } else {
            Some(self.inner_hi)
        }
    }

    /// Record the cost measured at the current candidate, narrowing the
    /// bracket once both inner points are measured.
    pub fn record(&mut self, cost: Fix)
        requires
            old(self).wf(),
            !old(self).done(),
        ensures
            final(self).wf(),
            *final(self) == old(self).after(cost),
            final(self).width() < old(self).width()
                || (final(self).width() == old(self).width() && final(self).missing() < old(self).missing()),
    {
        if self.cost_lo.is_none() {
            self.cost_lo = Some(cost);
        } else {
            self.cost_hi = Some(cost);
        }
        let (c, d) = match (self.cost_lo, self.cost_hi) {
            (Some(c), Some(d)) => (c, d),
            _ => {
                return;
            },
        };
        if c.bits < d.bits {
            let lo = self.lo.bits;
            let hi = self.inner_hi.bits;
            let keep = self.inner_lo.bits;
            let other = lo + (hi - keep);
            if hi - lo >= SEARCH_TOLERANCE_BITS && lo < other && other < keep {
                *self = AxleTrackSearch {
                    lo: self.lo,
                    hi: self.inner_hi,
                    inner_lo: Fix::from_bits(other),
                    inner_hi: self.inner_lo,
                    cost_lo: None,
                    cost_hi: Some(c),
                };
            } else {
                *self = AxleTrackSearch::place(lo, hi);
            }
        } else {
            let lo = self.inner_lo.bits;
            let hi = self.hi.bits;
            let keep = self.inner_hi.bits;
            let other = lo + (hi - keep);
            if hi - lo >= SEARCH_TOLERANCE_BITS && keep < other && other < hi {
                *self = AxleTrackSearch {
                    lo: self.inner_lo,
                    hi: self.hi,
                    inner_lo: self.inner_hi,
                    inner_hi: Fix::from_bits(other),
                    cost_lo: Some(d),
                    cost_hi: None,
                };
            } else {
                *self = AxleTrackSearch::place(lo, hi);
            }
        }
    }

    /// The middle of the bracket.
    pub fn result(&self) -> (r: Fix)
        requires
            self.wf(),
        ensures
            r.raw() == self.estimate(),
    {
        let half = ((self.hi.bits - self.lo.bits) as u64 / 2) as i64;
        Fix::from_bits(self.lo.bits + half)
    }
}

/// The state after `steps` rounds in which each candidate's cost is `f` of it.
pub open spec fn run(s: AxleTrackSearch, f: spec_fn(int) -> i64, steps: nat) -> AxleTrackSearch
    decreases steps,
{
    if steps == 0 || s.done() {
        s
    } else {
        run(s.after(Fix { bits: f(s.candidate().raw()) }), f, (steps - 1) as nat)
    }
}

/// A bound on the rounds left: each round narrows the bracket or fills in a cost.
pub open spec fn rounds_left(s: AxleTrackSearch) -> int {
    3 * s.width() + s.missing()
}

proof fn lemma_placed_wf(lo: int, hi: int)
    requires
        0 <= lo <= hi <= i64::MAX,
    ensures
        AxleTrackSearch::placed(lo, hi).wf(),
{
    if hi - lo >= SEARCH_TOLERANCE_BITS {
        lemma_golden_part(hi - lo);
    }
}

/// One round fed by a unimodal cost keeps the search well formed, keeps the
/// minimum in the bracket, keeps the recorded costs those of the cost
/// function, and brings the end closer.
pub proof fn lemma_round_keeps_minimum(s: AxleTrackSearch, f: spec_fn(int) -> i64, m: int)
    requires
        s.wf(),
        !s.done(),
        s.brackets(m),
        s.measured_by(f),
        unimodal(|x: int| f(x) as int, m),
    ensures
        ({
            let t = s.after(Fix { bits: f(s.candidate().raw()) });
            &&& t.wf()
            &&& t.brackets(m)
            &&& t.measured_by(f)
            &&& rounds_left(t) < rounds_left(s)
        }),
{
    let g = |x: int| f(x) as int;
    let cost = Fix { bits: f(s.candidate().raw()) };
    let s1 = if s.cost_lo.is_none() {
        AxleTrackSearch { cost_lo: Some(cost), ..s }
    } else {
        AxleTrackSearch { cost_hi: Some(cost), ..s }
    };
    if s1.cost_lo.is_some() && s1.cost_hi.is_some() {
        let a = s.inner_lo.raw();
        let b = s.inner_hi.raw();
        assert(s1.cost_lo.unwrap().raw() == g(a));
        assert(s1.cost_hi.unwrap().raw() == g(b));
        if g(a) < g(b) {
            if m >= b {
                assert(g(a) > g(b));
            }
            lemma_placed_wf(s.lo.raw(), b);
        } else {
            if m <= a {
                assert(g(a) < g(b));
            }
            lemma_placed_wf(a, s.hi.raw());
        }
    }
}

/// Once the search is over, the middle of a bracket that holds `m` is within
/// the tolerance (one half) of `m`.
pub proof fn lemma_estimate_near(s: AxleTrackSearch, m: int)
    requires
        s.wf(),
        s.done(),
        s.brackets(m),
    ensures
        abs(s.estimate() - m) < SEARCH_TOLERANCE_BITS,
{
}

/// Fed by a cost that is unimodal with its minimum `m` in the bracket, the
/// search ends within `rounds_left` rounds, and its estimate is within one
/// half of `m`.
pub proof fn lemma_search_converges(s: AxleTrackSearch, f: spec_fn(int) -> i64, m: int, steps: nat)
    requires
        s.wf(),
        s.brackets(m),
        s.measured_by(f),
        unimodal(|x: int| f(x) as int, m),
        steps >= rounds_left(s),
    ensures
        run(s, f, steps).done(),
        run(s, f, steps).brackets(m),
        abs(run(s, f, steps).estimate() - m) < SEARCH_TOLERANCE_BITS,
    decreases steps,
{
    if s.done() {
        lemma_estimate_near(s, m);
    } else {
        lemma_round_keeps_minimum(s, f, m);
        let t = s.after(Fix { bits: f(s.candidate().raw()) });
        lemma_search_converges(t, f, m, (steps - 1) as nat);
    }
}

/// The cost of an axle-track candidate: how far the turn the encoders report
/// is from the turn the gyro reports.
pub fn turn_discrepancy(gyro_turn: Fix, encoder_turn: Fix) -> (r: Fix)
    ensures
        r.raw() == saturate(abs(saturate(gyro_turn.raw() - encoder_turn.raw()))),
{
    gyro_turn.sub(encoder_turn).abs()
}

} // verus!
