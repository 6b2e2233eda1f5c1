//! Fusion of several gyroscopes into one heading relative to a chosen zero.
use vstd::prelude::*;
use crate::error::Ev3Error;
use crate::fixed_point::{Fix, saturate, div_bits, one};

verus! {

/// Fixed-point running sum of integers, saturating after each addition.
pub open spec fn fix_sum(s: Seq<int>) -> int
    decreases s.len(),
{
    if s.len() == 0 {
        0
    } else {
        saturate(fix_sum(s.drop_last()) + s.last() * one())
    }
}

/// Fixed-point mean of a non-empty sequence of integers.
pub open spec fn fix_mean(s: Seq<int>) -> int {
    div_bits(fix_sum(s), s.len() * one())
}

/// Element-wise difference of readings and offsets.
pub open spec fn deltas(readings: Seq<i16>, offsets: Seq<i16>) -> Seq<int> {
    Seq::new(readings.len(), |i: int| readings[i] as int - offsets[i] as int)
}

pub open spec fn widen(s: Seq<i16>) -> Seq<int> {
    Seq::new(s.len(), |i: int| s[i] as int)
}

/// The fused readings of `N` gyroscopes: one offset per gyro, the gyro's raw
/// heading at the last calibration.
pub struct GyroController {
    pub offsets: Vec<i16>,
}

/// The fixed-point sum of `s`, computed term by term.
fn sum_fixed(s: &Vec<i32>) -> (r: Fix)
    ensures
        r.raw() == fix_sum(Seq::new(s@.len(), |i: int| s@[i] as int)),
{
    let ghost w = Seq::new(s@.len(), |i: int| s@[i] as int);
    let mut acc = Fix::zero();
    let mut i: usize = 0;
    while i < s.len()
        invariant
            0 <= i <= s@.len(),
            w == Seq::new(s@.len(), |i: int| s@[i] as int),
            acc.raw() == fix_sum(w.subrange(0, i as int)),
        decreases s@.len() - i,
    {
        proof {
            assert(w.subrange(0, i as int + 1).drop_last() == w.subrange(0, i as int));
        }
        acc = acc.add(Fix::from_int(s[i]));
        i = i + 1;
    }
    proof {
        assert(w.subrange(0, s@.len() as int) == w);
    }
    acc
}

/// The fixed-point mean of `s`; `None` for an empty sequence.
fn mean_fixed(s: &Vec<i32>) -> (r: Option<Fix>)
    requires
        s@.len() <= i32::MAX,
    ensures
        s@.len() == 0 ==> r.is_none(),
        s@.len() > 0 ==> r == Some(Fix { bits: fix_mean(Seq::new(s@.len(), |i: int| s@[i] as int)) as i64 }),
{
    if s.len() == 0 {
        return None;
    }
    let total = sum_fixed(s);
    let n = Fix::from_int(s.len() as i32);
    let m = total.div(n);
    Some(m)
}

impl GyroController {
    pub open spec fn wf(self) -> bool {
        self.offsets@.len() <= i32::MAX
    }

    /// Calibrate on the current raw headings, one per gyro.
    pub fn new(headings: &Vec<i16>) -> (r: GyroController)
        requires
            headings@.len() <= i32::MAX,
        ensures
            r.wf(),
            r.offsets@ == headings@,
    {
        GyroController { offsets: headings.clone() }
    }

    pub fn len(&self) -> (r: usize)
        ensures
            r == self.offsets@.len(),
    {
        self.offsets.len()
    }

    /// The mean of each gyro's heading minus its offset. With no gyro there
    /// is nothing to average.
    pub fn heading(&self, headings: &Vec<i16>) -> (r: Result<Fix, Ev3Error>)
        requires
            self.wf(),
            headings@.len() == self.offsets@.len(),
        ensures
            self.offsets@.len() == 0 ==> r == Err::<Fix, Ev3Error>(Ev3Error::NoSensorProvided),
            self.offsets@.len() > 0 ==> r == Ok::<Fix, Ev3Error>(
                Fix { bits: fix_mean(deltas(headings@, self.offsets@)) as i64 },
            ),
    {
        let mut d: Vec<i32> = Vec::new();
        let mut i: usize = 0;
        while i < headings.len()
            invariant
                0 <= i <= headings@.len(),
                headings@.len() == self.offsets@.len(),
                d@.len() == i,
                forall|j: int| 0 <= j < i ==> d@[j] as int == headings@[j] as int - self.offsets@[j] as int,
            decreases headings@.len() - i,
        {
            d.push(headings[i] as i32 - self.offsets[i] as i32);
            i = i + 1;
        }
        assert(Seq::new(d@.len(), |i: int| d@[i] as int) == deltas(headings@, self.offsets@));
        match mean_fixed(&d) {
            Some(m) => Ok(m),
            None => Err(Ev3Error::NoSensorProvided),
        }
    }

    /// The mean of the raw rates, one per gyro.
    pub fn angular_velocity(&self, rates: &Vec<i16>) -> (r: Result<Fix, Ev3Error>)
        requires
            self.wf(),
            rates@.len() == self.offsets@.len(),
        ensures
            self.offsets@.len() == 0 ==> r == Err::<Fix, Ev3Error>(Ev3Error::NoSensorProvided),
            self.offsets@.len() > 0 ==> r == Ok::<Fix, Ev3Error>(
                Fix { bits: fix_mean(widen(rates@)) as i64 },
            ),
    {
        let mut d: Vec<i32> = Vec::new();
        let mut i: usize = 0;
        while i < rates.len()
            invariant
                0 <= i <= rates@.len(),
                d@.len() == i,
                forall|j: int| 0 <= j < i ==> d@[j] as int == rates@[j] as int,
            decreases rates@.len() - i,
        {
            d.push(rates[i] as i32);
            i = i + 1;
        }
        assert(Seq::new(d@.len(), |i: int| d@[i] as int) == widen(rates@));
        match mean_fixed(&d) {
            Some(m) => Ok(m),
            None => Err(Ev3Error::NoSensorProvided),
        }
    }

    /// Take the current raw headings as the new zero, keeping the gyro list.
    pub fn reset(&mut self, headings: &Vec<i16>)
        requires
            headings@.len() == old(self).offsets@.len(),
        ensures
            final(self).offsets@ == headings@,
            final(self).offsets@.len() == old(self).offsets@.len(),
    {
        self.offsets = headings.clone();
    }
}

proof fn lemma_sum_of_zeros(s: Seq<int>)
    requires
        forall|i: int| 0 <= i < s.len() ==> s[i] == 0,
    ensures
        fix_sum(s) == 0,
    decreases s.len(),
{
    if s.len() > 0 {
        lemma_sum_of_zeros(s.drop_last());
    }
}

/// After a reset on some readings, the fused heading on those same readings is
/// zero, whatever their absolute values.
pub proof fn lemma_heading_zero_after_reset(g: GyroController, headings: Seq<i16>)
    requires
        g.wf(),
        g.offsets@ == headings,
        headings.len() > 0,
    ensures
        fix_mean(deltas(headings, g.offsets@)) == 0,
{
    let d = deltas(headings, g.offsets@);
    lemma_sum_of_zeros(d);
    assert(div_bits(0, d.len() * one()) == 0) by (nonlinear_arith)
        requires d.len() > 0, one() > 0;
}

} // verus!
