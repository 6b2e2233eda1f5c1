//! Fixed-point PID controller with a one-sided integral clamp.
use vstd::prelude::*;
use crate::fixed_point::{Fix, saturate, mul_bits, abs};

verus! {

/// Proportional / integral / derivative controller toward a target of zero.
///
/// The integral contribution of one step is capped from above by
/// `integral_rate`; nothing bounds it from below.
pub struct Pid {
    pub kp: Fix,
    pub ki: Fix,
    pub kd: Fix,
    pub integral_deadzone: Fix,
    pub integral_rate: Fix,
    pub integral_term: Fix,
    pub prev_measurement: Option<Fix>,
}

/// The error that a measurement stands for: its negation.
pub open spec fn error_of(measurement: Fix) -> int {
    saturate(-measurement.raw())
}

pub open spec fn min_int(a: int, b: int) -> int {
    if a <= b {
        a
    } else {
        b
    }
}

impl Pid {
    /// The gains and limits, which only `settings` changes.
    pub open spec fn same_settings(self, o: Pid) -> bool {
        &&& self.kp == o.kp
        &&& self.ki == o.ki
        &&& self.kd == o.kd
        &&& self.integral_deadzone == o.integral_deadzone
        &&& self.integral_rate == o.integral_rate
    }

    /// The proportional term for a measurement.
    pub open spec fn proportional(self, measurement: Fix) -> int {
        mul_bits(self.kp.raw(), error_of(measurement))
    }

    /// The integral accumulator after a step with this measurement.
    pub open spec fn integral_after(self, measurement: Fix) -> int {
        let e = error_of(measurement);
        if abs(e) > self.integral_deadzone.raw() {
            saturate(
                self.integral_term.raw() + min_int(
                    mul_bits(e, self.ki.raw()),
                    self.integral_rate.raw(),
                ),
            )
        } else {
            self.integral_term.raw()
        }
    }

    /// The derivative term: zero when no earlier measurement is known.
    pub open spec fn derivative(self, measurement: Fix) -> int {
        match self.prev_measurement {
            Some(prev) => mul_bits(
                saturate(-saturate(measurement.raw() - prev.raw())),
                self.kd.raw(),
            ),
            None => 0,
        }
    }

    /// The output of a step with this measurement.
    pub open spec fn output(self, measurement: Fix) -> int {
        saturate(
            saturate(self.proportional(measurement) + self.integral_after(measurement))
                + self.derivative(measurement),
        )
    }

    pub fn new(kp: Fix, ki: Fix, kd: Fix, integral_deadzone: Fix, integral_rate: Fix) -> (r: Pid)
        ensures
            r.kp == kp,
            r.ki == ki,
            r.kd == kd,
            r.integral_deadzone == integral_deadzone,
            r.integral_rate == integral_rate,
            r.integral_term.raw() == 0,
            r.prev_measurement.is_none(),
    {
        Pid {
            kp,
            ki,
            kd,
            integral_deadzone,
            integral_rate,
            integral_term: Fix::zero(),
            prev_measurement: None,
        }
    }

    /// Replace the gains and limits, keeping the accumulated state.
    pub fn settings(
        &mut self,
        kp: Fix,
        ki: Fix,
        kd: Fix,
        integral_deadzone: Fix,
        integral_rate: Fix,
    )
        ensures
            final(self).kp == kp,
            final(self).ki == ki,
            final(self).kd == kd,
            final(self).integral_deadzone == integral_deadzone,
            final(self).integral_rate == integral_rate,
            final(self).integral_term == old(self).integral_term,
            final(self).prev_measurement == old(self).prev_measurement,
    {
        self.kp = kp;
        self.ki = ki;
        self.kd = kd;
        self.integral_deadzone = integral_deadzone;
        self.integral_rate = integral_rate;
    }

    /// Clear the integral accumulator and forget the previous measurement.
    pub fn reset(&mut self)
        ensures
            final(self).same_settings(*old(self)),
            final(self).integral_term.raw() == 0,
            final(self).prev_measurement.is_none(),
    {
        self.integral_term = Fix::zero();
        self.prev_measurement = None;
    }

    /// One control step: the output for `measurement`, the signed deviation
    /// from the target.
    pub fn next(&mut self, measurement: Fix) -> (r: Fix)
        ensures
            r.raw() == old(self).output(measurement),
            final(self).same_settings(*old(self)),
            final(self).integral_term.raw() == old(self).integral_after(measurement),
            final(self).prev_measurement == Some(measurement),
    {
        let error = measurement.neg();
        let p = self.kp.mul(error);
        if error.abs().bits > self.integral_deadzone.bits {
            let step = error.mul(self.ki);
            let capped = if step.bits <= self.integral_rate.bits {
                step
            } else {
                self.integral_rate
            };
            self.integral_term = self.integral_term.add(capped);
        }
        let d = match self.prev_measurement {
            Some(prev) => measurement.sub(prev).neg().mul(self.kd),
            None => Fix::zero(),
        };
        self.prev_measurement = Some(measurement);
        p.add(self.integral_term).add(d)
    }
}

/// With all gains zero, a controller whose accumulator is clear answers a zero
/// measurement with zero, unless a negative integral cap is reached past a
/// negative deadzone.
pub proof fn lemma_zero_gains_zero_output(pid: Pid)
    requires
        pid.kp.raw() == 0,
        pid.ki.raw() == 0,
        pid.kd.raw() == 0,
        pid.integral_term.raw() == 0,
        pid.integral_deadzone.raw() >= 0 || pid.integral_rate.raw() >= 0,
    ensures
        pid.output(Fix { bits: 0 }) == 0,
{
}

/// With only a proportional gain, a controller whose accumulator is clear and
/// whose integral cap is not negative outputs exactly `kp * -measurement`.
pub proof fn lemma_proportional_only(pid: Pid, measurement: Fix)
    requires
        pid.ki.raw() == 0,
        pid.kd.raw() == 0,
        pid.integral_term.raw() == 0,
        pid.integral_rate.raw() >= 0,
    ensures
        pid.output(measurement) == mul_bits(pid.kp.raw(), saturate(-measurement.raw())),
{
    let e = error_of(measurement);
    assert(mul_bits(e, 0) == 0);
    let p = pid.proportional(measurement);
    assert(i64::MIN <= p <= i64::MAX);
}

/// Under an error beyond the deadzone, a non-negative integral gain and a
/// non-negative cap, a step never lowers the integral accumulator: repeated
/// steps with such an error only raise it.
pub proof fn lemma_integral_never_decreases(pid: Pid, measurement: Fix)
    requires
        error_of(measurement) > 0,
        error_of(measurement) > pid.integral_deadzone.raw(),
        pid.ki.raw() >= 0,
        pid.integral_rate.raw() >= 0,
    ensures
        pid.integral_after(measurement) >= pid.integral_term.raw(),
{
    let e = error_of(measurement);
    assert(e * pid.ki.raw() >= 0) by (nonlinear_arith)
        requires e > 0, pid.ki.raw() >= 0;
    assert((e * pid.ki.raw()) / crate::fixed_point::one() >= 0);
}

} // verus!
