//! A car-like robot: one motor steers, another drives.
use vstd::prelude::*;
use crate::attribute::AttributeFile;
use crate::device::AttributeOpener;
use crate::error::Ev3Error;
use crate::attribute::AttributeName;
use crate::decimal::{decimal_text, format_i32};
use crate::motor::{AttributeWrite, Motor, clamp_i32, writes_view};
use crate::fixed_point::div_toward_zero;
use crate::parameters::Stop;

verus! {

/// The relative steering target for `percentage`, from the steering limits:
/// `left_max + right_max / 2 * (percentage / 100)` in integer arithmetic
/// rounding toward zero,
/// clamped to the `i32` range.
pub open spec fn steer_target(left_max: int, right_max: int, percentage: int) -> int {
    clamp_i32(left_max + div_toward_zero(right_max, 2) * (percentage / 100))
}

/// The writes that hold the steering motor at its stops and turn it by
/// `offset` counts.
pub fn steer_plan(offset: i32) -> (r: Vec<AttributeWrite>)
    ensures
        writes_view(r@) == seq![
            (AttributeName::StopAction, Stop::Hold.name()),
            (AttributeName::PositionSetpoint, decimal_text(offset as int)),
            (AttributeName::Command, "run-to-rel-pos"@),
        ],
{
    let text = format_i32(offset);
    let v = vec![
        AttributeWrite { name: AttributeName::StopAction, value: Stop::Hold.action_str().to_owned() },
        AttributeWrite { name: AttributeName::PositionSetpoint, value: text },
        AttributeWrite { name: AttributeName::Command, value: "run-to-rel-pos".to_owned() },
    ];
    assert(writes_view(v@) =~= seq![
        (AttributeName::StopAction, Stop::Hold.name()),
        (AttributeName::PositionSetpoint, decimal_text(offset as int)),
        (AttributeName::Command, "run-to-rel-pos"@),
    ]);
    v
}

/// A car-like robot: one motor steers, another drives.
pub struct Car<F> {
    pub steering_motor: Motor<F>,
    pub drive_motor: Motor<F>,
    /// Steering angle at the left stop.
    pub left_max: i32,
    /// Steering angle at the right stop.
    pub right_max: i32,
}

impl<F: AttributeFile> Car<F> {
    pub open spec fn wf(self) -> bool {
        self.steering_motor.wf() && self.drive_motor.wf()
    }

    /// A car whose steering motor was found to stop at `left_max` and
    /// `right_max`.
    pub fn new(steering_motor: Motor<F>, drive_motor: Motor<F>, left_max: i32, right_max: i32) -> (r: Car<F>)
        ensures
            r.steering_motor == steering_motor,
            r.drive_motor == drive_motor,
            r.left_max == left_max,
            r.right_max == right_max,
    {
        Car { steering_motor, drive_motor, left_max, right_max }
    }

    /// The relative steering target for `percentage`.
    pub fn steer_offset(&self, percentage: u8) -> (r: i32)
        ensures
            r == steer_target(self.left_max as int, self.right_max as int, percentage as int),
    {
        let m = self.right_max as i64;
        let half: i64 = if m >= 0 {
            (m as u64 / 2) as i64
        } else {
            -(((-m) as u64 / 2) as i64)
        };
        assert(half == div_toward_zero(self.right_max as int, 2));
        let k = (percentage / 100) as i64;
        assert(-0x4000_0000 <= half <= 0x4000_0000);
        assert(0 <= k <= 2);
        assert(-0x8000_0000 <= half * k <= 0x8000_0000) by (nonlinear_arith)
            requires -0x4000_0000 <= half <= 0x4000_0000, 0 <= k <= 2;
        let t = self.left_max as i64 + half * k;
        if t > i32::MAX as i64 {
            i32::MAX
        } else if t < i32::MIN as i64 {
            i32::MIN
        } else {
            t as i32
        }
    }

    /// Hold the steering motor and turn it toward `percentage` of the range:
    /// the writes of `steer_plan` for `steer_offset(percentage)`.
    pub fn steer<O: AttributeOpener<F>>(&mut self, fs: &mut O, percentage: u8) -> (r: Result<(), Ev3Error>)
        requires
            old(self).wf(),
        ensures
            final(self).wf(),
            r is Ok ==> final(self).steering_motor.driver.is_open(AttributeName::StopAction)
                && final(self).steering_motor.driver.is_open(AttributeName::PositionSetpoint)
                && final(self).steering_motor.driver.is_open(AttributeName::Command),
    {
        let target = self.steer_offset(percentage);
        let plan = steer_plan(target);
        assert(writes_view(plan@).len() == 3);
        assert(plan@.len() == 3);
        assert(writes_view(plan@)[0] == plan@[0].view() && writes_view(plan@)[1] == plan@[1].view()
            && writes_view(plan@)[2] == plan@[2].view());
        let r = self.steering_motor.apply(fs, &plan);
        assert(r is Ok ==> self.steering_motor.driver.is_open(plan@[0].name)
            && self.steering_motor.driver.is_open(plan@[1].name) && self.steering_motor.driver.is_open(plan@[2].name));
        r
    }

    /// Drive at `speed` degrees per second.
    pub fn drive_speed<O: AttributeOpener<F>>(&mut self, fs: &mut O, speed: i32) -> (r: Result<(), Ev3Error>)
        requires
            old(self).wf(),
        ensures
            final(self).wf(),
    {
        self.drive_motor.run(fs, speed)
    }

    /// Drive at duty cycle `power` percent.
    pub fn drive_power<O: AttributeOpener<F>>(&mut self, fs: &mut O, power: i32) -> (r: Result<(), Ev3Error>)
        requires
            old(self).wf(),
        ensures
            final(self).wf(),
    {
        self.drive_motor.dc(fs, power)
    }
}

} // verus!
