//! Closed-loop motion of a differential-drive robot.
//!
//! The controller is a state machine: a motion is begun with `straight`,
//! `turn`, `curve` or `veer`, and then the caller feeds it one encoder (and
//! gyro) sample per tick and carries out the command it answers with, until
//! the command is to stop.
use vstd::prelude::*;
use crate::error::Ev3Error;
use crate::fixed_point::{Fix, saturate, mul_bits, div_bits, one, abs};
use crate::gyro_controller::{GyroController, fix_mean, deltas};
use crate::odometry::{
    wheel_arc, travelled, heading_delta, arc_length, mean_arc, heading_change, circumference,
    degrees, RADIANS_PER_DEGREE_BITS, DEGREES_PER_RADIAN_BITS,
};
use crate::calibration::AxleTrackSearch;
use crate::decimal::decimal_text;
use crate::attribute::AttributeName;
use crate::motor::{AttributeWrite, writes_view, run_plan, stop_plan, ramp_plan};
use crate::parameters::Stop;
use crate::pid::Pid;

verus! {

/// Milliseconds between two ticks of a motion.
pub const TICK_MS: u64 = 5;

/// Bits of the default heading tolerance, half a degree.
pub const DEFAULT_HEADING_TOLERANCE_BITS: i64 = 0x8000_0000;

/// Milliseconds over which each drive motor ramps up to and down from full
/// speed, to keep the wheels from slipping.
pub const DRIVE_RAMP_MS: i32 = 2000;

/// The writes that configure each drive motor before a drive base uses it:
/// the ramp-up and ramp-down setpoints.
pub fn drive_motor_setup() -> (r: Vec<AttributeWrite>)
    ensures
        writes_view(r@) == seq![
            (AttributeName::RampUpSetpoint, decimal_text(DRIVE_RAMP_MS as int)),
            (AttributeName::RampDownSetpoint, decimal_text(DRIVE_RAMP_MS as int)),
        ],
{
    ramp_plan(DRIVE_RAMP_MS, DRIVE_RAMP_MS)
}

/// Weight of the gyro heading in the fused heading (0.85).
pub const GYRO_WEIGHT_BITS: i64 = 3650722202;
/// Weight of the encoder heading in the fused heading (0.15).
pub const ENCODER_WEIGHT_BITS: i64 = 644245094;
/// Weight of a new encoder heading in the low-pass filter (0.7).
pub const FILTER_NEW_BITS: i64 = 3006477107;
/// Weight of the previous filtered heading in the low-pass filter (0.3).
pub const FILTER_OLD_BITS: i64 = 1288490189;

/// What the drive base reads at one tick.
pub struct TickInput {
    /// Left motor angle in degrees since the motor's own zero.
    pub left_angle: i32,
    /// Right motor angle in degrees since the motor's own zero.
    pub right_angle: i32,
    /// Raw heading of each attached gyro, in the controller's order; empty
    /// when no gyro is in use.
    pub gyro_headings: Vec<i16>,
}

/// What the motors are to do after a tick.
#[derive(Clone, Copy, Debug, PartialEq, Eq, Structural)]
pub enum DriveCommand {
    /// Run each motor at the given speed in degrees per second.
    Run { left: i32, right: i32 },
    /// The motion is over: stop both motors with this action.
    Stop { action: Stop },
}

/// The writes to the left and to the right motor that carry out `command`.
pub fn command_writes(command: DriveCommand) -> (r: (Vec<AttributeWrite>, Vec<AttributeWrite>))
    ensures
        match command {
            DriveCommand::Run { left, right } => writes_view(r.0@) == seq![
                (AttributeName::SpeedSetpoint, decimal_text(left as int)),
                (AttributeName::Command, "run-forever"@),
            ] && writes_view(r.1@) == seq![
                (AttributeName::SpeedSetpoint, decimal_text(right as int)),
                (AttributeName::Command, "run-forever"@),
            ],
            DriveCommand::Stop { action } => writes_view(r.0@) == seq![
                (AttributeName::StopAction, action.name()),
                (AttributeName::Command, "stop"@),
            ] && writes_view(r.1@) == writes_view(r.0@),
        },
{
    match command {
        DriveCommand::Run { left, right } => (run_plan(left), run_plan(right)),
        DriveCommand::Stop { action } => (stop_plan(action), stop_plan(action)),
    }
}

/// A speed in degrees per second from a fixed-point effort: clamped to
/// `[-max, max]`, otherwise rounded toward zero.
pub open spec fn speed_of(x: int, max: int) -> int {
    if x > max * one() {
        max
    } else if x < -max * one() {
        -max
    } else if x >= 0 {
        x / one()
    } else {
        -((-x) / one())
    }
}

/// A speed raised to the minimum magnitude `floor`, keeping its sign; zero
/// stays zero.
pub open spec fn floored(v: int, floor: int) -> int {
    if 0 < v < floor {
        floor
    } else if -floor < v < 0 {
        -floor
    } else {
        v
    }
}

/// Weighted sum of two fixed-point values.
pub open spec fn blend(a: int, wa: int, b: int, wb: int) -> int {
    saturate(mul_bits(a, wa) + mul_bits(b, wb))
}

fn speed_from(x: Fix, max: i32) -> (r: i32)
    requires
        max >= 0,
    ensures
        r == speed_of(x.raw(), max as int),
        -max <= r <= max,
{
    let m = max as i64 * 0x1_0000_0000i64;
    if x.bits > m {
        max
    } else if x.bits < -m {
        -max
    } else if x.bits >= 0 {
        assert(x.bits as int / one() <= max) by (nonlinear_arith)
            requires x.bits <= max as int * one(), x.bits >= 0, one() > 0;
        (x.bits as u64 / 0x1_0000_0000u64) as i32
    } else {
        assert((-x.bits) as int / one() <= max) by (nonlinear_arith)
            requires -x.bits <= max as int * one(), x.bits < 0, one() > 0;
        -(((-x.bits) as u64 / 0x1_0000_0000u64) as i32)
    }
}

fn apply_floor(v: i32, floor: i32) -> (r: i32)
    requires
        0 <= floor,
        -floor <= v || v == 0 || floor <= i32::MAX,
    ensures
        r == floored(v as int, floor as int),
{
    if 0 < v && v < floor {
        floor
    } else if -floor < v && v < 0 {
        -floor
    } else {
        v
    }
}

fn weighted(a: Fix, wa: i64, b: Fix, wb: i64) -> (r: Fix)
    ensures
        r.raw() == blend(a.raw(), wa as int, b.raw(), wb as int),
{
    a.mul(Fix::from_bits(wa)).add(b.mul(Fix::from_bits(wb)))
}

/// A differential-drive robot under closed-loop control.
pub struct DriveBase {
    pub wheel_diameter: Fix,
    pub axle_track: Fix,
    /// Encoder angles taken as zero at construction.
    pub left_zero: i32,
    pub right_zero: i32,
    /// Running targets: relative motions add onto them.
    pub distance_target: Fix,
    pub heading_target: Fix,
    pub distance_tolerance: Fix,
    pub heading_tolerance: Fix,
    /// Smallest magnitude of a commanded wheel speed.
    pub min_speed: i32,
    /// Largest magnitude of a commanded wheel speed.
    pub max_speed: i32,
    pub straight_speed: i32,
    pub turn_speed: i32,
    pub distance_pid: Pid,
    pub heading_pid: Pid,
    pub gyro: Option<GyroController>,
    pub using_gyro: bool,
    /// Low-pass filtered encoder heading, used while the gyro is off.
    pub filtered_heading: Fix,
    pub stop_action: Stop,
}

impl DriveBase {
    pub open spec fn wf(self) -> bool {
        &&& self.axle_track.raw() > 0
        &&& 0 <= self.min_speed <= self.max_speed
        &&& self.using_gyro ==> self.gyro.is_some()
        &&& self.gyro matches Some(g) ==> g.wf()
        &&& self.straight_speed >= 0
        &&& self.turn_speed >= 0
    }

    /// `self` is `o` with a motion begun: the configuration and the heading
    /// filter are kept, and both controllers are cleared.
    pub open spec fn begun_from(self, o: DriveBase) -> bool {
        &&& self.wf()
        &&& self.same_config(o)
        &&& self.filtered_heading == o.filtered_heading
        &&& self.distance_pid.integral_term.raw() == 0
        &&& self.distance_pid.prev_measurement.is_none()
        &&& self.heading_pid.integral_term.raw() == 0
        &&& self.heading_pid.prev_measurement.is_none()
    }

    /// Number of gyro readings a tick needs.
    pub open spec fn gyro_count(self) -> nat {
        if self.using_gyro {
            self.gyro.unwrap().offsets@.len()
        } else {
            0
        }
    }

    pub open spec fn left_arc(self, input: TickInput) -> int {
        arc_length(self.wheel_diameter.raw(), input.left_angle - self.left_zero)
    }

    pub open spec fn right_arc(self, input: TickInput) -> int {
        arc_length(self.wheel_diameter.raw(), input.right_angle - self.right_zero)
    }

    /// Distance travelled since construction.
    pub open spec fn spec_distance(self, input: TickInput) -> int {
        mean_arc(self.left_arc(input), self.right_arc(input))
    }

    /// Heading since construction according to the encoders alone.
    pub open spec fn spec_encoder_heading(self, input: TickInput) -> int {
        heading_change(self.left_arc(input), self.right_arc(input), self.axle_track.raw())
    }

    /// The fused gyro heading, when the gyro is in use and has gyros.
    pub open spec fn gyro_heading(self, input: TickInput) -> Option<int> {
        if self.using_gyro && self.gyro.unwrap().offsets@.len() > 0 {
            Some(fix_mean(deltas(input.gyro_headings@, self.gyro.unwrap().offsets@)))
        } else {
            None
        }
    }

    /// The heading the controller acts on at this tick.
    pub open spec fn heading(self, input: TickInput) -> int {
        match self.gyro_heading(input) {
            Some(g) => blend(g, GYRO_WEIGHT_BITS as int, self.spec_encoder_heading(input), ENCODER_WEIGHT_BITS as int),
            None => blend(
                self.spec_encoder_heading(input),
                FILTER_NEW_BITS as int,
                self.filtered_heading.raw(),
                FILTER_OLD_BITS as int,
            ),
        }
    }

    pub open spec fn distance_error(self, input: TickInput) -> int {
        saturate(self.distance_target.raw() - self.spec_distance(input))
    }

    pub open spec fn heading_error(self, input: TickInput) -> int {
        saturate(self.heading_target.raw() - self.heading(input))
    }

    /// Both errors are within their tolerance bands.
    pub open spec fn arrived(self, input: TickInput) -> bool {
        &&& saturate(abs(self.distance_error(input))) <= self.distance_tolerance.raw()
        &&& saturate(abs(self.heading_error(input))) <= self.heading_tolerance.raw()
    }

    /// Forward effort: the distance controller fed the deviation from target.
    pub open spec fn drive_effort(self, input: TickInput) -> int {
        self.distance_pid.output(self.drive_measurement(input))
    }

    /// What the distance controller is fed: the deviation from the target.
    pub open spec fn drive_measurement(self, input: TickInput) -> Fix {
        Fix { bits: saturate(-self.distance_error(input)) as i64 }
    }

    /// What the heading controller is fed: the heading error.
    pub open spec fn turn_measurement(self, input: TickInput) -> Fix {
        Fix { bits: self.heading_error(input) as i64 }
    }

    /// Turning effort: the heading controller fed the heading error, so that
    /// a positive error speeds up the left wheel.
    pub open spec fn turn_effort(self, input: TickInput) -> int {
        self.heading_pid.output(self.turn_measurement(input))
    }

    pub open spec fn forward_part(self, input: TickInput) -> int {
        mul_bits(self.drive_effort(input), self.straight_speed as int * one())
    }

    pub open spec fn turn_part(self, input: TickInput) -> int {
        mul_bits(self.turn_effort(input), self.turn_speed as int * one())
    }

    pub open spec fn left_speed(self, input: TickInput) -> int {
        floored(
            speed_of(saturate(self.forward_part(input) - self.turn_part(input)), self.max_speed as int),
            self.min_speed as int,
        )
    }

    pub open spec fn right_speed(self, input: TickInput) -> int {
        floored(
            speed_of(saturate(self.forward_part(input) + self.turn_part(input)), self.max_speed as int),
            self.min_speed as int,
        )
    }

    /// Everything but the targets, the controllers' state and the filter.
    pub open spec fn same_config(self, o: DriveBase) -> bool {
        &&& self.wheel_diameter == o.wheel_diameter
        &&& self.axle_track == o.axle_track
        &&& self.left_zero == o.left_zero
        &&& self.right_zero == o.right_zero
        &&& self.distance_tolerance == o.distance_tolerance
        &&& self.heading_tolerance == o.heading_tolerance
        &&& self.min_speed == o.min_speed
        &&& self.max_speed == o.max_speed
        &&& self.straight_speed == o.straight_speed
        &&& self.turn_speed == o.turn_speed
        &&& self.gyro == o.gyro
        &&& self.using_gyro == o.using_gyro
        &&& self.stop_action == o.stop_action
        &&& self.distance_pid.same_settings(o.distance_pid)
        &&& self.heading_pid.same_settings(o.heading_pid)
    }

    /// A drive base with wheels of `wheel_diameter` mm `axle_track` mm
    /// apart, whose motors read `left_angle` and `right_angle` now and turn
    /// at most `max_speed` degrees per second.
    pub fn new(
        wheel_diameter: Fix,
        axle_track: Fix,
        left_angle: i32,
        right_angle: i32,
        max_speed: i32,
    ) -> (r: DriveBase)
        requires
            axle_track.raw() > 0,
            max_speed >= 0,
        ensures
            r.wf(),
            r.wheel_diameter == wheel_diameter,
            r.axle_track == axle_track,
            r.left_zero == left_angle,
            r.right_zero == right_angle,
            r.max_speed == max_speed,
            r.distance_target.raw() == 0,
            r.heading_target.raw() == 0,
            r.gyro.is_none(),
            !r.using_gyro,
            r.distance_tolerance.raw() == 4 * one(),
            r.heading_tolerance.raw() == DEFAULT_HEADING_TOLERANCE_BITS,
            r.min_speed == if max_speed < 30 { max_speed } else { 30 },
            r.straight_speed == 300,
            r.turn_speed == 300,
            r.stop_action == Stop::Coast,
            r.filtered_heading.raw() == 0,
            r.distance_pid.integral_term.raw() == 0,
            r.heading_pid.integral_term.raw() == 0,
            r.distance_pid.prev_measurement.is_none(),
            r.heading_pid.prev_measurement.is_none(),
    {
        let min_speed = if max_speed < 30 { max_speed } else { 30 };
        DriveBase {
            wheel_diameter,
            axle_track,
            left_zero: left_angle,
            right_zero: right_angle,
            distance_target: Fix::zero(),
            heading_target: Fix::zero(),
            distance_tolerance: Fix::from_int(4),
            heading_tolerance: Fix::from_bits(DEFAULT_HEADING_TOLERANCE_BITS),
            min_speed,
            max_speed,
            straight_speed: 300,
            turn_speed: 300,
            distance_pid: Pid::new(
                Fix::from_ratio(1, 50),
                Fix::zero(),
                Fix::from_ratio(1, 100),
                Fix::zero(),
                Fix::zero(),
            ),
            heading_pid: Pid::new(
                Fix::from_ratio(1, 10),
                Fix::zero(),
                Fix::from_ratio(1, 20),
                Fix::zero(),
                Fix::zero(),
            ),
            gyro: None,
            using_gyro: false,
            filtered_heading: Fix::zero(),
            stop_action: Stop::Coast,
        }
    }

    /// Attach a gyro controller; it is used once `use_gyro(true)` is called.
    pub fn add_gyro(&mut self, gyro: GyroController)
        requires
            old(self).wf(),
            gyro.wf(),
        ensures
            final(self).wf(),
            final(self).gyro == Some(gyro),
            final(self).using_gyro == old(self).using_gyro,
    {
        self.gyro = Some(gyro);
    }

    /// Turn gyro fusion on or off; turning it on needs an attached gyro.
    pub fn use_gyro(&mut self, use_gyro: bool) -> (r: Result<(), Ev3Error>)
        requires
            old(self).wf(),
        ensures
            final(self).wf(),
            use_gyro && old(self).gyro.is_none() ==> r == Err::<(), Ev3Error>(Ev3Error::NoSensorProvided)
                && *final(self) == *old(self),
            !(use_gyro && old(self).gyro.is_none()) ==> r is Ok && final(self).using_gyro == use_gyro
                && final(self).gyro == old(self).gyro,
    {
        if use_gyro && self.gyro.is_none() {
            return Err(Ev3Error::NoSensorProvided);
        }
        self.using_gyro = use_gyro;
        Ok(())
    }

    /// The action the motors take when a motion ends.
    pub fn set_stop_option(&mut self, action: Stop)
        requires
            old(self).wf(),
        ensures
            final(self).wf(),
            *final(self) == (DriveBase { stop_action: action, ..*old(self) }),
    {
        self.stop_action = action;
    }

    /// The command that stops both motors with the configured action.
    pub fn stop(&self) -> (r: DriveCommand)
        ensures
            r == (DriveCommand::Stop { action: self.stop_action }),
    {
        DriveCommand::Stop { action: self.stop_action }
    }

    /// The magnitude, in degrees per second, that a full forward effort asks for.
    pub fn set_straight_speed(&mut self, speed: i32)
        requires
            old(self).wf(),
            speed >= 0,
        ensures
            final(self).wf(),
            *final(self) == (DriveBase { straight_speed: speed, ..*old(self) }),
    {
        self.straight_speed = speed;
    }

    /// The magnitude, in degrees per second, that a full turning effort asks for.
    pub fn set_turn_speed(&mut self, speed: i32)
        requires
            old(self).wf(),
            speed >= 0,
        ensures
            final(self).wf(),
            *final(self) == (DriveBase { turn_speed: speed, ..*old(self) }),
    {
        self.turn_speed = speed;
    }

    /// Replace the distance controller's gains, keeping its state.
    pub fn distance_pid_settings(&mut self, kp: Fix, ki: Fix, kd: Fix, integral_deadzone: Fix, integral_rate: Fix)
        requires
            old(self).wf(),
        ensures
            final(self).wf(),
            *final(self) == (DriveBase {
                distance_pid: Pid { kp, ki, kd, integral_deadzone, integral_rate, ..old(self).distance_pid },
                ..*old(self)
            }),
    {
        self.distance_pid.settings(kp, ki, kd, integral_deadzone, integral_rate);
    }

    /// Replace the heading controller's gains, keeping its state.
    pub fn heading_pid_settings(&mut self, kp: Fix, ki: Fix, kd: Fix, integral_deadzone: Fix, integral_rate: Fix)
        requires
            old(self).wf(),
        ensures
            final(self).wf(),
            *final(self) == (DriveBase {
                heading_pid: Pid { kp, ki, kd, integral_deadzone, integral_rate, ..old(self).heading_pid },
                ..*old(self)
            }),
    {
        self.heading_pid.settings(kp, ki, kd, integral_deadzone, integral_rate);
    }

    /// Begin a motion: clear both controllers and add `distance_mm` and
    /// `angle_deg` onto the running targets.
    pub fn drive_relative(&mut self, distance_mm: Fix, angle_deg: Fix)
        requires
            old(self).wf(),
        ensures
            final(self).begun_from(*old(self)),
            final(self).distance_target.raw() == saturate(old(self).distance_target.raw() + distance_mm.raw()),
            final(self).heading_target.raw() == saturate(old(self).heading_target.raw() + angle_deg.raw()),
            final(self).distance_pid.integral_term.raw() == 0,
            final(self).distance_pid.prev_measurement.is_none(),
            final(self).heading_pid.integral_term.raw() == 0,
            final(self).heading_pid.prev_measurement.is_none(),
            final(self).filtered_heading == old(self).filtered_heading,
    {
        self.distance_pid.reset();
        self.heading_pid.reset();
        self.distance_target = self.distance_target.add(distance_mm);
        self.heading_target = self.heading_target.add(angle_deg);
    }

    /// Begin driving `distance_mm` straight ahead (backward if negative).
    pub fn straight(&mut self, distance_mm: i32)
        requires
            old(self).wf(),
        ensures
            final(self).begun_from(*old(self)),
            final(self).distance_target.raw() == saturate(old(self).distance_target.raw() + distance_mm * one()),
            final(self).heading_target == old(self).heading_target,
            final(self).distance_pid.prev_measurement.is_none(),
            final(self).heading_pid.prev_measurement.is_none(),
    {
        self.drive_relative(Fix::from_int(distance_mm), Fix::zero());
        assert(saturate(old(self).heading_target.raw() + 0) == old(self).heading_target.raw());
    }

    /// Begin turning in place by `angle_deg`.
    pub fn turn(&mut self, angle_deg: i32)
        requires
            old(self).wf(),
        ensures
            final(self).begun_from(*old(self)),
            final(self).distance_target == old(self).distance_target,
            final(self).heading_target.raw() == saturate(old(self).heading_target.raw() + angle_deg * one()),
            final(self).distance_pid.prev_measurement.is_none(),
            final(self).heading_pid.prev_measurement.is_none(),
    {
        self.drive_relative(Fix::zero(), Fix::from_int(angle_deg));
        assert(saturate(old(self).distance_target.raw() + 0) == old(self).distance_target.raw());
    }

    /// Begin driving along a circle of `radius_mm` through `angle_deg`: the
    /// distance is the arc `|radius| * |angle in radians|`.
    pub fn curve(&mut self, radius_mm: i32, angle_deg: i32)
        requires
            old(self).wf(),
        ensures
            final(self).begun_from(*old(self)),
            final(self).distance_target.raw() == saturate(
                old(self).distance_target.raw() + mul_bits(
                    saturate(abs(radius_mm as int) * one()),
                    saturate(abs(mul_bits(angle_deg * one(), RADIANS_PER_DEGREE_BITS as int))),
                ),
            ),
            final(self).heading_target.raw() == saturate(old(self).heading_target.raw() + angle_deg * one()),
    {
        let r: i64 = if radius_mm < 0 { -(radius_mm as i64) } else { radius_mm as i64 };
        let radians = Fix::from_int(angle_deg).mul(Fix::from_bits(RADIANS_PER_DEGREE_BITS));
        let distance = Fix::from_wide_int(r).mul(radians.abs());
        self.drive_relative(distance, Fix::from_int(angle_deg));
    }

    /// Begin driving `distance_mm` while turning along a circle of
    /// `radius_mm`: the heading changes by `distance / radius` radians.
    pub fn veer(&mut self, radius_mm: i32, distance_mm: i32)
        requires
            old(self).wf(),
            radius_mm != 0,
        ensures
            final(self).begun_from(*old(self)),
            final(self).distance_target.raw() == saturate(old(self).distance_target.raw() + distance_mm * one()),
            final(self).heading_target.raw() == saturate(
                old(self).heading_target.raw() + degrees(div_bits(distance_mm * one(), radius_mm * one())),
            ),
    {
        let d = Fix::from_int(distance_mm);
        let r = Fix::from_int(radius_mm);
        assert(r.raw() != 0) by (nonlinear_arith)
            requires r.raw() == radius_mm * one(), radius_mm != 0, one() > 0;
        let angle = d.div(r).mul(Fix::from_bits(DEGREES_PER_RADIAN_BITS));
        self.drive_relative(d, angle);
    }

    /// Replace the axle track, as a calibration trial does.
    pub fn set_axle_track(&mut self, axle_track: Fix)
        requires
            old(self).wf(),
            axle_track.raw() > 0,
        ensures
            final(self).wf(),
            *final(self) == (DriveBase { axle_track, ..*old(self) }),
    {
        self.axle_track = axle_track;
    }

    /// Take the gyros' current raw headings as their new zero.
    pub fn reset_gyro(&mut self, headings: &Vec<i16>) -> (r: Result<(), Ev3Error>)
        requires
            old(self).wf(),
            old(self).gyro matches Some(g) ==> headings@.len() == g.offsets@.len(),
        ensures
            final(self).wf(),
            old(self).gyro.is_none() ==> r == Err::<(), Ev3Error>(Ev3Error::NoSensorProvided)
                && *final(self) == *old(self),
            old(self).gyro.is_some() ==> r is Ok && final(self).gyro.unwrap().offsets@ == headings@
                && final(self).using_gyro == old(self).using_gyro
                && final(self).axle_track == old(self).axle_track,
    {
        match self.gyro.as_mut() {
            Some(g) => {
                g.reset(headings);
                Ok(())
            },
            None => Err(Ev3Error::NoSensorProvided),
        }
    }

    /// Begin a search for the axle track over the current one plus or minus
    /// `margin` (the lower end not below zero); the search needs a gyro.
    pub fn find_calibrated_axle_track(&self, margin: Fix) -> (r: Result<AxleTrackSearch, Ev3Error>)
        requires
            self.wf(),
            margin.raw() >= 0,
        ensures
            self.gyro.is_none() ==> r == Err::<AxleTrackSearch, Ev3Error>(Ev3Error::NoSensorProvided),
            self.gyro.is_some() ==> r == Ok::<AxleTrackSearch, Ev3Error>(AxleTrackSearch::placed(
                if self.axle_track.raw() - margin.raw() < 0 { 0 } else { self.axle_track.raw() - margin.raw() },
                saturate(self.axle_track.raw() + margin.raw()),
            )),
            r matches Ok(s) ==> s.wf(),
    {
        if self.gyro.is_none() {
            return Err(Ev3Error::NoSensorProvided);
        }
        Ok(AxleTrackSearch::new(self.axle_track, margin))
    }

    /// Distance travelled since construction, from encoder angles.
    pub fn distance(&self, input: &TickInput) -> (r: Fix)
        ensures
            r.raw() == self.spec_distance(*input),
    {
        let l = wheel_arc(self.wheel_diameter, input.left_angle as i64 - self.left_zero as i64);
        let r = wheel_arc(self.wheel_diameter, input.right_angle as i64 - self.right_zero as i64);
        travelled(l, r)
    }

    /// Heading since construction according to the encoders alone.
    pub fn encoder_heading(&self, input: &TickInput) -> (r: Fix)
        requires
            self.wf(),
        ensures
            r.raw() == self.spec_encoder_heading(*input),
    {
        let l = wheel_arc(self.wheel_diameter, input.left_angle as i64 - self.left_zero as i64);
        let r = wheel_arc(self.wheel_diameter, input.right_angle as i64 - self.right_zero as i64);
        heading_delta(l, r, self.axle_track)
    }

    /// One tick of the current motion: stop once both errors are within
    /// tolerance, otherwise the wheel speeds that the two controllers ask for.
    pub fn tick(&mut self, input: &TickInput) -> (r: DriveCommand)
        requires
            old(self).wf(),
            input.gyro_headings@.len() == old(self).gyro_count(),
        ensures
            final(self).wf(),
            final(self).same_config(*old(self)),
            final(self).distance_target == old(self).distance_target,
            final(self).heading_target == old(self).heading_target,
            old(self).arrived(*input) ==> r == (DriveCommand::Stop { action: old(self).stop_action }),
            !old(self).arrived(*input) ==> r == (DriveCommand::Run {
                left: old(self).left_speed(*input) as i32,
                right: old(self).right_speed(*input) as i32,
            }),
            old(self).gyro_heading(*input) is None ==> final(self).filtered_heading.raw() == old(self).heading(*input),
            old(self).gyro_heading(*input) is Some ==> final(self).filtered_heading == old(self).filtered_heading,
            old(self).arrived(*input) ==> final(self).distance_pid == old(self).distance_pid
                && final(self).heading_pid == old(self).heading_pid,
            !old(self).arrived(*input) ==> final(self).distance_pid.integral_term.raw()
                == old(self).distance_pid.integral_after(old(self).drive_measurement(*input))
                && final(self).distance_pid.prev_measurement == Some(old(self).drive_measurement(*input))
                && final(self).heading_pid.integral_term.raw()
                == old(self).heading_pid.integral_after(old(self).turn_measurement(*input))
                && final(self).heading_pid.prev_measurement == Some(old(self).turn_measurement(*input)),
    {
        let distance = self.distance(input);
        let encoder = self.encoder_heading(input);
        let heading = if self.using_gyro && self.gyro.is_some() && self.gyro.as_ref().unwrap().len() > 0 {
            let g = self.gyro.as_ref().unwrap();
            match g.heading(&input.gyro_headings) {
                Ok(gh) => weighted(gh, GYRO_WEIGHT_BITS, encoder, ENCODER_WEIGHT_BITS),
                Err(_) => encoder,
            }
        } else {
            let f = weighted(encoder, FILTER_NEW_BITS, self.filtered_heading, FILTER_OLD_BITS);
            self.filtered_heading = f;
            f
        };
        assert(heading.raw() == old(self).heading(*input));
        let distance_error = self.distance_target.sub(distance);
        let heading_error = self.heading_target.sub(heading);
        if distance_error.abs().bits <= self.distance_tolerance.bits
            && heading_error.abs().bits <= self.heading_tolerance.bits {
            return DriveCommand::Stop { action: self.stop_action };
        }
        let drive = self.distance_pid.next(distance_error.neg());
        let turn = self.heading_pid.next(heading_error);
        let forward = drive.mul(Fix::from_int(self.straight_speed));
        let turning = turn.mul(Fix::from_int(self.turn_speed));
        let left = apply_floor(speed_from(forward.sub(turning), self.max_speed), self.min_speed);
        let right = apply_floor(speed_from(forward.add(turning), self.max_speed), self.min_speed);
        DriveCommand::Run { left, right }
    }
}

proof fn lemma_saturate_monotone(a: int, b: int)
    requires
        a <= b,
    ensures
        saturate(a) <= saturate(b),
{
}

proof fn lemma_speed_range(x: int, max: int)
    requires
        max >= 0,
    ensures
        -max <= speed_of(x, max) <= max,
{
    if -max * one() <= x <= max * one() {
        if x >= 0 {
            assert(0 <= x / one() <= max) by (nonlinear_arith)
                requires 0 <= x <= max * one(), one() > 0;
        } else {
            assert(0 <= (-x) / one() <= max) by (nonlinear_arith)
                requires 0 < -x <= max * one(), one() > 0;
        }
    }
}

proof fn lemma_speed_monotone(a: int, b: int, max: int)
    requires
        a <= b,
        max >= 0,
    ensures
        speed_of(a, max) <= speed_of(b, max),
{
    lemma_speed_range(a, max);
    lemma_speed_range(b, max);
    if b > max * one() || a < -max * one() {
    } else if a >= 0 {
        assert(a / one() <= b / one()) by (nonlinear_arith)
            requires 0 <= a <= b, one() > 0;
    } else if b >= 0 {
        assert((-a) / one() >= 0) by (nonlinear_arith)
            requires a < 0, one() > 0;
        assert(b / one() >= 0) by (nonlinear_arith)
            requires b >= 0, one() > 0;
    } else {
        assert((-b) / one() <= (-a) / one()) by (nonlinear_arith)
            requires 0 < -b <= -a, one() > 0;
    }
}

proof fn lemma_nonpositive_product(a: int, b: int)
    requires
        a <= 0,
        b >= 0,
    ensures
        mul_bits(a, b) <= 0,
{
    assert(a * b <= 0) by (nonlinear_arith)
        requires a <= 0, b >= 0;
    assert((a * b) / one() <= 0) by (nonlinear_arith)
        requires a * b <= 0, one() > 0;
}

/// The sign convention of turning: with a heading controller without
/// derivative gain, whose gains are not negative and whose accumulator is not
/// positive (as after a reset), a positive heading error never
/// commands the left wheel slower than the right, so the robot turns toward
/// a larger heading, which shrinks the error.
pub proof fn lemma_positive_heading_error_turns_toward_target(db: DriveBase, input: TickInput)
    requires
        db.wf(),
        db.heading_error(input) > 0,
        db.heading_pid.kp.raw() >= 0,
        db.heading_pid.ki.raw() >= 0,
        db.heading_pid.kd.raw() == 0,
        db.heading_pid.integral_term.raw() <= 0,
    ensures
        db.left_speed(input) >= db.right_speed(input),
{
    let m = Fix { bits: db.heading_error(input) as i64 };
    let pid = db.heading_pid;
    let e = crate::pid::error_of(m);
    assert(e < 0);
    lemma_nonpositive_product(e, pid.kp.raw());
    assert(pid.kp.raw() * e == e * pid.kp.raw()) by (nonlinear_arith);
    lemma_nonpositive_product(e, pid.ki.raw());
    assert(pid.integral_after(m) <= 0);
    match pid.prev_measurement {
        Some(prev) => {
            let x = saturate(-saturate(m.raw() - prev.raw()));
            assert(x * 0 == 0) by (nonlinear_arith);
        },
        None => {},
    }
    assert(pid.derivative(m) == 0);
    let t = db.turn_effort(input);
    assert(t <= 0);
    assert(db.turn_speed as int * one() >= 0) by (nonlinear_arith)
        requires db.turn_speed >= 0, one() > 0;
    lemma_nonpositive_product(t, db.turn_speed as int * one());
    let f = db.forward_part(input);
    let tp = db.turn_part(input);
    lemma_saturate_monotone(f + tp, f - tp);
    lemma_speed_monotone(saturate(f + tp), saturate(f - tp), db.max_speed as int);
}

/// Equal wheel travel keeps a straight drive straight: with the gyro off, a
/// zero heading target, a filter and heading controller at rest and equal
/// arcs, both wheels get the same speed, and the filter and the heading
/// controller stay at rest for the next tick.
pub proof fn lemma_equal_arcs_equal_speeds(db: DriveBase, input: TickInput)
    requires
        db.wf(),
        !db.using_gyro,
        db.heading_target.raw() == 0,
        db.filtered_heading.raw() == 0,
        db.heading_pid.integral_term.raw() == 0,
        db.heading_pid.integral_deadzone.raw() >= 0,
        db.heading_pid.prev_measurement.is_none() || db.heading_pid.prev_measurement == Some(Fix { bits: 0 }),
        input.left_angle - db.left_zero == input.right_angle - db.right_zero,
    ensures
        db.left_speed(input) == db.right_speed(input),
        db.heading(input) == 0,
        db.turn_measurement(input) == (Fix { bits: 0 }),
        db.heading_pid.integral_after(db.turn_measurement(input)) == 0,
{
    let arc = db.left_arc(input);
    assert(db.right_arc(input) == arc);
    crate::odometry::lemma_equal_arcs_keep_heading(arc, db.axle_track.raw());
    assert(db.spec_encoder_heading(input) == 0);
    assert(mul_bits(0, FILTER_NEW_BITS as int) == 0);
    assert(mul_bits(0, FILTER_OLD_BITS as int) == 0);
    assert(db.heading(input) == 0);
    let m = db.turn_measurement(input);
    assert(m.raw() == 0);
    let pid = db.heading_pid;
    assert(pid.kp.raw() * 0 == 0) by (nonlinear_arith);
    assert(mul_bits(pid.kp.raw(), 0) == 0);
    assert(pid.integral_after(m) == 0);
    assert(mul_bits(0, pid.kd.raw()) == 0);
    assert(pid.derivative(m) == 0);
    assert(db.turn_effort(input) == 0);
    assert(mul_bits(0, db.turn_speed as int * one()) == 0);
    assert(db.turn_part(input) == 0);
}

/// Right after construction, with the motors where they were, the drive
/// base has travelled nothing and turned by nothing.
pub proof fn lemma_fresh_drive_base_at_zero(db: DriveBase, input: TickInput)
    requires
        db.wf(),
        input.left_angle == db.left_zero,
        input.right_angle == db.right_zero,
    ensures
        db.spec_distance(input) == 0,
        db.spec_encoder_heading(input) == 0,
{
    assert(mul_bits(circumference(db.wheel_diameter.raw()), 0) == 0);
    assert(div_bits(0, 360 * one()) == 0);
    assert(db.left_arc(input) == 0);
    assert(db.right_arc(input) == 0);
    assert(div_bits(0, 2 * one()) == 0);
    crate::odometry::lemma_equal_arcs_keep_heading(0, db.axle_track.raw());
}

} // verus!
