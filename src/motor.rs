//! A tacho motor on an output port.
use vstd::prelude::*;
use crate::attribute::{AttributeFile, AttributeName, trimmed};
use crate::decimal::{format_i32, parse_i32, decimal_text, decimal_value, parses_to_i32};
use crate::device::{AttributeOpener, DeviceDriver, DeviceEntry, resolve_motor};
use crate::error::Ev3Error;
use crate::fixed_point::div_toward_zero;
use crate::parameters::{Direction, MotorPort, Stop};

verus! {

/// One value to write to one attribute.
pub struct AttributeWrite {
    pub name: AttributeName,
    pub value: String,
}

impl AttributeWrite {
    pub open spec fn view(self) -> (AttributeName, Seq<char>) {
        (self.name, self.value@)
    }
}

pub open spec fn writes_view(w: Seq<AttributeWrite>) -> Seq<(AttributeName, Seq<char>)> {
    w.map_values(|x: AttributeWrite| x.view())
}

fn write_of(name: AttributeName, value: &str) -> (r: AttributeWrite)
    ensures
        r.view() == (name, value@),
{
    AttributeWrite { name, value: value.to_owned() }
}

/// Degrees turned for a position of `position` encoder counts, with
/// `counts` counts per rotation, rounded toward zero.
pub open spec fn degrees_of(position: int, counts: int) -> int {
    div_toward_zero(position * 360, counts)
}

pub open spec fn clamp_i32(x: int) -> int {
    if x > i32::MAX {
        i32::MAX as int
    } else if x < i32::MIN {
        i32::MIN as int
    } else {
        x
    }
}

/// The writes that set a motor's polarity for `direction` and zero its
/// position.
pub fn setup_plan(direction: Direction) -> (r: Vec<AttributeWrite>)
    ensures
        direction == Direction::CounterClockWise ==> writes_view(r@) == seq![
            (AttributeName::Polarity, "inversed"@),
            (AttributeName::Position, "0"@),
        ],
        direction == Direction::ClockWise ==> writes_view(r@) == seq![
            (AttributeName::Position, "0"@),
        ],
{
    let mut v = Vec::new();
    if direction == Direction::CounterClockWise {
        v.push(write_of(AttributeName::Polarity, "inversed"));
    }
    v.push(write_of(AttributeName::Position, "0"));
    assert(writes_view(v@) =~= if direction == Direction::CounterClockWise {
        seq![(AttributeName::Polarity, "inversed"@), (AttributeName::Position, "0"@)]
    } else {
        seq![(AttributeName::Position, "0"@)]
    });
    v
}

/// The writes that run a motor at `speed` degrees per second until told
/// otherwise.
pub fn run_plan(speed: i32) -> (r: Vec<AttributeWrite>)
    ensures
        writes_view(r@) == seq![
            (AttributeName::SpeedSetpoint, decimal_text(speed as int)),
            (AttributeName::Command, "run-forever"@),
        ],
{
    let text = format_i32(speed);
    let v = vec![write_of(AttributeName::SpeedSetpoint, text.as_str()), write_of(AttributeName::Command, "run-forever")];
    assert(writes_view(v@) =~= seq![
        (AttributeName::SpeedSetpoint, decimal_text(speed as int)),
        (AttributeName::Command, "run-forever"@),
    ]);
    v
}

/// The writes that run a motor at duty cycle `duty` percent.
pub fn dc_plan(duty: i32) -> (r: Vec<AttributeWrite>)
    ensures
        writes_view(r@) == seq![
            (AttributeName::DutyCycleSetpoint, decimal_text(duty as int)),
            (AttributeName::Command, "run-forever"@),
        ],
{
    let text = format_i32(duty);
    let v = vec![write_of(AttributeName::DutyCycleSetpoint, text.as_str()), write_of(AttributeName::Command, "run-forever")];
    assert(writes_view(v@) =~= seq![
        (AttributeName::DutyCycleSetpoint, decimal_text(duty as int)),
        (AttributeName::Command, "run-forever"@),
    ]);
    v
}

/// The writes that stop a motor with `action`.
pub fn stop_plan(action: Stop) -> (r: Vec<AttributeWrite>)
    ensures
        writes_view(r@) == seq![
            (AttributeName::StopAction, action.name()),
            (AttributeName::Command, "stop"@),
        ],
{
    let v = vec![write_of(AttributeName::StopAction, action.action_str()), write_of(AttributeName::Command, "stop")];
    assert(writes_view(v@) =~= seq![
        (AttributeName::StopAction, action.name()),
        (AttributeName::Command, "stop"@),
    ]);
    v
}

/// The writes that choose `action` for later stops.
pub fn stop_action_plan(action: Stop) -> (r: Vec<AttributeWrite>)
    ensures
        writes_view(r@) == seq![(AttributeName::StopAction, action.name())],
{
    let v = vec![write_of(AttributeName::StopAction, action.action_str())];
    assert(writes_view(v@) =~= seq![(AttributeName::StopAction, action.name())]);
    v
}

/// The writes that set the times in milliseconds to ramp up to and down from
/// full speed.
pub fn ramp_plan(up_ms: i32, down_ms: i32) -> (r: Vec<AttributeWrite>)
    ensures
        writes_view(r@) == seq![
            (AttributeName::RampUpSetpoint, decimal_text(up_ms as int)),
            (AttributeName::RampDownSetpoint, decimal_text(down_ms as int)),
        ],
{
    let up = format_i32(up_ms);
    let down = format_i32(down_ms);
    let v = vec![write_of(AttributeName::RampUpSetpoint, up.as_str()), write_of(AttributeName::RampDownSetpoint, down.as_str())];
    assert(writes_view(v@) =~= seq![
        (AttributeName::RampUpSetpoint, decimal_text(up_ms as int)),
        (AttributeName::RampDownSetpoint, decimal_text(down_ms as int)),
    ]);
    v
}

/// The writes that turn a motor at `speed` counts per second to `position`
/// counts, relative to where it is or absolute.
pub fn run_to_plan(speed: i32, position: i32, absolute: bool) -> (r: Vec<AttributeWrite>)
    ensures
        writes_view(r@) == seq![
            (AttributeName::SpeedSetpoint, decimal_text(speed as int)),
            (AttributeName::PositionSetpoint, decimal_text(position as int)),
            (AttributeName::Command, if absolute { "run-to-abs-pos"@ } else { "run-to-rel-pos"@ }),
        ],
{
    let s = format_i32(speed);
    let p = format_i32(position);
    let c = if absolute { "run-to-abs-pos" } else { "run-to-rel-pos" };
    let v = vec![
        write_of(AttributeName::SpeedSetpoint, s.as_str()),
        write_of(AttributeName::PositionSetpoint, p.as_str()),
        write_of(AttributeName::Command, c),
    ];
    assert(writes_view(v@) =~= seq![
        (AttributeName::SpeedSetpoint, decimal_text(speed as int)),
        (AttributeName::PositionSetpoint, decimal_text(position as int)),
        (AttributeName::Command, if absolute { "run-to-abs-pos"@ } else { "run-to-rel-pos"@ }),
    ]);
    v
}

/// The writes that run a motor at `speed` counts per second for `ms`
/// milliseconds.
pub fn run_timed_plan(speed: i32, ms: i32) -> (r: Vec<AttributeWrite>)
    ensures
        writes_view(r@) == seq![
            (AttributeName::TimeSetpoint, decimal_text(ms as int)),
            (AttributeName::SpeedSetpoint, decimal_text(speed as int)),
            (AttributeName::Command, "run-timed"@),
        ],
{
    let t = format_i32(ms);
    let s = format_i32(speed);
    let v = vec![
        write_of(AttributeName::TimeSetpoint, t.as_str()),
        write_of(AttributeName::SpeedSetpoint, s.as_str()),
        write_of(AttributeName::Command, "run-timed"),
    ];
    assert(writes_view(v@) =~= seq![
        (AttributeName::TimeSetpoint, decimal_text(ms as int)),
        (AttributeName::SpeedSetpoint, decimal_text(speed as int)),
        (AttributeName::Command, "run-timed"@),
    ]);
    v
}

/// The write that stops a motor with the stop action it already has.
pub fn stop_command_plan() -> (r: Vec<AttributeWrite>)
    ensures
        writes_view(r@) == seq![(AttributeName::Command, "stop"@)],
{
    let v = vec![write_of(AttributeName::Command, "stop")];
    assert(writes_view(v@) =~= seq![(AttributeName::Command, "stop"@)]);
    v
}

/// The counts per rotation that a `count_per_rot` text gives: a positive
/// decimal integer; zero or less is an invalid value.
pub fn counts_from_text(text: &str) -> (r: Result<i32, Ev3Error>)
    ensures
        parses_to_i32(text@) && decimal_value(text@).unwrap() > 0 ==> r == Ok::<i32, Ev3Error>(
            decimal_value(text@).unwrap() as i32,
        ),
        parses_to_i32(text@) && decimal_value(text@).unwrap() <= 0 ==> (r matches Err(
            Ev3Error::InvalidValue { func: _, value },
        ) && value@ == decimal_text(decimal_value(text@).unwrap())),
        !parses_to_i32(text@) ==> (r matches Err(Ev3Error::ParseInt { input }) && input@ == text@),
{
    match parse_i32(text) {
        Ok(c) => {
            if c <= 0 {
                Err(Ev3Error::InvalidValue { func: "Motor::new".to_owned(), value: format_i32(c) })
            } else {
                Ok(c)
            }
        },
        Err(e) => Err(e),
    }
}

/// A tacho motor.
pub struct Motor<F> {
    pub driver: DeviceDriver<F>,
    /// Encoder counts in one full rotation.
    pub counts_per_rot: i32,
}

/// Apply `writes` in order, stopping at the first failure.
pub fn apply_writes<F: AttributeFile, O: AttributeOpener<F>>(
    driver: &mut DeviceDriver<F>,
    fs: &mut O,
    writes: &Vec<AttributeWrite>,
) -> (r: Result<(), Ev3Error>)
    requires
        old(driver).wf(),
    ensures
        final(driver).wf(),
        final(driver).base_path == old(driver).base_path,
        r is Ok ==> forall|k: int| 0 <= k < writes@.len() ==> final(driver).is_open(#[trigger] writes@[k].name),
        r matches Err(e) ==> (e is FileNotFound || e is WriteAttributeFailure || e is PermissionDenied),
{
    let mut i: usize = 0;
    while i < writes.len()
        invariant
            driver.wf(),
            driver.base_path == old(driver).base_path,
            0 <= i <= writes@.len(),
            forall|k: int| 0 <= k < i ==> driver.is_open(#[trigger] writes@[k].name),
        decreases writes@.len() - i,
    {
        let w = &writes[i];
        match driver.set_attribute(fs, w.name, w.value.as_str()) {
            Ok(()) => {},
            Err(e) => {
                return Err(e);
            },
        }
        i = i + 1;
    }
    Ok(())
}

impl<F: AttributeFile> Motor<F> {
    pub open spec fn wf(self) -> bool {
        self.driver.wf() && self.counts_per_rot > 0
    }


    /// The motor on `port` among the motor directories `entries`: its
    /// polarity is set for `direction` and its position zeroed.
    pub fn new<O: AttributeOpener<F>>(
        fs: &mut O,
        entries: &Vec<DeviceEntry>,
        port: MotorPort,
        direction: Direction,
    ) -> (r: Result<Motor<F>, Ev3Error>)
        ensures
            (forall|j: int| 0 <= j < entries@.len() ==> !(#[trigger] entries@[j]).is_motor_on(port))
                ==> r == Err::<Motor<F>, Ev3Error>(Ev3Error::MotorNotFound { port }),
            match r {
                Ok(m) => m.wf() && (exists|i: int| 0 <= i < entries@.len()
                    && (#[trigger] entries@[i]).is_motor_on(port) && m.driver.base_path == entries@[i].path
                    && forall|j: int| 0 <= j < i ==> !(#[trigger] entries@[j]).is_motor_on(port))
                    && (exists|text: Seq<char>| parses_to_i32(#[trigger] trimmed(text))
                        && m.counts_per_rot == decimal_value(trimmed(text)).unwrap() && m.counts_per_rot > 0),
                Err(Ev3Error::MotorNotFound { port: p }) => p == port
                    && forall|j: int| 0 <= j < entries@.len() ==> !(#[trigger] entries@[j]).is_motor_on(port),
                Err(Ev3Error::InvalidValue { func: _, value: _ }) =>
                    (exists|i: int| 0 <= i < entries@.len() && (#[trigger] entries@[i]).is_motor_on(port))
                    && exists|text: Seq<char>| parses_to_i32(#[trigger] trimmed(text))
                        && decimal_value(trimmed(text)).unwrap() <= 0,
                Err(_) => exists|i: int| 0 <= i < entries@.len() && (#[trigger] entries@[i]).is_motor_on(port),
            },
    {
        let i = match resolve_motor(entries, port) {
            Ok(i) => i,
            Err(e) => {
                return Err(e);
            },
        };
        let mut driver = DeviceDriver::new(entries[i].path.clone());
        assert(entries@[i as int].is_motor_on(port));
        let counts = match driver.read_attribute(fs, AttributeName::CountPerRotation) {
            Ok(text) => match counts_from_text(text.as_str()) {
                Ok(c) => c,
                Err(e) => {
                    return Err(e);
                },
            },
            Err(e) => {
                return Err(e);
            },
        };
        match apply_writes(&mut driver, fs, &setup_plan(direction)) {
            Ok(()) => {},
            Err(e) => {
                return Err(e);
            },
        }
        Ok(Motor { driver, counts_per_rot: counts })
    }

    /// The degrees a `position` text stands for, clamped to the `i32` range.
    pub fn degrees_from_position(text: &str, counts_per_rot: i32) -> (r: Result<i32, Ev3Error>)
        requires
            counts_per_rot > 0,
        ensures
            parses_to_i32(text@) ==> r == Ok::<i32, Ev3Error>(
                clamp_i32(degrees_of(decimal_value(text@).unwrap(), counts_per_rot as int)) as i32,
            ),
            !parses_to_i32(text@) ==> r is Err,
    {
        let position = match parse_i32(text) {
            Ok(p) => p,
            Err(e) => {
                return Err(e);
            },
        };
        let scaled = position as i64 * 360;
        let c = counts_per_rot as i64;
        let q: i64 = if scaled >= 0 {
            (scaled as u64 / c as u64) as i64
        } else {
            -(((-scaled) as u64 / c as u64) as i64)
        };
        assert(q == degrees_of(position as int, c as int));
        if q > i32::MAX as i64 {
            Ok(i32::MAX)
        } else if q < i32::MIN as i64 {
            Ok(i32::MIN)
        } else {
            Ok(q as i32)
        }
    }





    /// Degrees turned since the position was last zeroed.
    pub fn get_angle<O: AttributeOpener<F>>(&mut self, fs: &mut O) -> (r: Result<i32, Ev3Error>)
        requires
            old(self).wf(),
        ensures
            final(self).wf(),
            final(self).counts_per_rot == old(self).counts_per_rot,
            final(self).driver.base_path == old(self).driver.base_path,
            r matches Ok(d) ==> exists|text: Seq<char>| parses_to_i32(#[trigger] trimmed(text))
                && d == clamp_i32(degrees_of(decimal_value(trimmed(text)).unwrap(), old(self).counts_per_rot as int)),
    {
        let text = match self.driver.read_attribute(fs, AttributeName::Position) {
            Ok(t) => t,
            Err(e) => {
                return Err(e);
            },
        };
        Motor::<F>::degrees_from_position(text.as_str(), self.counts_per_rot)
    }

    /// Whether the motor's `state` holds `flag` (such as `running` or
    /// `stalled`).
    pub fn has_state<O: AttributeOpener<F>>(&mut self, fs: &mut O, flag: &str) -> (r: Result<bool, Ev3Error>)
        requires
            old(self).wf(),
            flag.is_ascii(),
            flag@.len() > 0,
        ensures
            final(self).wf(),
            final(self).counts_per_rot == old(self).counts_per_rot,
            final(self).driver.base_path == old(self).driver.base_path,
    {
        let text = match self.driver.read_attribute(fs, AttributeName::State) {
            Ok(t) => t,
            Err(e) => {
                return Err(e);
            },
        };
        if !text.as_str().is_ascii() {
            return Err(Ev3Error::InvalidValue { func: "Motor::has_state".to_owned(), value: text });
        }
        Ok(state_has(text.as_str(), flag))
    }

    /// Whether the motor is running.
    pub fn is_running<O: AttributeOpener<F>>(&mut self, fs: &mut O) -> (r: Result<bool, Ev3Error>)
        requires
            old(self).wf(),
        ensures
            final(self).wf(),
            final(self).counts_per_rot == old(self).counts_per_rot,
            final(self).driver.base_path == old(self).driver.base_path,
    {
        proof {
            reveal_strlit("running");
        }
        self.has_state(fs, "running")
    }

    /// Whether the motor is stalled.
    pub fn is_stalled<O: AttributeOpener<F>>(&mut self, fs: &mut O) -> (r: Result<bool, Ev3Error>)
        requires
            old(self).wf(),
        ensures
            final(self).wf(),
            final(self).counts_per_rot == old(self).counts_per_rot,
            final(self).driver.base_path == old(self).driver.base_path,
    {
        proof {
            reveal_strlit("stalled");
        }
        self.has_state(fs, "stalled")
    }

    /// The largest speed the motor accepts, in degrees per second.
    pub fn max_speed<O: AttributeOpener<F>>(&mut self, fs: &mut O) -> (r: Result<i32, Ev3Error>)
        requires
            old(self).wf(),
        ensures
            final(self).wf(),
            final(self).counts_per_rot == old(self).counts_per_rot,
            final(self).driver.base_path == old(self).driver.base_path,
    {
        let text = match self.driver.read_attribute(fs, AttributeName::MaxSpeed) {
            Ok(t) => t,
            Err(e) => {
                return Err(e);
            },
        };
        parse_i32(text.as_str())
    }

    /// Apply `writes` in order, stopping at the first failure.
    pub fn apply<O: AttributeOpener<F>>(&mut self, fs: &mut O, writes: &Vec<AttributeWrite>) -> (r: Result<(), Ev3Error>)
        requires
            old(self).wf(),
        ensures
            final(self).wf(),
            final(self).counts_per_rot == old(self).counts_per_rot,
            final(self).driver.base_path == old(self).driver.base_path,
            r is Ok ==> forall|k: int| 0 <= k < writes@.len() ==> final(self).driver.is_open(#[trigger] writes@[k].name),
    {
        apply_writes(&mut self.driver, fs, writes)
    }

    /// Run at `speed` degrees per second until told otherwise.
    pub fn run<O: AttributeOpener<F>>(&mut self, fs: &mut O, speed: i32) -> (r: Result<(), Ev3Error>)
        requires
            old(self).wf(),
        ensures
            final(self).wf(),
            final(self).counts_per_rot == old(self).counts_per_rot,
            final(self).driver.base_path == old(self).driver.base_path,
            r is Ok ==> final(self).driver.is_open(AttributeName::SpeedSetpoint) && final(self).driver.is_open(AttributeName::Command),
    {
        let plan = run_plan(speed);
        assert(writes_view(plan@).len() == 2);
        assert(plan@.len() == 2);
        assert(writes_view(plan@)[0] == plan@[0].view() && writes_view(plan@)[1] == plan@[1].view());
        let r = self.apply(fs, &plan);
        assert(r is Ok ==> self.driver.is_open(plan@[0].name) && self.driver.is_open(plan@[1].name));
        r
    }

    /// Run at duty cycle `duty` percent until told otherwise.
    pub fn dc<O: AttributeOpener<F>>(&mut self, fs: &mut O, duty: i32) -> (r: Result<(), Ev3Error>)
        requires
            old(self).wf(),
        ensures
            final(self).wf(),
            final(self).counts_per_rot == old(self).counts_per_rot,
            final(self).driver.base_path == old(self).driver.base_path,
            r is Ok ==> final(self).driver.is_open(AttributeName::DutyCycleSetpoint) && final(self).driver.is_open(AttributeName::Command),
    {
        let plan = dc_plan(duty);
        assert(writes_view(plan@).len() == 2);
        assert(plan@.len() == 2);
        assert(writes_view(plan@)[0] == plan@[0].view() && writes_view(plan@)[1] == plan@[1].view());
        let r = self.apply(fs, &plan);
        assert(r is Ok ==> self.driver.is_open(plan@[0].name) && self.driver.is_open(plan@[1].name));
        r
    }

    /// Stop with `action`.
    pub fn stop_with<O: AttributeOpener<F>>(&mut self, fs: &mut O, action: Stop) -> (r: Result<(), Ev3Error>)
        requires
            old(self).wf(),
        ensures
            final(self).wf(),
            final(self).counts_per_rot == old(self).counts_per_rot,
            final(self).driver.base_path == old(self).driver.base_path,
            r is Ok ==> final(self).driver.is_open(AttributeName::StopAction) && final(self).driver.is_open(AttributeName::Command),
    {
        let plan = stop_plan(action);
        assert(writes_view(plan@).len() == 2);
        assert(plan@.len() == 2);
        assert(writes_view(plan@)[0] == plan@[0].view() && writes_view(plan@)[1] == plan@[1].view());
        let r = self.apply(fs, &plan);
        assert(r is Ok ==> self.driver.is_open(plan@[0].name) && self.driver.is_open(plan@[1].name));
        r
    }

    /// Stop with the stop action the motor already has.
    pub fn stop_prev_action<O: AttributeOpener<F>>(&mut self, fs: &mut O) -> (r: Result<(), Ev3Error>)
        requires
            old(self).wf(),
        ensures
            final(self).wf(),
            final(self).counts_per_rot == old(self).counts_per_rot,
            final(self).driver.base_path == old(self).driver.base_path,
            r is Ok ==> final(self).driver.is_open(AttributeName::Command),
    {
        let plan = stop_command_plan();
        assert(writes_view(plan@).len() == 1);
        assert(plan@.len() == 1);
        assert(writes_view(plan@)[0] == plan@[0].view());
        self.apply(fs, &plan)
    }

    /// Stop and let the motor coast.
    pub fn stop<O: AttributeOpener<F>>(&mut self, fs: &mut O) -> (r: Result<(), Ev3Error>)
        requires
            old(self).wf(),
        ensures
            final(self).wf(),
            final(self).counts_per_rot == old(self).counts_per_rot,
            final(self).driver.base_path == old(self).driver.base_path,
    {
        self.stop_with(fs, Stop::Coast)
    }

    /// Stop and brake passively.
    pub fn brake<O: AttributeOpener<F>>(&mut self, fs: &mut O) -> (r: Result<(), Ev3Error>)
        requires
            old(self).wf(),
        ensures
            final(self).wf(),
            final(self).counts_per_rot == old(self).counts_per_rot,
            final(self).driver.base_path == old(self).driver.base_path,
    {
        self.stop_with(fs, Stop::Brake)
    }

    /// Stop and hold the current position.
    pub fn hold<O: AttributeOpener<F>>(&mut self, fs: &mut O) -> (r: Result<(), Ev3Error>)
        requires
            old(self).wf(),
        ensures
            final(self).wf(),
            final(self).counts_per_rot == old(self).counts_per_rot,
            final(self).driver.base_path == old(self).driver.base_path,
    {
        self.stop_with(fs, Stop::Hold)
    }

    /// Choose what later stops do.
    pub fn set_stop_action<O: AttributeOpener<F>>(&mut self, fs: &mut O, action: Stop) -> (r: Result<(), Ev3Error>)
        requires
            old(self).wf(),
        ensures
            final(self).wf(),
            final(self).counts_per_rot == old(self).counts_per_rot,
            final(self).driver.base_path == old(self).driver.base_path,
    {
        self.apply(fs, &stop_action_plan(action))
    }

    /// Set the time in milliseconds to ramp from stop to full speed.
    pub fn set_ramp_up_setpoint<O: AttributeOpener<F>>(&mut self, fs: &mut O, ms: i32) -> (r: Result<(), Ev3Error>)
        requires
            old(self).wf(),
        ensures
            final(self).wf(),
            final(self).counts_per_rot == old(self).counts_per_rot,
            final(self).driver.base_path == old(self).driver.base_path,
    {
        let text = format_i32(ms);
        self.driver.set_attribute(fs, AttributeName::RampUpSetpoint, text.as_str())
    }

    /// Set the time in milliseconds to ramp from full speed to stop.
    pub fn set_ramp_down_setpoint<O: AttributeOpener<F>>(&mut self, fs: &mut O, ms: i32) -> (r: Result<(), Ev3Error>)
        requires
            old(self).wf(),
        ensures
            final(self).wf(),
            final(self).counts_per_rot == old(self).counts_per_rot,
            final(self).driver.base_path == old(self).driver.base_path,
    {
        let text = format_i32(ms);
        self.driver.set_attribute(fs, AttributeName::RampDownSetpoint, text.as_str())
    }

    /// Turn by `offset` counts from the current position at the set speed.
    pub fn run_to_rel_pos<O: AttributeOpener<F>>(&mut self, fs: &mut O, offset: i32) -> (r: Result<(), Ev3Error>)
        requires
            old(self).wf(),
        ensures
            final(self).wf(),
            final(self).counts_per_rot == old(self).counts_per_rot,
            final(self).driver.base_path == old(self).driver.base_path,
    {
        let text = format_i32(offset);
        let v = vec![write_of(AttributeName::PositionSetpoint, text.as_str()), write_of(AttributeName::Command, "run-to-rel-pos")];
        self.apply(fs, &v)
    }
}

/// `word` stands in `state` between spaces or the ends: one of the flags of
/// a motor's `state` attribute.
pub open spec fn has_word(state: Seq<char>, word: Seq<char>) -> bool {
    exists|i: int| 0 <= i && i + word.len() <= state.len() && #[trigger] state.subrange(i, i + word.len()) == word
        && (i == 0 || state[i - 1] == ' ') && (i + word.len() == state.len() || state[i + word.len()] == ' ')
}

fn word_at(s: &[u8], w: &[u8], i: usize) -> (r: bool)
    requires
        i + w@.len() <= s@.len(),
        s@.len() <= usize::MAX,
    ensures
        r == (s@.subrange(i as int, i + w@.len()) == w@),
{
    let mut k: usize = 0;
    while k < w.len()
        invariant
            i + w@.len() <= s@.len(),
            s@.len() <= usize::MAX,
            0 <= k <= w@.len(),
            forall|j: int| 0 <= j < k ==> s@[i + j] == w@[j],
        decreases w@.len() - k,
    {
        assert(i + k < s@.len());
        if s[i + k] != w[k] {
            assert(s@.subrange(i as int, i + w@.len())[k as int] != w@[k as int]);
            return false;
        }
        k = k + 1;
    }
    assert(s@.subrange(i as int, i + w@.len()) =~= w@);
    true
}

/// Whether the motor state text `state` holds the flag `flag` (both plain
/// ASCII text).
pub fn state_has(state: &str, flag: &str) -> (r: bool)
    requires
        state.is_ascii(),
        flag.is_ascii(),
        flag@.len() > 0,
    ensures
        r == has_word(state@, flag@),
{
    proof {
        vstd::string::is_ascii_spec_bytes(state);
        vstd::string::is_ascii_spec_bytes(flag);
    }
    let s = state.as_bytes();
    let w = flag.as_bytes();
    let ghost sc = state@;
    let ghost wc = flag@;
    assert(s@.len() == sc.len() && w@.len() == wc.len());
    assert(forall|j: int| 0 <= j < sc.len() ==> s@[j] == sc[j] as u8);
    assert(forall|j: int| 0 <= j < wc.len() ==> w@[j] == wc[j] as u8);
    if w.len() > s.len() {
        return false;
    }
    let n = s.len();
    let last = n - w.len();
    let mut i: usize = 0;
    while i <= last
        invariant
            sc == state@,
            wc == flag@,
            n == s@.len(),
            w@.len() > 0,
            last == s@.len() - w@.len(),
            s@.len() == sc.len(),
            w@.len() == wc.len(),
            w@.len() <= s@.len(),
            forall|j: int| 0 <= j < sc.len() ==> s@[j] == sc[j] as u8 && sc[j] <= '\u{7f}',
            forall|j: int| 0 <= j < wc.len() ==> w@[j] == wc[j] as u8 && wc[j] <= '\u{7f}',
            forall|k: int| 0 <= k < i && k + wc.len() <= sc.len() ==> !(
                #[trigger] sc.subrange(k, k + wc.len()) == wc
                && (k == 0 || sc[k - 1] == ' ') && (k + wc.len() == sc.len() || sc[k + wc.len()] == ' ')
            ),
        decreases last + 1 - i,
    {
        let starts = i == 0 || s[i - 1] == 32;
        let ends = i + w.len() == s.len() || s[i + w.len()] == 32;
        let same = word_at(s, w, i);
        let ghost k = i as int;
        proof {
            assert(same == (sc.subrange(i as int, i + wc.len()) == wc)) by {
                if same {
                    assert forall|j: int| 0 <= j < wc.len() implies sc.subrange(i as int, i + wc.len())[j] == wc[j] by {
                        assert(s@[i + j] == w@[j]);
                        ascii_byte_eq(sc[i + j], wc[j]);
                    }
                    assert(sc.subrange(i as int, i + wc.len()) =~= wc);
                } else if sc.subrange(i as int, i + wc.len()) == wc {
                    assert forall|j: int| 0 <= j < wc.len() implies s@.subrange(i as int, i + w@.len())[j] == w@[j] by {
                        assert(sc[i + j] == wc[j]);
                    }
                    assert(s@.subrange(i as int, i + w@.len()) =~= w@);
                }
            }
            if i > 0 {
                ascii_byte_space(sc[i - 1]);
            }
            if i + wc.len() < sc.len() {
                ascii_byte_space(sc[i + wc.len()]);
            }
        }
        if starts && ends && same {
            assert(sc.subrange(k, k + wc.len()) == wc);
            assert(k == 0 || sc[k - 1] == ' ');
            assert(k + wc.len() == sc.len() || sc[k + wc.len()] == ' ');
            assert(has_word(sc, wc));
            return true;
        }
        i = i + 1;
    }
    false
}

proof fn ascii_byte_eq(a: char, b: char)
    requires
        a <= '\u{7f}',
        b <= '\u{7f}',
        a as u8 == b as u8,
    ensures
        a == b,
{
    assert((a as u8) as u32 == a as u32);
    assert((b as u8) as u32 == b as u32);
}

proof fn ascii_byte_space(a: char)
    requires
        a <= '\u{7f}',
    ensures
        (a as u8 == 32) == (a == ' '),
{
    assert((a as u8) as u32 == a as u32);
}

/// Encoder counts for `degrees` on a motor with `counts_per_rot` counts per
/// rotation, rounded toward zero and clamped to the `i32` range.
pub fn counts_for(degrees: i32, counts_per_rot: i32) -> (r: i32)
    requires
        counts_per_rot > 0,
    ensures
        r == clamp_i32(div_toward_zero(degrees as int * counts_per_rot as int, 360)),
{
    assert(-0x8000_0000 * 0x7fff_ffff <= degrees as int * counts_per_rot as int <= 0x7fff_ffff * 0x7fff_ffff) by (nonlinear_arith)
        requires -0x8000_0000 <= degrees <= 0x7fff_ffff, 0 < counts_per_rot <= 0x7fff_ffff;
    let p = degrees as i64 * counts_per_rot as i64;
    let q: i64 = if p >= 0 {
        (p as u64 / 360) as i64
    } else {
        -(((-p) as u64 / 360) as i64)
    };
    if q > i32::MAX as i64 {
        i32::MAX
    } else if q < i32::MIN as i64 {
        i32::MIN
    } else {
        q as i32
    }
}

} // verus!
