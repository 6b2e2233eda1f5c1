//! Named device attributes, their access modes, and access to one attribute
//! file.
use vstd::prelude::*;
use crate::error::Ev3Error;
use crate::parameters::AsStr;

verus! {

/// What an attribute file may be used for.
#[derive(Clone, Copy, Debug, PartialEq, Eq, Structural)]
pub enum FileMode {
    Read,
    Write,
    ReadWrite,
}

impl FileMode {
    pub open spec fn readable(self) -> bool {
        self != FileMode::Write
    }

    pub open spec fn writable(self) -> bool {
        self != FileMode::Read
    }
}

/// The attributes a device directory exposes.
#[derive(Clone, Copy, Debug, PartialEq, Eq, Hash, Structural)]
pub enum AttributeName {
    Address,
    DriverName,
    Command,
    Commands,
    CountPerRotation,
    CountPerMeter,
    FullTravelCount,
    DutyCycle,
    DutyCycleSetpoint,
    Polarity,
    Position,
    HoldPidKd,
    HoldPidKi,
    HoldPidKp,
    MaxSpeed,
    PositionSetpoint,
    Speed,
    SpeedSetpoint,
    RampUpSetpoint,
    RampDownSetpoint,
    SpeedPidKd,
    SpeedPidKi,
    SpeedPidKp,
    State,
    StopAction,
    StopActions,
    TimeSetpoint,
    Mode,
    Modes,
    Value0,
    Value1,
    Value2,
    Value3,
    Value4,
    Value5,
    Value6,
    Value7,
    Value8,
}

impl AttributeName {
    /// The attribute's file name, relative to its device directory.
    pub open spec fn file_name(self) -> Seq<char> {
        match self {
            AttributeName::Address => "address"@,
            AttributeName::DriverName => "driver_name"@,
            AttributeName::Command => "command"@,
            AttributeName::Commands => "commands"@,
            AttributeName::CountPerRotation => "count_per_rot"@,
            AttributeName::CountPerMeter => "count_per_m"@,
            AttributeName::FullTravelCount => "full_travel_count"@,
            AttributeName::DutyCycle => "duty_cycle"@,
            AttributeName::DutyCycleSetpoint => "duty_cycle_sp"@,
            AttributeName::Polarity => "polarity"@,
            AttributeName::Position => "position"@,
            AttributeName::HoldPidKd => "hold_pid/Kd"@,
            AttributeName::HoldPidKi => "hold_pid/Ki"@,
            AttributeName::HoldPidKp => "hold_pid/Kp"@,
            AttributeName::MaxSpeed => "max_speed"@,
            AttributeName::PositionSetpoint => "position_sp"@,
            AttributeName::Speed => "speed"@,
            AttributeName::SpeedSetpoint => "speed_sp"@,
            AttributeName::RampUpSetpoint => "ramp_up_sp"@,
            AttributeName::RampDownSetpoint => "ramp_down_sp"@,
            AttributeName::SpeedPidKd => "speed_pid/Kd"@,
            AttributeName::SpeedPidKi => "speed_pid/Ki"@,
            AttributeName::SpeedPidKp => "speed_pid/Kp"@,
            AttributeName::State => "state"@,
            AttributeName::StopAction => "stop_action"@,
            AttributeName::StopActions => "stop_actions"@,
            AttributeName::TimeSetpoint => "time_sp"@,
            AttributeName::Mode => "mode"@,
            AttributeName::Modes => "modes"@,
            AttributeName::Value0 => "value0"@,
            AttributeName::Value1 => "value1"@,
            AttributeName::Value2 => "value2"@,
            AttributeName::Value3 => "value3"@,
            AttributeName::Value4 => "value4"@,
            AttributeName::Value5 => "value5"@,
            AttributeName::Value6 => "value6"@,
            AttributeName::Value7 => "value7"@,
            AttributeName::Value8 => "value8"@,
        }
    }

    /// The access mode the attribute file allows.
    pub open spec fn mode(self) -> FileMode {
        match self {
            AttributeName::Address => FileMode::Read,
            AttributeName::DriverName => FileMode::Read,
            AttributeName::Command => FileMode::Write,
            AttributeName::Commands => FileMode::Read,
            AttributeName::CountPerRotation => FileMode::Read,
            AttributeName::CountPerMeter => FileMode::Read,
            AttributeName::FullTravelCount => FileMode::Read,
            AttributeName::DutyCycle => FileMode::Read,
            AttributeName::DutyCycleSetpoint => FileMode::ReadWrite,
            AttributeName::Polarity => FileMode::ReadWrite,
            AttributeName::Position => FileMode::ReadWrite,
            AttributeName::HoldPidKd => FileMode::ReadWrite,
            AttributeName::HoldPidKi => FileMode::ReadWrite,
            AttributeName::HoldPidKp => FileMode::ReadWrite,
            AttributeName::MaxSpeed => FileMode::Read,
            AttributeName::PositionSetpoint => FileMode::ReadWrite,
            AttributeName::Speed => FileMode::Read,
            AttributeName::SpeedSetpoint => FileMode::ReadWrite,
            AttributeName::RampUpSetpoint => FileMode::ReadWrite,
            AttributeName::RampDownSetpoint => FileMode::ReadWrite,
            AttributeName::SpeedPidKd => FileMode::ReadWrite,
            AttributeName::SpeedPidKi => FileMode::ReadWrite,
            AttributeName::SpeedPidKp => FileMode::ReadWrite,
            AttributeName::State => FileMode::Read,
            AttributeName::StopAction => FileMode::ReadWrite,
            AttributeName::StopActions => FileMode::Read,
            AttributeName::TimeSetpoint => FileMode::ReadWrite,
            AttributeName::Mode => FileMode::ReadWrite,
            AttributeName::Modes => FileMode::Read,
            AttributeName::Value0 => FileMode::Read,
            AttributeName::Value1 => FileMode::Read,
            AttributeName::Value2 => FileMode::Read,
            AttributeName::Value3 => FileMode::Read,
            AttributeName::Value4 => FileMode::Read,
            AttributeName::Value5 => FileMode::Read,
            AttributeName::Value6 => FileMode::Read,
            AttributeName::Value7 => FileMode::Read,
            AttributeName::Value8 => FileMode::Read,
        }
    }

    pub fn file_name_str(&self) -> (r: &'static str)
        ensures
            r@ == self.file_name(),
    {
        match self {
            AttributeName::Address => "address",
            AttributeName::DriverName => "driver_name",
            AttributeName::Command => "command",
            AttributeName::Commands => "commands",
            AttributeName::CountPerRotation => "count_per_rot",
            AttributeName::CountPerMeter => "count_per_m",
            AttributeName::FullTravelCount => "full_travel_count",
            AttributeName::DutyCycle => "duty_cycle",
            AttributeName::DutyCycleSetpoint => "duty_cycle_sp",
            AttributeName::Polarity => "polarity",
            AttributeName::Position => "position",
            AttributeName::HoldPidKd => "hold_pid/Kd",
            AttributeName::HoldPidKi => "hold_pid/Ki",
            AttributeName::HoldPidKp => "hold_pid/Kp",
            AttributeName::MaxSpeed => "max_speed",
            AttributeName::PositionSetpoint => "position_sp",
            AttributeName::Speed => "speed",
            AttributeName::SpeedSetpoint => "speed_sp",
            AttributeName::RampUpSetpoint => "ramp_up_sp",
            AttributeName::RampDownSetpoint => "ramp_down_sp",
            AttributeName::SpeedPidKd => "speed_pid/Kd",
            AttributeName::SpeedPidKi => "speed_pid/Ki",
            AttributeName::SpeedPidKp => "speed_pid/Kp",
            AttributeName::State => "state",
            AttributeName::StopAction => "stop_action",
            AttributeName::StopActions => "stop_actions",
            AttributeName::TimeSetpoint => "time_sp",
            AttributeName::Mode => "mode",
            AttributeName::Modes => "modes",
            AttributeName::Value0 => "value0",
            AttributeName::Value1 => "value1",
            AttributeName::Value2 => "value2",
            AttributeName::Value3 => "value3",
            AttributeName::Value4 => "value4",
            AttributeName::Value5 => "value5",
            AttributeName::Value6 => "value6",
            AttributeName::Value7 => "value7",
            AttributeName::Value8 => "value8",
        }
    }

    pub fn filemode(&self) -> (r: FileMode)
        ensures
            r == self.mode(),
    {
        match self {
            AttributeName::Address => FileMode::Read,
            AttributeName::DriverName => FileMode::Read,
            AttributeName::Command => FileMode::Write,
            AttributeName::Commands => FileMode::Read,
            AttributeName::CountPerRotation => FileMode::Read,
            AttributeName::CountPerMeter => FileMode::Read,
            AttributeName::FullTravelCount => FileMode::Read,
            AttributeName::DutyCycle => FileMode::Read,
            AttributeName::DutyCycleSetpoint => FileMode::ReadWrite,
            AttributeName::Polarity => FileMode::ReadWrite,
            AttributeName::Position => FileMode::ReadWrite,
            AttributeName::HoldPidKd => FileMode::ReadWrite,
            AttributeName::HoldPidKi => FileMode::ReadWrite,
            AttributeName::HoldPidKp => FileMode::ReadWrite,
            AttributeName::MaxSpeed => FileMode::Read,
            AttributeName::PositionSetpoint => FileMode::ReadWrite,
            AttributeName::Speed => FileMode::Read,
            AttributeName::SpeedSetpoint => FileMode::ReadWrite,
            AttributeName::RampUpSetpoint => FileMode::ReadWrite,
            AttributeName::RampDownSetpoint => FileMode::ReadWrite,
            AttributeName::SpeedPidKd => FileMode::ReadWrite,
            AttributeName::SpeedPidKi => FileMode::ReadWrite,
            AttributeName::SpeedPidKp => FileMode::ReadWrite,
            AttributeName::State => FileMode::Read,
            AttributeName::StopAction => FileMode::ReadWrite,
            AttributeName::StopActions => FileMode::Read,
            AttributeName::TimeSetpoint => FileMode::ReadWrite,
            AttributeName::Mode => FileMode::ReadWrite,
            AttributeName::Modes => FileMode::Read,
            AttributeName::Value0 => FileMode::Read,
            AttributeName::Value1 => FileMode::Read,
            AttributeName::Value2 => FileMode::Read,
            AttributeName::Value3 => FileMode::Read,
            AttributeName::Value4 => FileMode::Read,
            AttributeName::Value5 => FileMode::Read,
            AttributeName::Value6 => FileMode::Read,
            AttributeName::Value7 => FileMode::Read,
            AttributeName::Value8 => FileMode::Read,
        }
    }
}

impl AsStr for AttributeName {
    fn as_str(&self) -> &'static str {
        self.file_name_str()
    }
}

/// An open attribute file. Implemented over real files by the program that
/// drives the hardware, and over memory in tests.
pub trait AttributeFile {
    /// Move to the start of the file; on failure, the operating system's
    /// description of the error.
    fn rewind(&mut self) -> Result<(), String>;

    /// Read the file from the current position to its end; `None` when the
    /// contents do not decode as text.
    fn read_contents(&mut self) -> Option<String>;

    /// Write all of `value` at the current position; on failure, the
    /// operating system's description of the error.
    fn write_value(&mut self, value: &str) -> Result<(), String>;
}

/// Number of times a read is tried before it is reported as undecodable: the
/// device may be observed in the middle of an update.
pub const READ_ATTEMPTS: usize = 5;

/// A character of the Unicode `White_Space` property.
pub open spec fn is_white_space(c: char) -> bool {
    ||| '\u{9}' <= c <= '\u{d}'
    ||| c == ' '
    ||| c == '\u{85}'
    ||| c == '\u{a0}'
    ||| c == '\u{1680}'
    ||| '\u{2000}' <= c <= '\u{200a}'
    ||| c == '\u{2028}'
    ||| c == '\u{2029}'
    ||| c == '\u{202f}'
    ||| c == '\u{205f}'
    ||| c == '\u{3000}'
}

/// `s` without leading and trailing white space.
pub open spec fn trimmed(s: Seq<char>) -> Seq<char>
    decreases s.len(),
{
    if s.len() > 0 && is_white_space(s[0]) {
        trimmed(s.drop_first())
    } else if s.len() > 0 && is_white_space(s.last()) {
        trimmed(s.drop_last())
    } else {
        s
    }
}

/// Relies on `str::trim`: the slice without leading and trailing
/// characters of the Unicode `White_Space` property.
#[verifier::external_body]
fn trim_str(s: &str) -> (r: &str)
    ensures
        r@ == trimmed(s@),
{
    s.trim()
}

/// `s` without leading and trailing white space.
pub fn trim(s: &str) -> (r: String)
    ensures
        r@ == trimmed(s@),
{
    trim_str(s).to_owned()
}

/// One attribute file with the access mode it was opened in.
pub struct Attribute<F> {
    pub file: F,
    pub path: String,
    pub mode: FileMode,
}

impl<F: AttributeFile> Attribute<F> {
    pub fn new(file: F, path: String, mode: FileMode) -> (r: Attribute<F>)
        ensures
            r.file == file,
            r.path == path,
            r.mode == mode,
    {
        Attribute { file, path, mode }
    }

    /// The trimmed contents of the file, read from its start. A write-only
    /// attribute fails with a permission error without touching the file.
    /// Each read outcome is settled by `read_step`: the first success within
    /// `READ_ATTEMPTS` reads is trimmed and returned.
    pub fn get(&mut self) -> (r: Result<String, Ev3Error>)
        ensures
            final(self).path == old(self).path,
            final(self).mode == old(self).mode,
            !old(self).mode.readable() ==> r == Err::<String, Ev3Error>(
                Ev3Error::PermissionDenied { required_permission: FileMode::Read },
            ) && *final(self) == *old(self),
            old(self).mode.readable() ==> match r {
                Ok(s) => exists|contents: Seq<char>| s@ == #[trigger] trimmed(contents),
                Err(Ev3Error::ReadAttributeFailure { filename, os_error: _ }) => filename == old(self).path,
                Err(Ev3Error::InvalidStringBytes) => true,
                Err(_) => false,
            },
    {
        if self.mode == FileMode::Write {
            return Err(Ev3Error::PermissionDenied { required_permission: FileMode::Read });
        }
        match self.file.rewind() {
            Ok(()) => {},
            Err(os_error) => {
                return Err(Ev3Error::ReadAttributeFailure { filename: self.path.clone(), os_error });
            },
        }
        let mut attempt: usize = 0;
        loop
            invariant
                self.path == old(self).path,
                self.mode == old(self).mode,
                self.mode.readable(),
                attempt < READ_ATTEMPTS,
            decreases READ_ATTEMPTS - attempt,
        {
            let outcome = self.file.read_contents();
            match read_step(attempt, outcome) {
                ReadStep::Retry => {},
                ReadStep::Done(r) => {
                    return r;
                },
            }
            attempt = attempt + 1;
        }
    }

    /// Write all of `value` from the start of the file. A read-only
    /// attribute fails with a permission error without touching the file.
    /// The outcomes of the rewind and of the write are settled by
    /// `write_result`: any failure carries the path and the value.
    pub fn set(&mut self, value: &str) -> (r: Result<(), Ev3Error>)
        ensures
            final(self).path == old(self).path,
            final(self).mode == old(self).mode,
            !old(self).mode.writable() ==> r == Err::<(), Ev3Error>(
                Ev3Error::PermissionDenied { required_permission: FileMode::Write },
            ) && *final(self) == *old(self),
            old(self).mode.writable() ==> match r {
                Ok(_) => true,
                Err(Ev3Error::WriteAttributeFailure { filename, value: v, os_error: _ }) =>
                    filename == old(self).path && v@ == value@,
                Err(_) => false,
            },
    {
        if self.mode == FileMode::Read {
            return Err(Ev3Error::PermissionDenied { required_permission: FileMode::Write });
        }
        let rewound = self.file.rewind();
        match write_result(&self.path, value, rewound) {
            Ok(()) => {},
            Err(e) => {
                return Err(e);
            },
        }
        let written = self.file.write_value(value);
        write_result(&self.path, value, written)
    }
}

/// What a read of an attribute does after one attempt.
pub enum ReadStep {
    /// Read again.
    Retry,
    /// The read is over with this result.
    Done(Result<String, Ev3Error>),
}

/// The decision after read attempt `attempt` (counted from zero) returned
/// `outcome`: a success is trimmed and ends the read; a failure is retried
/// until the last attempt, after which the contents count as undecodable.
pub fn read_step(attempt: usize, outcome: Option<String>) -> (r: ReadStep)
    requires
        attempt < READ_ATTEMPTS,
    ensures
        outcome matches Some(c) ==> (r matches ReadStep::Done(Ok(s)) && s@ == trimmed(c@)),
        outcome is None && attempt + 1 < READ_ATTEMPTS ==> r is Retry,
        outcome is None && attempt + 1 == READ_ATTEMPTS ==> (r matches ReadStep::Done(Err(e))
            && e == Ev3Error::InvalidStringBytes),
{
    match outcome {
        Some(contents) => ReadStep::Done(Ok(trim(contents.as_str()))),
        None => {
            if attempt + 1 < READ_ATTEMPTS {
                ReadStep::Retry
            } else {
                ReadStep::Done(Err(Ev3Error::InvalidStringBytes))
            }
        },
    }
}

/// The result of one step of writing `value` to the attribute at `path`:
/// success passes, and an operating-system failure carries the path, the
/// value and the system's description.
pub fn write_result(path: &String, value: &str, outcome: Result<(), String>) -> (r: Result<(), Ev3Error>)
    ensures
        outcome is Ok ==> r is Ok,
        outcome matches Err(os) ==> (r matches Err(Ev3Error::WriteAttributeFailure { filename, value: v, os_error })
            && filename == *path && v@ == value@ && os_error == os),
{
    match outcome {
        Ok(()) => Ok(()),
        Err(os_error) => Err(Ev3Error::WriteAttributeFailure {
            filename: path.clone(),
            value: value.to_owned(),
            os_error,
        }),
    }
}

} // verus!
