//! Errors reported by the library.
use vstd::prelude::*;
use crate::attribute::FileMode;
use crate::parameters::{MotorPort, SensorPort, SensorType};

verus! {

/// Every failure the library reports.
#[derive(Debug, Clone, PartialEq, Eq)]
#[allow(inconsistent_fields)]
pub enum Ev3Error {
    /// No sensor answers on the port.
    SensorNotFound { port: SensorPort, expected_sensor_type: SensorType },
    /// No motor answers on the port.
    MotorNotFound { port: MotorPort },
    /// An attribute file could not be opened in the mode it needs.
    FileNotFound { path: String },
    /// A device directory could not be read.
    InvalidPath,
    /// The sensor on the port is of another type.
    IncorrectSensorType { expected: SensorType, found: SensorType },
    /// A string names no variant of an enumeration.
    ParseStr { input: String, to: String },
    /// The attribute's access mode forbids the operation.
    PermissionDenied { required_permission: FileMode },
    /// Reading an attribute kept failing to decode.
    InvalidStringBytes,
    /// Reading an attribute failed in the operating system.
    ReadAttributeFailure { filename: String, os_error: String },
    /// Writing an attribute failed in the operating system.
    WriteAttributeFailure { filename: String, value: String, os_error: String },
    /// A string is not a decimal integer in range.
    ParseInt { input: String },
    /// A value read from a device is outside what the reader expects.
    InvalidValue { func: String, value: String },
    /// A feature needs a gyro and none is attached.
    NoSensorProvided,
}

} // verus!
