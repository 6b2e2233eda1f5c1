//! Drive a differential-wheeled robot whose motors and sensors are exposed as
//! attribute files: attribute access, device resolution, a fixed-point PID
//! controller, gyro fusion and a closed-loop drive base with axle-track
//! calibration.
//!
//! Everything that touches the hardware goes through two small traits,
//! `AttributeOpener` and `AttributeFile`; motion and calibration are state
//! machines that a caller drives tick by tick.
use vstd::prelude::*;

pub mod attribute;
pub mod calibration;
pub mod car;
pub mod decimal;
pub mod device;
pub mod drive_base;
pub mod error;
pub mod fixed_point;
pub mod gyro_controller;
pub mod motor;
pub mod odometry;
pub mod parameters;
pub mod pid;
pub mod sensors;

pub use error::Ev3Error;

verus! {

/// The result type of fallible operations.
pub type Ev3Result<T> = Result<T, Ev3Error>;

} // verus!
