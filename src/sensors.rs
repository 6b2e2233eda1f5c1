//! Sensors on input ports: touch, color, gyro, ultrasonic and infrared.
use vstd::prelude::*;
use crate::attribute::{AttributeFile, AttributeName, FileMode, trimmed};
use crate::decimal::{format_i32, parse_i32, decimal_value, parses_to_i32};
use crate::device::{AttributeOpener, DeviceDriver, DeviceEntry, attribute_path, resolve_sensor};
use crate::error::Ev3Error;
use crate::fixed_point::{Fix, div_bits, div_toward_zero, one};
use crate::parameters::{Button, Color, SensorMode, SensorPort, SensorType, nearest_color};

verus! {

/// Entry `i` is the first known sensor on `port`, and it has type `t`.
pub open spec fn first_sensor(entries: Seq<DeviceEntry>, port: SensorPort, t: SensorType, i: int) -> bool {
    &&& 0 <= i < entries.len()
    &&& entries[i].is_sensor_on(port)
    &&& entries[i].sensor_type() == Some(t)
    &&& forall|j: int| 0 <= j < i ==> !(#[trigger] entries[j]).is_sensor_on(port)
}

/// `mode` is the one that `text` names, or `None` when `text` names none.
pub open spec fn mode_read_from(mode: Option<SensorMode>, text: Seq<char>) -> bool {
    match mode {
        Some(m) => m.name() == text,
        None => forall|m: SensorMode| #[trigger] m.name() != text,
    }
}

/// The mode that the `mode` attribute text `text` names, if any.
pub fn mode_from_text(text: &str) -> (r: Option<SensorMode>)
    ensures
        mode_read_from(r, text@),
{
    match SensorMode::from_name(text) {
        Ok(m) => Some(m),
        Err(_) => None,
    }
}

/// A sensor device with the mode it was last put in, when known.
pub struct SensorDriver<F> {
    pub device: DeviceDriver<F>,
    pub mode: Option<SensorMode>,
}

impl<F: AttributeFile> SensorDriver<F> {
    pub open spec fn wf(self) -> bool {
        self.device.wf()
    }

    /// The sensor of type `sensor_type` on `port` among the sensor
    /// directories `entries`: the first known sensor on the port decides,
    /// before any file is read. Its current mode is then read.
    pub fn new<O: AttributeOpener<F>>(
        fs: &mut O,
        entries: &Vec<DeviceEntry>,
        sensor_type: SensorType,
        port: SensorPort,
    ) -> (r: Result<SensorDriver<F>, Ev3Error>)
        ensures
            (forall|j: int| 0 <= j < entries@.len() ==> !(#[trigger] entries@[j]).is_sensor_on(port))
                ==> r == Err::<SensorDriver<F>, Ev3Error>(
                    Ev3Error::SensorNotFound { port, expected_sensor_type: sensor_type },
                ),
            forall|t: SensorType, i: int| t != sensor_type && #[trigger] first_sensor(entries@, port, t, i)
                ==> r == Err::<SensorDriver<F>, Ev3Error>(
                    Ev3Error::IncorrectSensorType { expected: sensor_type, found: t },
                ),
            match r {
                Ok(d) => d.wf() && d.device.is_open(AttributeName::Mode)
                    && (exists|i: int| first_sensor(entries@, port, sensor_type, i)
                        && d.device.base_path == (#[trigger] entries@[i]).path)
                    && (exists|text: Seq<char>| mode_read_from(d.mode, #[trigger] trimmed(text))),
                Err(Ev3Error::SensorNotFound { port: p, expected_sensor_type: t }) => p == port && t == sensor_type
                    && forall|j: int| 0 <= j < entries@.len() ==> !(#[trigger] entries@[j]).is_sensor_on(port),
                Err(Ev3Error::IncorrectSensorType { expected: e, found }) => e == sensor_type && found != sensor_type
                    && exists|i: int| first_sensor(entries@, port, found, i),
                Err(_) => exists|i: int| first_sensor(entries@, port, sensor_type, i),
            },
    {
        let i = match resolve_sensor(entries, port, sensor_type) {
            Ok(i) => i,
            Err(e) => {
                proof {
                    if let Ev3Error::IncorrectSensorType { expected: _, found } = e {
                        let k = choose|k: int| 0 <= k < entries@.len() && (#[trigger] entries@[k]).is_sensor_on(port)
                            && entries@[k].sensor_type() == Some(found)
                            && forall|j: int| 0 <= j < k ==> !(#[trigger] entries@[j]).is_sensor_on(port);
                        assert(first_sensor(entries@, port, found, k));
                        assert forall|t: SensorType, i: int| t != sensor_type && #[trigger] first_sensor(entries@, port, t, i)
                            implies found == t by {
                            if i < k {
                                assert(!entries@[i].is_sensor_on(port));
                            } else if k < i {
                                assert(!entries@[k].is_sensor_on(port));
                            }
                        }
                    }
                }
                return Err(e);
            },
        };
        assert(first_sensor(entries@, port, sensor_type, i as int));
        proof {
            assert forall|t: SensorType, j: int| t != sensor_type && #[trigger] first_sensor(entries@, port, t, j)
                implies false by {
                if j < i {
                    assert(!entries@[j].is_sensor_on(port));
                } else if (i as int) < j {
                    assert(!entries@[i as int].is_sensor_on(port));
                }
            }
        }
        let mut device = DeviceDriver::new(entries[i].path.clone());
        let mode = match device.read_attribute(fs, AttributeName::Mode) {
            Ok(text) => mode_from_text(text.as_str()),
            Err(e) => {
                return Err(e);
            },
        };
        Ok(SensorDriver { device, mode })
    }

    /// The trimmed value of this device's attribute `name`; see
    /// `DeviceDriver::read_attribute`.
    pub fn read_attribute<O: AttributeOpener<F>>(&mut self, fs: &mut O, name: AttributeName) -> (r: Result<String, Ev3Error>)
        requires
            old(self).wf(),
        ensures
            final(self).wf(),
            final(self).mode == old(self).mode,
            final(self).device.base_path == old(self).device.base_path,
            !name.mode().readable() ==> r == Err::<String, Ev3Error>(
                Ev3Error::PermissionDenied { required_permission: FileMode::Read },
            ) && *final(self) == *old(self) && *final(fs) == *old(fs),
            forall|n: AttributeName| old(self).device.is_open(n) ==> final(self).device.is_open(n),
            old(self).device.is_open(name) ==> *final(fs) == *old(fs),
            r is Ok ==> final(self).device.is_open(name),
            name.mode().readable() ==> match r {
                Ok(s) => exists|contents: Seq<char>| s@ == #[trigger] trimmed(contents),
                Err(Ev3Error::FileNotFound { path }) => path@ == attribute_path(old(self).device.base_path@, name)
                    && *final(self) == *old(self),
                Err(Ev3Error::ReadAttributeFailure { filename, os_error: _ }) =>
                    filename@ == attribute_path(old(self).device.base_path@, name),
                Err(Ev3Error::InvalidStringBytes) => true,
                Err(_) => false,
            },
    {
        self.device.read_attribute(fs, name)
    }

    /// Write `value` to this device's attribute `name`; see
    /// `DeviceDriver::set_attribute`.
    pub fn set_attribute<O: AttributeOpener<F>>(&mut self, fs: &mut O, name: AttributeName, value: &str) -> (r: Result<(), Ev3Error>)
        requires
            old(self).wf(),
        ensures
            final(self).wf(),
            final(self).mode == old(self).mode,
            final(self).device.base_path == old(self).device.base_path,
            !name.mode().writable() ==> r == Err::<(), Ev3Error>(
                Ev3Error::PermissionDenied { required_permission: FileMode::Write },
            ) && *final(self) == *old(self) && *final(fs) == *old(fs),
            forall|n: AttributeName| old(self).device.is_open(n) ==> final(self).device.is_open(n),
            old(self).device.is_open(name) ==> *final(fs) == *old(fs),
            r is Ok ==> final(self).device.is_open(name),
            name.mode().writable() ==> match r {
                Ok(_) => true,
                Err(Ev3Error::FileNotFound { path }) => path@ == attribute_path(old(self).device.base_path@, name)
                    && *final(self) == *old(self),
                Err(Ev3Error::WriteAttributeFailure { filename, value: v, os_error: _ }) =>
                    filename@ == attribute_path(old(self).device.base_path@, name) && v@ == value@,
                Err(_) => false,
            },
    {
        self.device.set_attribute(fs, name, value)
    }

    /// Switch the sensor to `mode`.
    pub fn set_mode<O: AttributeOpener<F>>(&mut self, fs: &mut O, mode: SensorMode) -> (r: Result<(), Ev3Error>)
        requires
            old(self).wf(),
        ensures
            final(self).wf(),
            final(self).device.base_path == old(self).device.base_path,
            r is Ok ==> final(self).mode == Some(mode),
            r is Err ==> final(self).mode == old(self).mode,
            match r {
                Ok(_) => true,
                Err(Ev3Error::FileNotFound { path }) => path@ == attribute_path(old(self).device.base_path@, AttributeName::Mode)
                    && *final(self) == *old(self),
                Err(Ev3Error::WriteAttributeFailure { filename, value: v, os_error: _ }) =>
                    filename@ == attribute_path(old(self).device.base_path@, AttributeName::Mode) && v@ == mode.name(),
                Err(_) => false,
            },
    {
        match self.device.set_attribute(fs, AttributeName::Mode, mode.name_str()) {
            Ok(()) => {
                self.mode = Some(mode);
                Ok(())
            },
            Err(e) => Err(e),
        }
    }

    /// Switch the sensor to `mode` unless it is known to be in it already,
    /// in which case nothing is touched.
    pub fn select_mode<O: AttributeOpener<F>>(&mut self, fs: &mut O, mode: SensorMode) -> (r: Result<(), Ev3Error>)
        requires
            old(self).wf(),
        ensures
            final(self).wf(),
            final(self).device.base_path == old(self).device.base_path,
            r is Ok ==> final(self).mode == Some(mode),
            old(self).mode == Some(mode) ==> r is Ok && *final(self) == *old(self) && *final(fs) == *old(fs),
    {
        if self.mode == Some(mode) {
            return Ok(());
        }
        self.set_mode(fs, mode)
    }

    /// Switch to `mode` if needed, then read attribute `name` as an `i16`.
    pub fn read_i16_in<O: AttributeOpener<F>>(&mut self, fs: &mut O, mode: SensorMode, name: AttributeName) -> (r: Result<i16, Ev3Error>)
        requires
            old(self).wf(),
        ensures
            final(self).wf(),
            final(self).device.base_path == old(self).device.base_path,
            r is Ok ==> final(self).mode == Some(mode),
    {
        match self.select_mode(fs, mode) {
            Ok(()) => {},
            Err(e) => {
                return Err(e);
            },
        }
        match self.read_attribute(fs, name) {
            Ok(text) => parse_i16(text.as_str()),
            Err(e) => Err(e),
        }
    }
}

/// The integer a level text holds.
fn level_from_text(text: &str) -> (r: Result<i32, Ev3Error>)
    ensures
        r matches Ok(v) ==> parses_to_i32(text@) && decimal_value(text@).unwrap() == v,
{
    parse_i32(text)
}

/// Whether a touch sensor's `value0` text means pressed: any value but zero.
pub fn pressed_from(text: &str) -> (r: Result<bool, Ev3Error>)
    ensures
        parses_to_i32(text@) ==> r == Ok::<bool, Ev3Error>(decimal_value(text@).unwrap() != 0),
        !parses_to_i32(text@) ==> r is Err,
{
    match parse_i32(text) {
        Ok(v) => Ok(v != 0),
        Err(e) => Err(e),
    }
}

/// A reading as an `i16`, as a gyro reports it.
pub fn parse_i16(text: &str) -> (r: Result<i16, Ev3Error>)
    ensures
        parses_to_i32(text@) && i16::MIN <= decimal_value(text@).unwrap() <= i16::MAX
            ==> r == Ok::<i16, Ev3Error>(decimal_value(text@).unwrap() as i16),
        !(parses_to_i32(text@) && i16::MIN <= decimal_value(text@).unwrap() <= i16::MAX) ==> r is Err,
{
    match parse_i32(text) {
        Ok(v) => {
            if v < i16::MIN as i32 || v > i16::MAX as i32 {
                Err(Ev3Error::ParseInt { input: text.to_owned() })
            } else {
                Ok(v as i16)
            }
        },
        Err(e) => Err(e),
    }
}

/// `v` is the value of an integer text read from a device.
pub open spec fn read_value(v: int) -> bool {
    exists|text: Seq<char>| parses_to_i32(#[trigger] trimmed(text)) && decimal_value(trimmed(text)).unwrap() == v
}

/// `x` clamped to the range of a `u8`.
pub open spec fn clamp_u8(x: int) -> int {
    if x < 0 {
        0
    } else if x > 255 {
        255
    } else {
        x
    }
}

/// Reflected light in percent from raw levels (0 to 1020): perceived
/// luminance `0.2126 r + 0.7152 g + 0.0722 b`, rounded toward zero.
pub open spec fn reflection_level(r: int, g: int, b: int) -> int {
    clamp_u8(div_toward_zero(2126 * r + 7152 * g + 722 * b, 102000))
}

/// Ambient light in percent from raw levels (0 to 1020): their mean, rounded
/// toward zero.
pub open spec fn ambient_level(r: int, g: int, b: int) -> int {
    clamp_u8(div_toward_zero(100 * (r + g + b), 3060))
}

fn div_toward_zero_i64(a: i64, d: i64) -> (r: i64)
    requires
        d > 0,
        a > i64::MIN,
    ensures
        r == div_toward_zero(a as int, d as int),
{
    if a >= 0 {
        (a as u64 / d as u64) as i64
    } else {
        -(((-a) as u64 / d as u64) as i64)
    }
}

fn to_u8(x: i64) -> (r: u8)
    ensures
        r == clamp_u8(x as int),
{
    if x < 0 {
        0
    } else if x > 255 {
        255
    } else {
        x as u8
    }
}

pub fn reflection_of(r: i32, g: i32, b: i32) -> (p: u8)
    ensures
        p == reflection_level(r as int, g as int, b as int),
{
    let sum = 2126 * (r as i64) + 7152 * (g as i64) + 722 * (b as i64);
    to_u8(div_toward_zero_i64(sum, 102000))
}

pub fn ambient_of(r: i32, g: i32, b: i32) -> (p: u8)
    ensures
        p == ambient_level(r as int, g as int, b as int),
{
    let sum = 100 * ((r as i64) + (g as i64) + (b as i64));
    to_u8(div_toward_zero_i64(sum, 3060))
}

/// A reading in tenths as a fixed-point number.
pub fn tenths_of(tenths: i16) -> (r: Fix)
    ensures
        r.raw() == div_bits(tenths as int * one(), 10 * one()),
{
    Fix::from_ratio(tenths as i32, 10)
}

/// The buttons a remote-control code stands for, in a fixed order.
pub open spec fn remote_buttons(code: int) -> Option<Seq<Button>> {
    if code == 0 {
        Some(seq![])
    } else if code == 1 {
        Some(seq![Button::RedUp])
    } else if code == 2 {
        Some(seq![Button::RedDown])
    } else if code == 3 {
        Some(seq![Button::BlueUp])
    } else if code == 4 {
        Some(seq![Button::BlueDown])
    } else if code == 5 {
        Some(seq![Button::RedUp, Button::BlueUp])
    } else if code == 6 {
        Some(seq![Button::RedUp, Button::BlueDown])
    } else if code == 7 {
        Some(seq![Button::RedDown, Button::BlueUp])
    } else if code == 8 {
        Some(seq![Button::RedDown, Button::BlueDown])
    } else if code == 9 {
        Some(seq![Button::BeaconOn])
    } else if code == 10 {
        Some(seq![Button::RedUp, Button::RedDown])
    } else if code == 11 {
        Some(seq![Button::BlueUp, Button::BlueDown])
    } else {
        None
    }
}

/// The text is a decimal `u8`.
pub open spec fn parses_to_u8(s: Seq<char>) -> bool {
    parses_to_i32(s) && 0 <= decimal_value(s).unwrap() <= 255
}

/// The buttons pressed according to a remote-control value text: a code from
/// 0 to 11. A text that is no `u8` is a parse error; a `u8` beyond 11 is an
/// invalid value.
pub fn remote_buttons_from(text: &str) -> (r: Result<Vec<Button>, Ev3Error>)
    ensures
        parses_to_u8(text@) && decimal_value(text@).unwrap() <= 11
            ==> (r matches Ok(b) && b@ == remote_buttons(decimal_value(text@).unwrap()).unwrap()),
        parses_to_u8(text@) && decimal_value(text@).unwrap() > 11
            ==> (r matches Err(Ev3Error::InvalidValue { func: _, value }) && value@ == text@),
        !parses_to_u8(text@) ==> (r matches Err(Ev3Error::ParseInt { input }) && input@ == text@),
{
    let code = match parse_i32(text) {
        Ok(c) => c,
        Err(e) => {
            return Err(e);
        },
    };
    if code < 0 || code > 255 {
        return Err(Ev3Error::ParseInt { input: text.to_owned() });
    }
    let b: Vec<Button> = match code {
        0 => vec![],
        1 => vec![Button::RedUp],
        2 => vec![Button::RedDown],
        3 => vec![Button::BlueUp],
        4 => vec![Button::BlueDown],
        5 => vec![Button::RedUp, Button::BlueUp],
        6 => vec![Button::RedUp, Button::BlueDown],
        7 => vec![Button::RedDown, Button::BlueUp],
        8 => vec![Button::RedDown, Button::BlueDown],
        9 => vec![Button::BeaconOn],
        10 => vec![Button::RedUp, Button::RedDown],
        11 => vec![Button::BlueUp, Button::BlueDown],
        _ => {
            return Err(Ev3Error::InvalidValue {
                func: "InfraredSensor::get_remote_buttons".to_owned(),
                value: text.to_owned(),
            });
        },
    };
    assert(b@ =~= remote_buttons(code as int).unwrap());
    Ok(b)
}

/// A touch sensor.
pub struct TouchSensor<F> {
    pub driver: SensorDriver<F>,
}

impl<F: AttributeFile> TouchSensor<F> {
    pub open spec fn wf(self) -> bool {
        self.driver.wf()
    }

    /// The touch sensor on `port` among the sensor directories `entries`.
    pub fn new<O: AttributeOpener<F>>(fs: &mut O, entries: &Vec<DeviceEntry>, port: SensorPort) -> (r: Result<TouchSensor<F>, Ev3Error>)
        ensures
            (forall|j: int| 0 <= j < entries@.len() ==> !(#[trigger] entries@[j]).is_sensor_on(port))
                ==> r == Err::<TouchSensor<F>, Ev3Error>(
                    Ev3Error::SensorNotFound { port, expected_sensor_type: SensorType::Touch },
                ),
            r matches Ok(s) ==> s.wf() && exists|i: int| first_sensor(entries@, port, SensorType::Touch, i)
                && s.driver.device.base_path == (#[trigger] entries@[i]).path,
    {
        let mut driver = match SensorDriver::new(fs, entries, SensorType::Touch, port) {
            Ok(d) => d,
            Err(e) => {
                return Err(e);
            },
        };
        Ok(TouchSensor { driver })
    }

    /// Whether the sensor is pressed.
    pub fn pressed<O: AttributeOpener<F>>(&mut self, fs: &mut O) -> (r: Result<bool, Ev3Error>)
        requires
            old(self).wf(),
        ensures
            final(self).wf(),
    {
        match self.driver.read_attribute(fs, AttributeName::Value0) {
            Ok(text) => pressed_from(text.as_str()),
            Err(e) => Err(e),
        }
    }
}

/// A color sensor, read in raw red-green-blue mode.
pub struct ColorSensor<F> {
    pub driver: SensorDriver<F>,
}

impl<F: AttributeFile> ColorSensor<F> {
    pub open spec fn wf(self) -> bool {
        self.driver.wf()
    }

    /// The color sensor on `port` among the sensor directories `entries`.
    pub fn new<O: AttributeOpener<F>>(fs: &mut O, entries: &Vec<DeviceEntry>, port: SensorPort) -> (r: Result<ColorSensor<F>, Ev3Error>)
        ensures
            (forall|j: int| 0 <= j < entries@.len() ==> !(#[trigger] entries@[j]).is_sensor_on(port))
                ==> r == Err::<ColorSensor<F>, Ev3Error>(
                    Ev3Error::SensorNotFound { port, expected_sensor_type: SensorType::Color },
                ),
            r matches Ok(s) ==> s.wf() && exists|i: int| first_sensor(entries@, port, SensorType::Color, i)
                && s.driver.device.base_path == (#[trigger] entries@[i]).path,
    {
        let mut driver = match SensorDriver::new(fs, entries, SensorType::Color, port) {
            Ok(d) => d,
            Err(e) => {
                return Err(e);
            },
        };
        match driver.select_mode(fs, SensorMode::ColorRgbRaw) {
            Ok(()) => {},
            Err(e) => {
                return Err(e);
            },
        }
        Ok(ColorSensor { driver })
    }

    /// The raw red, green and blue levels.
    pub fn rgb<O: AttributeOpener<F>>(&mut self, fs: &mut O) -> (r: Result<(i32, i32, i32), Ev3Error>)
        requires
            old(self).wf(),
        ensures
            final(self).wf(),
            r matches Ok((red, green, blue)) ==> read_value(red as int) && read_value(green as int) && read_value(blue as int),
    {
        match self.driver.select_mode(fs, SensorMode::ColorRgbRaw) {
            Ok(()) => {},
            Err(e) => {
                return Err(e);
            },
        }
        let mut levels: Vec<i32> = Vec::new();
        let names = [AttributeName::Value0, AttributeName::Value1, AttributeName::Value2];
        let mut k: usize = 0;
        while k < 3
            invariant
                self.wf(),
                levels@.len() == k,
                k <= 3,
                forall|x: int| 0 <= x < k ==> read_value(#[trigger] levels@[x] as int),
            decreases 3 - k,
        {
            let v = match self.driver.read_attribute(fs, names[k]) {
                Ok(text) => match level_from_text(text.as_str()) {
                    Ok(v) => v,
                    Err(e) => {
                        return Err(e);
                    },
                },
                Err(e) => {
                    return Err(e);
                },
            };
            levels.push(v);
            k = k + 1;
        }
        Ok((levels[0], levels[1], levels[2]))
    }

    /// The palette color nearest to what the sensor sees.
    pub fn color<O: AttributeOpener<F>>(&mut self, fs: &mut O) -> (r: Result<Color, Ev3Error>)
        requires
            old(self).wf(),
        ensures
            final(self).wf(),
            r matches Ok(c) ==> exists|red: int, green: int, blue: int| read_value(red) && read_value(green) && read_value(blue)
                && #[trigger] nearest_color(c, red, green, blue),
    {
        match self.rgb(fs) {
            Ok((red, green, blue)) => Ok(Color::from_rgb(red, green, blue)),
            Err(e) => Err(e),
        }
    }

    /// Reflected light intensity in percent.
    pub fn reflection<O: AttributeOpener<F>>(&mut self, fs: &mut O) -> (r: Result<u8, Ev3Error>)
        requires
            old(self).wf(),
        ensures
            final(self).wf(),
            r matches Ok(p) ==> exists|red: i32, green: i32, blue: i32| read_value(red as int) && read_value(green as int) && read_value(blue as int)
                && p == #[trigger] reflection_level(red as int, green as int, blue as int),
    {
        match self.rgb(fs) {
            Ok((red, green, blue)) => Ok(reflection_of(red, green, blue)),
            Err(e) => Err(e),
        }
    }

    /// Ambient light intensity in percent.
    pub fn ambient<O: AttributeOpener<F>>(&mut self, fs: &mut O) -> (r: Result<u8, Ev3Error>)
        requires
            old(self).wf(),
        ensures
            final(self).wf(),
            r matches Ok(p) ==> exists|red: i32, green: i32, blue: i32| read_value(red as int) && read_value(green as int) && read_value(blue as int)
                && p == #[trigger] ambient_level(red as int, green as int, blue as int),
    {
        match self.rgb(fs) {
            Ok((red, green, blue)) => Ok(ambient_of(red, green, blue)),
            Err(e) => Err(e),
        }
    }
}

/// A gyro sensor.
pub struct GyroSensor<F> {
    pub driver: SensorDriver<F>,
}

impl<F: AttributeFile> GyroSensor<F> {
    pub open spec fn wf(self) -> bool {
        self.driver.wf()
    }

    /// The gyro sensor on `port` among the sensor directories `entries`.
    pub fn new<O: AttributeOpener<F>>(fs: &mut O, entries: &Vec<DeviceEntry>, port: SensorPort) -> (r: Result<GyroSensor<F>, Ev3Error>)
        ensures
            (forall|j: int| 0 <= j < entries@.len() ==> !(#[trigger] entries@[j]).is_sensor_on(port))
                ==> r == Err::<GyroSensor<F>, Ev3Error>(
                    Ev3Error::SensorNotFound { port, expected_sensor_type: SensorType::Gyro },
                ),
            r matches Ok(s) ==> s.wf() && exists|i: int| first_sensor(entries@, port, SensorType::Gyro, i)
                && s.driver.device.base_path == (#[trigger] entries@[i]).path,
    {
        let mut driver = match SensorDriver::new(fs, entries, SensorType::Gyro, port) {
            Ok(d) => d,
            Err(e) => {
                return Err(e);
            },
        };
        match driver.select_mode(fs, SensorMode::GyroAngleAndRate) {
            Ok(()) => {},
            Err(e) => {
                return Err(e);
            },
        }
        Ok(GyroSensor { driver })
    }

    /// Heading in degrees: read in angle mode or angle-and-rate mode, switching to the latter from any other.
    pub fn heading<O: AttributeOpener<F>>(&mut self, fs: &mut O) -> (r: Result<i16, Ev3Error>)
        requires
            old(self).wf(),
        ensures
            final(self).wf(),
    {
        let name = AttributeName::Value0;
        if self.driver.mode == Some(SensorMode::GyroAngle) {
            self.driver.read_i16_in(fs, SensorMode::GyroAngle, name)
        } else {
            self.driver.read_i16_in(fs, SensorMode::GyroAngleAndRate, name)
        }
    }

    /// Rate of turn in degrees per second: read in rate mode or angle-and-rate mode, switching to the latter from any other.
    pub fn angular_velocity<O: AttributeOpener<F>>(&mut self, fs: &mut O) -> (r: Result<i16, Ev3Error>)
        requires
            old(self).wf(),
        ensures
            final(self).wf(),
    {
        if self.driver.mode == Some(SensorMode::GyroRate) {
            self.driver.read_i16_in(fs, SensorMode::GyroRate, AttributeName::Value0)
        } else {
            self.driver.read_i16_in(fs, SensorMode::GyroAngleAndRate, AttributeName::Value1)
        }
    }

    /// Heading and rate of turn, read together in angle-and-rate mode.
    pub fn heading_and_velocity<O: AttributeOpener<F>>(&mut self, fs: &mut O) -> (r: Result<(i16, i16), Ev3Error>)
        requires
            old(self).wf(),
        ensures
            final(self).wf(),
    {
        let heading = match self.driver.read_i16_in(fs, SensorMode::GyroAngleAndRate, AttributeName::Value0) {
            Ok(h) => h,
            Err(e) => {
                return Err(e);
            },
        };
        match self.driver.read_i16_in(fs, SensorMode::GyroAngleAndRate, AttributeName::Value1) {
            Ok(v) => Ok((heading, v)),
            Err(e) => Err(e),
        }
    }

    /// Tilt angle in degrees.
    pub fn tilt<O: AttributeOpener<F>>(&mut self, fs: &mut O) -> (r: Result<i16, Ev3Error>)
        requires
            old(self).wf(),
        ensures
            final(self).wf(),
    {
        self.driver.read_i16_in(fs, SensorMode::TiltAngle, AttributeName::Value0)
    }

    /// Tilt rate in degrees per second.
    pub fn tilt_velocity<O: AttributeOpener<F>>(&mut self, fs: &mut O) -> (r: Result<i16, Ev3Error>)
        requires
            old(self).wf(),
        ensures
            final(self).wf(),
    {
        self.driver.read_i16_in(fs, SensorMode::TiltRate, AttributeName::Value0)
    }
}

/// An ultrasonic distance sensor.
pub struct UltrasonicSensor<F> {
    pub driver: SensorDriver<F>,
}

impl<F: AttributeFile> UltrasonicSensor<F> {
    pub open spec fn wf(self) -> bool {
        self.driver.wf()
    }

    /// The ultrasonic sensor on `port` among the sensor directories `entries`.
    pub fn new<O: AttributeOpener<F>>(fs: &mut O, entries: &Vec<DeviceEntry>, port: SensorPort) -> (r: Result<UltrasonicSensor<F>, Ev3Error>)
        ensures
            (forall|j: int| 0 <= j < entries@.len() ==> !(#[trigger] entries@[j]).is_sensor_on(port))
                ==> r == Err::<UltrasonicSensor<F>, Ev3Error>(
                    Ev3Error::SensorNotFound { port, expected_sensor_type: SensorType::Ultrasonic },
                ),
            r matches Ok(s) ==> s.wf() && exists|i: int| first_sensor(entries@, port, SensorType::Ultrasonic, i)
                && s.driver.device.base_path == (#[trigger] entries@[i]).path,
    {
        let mut driver = match SensorDriver::new(fs, entries, SensorType::Ultrasonic, port) {
            Ok(d) => d,
            Err(e) => {
                return Err(e);
            },
        };
        Ok(UltrasonicSensor { driver })
    }

    /// Distance in centimetres (tenths are reported).
    pub fn distance_cm<O: AttributeOpener<F>>(&mut self, fs: &mut O) -> (r: Result<Fix, Ev3Error>)
        requires
            old(self).wf(),
        ensures
            final(self).wf(),
    {
        match self.driver.read_i16_in(fs, SensorMode::UltrasonicDistanceCm, AttributeName::Value0) {
            Ok(tenths) => Ok(tenths_of(tenths)),
            Err(e) => Err(e),
        }
    }

    /// Distance in inches (tenths are reported).
    pub fn distance_in<O: AttributeOpener<F>>(&mut self, fs: &mut O) -> (r: Result<Fix, Ev3Error>)
        requires
            old(self).wf(),
        ensures
            final(self).wf(),
    {
        match self.driver.read_i16_in(fs, SensorMode::UltrasonicDistanceIn, AttributeName::Value0) {
            Ok(tenths) => Ok(tenths_of(tenths)),
            Err(e) => Err(e),
        }
    }
}

/// An infrared sensor: proximity, remote control buttons and beacon seeking.
pub struct InfraredSensor<F> {
    pub driver: SensorDriver<F>,
}

impl<F: AttributeFile> InfraredSensor<F> {
    pub open spec fn wf(self) -> bool {
        self.driver.wf()
    }

    /// The infrared sensor on `port` among the sensor directories `entries`.
    pub fn new<O: AttributeOpener<F>>(fs: &mut O, entries: &Vec<DeviceEntry>, port: SensorPort) -> (r: Result<InfraredSensor<F>, Ev3Error>)
        ensures
            (forall|j: int| 0 <= j < entries@.len() ==> !(#[trigger] entries@[j]).is_sensor_on(port))
                ==> r == Err::<InfraredSensor<F>, Ev3Error>(
                    Ev3Error::SensorNotFound { port, expected_sensor_type: SensorType::Infrared },
                ),
            r matches Ok(s) ==> s.wf() && exists|i: int| first_sensor(entries@, port, SensorType::Infrared, i)
                && s.driver.device.base_path == (#[trigger] entries@[i]).path,
    {
        let mut driver = match SensorDriver::new(fs, entries, SensorType::Infrared, port) {
            Ok(d) => d,
            Err(e) => {
                return Err(e);
            },
        };
        Ok(InfraredSensor { driver })
    }

    /// Proximity in percent (about 70 cm at 100).
    pub fn proximity<O: AttributeOpener<F>>(&mut self, fs: &mut O) -> (r: Result<u8, Ev3Error>)
        requires
            old(self).wf(),
        ensures
            final(self).wf(),
    {
        match self.driver.read_i16_in(fs, SensorMode::InfraredProximity, AttributeName::Value0) {
            Ok(v) => {
                if 0 <= v && v <= 255 {
                    Ok(v as u8)
                } else {
                    Err(Ev3Error::InvalidValue { func: "InfraredSensor::proximity".to_owned(), value: format_i32(v as i32) })
                }
            },
            Err(e) => Err(e),
        }
    }

    /// Buttons pressed on remote channel 1; empty when three or more are pressed.
    pub fn get_remote_channel_1_buttons<O: AttributeOpener<F>>(&mut self, fs: &mut O) -> (r: Result<Vec<Button>, Ev3Error>)
        requires
            old(self).wf(),
        ensures
            final(self).wf(),
    {
        self.get_remote_buttons(fs, AttributeName::Value0)
    }

    /// Buttons pressed on remote channel 2; empty when three or more are pressed.
    pub fn get_remote_channel_2_buttons<O: AttributeOpener<F>>(&mut self, fs: &mut O) -> (r: Result<Vec<Button>, Ev3Error>)
        requires
            old(self).wf(),
        ensures
            final(self).wf(),
    {
        self.get_remote_buttons(fs, AttributeName::Value1)
    }

    /// Buttons pressed on remote channel 3; empty when three or more are pressed.
    pub fn get_remote_channel_3_buttons<O: AttributeOpener<F>>(&mut self, fs: &mut O) -> (r: Result<Vec<Button>, Ev3Error>)
        requires
            old(self).wf(),
        ensures
            final(self).wf(),
    {
        self.get_remote_buttons(fs, AttributeName::Value2)
    }

    /// Buttons pressed on remote channel 4; empty when three or more are pressed.
    pub fn get_remote_channel_4_buttons<O: AttributeOpener<F>>(&mut self, fs: &mut O) -> (r: Result<Vec<Button>, Ev3Error>)
        requires
            old(self).wf(),
        ensures
            final(self).wf(),
    {
        self.get_remote_buttons(fs, AttributeName::Value3)
    }

    /// Heading (-25 to 25) and distance (percent; -128 out of range) of a beacon on channel 1.
    pub fn seek_channel_1<O: AttributeOpener<F>>(&mut self, fs: &mut O) -> (r: Result<(i8, i8), Ev3Error>)
        requires
            old(self).wf(),
        ensures
            final(self).wf(),
    {
        self.seek(fs, AttributeName::Value0, AttributeName::Value1)
    }

    /// Heading (-25 to 25) and distance (percent; -128 out of range) of a beacon on channel 2.
    pub fn seek_channel_2<O: AttributeOpener<F>>(&mut self, fs: &mut O) -> (r: Result<(i8, i8), Ev3Error>)
        requires
            old(self).wf(),
        ensures
            final(self).wf(),
    {
        self.seek(fs, AttributeName::Value2, AttributeName::Value3)
    }

    /// Heading (-25 to 25) and distance (percent; -128 out of range) of a beacon on channel 3.
    pub fn seek_channel_3<O: AttributeOpener<F>>(&mut self, fs: &mut O) -> (r: Result<(i8, i8), Ev3Error>)
        requires
            old(self).wf(),
        ensures
            final(self).wf(),
    {
        self.seek(fs, AttributeName::Value4, AttributeName::Value5)
    }

    /// Heading (-25 to 25) and distance (percent; -128 out of range) of a beacon on channel 4.
    pub fn seek_channel_4<O: AttributeOpener<F>>(&mut self, fs: &mut O) -> (r: Result<(i8, i8), Ev3Error>)
        requires
            old(self).wf(),
        ensures
            final(self).wf(),
    {
        self.seek(fs, AttributeName::Value6, AttributeName::Value7)
    }

    fn get_remote_buttons<O: AttributeOpener<F>>(&mut self, fs: &mut O, name: AttributeName) -> (r: Result<Vec<Button>, Ev3Error>)
        requires
            old(self).wf(),
        ensures
            final(self).wf(),
    {
        match self.driver.select_mode(fs, SensorMode::InfraredRemote) {
            Ok(()) => {},
            Err(e) => {
                return Err(e);
            },
        }
        match self.driver.read_attribute(fs, name) {
            Ok(text) => remote_buttons_from(text.as_str()),
            Err(e) => Err(e),
        }
    }

    fn seek<O: AttributeOpener<F>>(&mut self, fs: &mut O, heading: AttributeName, distance: AttributeName) -> (r: Result<(i8, i8), Ev3Error>)
        requires
            old(self).wf(),
        ensures
            final(self).wf(),
    {
        let h = match self.driver.read_i16_in(fs, SensorMode::InfraredSeek, heading) {
            Ok(v) => v,
            Err(e) => {
                return Err(e);
            },
        };
        let d = match self.driver.read_i16_in(fs, SensorMode::InfraredSeek, distance) {
            Ok(v) => v,
            Err(e) => {
                return Err(e);
            },
        };
        if h < -128 || h > 127 || d < -128 || d > 127 {
            return Err(Ev3Error::InvalidValue { func: "InfraredSensor::seek".to_owned(), value: format_i32(if h < -128 || h > 127 { h as i32 } else { d as i32 }) });
        }
        Ok((h as i8, d as i8))
    }
}

} // verus!
