//! Ports, directions, stop actions, colors and sensor types, with the strings
//! that the device files use for them.
use vstd::prelude::*;
use crate::error::Ev3Error;

verus! {

/// A value with a fixed name in the device files.
pub trait AsStr {
    fn as_str(&self) -> &'static str;
}

/// The direction in which a positive speed turns a motor.
#[derive(Clone, Copy, Debug, PartialEq, Eq, Structural)]
pub enum Direction {
    ClockWise,
    CounterClockWise,
}

/// What a motor does when it is told to stop.
#[derive(Clone, Copy, Debug, PartialEq, Eq, Structural)]
pub enum Stop {
    Coast,
    Brake,
    Hold,
}

impl Stop {
    pub open spec fn name(self) -> Seq<char> {
        match self {
            Stop::Coast => "coast"@,
            Stop::Brake => "brake"@,
            Stop::Hold => "hold"@,
        }
    }

    pub fn action_str(&self) -> (r: &'static str)
        ensures
            r@ == self.name(),
    {
        match self {
            Stop::Coast => "coast",
            Stop::Brake => "brake",
            Stop::Hold => "hold",
        }
    }
}

impl AsStr for Stop {
    fn as_str(&self) -> &'static str {
        self.action_str()
    }
}

/// An output port, where motors connect.
#[derive(Clone, Copy, Debug, PartialEq, Eq, Structural)]
pub enum MotorPort {
    OutA,
    OutB,
    OutC,
    OutD,
}

impl MotorPort {
    /// The `address` attribute of a motor on this port.
    pub open spec fn address(self) -> Seq<char> {
        match self {
            MotorPort::OutA => "ev3-ports:outA"@,
            MotorPort::OutB => "ev3-ports:outB"@,
            MotorPort::OutC => "ev3-ports:outC"@,
            MotorPort::OutD => "ev3-ports:outD"@,
        }
    }

    pub fn address_str(&self) -> (r: &'static str)
        ensures
            r@ == self.address(),
    {
        match self {
            MotorPort::OutA => "ev3-ports:outA",
            MotorPort::OutB => "ev3-ports:outB",
            MotorPort::OutC => "ev3-ports:outC",
            MotorPort::OutD => "ev3-ports:outD",
        }
    }
}

impl AsStr for MotorPort {
    fn as_str(&self) -> &'static str {
        self.address_str()
    }
}

/// An input port, where sensors connect.
#[derive(Clone, Copy, Debug, PartialEq, Eq, Structural)]
pub enum SensorPort {
    In1,
    In2,
    In3,
    In4,
}

impl SensorPort {
    /// The `address` attribute of a sensor on this port.
    pub open spec fn address(self) -> Seq<char> {
        match self {
            SensorPort::In1 => "ev3-ports:in1"@,
            SensorPort::In2 => "ev3-ports:in2"@,
            SensorPort::In3 => "ev3-ports:in3"@,
            SensorPort::In4 => "ev3-ports:in4"@,
        }
    }

    pub fn address_str(&self) -> (r: &'static str)
        ensures
            r@ == self.address(),
    {
        match self {
            SensorPort::In1 => "ev3-ports:in1",
            SensorPort::In2 => "ev3-ports:in2",
            SensorPort::In3 => "ev3-ports:in3",
            SensorPort::In4 => "ev3-ports:in4",
        }
    }
}

impl AsStr for SensorPort {
    fn as_str(&self) -> &'static str {
        self.address_str()
    }
}

/// The kinds of sensor, told apart by their `driver_name` attribute.
#[derive(Clone, Copy, Debug, PartialEq, Eq, Structural)]
pub enum SensorType {
    Ultrasonic,
    Gyro,
    Color,
    Touch,
    Infrared,
}

impl SensorType {
    pub open spec fn driver_name(self) -> Seq<char> {
        match self {
            SensorType::Ultrasonic => "lego-ev3-us"@,
            SensorType::Gyro => "lego-ev3-gyro"@,
            SensorType::Color => "lego-ev3-color"@,
            SensorType::Touch => "lego-ev3-touch"@,
            SensorType::Infrared => "lego-ev3-ir"@,
        }
    }

    pub fn driver_name_str(&self) -> (r: &'static str)
        ensures
            r@ == self.driver_name(),
    {
        match self {
            SensorType::Ultrasonic => "lego-ev3-us",
            SensorType::Gyro => "lego-ev3-gyro",
            SensorType::Color => "lego-ev3-color",
            SensorType::Touch => "lego-ev3-touch",
            SensorType::Infrared => "lego-ev3-ir",
        }
    }
}

impl AsStr for SensorType {
    fn as_str(&self) -> &'static str {
        self.driver_name_str()
    }
}

/// The colors a color sensor tells apart.
#[derive(Clone, Copy, Debug, PartialEq, Eq, Structural)]
pub enum Color {
    Black,
    Blue,
    Green,
    Yellow,
    Red,
    White,
    Brown,
    Orange,
    Purple,
}

/// Number of colors in the palette.
pub const PALETTE_SIZE: usize = 9;

/// The palette: each color with its red, green and blue levels (0 to 255).
pub open spec fn palette(i: int) -> (Color, int, int, int) {
    if i == 0 {
        (Color::Black, 0, 0, 0)
    } else if i == 1 {
        (Color::Blue, 0, 0, 255)
    } else if i == 2 {
        (Color::Green, 0, 255, 0)
    } else if i == 3 {
        (Color::Yellow, 255, 255, 0)
    } else if i == 4 {
        (Color::Red, 255, 0, 0)
    } else if i == 5 {
        (Color::White, 255, 255, 255)
    } else if i == 6 {
        (Color::Brown, 165, 42, 42)
    } else if i == 7 {
        (Color::Orange, 255, 165, 0)
    } else {
        (Color::Purple, 128, 0, 128)
    }
}

fn palette_entry(i: usize) -> (r: (Color, i32, i32, i32))
    requires
        i < PALETTE_SIZE,
    ensures
        (r.0, r.1 as int, r.2 as int, r.3 as int) == palette(i as int),
{
    match i {
        0 => (Color::Black, 0, 0, 0),
        1 => (Color::Blue, 0, 0, 255),
        2 => (Color::Green, 0, 255, 0),
        3 => (Color::Yellow, 255, 255, 0),
        4 => (Color::Red, 255, 0, 0),
        5 => (Color::White, 255, 255, 255),
        6 => (Color::Brown, 165, 42, 42),
        7 => (Color::Orange, 255, 165, 0),
        _ => (Color::Purple, 128, 0, 128),
    }
}

/// A raw sensor level (0 to 1020) scaled to 0 to 255, rounded toward zero
/// and clamped.
pub open spec fn channel(raw: int) -> int {
    if raw <= 0 {
        0
    } else if raw / 4 > 255 {
        255
    } else {
        raw / 4
    }
}

/// Squared distance between palette entry `i` and the levels `r`, `g`, `b`.
pub open spec fn palette_distance(i: int, r: int, g: int, b: int) -> int {
    let p = palette(i);
    (p.1 - r) * (p.1 - r) + (p.2 - g) * (p.2 - g) + (p.3 - b) * (p.3 - b)
}

fn channel_of(raw: i32) -> (r: i32)
    ensures
        r == channel(raw as int),
        0 <= r <= 255,
{
    if raw <= 0 {
        0
    } else if raw / 4 > 255 {
        255
    } else {
        raw / 4
    }
}

fn square(x: i32) -> (r: i32)
    requires
        -255 <= x <= 255,
    ensures
        r == x * x,
        0 <= r <= 65025,
{
    assert(0 <= x * x <= 65025) by (nonlinear_arith)
        requires -255 <= x <= 255;
    x * x
}

/// `c` is the palette color nearest to raw levels `r`, `g`, `b`, the first
/// of equally near ones.
pub open spec fn nearest_color(c: Color, r: int, g: int, b: int) -> bool {
    exists|i: int| 0 <= i < PALETTE_SIZE && #[trigger] palette(i).0 == c
        && (forall|j: int| 0 <= j < PALETTE_SIZE ==> palette_distance(i, channel(r), channel(g), channel(b))
            <= #[trigger] palette_distance(j, channel(r), channel(g), channel(b)))
        && (forall|j: int| 0 <= j < i ==> palette_distance(i, channel(r), channel(g), channel(b))
            < #[trigger] palette_distance(j, channel(r), channel(g), channel(b)))
}

impl Color {
    /// The palette color nearest to raw sensor levels `r`, `g`, `b`; of
    /// equally near colors, the first in the palette.
    pub fn from_rgb(r: i32, g: i32, b: i32) -> (c: Color)
        ensures
            nearest_color(c, r as int, g as int, b as int),
    {
        let cr = channel_of(r);
        let cg = channel_of(g);
        let cb = channel_of(b);
        let ghost (sr, sg, sb) = (cr as int, cg as int, cb as int);
        let mut best: usize = 0;
        let (_, pr0, pg0, pb0) = palette_entry(0);
        let mut best_distance: i32 = square(pr0 - cr) + square(pg0 - cg) + square(pb0 - cb);
        assert(best_distance == palette_distance(0, sr, sg, sb));
        let mut i: usize = 1;
        while i < PALETTE_SIZE
            invariant
                1 <= i <= PALETTE_SIZE,
                best < i,
                0 <= cr <= 255,
                0 <= cg <= 255,
                0 <= cb <= 255,
                sr == cr,
                sg == cg,
                sb == cb,
                best_distance == palette_distance(best as int, sr, sg, sb),
                forall|j: int| 0 <= j < i ==> best_distance <= #[trigger] palette_distance(j, sr, sg, sb),
                forall|j: int| 0 <= j < best ==> best_distance < #[trigger] palette_distance(j, sr, sg, sb),
            decreases PALETTE_SIZE - i,
        {
            let (_, pr, pg, pb) = palette_entry(i);
            assert(0 <= pr <= 255 && 0 <= pg <= 255 && 0 <= pb <= 255);
            let dr = pr - cr;
            let dg = pg - cg;
            let db = pb - cb;
            let d = square(dr) + square(dg) + square(db);
            assert(d == palette_distance(i as int, sr, sg, sb));
            if d < best_distance {
                best = i;
                best_distance = d;
            }
            i = i + 1;
        }
        let (c, _, _, _) = palette_entry(best);
        c
    }
}

/// The modes a sensor is switched between, by the `mode` attribute.
#[derive(Clone, Copy, Debug, PartialEq, Eq, Structural)]
pub enum SensorMode {
    GyroAngle,
    GyroRate,
    GyroRateUnscaled,
    GyroAngleAndRate,
    TiltAngle,
    TiltRate,
    GyroCalibration,
    InfraredProximity,
    InfraredSeek,
    InfraredRemote,
    UltrasonicDistanceCm,
    UltrasonicDistanceIn,
    ColorRgbRaw,
    Touch,
}

impl SensorMode {
    pub open spec fn name(self) -> Seq<char> {
        match self {
            SensorMode::GyroAngle => "GYRO-ANG"@,
            SensorMode::GyroRate => "GYRO-RATE"@,
            SensorMode::GyroRateUnscaled => "GYRO-FAS"@,
            SensorMode::GyroAngleAndRate => "GYRO-G&A"@,
            SensorMode::TiltAngle => "TILT-ANG"@,
            SensorMode::TiltRate => "TILT-RATE"@,
            SensorMode::GyroCalibration => "GYRO-CAL"@,
            SensorMode::InfraredProximity => "IR-PROX"@,
            SensorMode::InfraredSeek => "IR-SEEK"@,
            SensorMode::InfraredRemote => "IR-REMOTE"@,
            SensorMode::UltrasonicDistanceCm => "US-DIST-CM"@,
            SensorMode::UltrasonicDistanceIn => "US-DIST-IN"@,
            SensorMode::ColorRgbRaw => "RGB-RAW"@,
            SensorMode::Touch => "TOUCH"@,
        }
    }

    pub fn name_str(&self) -> (r: &'static str)
        ensures
            r@ == self.name(),
    {
        match self {
            SensorMode::GyroAngle => "GYRO-ANG",
            SensorMode::GyroRate => "GYRO-RATE",
            SensorMode::GyroRateUnscaled => "GYRO-FAS",
            SensorMode::GyroAngleAndRate => "GYRO-G&A",
            SensorMode::TiltAngle => "TILT-ANG",
            SensorMode::TiltRate => "TILT-RATE",
            SensorMode::GyroCalibration => "GYRO-CAL",
            SensorMode::InfraredProximity => "IR-PROX",
            SensorMode::InfraredSeek => "IR-SEEK",
            SensorMode::InfraredRemote => "IR-REMOTE",
            SensorMode::UltrasonicDistanceCm => "US-DIST-CM",
            SensorMode::UltrasonicDistanceIn => "US-DIST-IN",
            SensorMode::ColorRgbRaw => "RGB-RAW",
            SensorMode::Touch => "TOUCH",
        }
    }
}

impl AsStr for SensorMode {
    fn as_str(&self) -> &'static str {
        self.name_str()
    }
}

/// The buttons of the infrared remote control.
#[derive(Clone, Copy, Debug, PartialEq, Eq, Hash, Structural)]
pub enum Button {
    RedUp,
    RedDown,
    BlueUp,
    BlueDown,
    BeaconOn,
}

/// Whether two strings are equal.
pub fn same_text(a: &str, b: &str) -> (r: bool)
    ensures
        r == (a@ == b@),
{
    a.to_owned() == b.to_owned()
}

impl Stop {
    /// The variant whose name is `s`; a parse error naming the type otherwise.
    pub fn from_name(s: &str) -> (r: Result<Stop, Ev3Error>)
        ensures
            r matches Ok(v) ==> v.name() == s@,
            r is Err ==> (forall|v: Stop| #[trigger] v.name() != s@)
                && (r matches Err(Ev3Error::ParseStr { input, to }) && input@ == s@ && to@ == "Stop"@),
    {
        if same_text(s, Stop::Coast.action_str()) {
            return Ok(Stop::Coast);
        }
        if same_text(s, Stop::Brake.action_str()) {
            return Ok(Stop::Brake);
        }
        if same_text(s, Stop::Hold.action_str()) {
            return Ok(Stop::Hold);
        }
        Err(Ev3Error::ParseStr { input: s.to_owned(), to: "Stop".to_owned() })
    }
}

impl std::str::FromStr for Stop {
    type Err = Ev3Error;

    fn from_str(s: &str) -> Result<Stop, Ev3Error> {
        Stop::from_name(s)
    }
}

impl MotorPort {
    /// The variant whose name is `s`; a parse error naming the type otherwise.
    pub fn from_name(s: &str) -> (r: Result<MotorPort, Ev3Error>)
        ensures
            r matches Ok(v) ==> v.address() == s@,
            r is Err ==> (forall|v: MotorPort| #[trigger] v.address() != s@)
                && (r matches Err(Ev3Error::ParseStr { input, to }) && input@ == s@ && to@ == "MotorPort"@),
    {
        if same_text(s, MotorPort::OutA.address_str()) {
            return Ok(MotorPort::OutA);
        }
        if same_text(s, MotorPort::OutB.address_str()) {
            return Ok(MotorPort::OutB);
        }
        if same_text(s, MotorPort::OutC.address_str()) {
            return Ok(MotorPort::OutC);
        }
        if same_text(s, MotorPort::OutD.address_str()) {
            return Ok(MotorPort::OutD);
        }
        Err(Ev3Error::ParseStr { input: s.to_owned(), to: "MotorPort".to_owned() })
    }
}

impl std::str::FromStr for MotorPort {
    type Err = Ev3Error;

    fn from_str(s: &str) -> Result<MotorPort, Ev3Error> {
        MotorPort::from_name(s)
    }
}

impl SensorPort {
    /// The variant whose name is `s`; a parse error naming the type otherwise.
    pub fn from_name(s: &str) -> (r: Result<SensorPort, Ev3Error>)
        ensures
            r matches Ok(v) ==> v.address() == s@,
            r is Err ==> (forall|v: SensorPort| #[trigger] v.address() != s@)
                && (r matches Err(Ev3Error::ParseStr { input, to }) && input@ == s@ && to@ == "SensorPort"@),
    {
        if same_text(s, SensorPort::In1.address_str()) {
            return Ok(SensorPort::In1);
        }
        if same_text(s, SensorPort::In2.address_str()) {
            return Ok(SensorPort::In2);
        }
        if same_text(s, SensorPort::In3.address_str()) {
            return Ok(SensorPort::In3);
        }
        if same_text(s, SensorPort::In4.address_str()) {
            return Ok(SensorPort::In4);
        }
        Err(Ev3Error::ParseStr { input: s.to_owned(), to: "SensorPort".to_owned() })
    }
}

impl std::str::FromStr for SensorPort {
    type Err = Ev3Error;

    fn from_str(s: &str) -> Result<SensorPort, Ev3Error> {
        SensorPort::from_name(s)
    }
}

impl SensorType {
    /// The variant whose name is `s`; a parse error naming the type otherwise.
    pub fn from_name(s: &str) -> (r: Result<SensorType, Ev3Error>)
        ensures
            r matches Ok(v) ==> v.driver_name() == s@,
            r is Err ==> (forall|v: SensorType| #[trigger] v.driver_name() != s@)
                && (r matches Err(Ev3Error::ParseStr { input, to }) && input@ == s@ && to@ == "SensorType"@),
    {
        if same_text(s, SensorType::Ultrasonic.driver_name_str()) {
            return Ok(SensorType::Ultrasonic);
        }
        if same_text(s, SensorType::Gyro.driver_name_str()) {
            return Ok(SensorType::Gyro);
        }
        if same_text(s, SensorType::Color.driver_name_str()) {
            return Ok(SensorType::Color);
        }
        if same_text(s, SensorType::Touch.driver_name_str()) {
            return Ok(SensorType::Touch);
        }
        if same_text(s, SensorType::Infrared.driver_name_str()) {
            return Ok(SensorType::Infrared);
        }
        Err(Ev3Error::ParseStr { input: s.to_owned(), to: "SensorType".to_owned() })
    }
}

impl std::str::FromStr for SensorType {
    type Err = Ev3Error;

    fn from_str(s: &str) -> Result<SensorType, Ev3Error> {
        SensorType::from_name(s)
    }
}

impl SensorMode {
    /// The variant whose name is `s`; a parse error naming the type otherwise.
    pub fn from_name(s: &str) -> (r: Result<SensorMode, Ev3Error>)
        ensures
            r matches Ok(v) ==> v.name() == s@,
            r is Err ==> (forall|v: SensorMode| #[trigger] v.name() != s@)
                && (r matches Err(Ev3Error::ParseStr { input, to }) && input@ == s@ && to@ == "SensorMode"@),
    {
        if same_text(s, SensorMode::GyroAngle.name_str()) {
            return Ok(SensorMode::GyroAngle);
        }
        if same_text(s, SensorMode::GyroRate.name_str()) {
            return Ok(SensorMode::GyroRate);
        }
        if same_text(s, SensorMode::GyroRateUnscaled.name_str()) {
            return Ok(SensorMode::GyroRateUnscaled);
        }
        if same_text(s, SensorMode::GyroAngleAndRate.name_str()) {
            return Ok(SensorMode::GyroAngleAndRate);
        }
        if same_text(s, SensorMode::TiltAngle.name_str()) {
            return Ok(SensorMode::TiltAngle);
        }
        if same_text(s, SensorMode::TiltRate.name_str()) {
            return Ok(SensorMode::TiltRate);
        }
        if same_text(s, SensorMode::GyroCalibration.name_str()) {
            return Ok(SensorMode::GyroCalibration);
        }
        if same_text(s, SensorMode::InfraredProximity.name_str()) {
            return Ok(SensorMode::InfraredProximity);
        }
        if same_text(s, SensorMode::InfraredSeek.name_str()) {
            return Ok(SensorMode::InfraredSeek);
        }
        if same_text(s, SensorMode::InfraredRemote.name_str()) {
            return Ok(SensorMode::InfraredRemote);
        }
        if same_text(s, SensorMode::UltrasonicDistanceCm.name_str()) {
            return Ok(SensorMode::UltrasonicDistanceCm);
        }
        if same_text(s, SensorMode::UltrasonicDistanceIn.name_str()) {
            return Ok(SensorMode::UltrasonicDistanceIn);
        }
        if same_text(s, SensorMode::ColorRgbRaw.name_str()) {
            return Ok(SensorMode::ColorRgbRaw);
        }
        if same_text(s, SensorMode::Touch.name_str()) {
            return Ok(SensorMode::Touch);
        }
        Err(Ev3Error::ParseStr { input: s.to_owned(), to: "SensorMode".to_owned() })
    }
}

impl std::str::FromStr for SensorMode {
    type Err = Ev3Error;

    fn from_str(s: &str) -> Result<SensorMode, Ev3Error> {
        SensorMode::from_name(s)
    }
}

} // verus!
