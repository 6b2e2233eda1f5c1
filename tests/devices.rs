use std::cell::RefCell;
use std::collections::HashMap;
use std::rc::Rc;

use ev3dev_rs::attribute::{read_step, trim, write_result, Attribute, AttributeFile, AttributeName, FileMode, ReadStep};
use ev3dev_rs::car::Car;
use ev3dev_rs::device::{resolve_motor, resolve_sensor, AttributeOpener, DeviceDriver, DeviceEntry};
use ev3dev_rs::car::steer_plan;
use ev3dev_rs::drive_base::drive_motor_setup;
use ev3dev_rs::motor::{counts_for, counts_from_text, run_timed_plan, run_to_plan, state_has, stop_command_plan, AttributeWrite, Motor};
use ev3dev_rs::parameters::{AsStr, Button, Color, Direction, MotorPort, SensorMode, SensorPort, SensorType, Stop};
use ev3dev_rs::sensors::{
    ambient_of, parse_i16, pressed_from, reflection_of, remote_buttons_from, tenths_of, ColorSensor,
    GyroSensor, InfraredSensor, SensorDriver, TouchSensor, UltrasonicSensor,
};
use ev3dev_rs::fixed_point::Fix;
use ev3dev_rs::Ev3Error;

/// Counts every operation on a backing file.
#[derive(Default)]
struct Counters {
    rewinds: usize,
    reads: usize,
    writes: usize,
    fail_writes: bool,
}

/// An in-memory attribute file.
struct MemFile {
    path: String,
    tree: Rc<RefCell<HashMap<String, String>>>,
    log: Rc<RefCell<Vec<(String, String)>>>,
    counters: Rc<RefCell<Counters>>,
    failed_reads_left: usize,
    fail_rewind: bool,
    fail_write: bool,
}

impl AttributeFile for MemFile {
    fn rewind(&mut self) -> Result<(), String> {
        self.counters.borrow_mut().rewinds += 1;
        if self.fail_rewind {
            Err("seek failed".to_string())
        } else {
            Ok(())
        }
    }

    fn read_contents(&mut self) -> Option<String> {
        self.counters.borrow_mut().reads += 1;
        if self.failed_reads_left > 0 {
            self.failed_reads_left -= 1;
            return None;
        }
        Some(self.tree.borrow().get(&self.path).cloned().unwrap_or_default())
    }

    fn write_value(&mut self, value: &str) -> Result<(), String> {
        self.counters.borrow_mut().writes += 1;
        if self.fail_write || self.counters.borrow().fail_writes {
            return Err("no space".to_string());
        }
        self.tree.borrow_mut().insert(self.path.clone(), value.to_string());
        self.log.borrow_mut().push((self.path.clone(), value.to_string()));
        Ok(())
    }
}

/// An in-memory device tree.
struct MemFs {
    tree: Rc<RefCell<HashMap<String, String>>>,
    log: Rc<RefCell<Vec<(String, String)>>>,
    counters: Rc<RefCell<Counters>>,
    opened: Vec<(String, FileMode)>,
}

impl MemFs {
    fn new(files: &[(&str, &str)]) -> MemFs {
        let mut tree = HashMap::new();
        for (p, v) in files {
            tree.insert(p.to_string(), v.to_string());
        }
        MemFs {
            tree: Rc::new(RefCell::new(tree)),
            log: Rc::new(RefCell::new(Vec::new())),
            counters: Rc::new(RefCell::new(Counters::default())),
            opened: Vec::new(),
        }
    }

    fn file(&self, path: &str) -> MemFile {
        MemFile {
            path: path.to_string(),
            tree: self.tree.clone(),
            log: self.log.clone(),
            counters: self.counters.clone(),
            failed_reads_left: 0,
            fail_rewind: false,
            fail_write: false,
        }
    }

    fn io_count(&self) -> usize {
        let c = self.counters.borrow();
        c.rewinds + c.reads + c.writes
    }

    fn value(&self, path: &str) -> Option<String> {
        self.tree.borrow().get(path).cloned()
    }
}

impl AttributeOpener<MemFile> for MemFs {
    fn open(&mut self, path: &str, mode: FileMode) -> Option<MemFile> {
        self.opened.push((path.to_string(), mode));
        if self.tree.borrow().contains_key(path) {
            Some(self.file(path))
        } else {
            None
        }
    }
}

fn entry(path: &str, address: &str, driver: Option<&str>) -> DeviceEntry {
    DeviceEntry::new(path.to_string(), address, driver)
}

#[test]
fn disallowed_operations_do_no_io() {
    let fs = MemFs::new(&[("/d/x", "7\n")]);
    let mut read_only = Attribute::new(fs.file("/d/x"), "/d/x".to_string(), FileMode::Read);
    assert_eq!(
        read_only.set("1"),
        Err(Ev3Error::PermissionDenied { required_permission: FileMode::Write })
    );
    let mut write_only = Attribute::new(fs.file("/d/x"), "/d/x".to_string(), FileMode::Write);
    assert_eq!(
        write_only.get(),
        Err(Ev3Error::PermissionDenied { required_permission: FileMode::Read })
    );
    assert_eq!(fs.io_count(), 0);
    assert_eq!(fs.value("/d/x"), Some("7\n".to_string()));

    let mut both = Attribute::new(fs.file("/d/x"), "/d/x".to_string(), FileMode::ReadWrite);
    assert_eq!(both.get(), Ok("7".to_string()));
    assert_eq!(both.set("9"), Ok(()));
    assert_eq!(fs.value("/d/x"), Some("9".to_string()));
    assert_eq!(read_only.get(), Ok("9".to_string()));
    assert_eq!(write_only.set("3"), Ok(()));
}

#[test]
fn driver_checks_mode_before_opening() {
    let mut fs = MemFs::new(&[("/m/command", ""), ("/m/state", "running")]);
    let mut driver: DeviceDriver<MemFile> = DeviceDriver::new("/m".to_string());
    assert_eq!(
        driver.read_attribute(&mut fs, AttributeName::Command),
        Err(Ev3Error::PermissionDenied { required_permission: FileMode::Read })
    );
    assert_eq!(
        driver.set_attribute(&mut fs, AttributeName::State, "x"),
        Err(Ev3Error::PermissionDenied { required_permission: FileMode::Write })
    );
    assert!(fs.opened.is_empty());
    assert_eq!(fs.io_count(), 0);
    assert_eq!(driver.read_attribute(&mut fs, AttributeName::State), Ok("running".to_string()));
    assert_eq!(driver.read_attribute(&mut fs, AttributeName::State), Ok("running".to_string()));
    assert_eq!(fs.opened, vec![("/m/state".to_string(), FileMode::Read)]);
    assert_eq!(
        driver.read_attribute(&mut fs, AttributeName::Speed),
        Err(Ev3Error::FileNotFound { path: "/m/speed".to_string() })
    );
}

#[test]
fn read_retries_then_gives_up() {
    let fs = MemFs::new(&[("/d/v", "  42 \n")]);
    let mut flaky = fs.file("/d/v");
    flaky.failed_reads_left = 4;
    let mut a = Attribute::new(flaky, "/d/v".to_string(), FileMode::Read);
    assert_eq!(a.get(), Ok("42".to_string()));
    let mut broken = fs.file("/d/v");
    broken.failed_reads_left = 5;
    let mut b = Attribute::new(broken, "/d/v".to_string(), FileMode::Read);
    assert_eq!(b.get(), Err(Ev3Error::InvalidStringBytes));
}

#[test]
fn io_failures_carry_path_and_value() {
    let fs = MemFs::new(&[("/d/v", "1")]);
    let mut f = fs.file("/d/v");
    f.fail_rewind = true;
    let mut a = Attribute::new(f, "/d/v".to_string(), FileMode::ReadWrite);
    assert_eq!(
        a.get(),
        Err(Ev3Error::ReadAttributeFailure { filename: "/d/v".to_string(), os_error: "seek failed".to_string() })
    );
    let mut g = fs.file("/d/v");
    g.fail_write = true;
    let mut b = Attribute::new(g, "/d/v".to_string(), FileMode::Write);
    assert_eq!(
        b.set("12"),
        Err(Ev3Error::WriteAttributeFailure {
            filename: "/d/v".to_string(),
            value: "12".to_string(),
            os_error: "no space".to_string(),
        })
    );
    let mut h = fs.file("/d/v");
    h.fail_rewind = true;
    let mut c = Attribute::new(h, "/d/v".to_string(), FileMode::ReadWrite);
    assert_eq!(
        c.set("5"),
        Err(Ev3Error::WriteAttributeFailure {
            filename: "/d/v".to_string(),
            value: "5".to_string(),
            os_error: "seek failed".to_string(),
        })
    );
    assert_eq!(fs.value("/d/v"), Some("1".to_string()));
}

#[test]
fn read_and_write_steps() {
    assert!(matches!(read_step(0, Some(" 12\n".to_string())), ReadStep::Done(Ok(s)) if s == "12"));
    assert!(matches!(read_step(4, Some("x".to_string())), ReadStep::Done(Ok(s)) if s == "x"));
    assert!(matches!(read_step(0, None), ReadStep::Retry));
    assert!(matches!(read_step(3, None), ReadStep::Retry));
    assert!(matches!(read_step(4, None), ReadStep::Done(Err(Ev3Error::InvalidStringBytes))));
    let path = "/d/p".to_string();
    assert_eq!(write_result(&path, "7", Ok(())), Ok(()));
    assert_eq!(
        write_result(&path, "7", Err("denied".to_string())),
        Err(Ev3Error::WriteAttributeFailure { filename: path.clone(), value: "7".to_string(), os_error: "denied".to_string() })
    );
}

#[test]
fn trim_removes_surrounding_whitespace() {
    assert_eq!(trim("  ev3-ports:in1\n"), "ev3-ports:in1");
    assert_eq!(trim("a b"), "a b");
    assert_eq!(trim("\t\n"), "");
    assert_eq!(trim("\u{a0}\u{3000}x\u{2028}"), "x");
}

fn sensor_entries() -> Vec<DeviceEntry> {
    vec![
        entry("/s/sensor0", "ev3-ports:in1\n", Some("lego-ev3-touch\n")),
        entry("/s/sensor1", "ev3-ports:in2\n", Some("lego-ev3-color\n")),
        entry("/s/sensor2", "ev3-ports:in3\n", Some("lego-ev3-gyro\n")),
    ]
}

#[test]
fn resolution_by_port_and_type() {
    let entries = sensor_entries();
    assert_eq!(
        resolve_sensor(&entries, SensorPort::In4, SensorType::Touch),
        Err(Ev3Error::SensorNotFound { port: SensorPort::In4, expected_sensor_type: SensorType::Touch })
    );
    assert_eq!(
        resolve_sensor(&entries, SensorPort::In2, SensorType::Gyro),
        Err(Ev3Error::IncorrectSensorType { expected: SensorType::Gyro, found: SensorType::Color })
    );
    assert_eq!(resolve_sensor(&entries, SensorPort::In3, SensorType::Gyro), Ok(2));
    let motors = vec![entry("/t/motor0", "ev3-ports:outB\n", None), entry("/t/motor1", "ev3-ports:outA", None)];
    assert_eq!(resolve_motor(&motors, MotorPort::OutA), Ok(1));
    assert_eq!(resolve_motor(&motors, MotorPort::OutC), Err(Ev3Error::MotorNotFound { port: MotorPort::OutC }));
}

#[test]
fn resolved_sensor_exposes_its_own_attributes() {
    let mut fs = MemFs::new(&[
        ("/s/sensor0/mode", "TOUCH"),
        ("/s/sensor0/value0", "1\n"),
        ("/s/sensor2/mode", "GYRO-ANG"),
        ("/s/sensor2/value0", "-17\n"),
        ("/s/sensor2/value1", "4\n"),
    ]);
    let entries = sensor_entries();
    let mut gyro: GyroSensor<MemFile> = GyroSensor::new(&mut fs, &entries, SensorPort::In3).unwrap();
    assert_eq!(gyro.driver.device.base_path, "/s/sensor2");
    assert_eq!(fs.value("/s/sensor2/mode"), Some("GYRO-G&A".to_string()));
    assert_eq!(gyro.heading(&mut fs), Ok(-17));
    assert_eq!(gyro.angular_velocity(&mut fs), Ok(4));
    assert!(fs.opened.iter().all(|(p, _)| p.starts_with("/s/sensor2/")));
    let mut touch: TouchSensor<MemFile> = TouchSensor::new(&mut fs, &entries, SensorPort::In1).unwrap();
    assert_eq!(touch.pressed(&mut fs), Ok(true));
    assert_eq!(touch.driver.mode, Some(SensorMode::Touch));
    assert!(matches!(
        TouchSensor::<MemFile>::new(&mut fs, &entries, SensorPort::In2),
        Err(Ev3Error::IncorrectSensorType { expected: SensorType::Touch, found: SensorType::Color })
    ));
}

#[test]
fn color_sensor_readings() {
    let mut fs = MemFs::new(&[
        ("/s/sensor1/mode", "COL-REFLECT"),
        ("/s/sensor1/value0", "1020"),
        ("/s/sensor1/value1", "0"),
        ("/s/sensor1/value2", "0"),
    ]);
    let entries = sensor_entries();
    let mut color: ColorSensor<MemFile> = ColorSensor::new(&mut fs, &entries, SensorPort::In2).unwrap();
    assert_eq!(fs.value("/s/sensor1/mode"), Some("RGB-RAW".to_string()));
    assert_eq!(color.color(&mut fs), Ok(Color::Red));
    assert_eq!(color.reflection(&mut fs), Ok(21));
    assert_eq!(color.ambient(&mut fs), Ok(33));
}

#[test]
fn motor_setup_run_and_stop() {
    let mut fs = MemFs::new(&[
        ("/t/motor0/count_per_rot", "360\n"),
        ("/t/motor0/polarity", "normal"),
        ("/t/motor0/position", "1234"),
        ("/t/motor0/speed_sp", "0"),
        ("/t/motor0/duty_cycle_sp", "0"),
        ("/t/motor0/command", ""),
        ("/t/motor0/stop_action", "coast"),
        ("/t/motor0/max_speed", "1050"),
        ("/t/motor0/position_sp", "0"),
        ("/t/motor0/ramp_up_sp", "0"),
    ]);
    let entries = vec![entry("/t/motor0", "ev3-ports:outA\n", None)];
    assert!(matches!(
        Motor::<MemFile>::new(&mut fs, &entries, MotorPort::OutD, Direction::ClockWise),
        Err(Ev3Error::MotorNotFound { port: MotorPort::OutD })
    ));
    let mut m: Motor<MemFile> = Motor::new(&mut fs, &entries, MotorPort::OutA, Direction::CounterClockWise).unwrap();
    assert_eq!(m.counts_per_rot, 360);
    assert_eq!(fs.value("/t/motor0/polarity"), Some("inversed".to_string()));
    assert_eq!(m.get_angle(&mut fs), Ok(0));
    fs.tree.borrow_mut().insert("/t/motor0/position".to_string(), "720".to_string());
    assert_eq!(m.get_angle(&mut fs), Ok(720));
    assert_eq!(m.max_speed(&mut fs), Ok(1050));
    fs.log.borrow_mut().clear();
    m.run(&mut fs, -300).unwrap();
    m.dc(&mut fs, 50).unwrap();
    m.brake(&mut fs).unwrap();
    m.hold(&mut fs).unwrap();
    m.stop(&mut fs).unwrap();
    m.set_stop_action(&mut fs, Stop::Brake).unwrap();
    m.set_ramp_up_setpoint(&mut fs, 400).unwrap();
    let expected: Vec<(String, String)> = [
        ("speed_sp", "-300"),
        ("command", "run-forever"),
        ("duty_cycle_sp", "50"),
        ("command", "run-forever"),
        ("stop_action", "brake"),
        ("command", "stop"),
        ("stop_action", "hold"),
        ("command", "stop"),
        ("stop_action", "coast"),
        ("command", "stop"),
        ("stop_action", "brake"),
        ("ramp_up_sp", "400"),
    ]
    .iter()
    .map(|(n, v)| (format!("/t/motor0/{}", n), v.to_string()))
    .collect();
    assert_eq!(*fs.log.borrow(), expected);
}

#[test]
fn motor_angle_scales_by_counts_per_rotation() {
    assert_eq!(Motor::<MemFile>::degrees_from_position("180", 720), Ok(90));
    assert_eq!(Motor::<MemFile>::degrees_from_position("-5", 360), Ok(-5));
    assert_eq!(Motor::<MemFile>::degrees_from_position("-1", 720), Ok(0));
    assert!(Motor::<MemFile>::degrees_from_position("x", 360).is_err());
}

#[test]
fn car_steers_and_drives() {
    let files: Vec<(String, String)> = ["motor0", "motor1"]
        .iter()
        .flat_map(|m| {
            ["count_per_rot", "position", "speed_sp", "duty_cycle_sp", "command", "stop_action", "position_sp", "polarity"]
                .iter()
                .map(move |a| (format!("/t/{}/{}", m, a), if *a == "count_per_rot" { "360".to_string() } else { "0".to_string() }))
        })
        .collect();
    let refs: Vec<(&str, &str)> = files.iter().map(|(a, b)| (a.as_str(), b.as_str())).collect();
    let mut fs = MemFs::new(&refs);
    let entries = vec![entry("/t/motor0", "ev3-ports:outA", None), entry("/t/motor1", "ev3-ports:outB", None)];
    let steering = Motor::new(&mut fs, &entries, MotorPort::OutA, Direction::ClockWise).unwrap();
    let drive = Motor::new(&mut fs, &entries, MotorPort::OutB, Direction::ClockWise).unwrap();
    let mut car: Car<MemFile> = Car::new(steering, drive, -80, 90);
    assert_eq!(car.steer_offset(50), -80);
    assert_eq!(car.steer_offset(100), -35);
    assert_eq!(car.steer_offset(255), 10);
    car.steer(&mut fs, 100).unwrap();
    assert_eq!(fs.value("/t/motor0/position_sp"), Some("-35".to_string()));
    assert_eq!(fs.value("/t/motor0/stop_action"), Some("hold".to_string()));
    assert_eq!(fs.value("/t/motor0/command"), Some("run-to-rel-pos".to_string()));
    car.drive_speed(&mut fs, 250).unwrap();
    assert_eq!(fs.value("/t/motor1/speed_sp"), Some("250".to_string()));
    car.drive_power(&mut fs, -40).unwrap();
    assert_eq!(fs.value("/t/motor1/duty_cycle_sp"), Some("-40".to_string()));
}

#[test]
fn names_round_trip() {
    assert_eq!(MotorPort::OutA.as_str(), "ev3-ports:outA");
    assert_eq!(SensorPort::In4.as_str(), "ev3-ports:in4");
    assert_eq!(SensorType::Infrared.as_str(), "lego-ev3-ir");
    assert_eq!(Stop::Hold.as_str(), "hold");
    assert_eq!(AttributeName::HoldPidKd.as_str(), "hold_pid/Kd");
    assert_eq!(AttributeName::Value8.filemode(), FileMode::Read);
    assert_eq!(AttributeName::Command.filemode(), FileMode::Write);
    assert_eq!(AttributeName::SpeedSetpoint.filemode(), FileMode::ReadWrite);
    for t in [SensorType::Ultrasonic, SensorType::Gyro, SensorType::Color, SensorType::Touch, SensorType::Infrared] {
        assert_eq!(ev3dev_rs::device::sensor_type_from_driver_name(t.as_str()), Some(t));
    }
    assert_eq!(ev3dev_rs::device::sensor_type_from_driver_name("lego-nxt-light"), None);
}

#[test]
fn nearest_palette_color() {
    assert_eq!(Color::from_rgb(0, 0, 0), Color::Black);
    assert_eq!(Color::from_rgb(1020, 1020, 1020), Color::White);
    assert_eq!(Color::from_rgb(1020, 0, 0), Color::Red);
    assert_eq!(Color::from_rgb(0, 1020, 0), Color::Green);
    assert_eq!(Color::from_rgb(0, 0, 1020), Color::Blue);
    assert_eq!(Color::from_rgb(1020, 1020, 0), Color::Yellow);
    assert_eq!(Color::from_rgb(660, 168, 168), Color::Brown);
    assert_eq!(Color::from_rgb(1020, 660, 0), Color::Orange);
    assert_eq!(Color::from_rgb(512, 0, 512), Color::Purple);
    assert_eq!(Color::from_rgb(-50, 5000, -3), Color::Green);
}

#[test]
fn light_levels() {
    assert_eq!(reflection_of(1020, 1020, 1020), 100);
    assert_eq!(reflection_of(0, 1020, 0), 71);
    assert_eq!(reflection_of(-100, 0, 0), 0);
    assert_eq!(ambient_of(306, 306, 306), 30);
    assert_eq!(ambient_of(100000, 0, 0), 255);
    assert_eq!(pressed_from("0"), Ok(false));
    assert_eq!(pressed_from("1"), Ok(true));
    assert!(pressed_from("yes").is_err());
    assert_eq!(parse_i16("-32768"), Ok(-32768));
    assert!(matches!(parse_i16("40000"), Err(Ev3Error::ParseInt { .. })));
}

#[test]
fn gyro_mode_switches_only_when_needed() {
    let mut fs = MemFs::new(&[
        ("/s/sensor2/mode", "GYRO-G&A"),
        ("/s/sensor2/value0", "90"),
        ("/s/sensor2/value1", "-3"),
    ]);
    let entries = sensor_entries();
    let mut gyro: GyroSensor<MemFile> = GyroSensor::new(&mut fs, &entries, SensorPort::In3).unwrap();
    assert_eq!(gyro.driver.mode, Some(SensorMode::GyroAngleAndRate));
    assert!(fs.log.borrow().is_empty());
    assert_eq!(gyro.heading_and_velocity(&mut fs), Ok((90, -3)));
    assert_eq!(gyro.tilt(&mut fs), Ok(90));
    assert_eq!(fs.value("/s/sensor2/mode"), Some("TILT-ANG".to_string()));
    assert_eq!(gyro.tilt_velocity(&mut fs), Ok(90));
    assert_eq!(gyro.angular_velocity(&mut fs), Ok(-3));
    assert_eq!(fs.value("/s/sensor2/mode"), Some("GYRO-G&A".to_string()));
    let writes = fs.log.borrow().len();
    assert_eq!(gyro.heading(&mut fs), Ok(90));
    assert_eq!(fs.log.borrow().len(), writes);
}

#[test]
fn infrared_and_ultrasonic_readings() {
    let mut fs = MemFs::new(&[
        ("/s/sensor0/mode", "IR-PROX"),
        ("/s/sensor0/value0", "5"),
        ("/s/sensor0/value1", "-128"),
        ("/s/sensor0/value2", "11"),
        ("/s/sensor1/mode", "US-DIST-CM"),
        ("/s/sensor1/value0", "1234"),
    ]);
    let entries = vec![
        entry("/s/sensor0", "ev3-ports:in1", Some("lego-ev3-ir")),
        entry("/s/sensor1", "ev3-ports:in2", Some("lego-ev3-us")),
    ];
    let mut ir: InfraredSensor<MemFile> = InfraredSensor::new(&mut fs, &entries, SensorPort::In1).unwrap();
    assert_eq!(ir.proximity(&mut fs), Ok(5));
    assert_eq!(ir.get_remote_channel_1_buttons(&mut fs), Ok(vec![Button::RedUp, Button::BlueUp]));
    assert_eq!(fs.value("/s/sensor0/mode"), Some("IR-REMOTE".to_string()));
    assert_eq!(ir.get_remote_channel_3_buttons(&mut fs), Ok(vec![Button::BlueUp, Button::BlueDown]));
    assert_eq!(ir.seek_channel_1(&mut fs), Ok((5, -128)));
    let mut us: UltrasonicSensor<MemFile> = UltrasonicSensor::new(&mut fs, &entries, SensorPort::In2).unwrap();
    let d = us.distance_cm(&mut fs).unwrap();
    assert!((d.bits as f64 / 4294967296.0 - 123.4).abs() < 1e-6);
    assert_eq!(fs.value("/s/sensor1/mode"), Some("US-DIST-CM".to_string()));
    assert!(us.distance_in(&mut fs).is_ok());
    assert_eq!(fs.value("/s/sensor1/mode"), Some("US-DIST-IN".to_string()));
}

#[test]
fn remote_codes_and_modes() {
    assert_eq!(remote_buttons_from("0"), Ok(vec![]));
    assert_eq!(remote_buttons_from("9"), Ok(vec![Button::BeaconOn]));
    assert_eq!(remote_buttons_from("6"), Ok(vec![Button::RedUp, Button::BlueDown]));
    assert!(matches!(remote_buttons_from("12"), Err(Ev3Error::InvalidValue { .. })));
    assert!(matches!(remote_buttons_from("x"), Err(Ev3Error::ParseInt { .. })));
    assert!(matches!(remote_buttons_from("255"), Err(Ev3Error::InvalidValue { .. })));
    assert_eq!(remote_buttons_from("256"), Err(Ev3Error::ParseInt { input: "256".to_string() }));
    assert_eq!(remote_buttons_from("-1"), Err(Ev3Error::ParseInt { input: "-1".to_string() }));
    assert_eq!(SensorMode::from_name("GYRO-G&A"), Ok(SensorMode::GyroAngleAndRate));
    assert_eq!(SensorMode::from_name("US-DIST-IN"), Ok(SensorMode::UltrasonicDistanceIn));
    assert_eq!(
        SensorMode::from_name("COL-REFLECT"),
        Err(Ev3Error::ParseStr { input: "COL-REFLECT".to_string(), to: "SensorMode".to_string() })
    );
    assert_eq!(tenths_of(-15), Fix::from_ratio(-3, 2));
}

#[test]
fn name_tables_round_trip() {
    for v in [Stop::Coast, Stop::Brake, Stop::Hold] {
        assert_eq!(Stop::from_name(v.as_str()), Ok(v));
        assert_eq!(v.as_str().parse::<Stop>(), Ok(v));
    }
    for v in [MotorPort::OutA, MotorPort::OutB, MotorPort::OutC, MotorPort::OutD] {
        assert_eq!(MotorPort::from_name(v.as_str()), Ok(v));
    }
    for v in [SensorPort::In1, SensorPort::In2, SensorPort::In3, SensorPort::In4] {
        assert_eq!(SensorPort::from_name(v.as_str()), Ok(v));
    }
    for v in [SensorType::Ultrasonic, SensorType::Gyro, SensorType::Color, SensorType::Touch, SensorType::Infrared] {
        assert_eq!(SensorType::from_name(v.as_str()), Ok(v));
    }
    let modes = [
        SensorMode::GyroAngle,
        SensorMode::GyroRate,
        SensorMode::GyroRateUnscaled,
        SensorMode::GyroAngleAndRate,
        SensorMode::TiltAngle,
        SensorMode::TiltRate,
        SensorMode::GyroCalibration,
        SensorMode::InfraredProximity,
        SensorMode::InfraredSeek,
        SensorMode::InfraredRemote,
        SensorMode::UltrasonicDistanceCm,
        SensorMode::UltrasonicDistanceIn,
        SensorMode::ColorRgbRaw,
        SensorMode::Touch,
    ];
    for v in modes {
        assert_eq!(SensorMode::from_name(v.as_str()), Ok(v));
    }
    assert_eq!(
        "ev3-ports:outE".parse::<MotorPort>(),
        Err(Ev3Error::ParseStr { input: "ev3-ports:outE".to_string(), to: "MotorPort".to_string() })
    );
}

#[test]
fn motor_state_flags() {
    assert!(state_has("running stalled", "stalled"));
    assert!(state_has("running", "running"));
    assert!(!state_has("running", "run"));
    assert!(!state_has("overloaded", "loaded"));
    assert!(!state_has("", "running"));
    assert_eq!(counts_for(90, 720), 180);
    assert_eq!(counts_for(-1, 360), -1);
    assert_eq!(counts_for(1, 180), 0);
    let mut fs = MemFs::new(&[("/t/motor0/count_per_rot", "360"), ("/t/motor0/position", "0"), ("/t/motor0/state", "running stalled\n")]);
    let entries = vec![entry("/t/motor0", "ev3-ports:outA", None)];
    let mut m: Motor<MemFile> = Motor::new(&mut fs, &entries, MotorPort::OutA, Direction::ClockWise).unwrap();
    assert_eq!(m.is_running(&mut fs), Ok(true));
    assert_eq!(m.is_stalled(&mut fs), Ok(true));
    fs.tree.borrow_mut().insert("/t/motor0/state".to_string(), "holding".to_string());
    assert_eq!(m.is_running(&mut fs), Ok(false));
}

#[test]
fn motor_count_text_and_plans() {
    assert_eq!(counts_from_text("360"), Ok(360));
    assert!(matches!(counts_from_text("0"), Err(Ev3Error::InvalidValue { value, .. }) if value == "0"));
    assert_eq!(counts_from_text("x"), Err(Ev3Error::ParseInt { input: "x".to_string() }));
    let view = |w: Vec<AttributeWrite>| -> Vec<(AttributeName, String)> { w.into_iter().map(|w| (w.name, w.value)).collect() };
    assert_eq!(
        view(run_to_plan(300, -90, false)),
        vec![
            (AttributeName::SpeedSetpoint, "300".to_string()),
            (AttributeName::PositionSetpoint, "-90".to_string()),
            (AttributeName::Command, "run-to-rel-pos".to_string())
        ]
    );
    assert_eq!(view(run_timed_plan(10, 500))[0], (AttributeName::TimeSetpoint, "500".to_string()));
    assert_eq!(view(stop_command_plan()), vec![(AttributeName::Command, "stop".to_string())]);
    assert_eq!(
        view(drive_motor_setup()),
        vec![(AttributeName::RampUpSetpoint, "2000".to_string()), (AttributeName::RampDownSetpoint, "2000".to_string())]
    );
    assert_eq!(
        view(steer_plan(-35)),
        vec![
            (AttributeName::StopAction, "hold".to_string()),
            (AttributeName::PositionSetpoint, "-35".to_string()),
            (AttributeName::Command, "run-to-rel-pos".to_string())
        ]
    );
}

#[test]
fn sensor_driver_mode_and_type_mismatch() {
    let mut fs = MemFs::new(&[("/s/sensor2/mode", "GYRO-RATE\n"), ("/s/sensor0/mode", "SOMETHING")]);
    let entries = sensor_entries();
    let d: SensorDriver<MemFile> = SensorDriver::new(&mut fs, &entries, SensorType::Gyro, SensorPort::In3).unwrap();
    assert_eq!(d.mode, Some(SensorMode::GyroRate));
    let t: SensorDriver<MemFile> = SensorDriver::new(&mut fs, &entries, SensorType::Touch, SensorPort::In1).unwrap();
    assert_eq!(t.mode, None);
    assert_eq!(fs.opened.len(), 2);
    assert!(matches!(
        SensorDriver::<MemFile>::new(&mut fs, &entries, SensorType::Gyro, SensorPort::In2),
        Err(Ev3Error::IncorrectSensorType { expected: SensorType::Gyro, found: SensorType::Color })
    ));
    assert_eq!(fs.opened.len(), 2);
}

#[test]
fn failed_mode_switch_keeps_mode() {
    let mut fs = MemFs::new(&[("/s/sensor2/mode", "GYRO-ANG")]);
    let entries = sensor_entries();
    let mut d: SensorDriver<MemFile> = SensorDriver::new(&mut fs, &entries, SensorType::Gyro, SensorPort::In3).unwrap();
    fs.counters.borrow_mut().fail_writes = true;
    assert!(matches!(d.set_mode(&mut fs, SensorMode::TiltRate), Err(Ev3Error::WriteAttributeFailure { value, .. }) if value == "TILT-RATE"));
    assert_eq!(d.mode, Some(SensorMode::GyroAngle));
    fs.counters.borrow_mut().fail_writes = false;
    assert_eq!(d.set_mode(&mut fs, SensorMode::TiltRate), Ok(()));
    assert_eq!(d.mode, Some(SensorMode::TiltRate));
    assert_eq!(fs.value("/s/sensor2/mode"), Some("TILT-RATE".to_string()));
}
