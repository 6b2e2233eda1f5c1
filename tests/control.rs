use ev3dev_rs::calibration::{turn_discrepancy, AxleTrackSearch};
use ev3dev_rs::attribute::AttributeName;
use ev3dev_rs::drive_base::{command_writes, DriveBase, DriveCommand, TickInput};
use ev3dev_rs::fixed_point::Fix;
use ev3dev_rs::gyro_controller::GyroController;
use ev3dev_rs::odometry::{heading_delta, travelled, wheel_arc, DEGREES_PER_RADIAN_BITS};
use ev3dev_rs::parameters::Stop;
use ev3dev_rs::pid::Pid;
use ev3dev_rs::Ev3Error;

const ONE: i64 = 1 << 32;

fn fix(v: f64) -> Fix {
    Fix::from_bits((v * ONE as f64).round() as i64)
}

fn value(f: Fix) -> f64 {
    f.bits as f64 / ONE as f64
}

#[test]
fn fixed_point_arithmetic() {
    assert_eq!(Fix::from_int(3).bits, 3 * ONE);
    assert_eq!(Fix::from_int(3).mul(Fix::from_int(-2)).bits, -6 * ONE);
    assert_eq!(Fix::from_int(1).div(Fix::from_int(4)).bits, ONE / 4);
    assert_eq!(Fix::from_ratio(1, 2).bits, ONE / 2);
    assert_eq!(Fix::from_bits(i64::MAX).add(Fix::from_int(1)).bits, i64::MAX);
    assert_eq!(Fix::from_bits(i64::MAX).mul(Fix::from_int(2)).bits, i64::MAX);
    assert_eq!(Fix::from_bits(i64::MAX).mul(Fix::from_int(-2)).bits, i64::MIN);
    assert_eq!(Fix::from_bits(i64::MIN).neg().bits, i64::MAX);
    // products round toward negative infinity, quotients toward zero
    assert_eq!(Fix::from_bits(-1).mul(Fix::from_ratio(1, 2)).bits, -1);
    assert_eq!(Fix::from_bits(-1).div(Fix::from_int(2)).bits, 0);
}

#[test]
fn pid_zero_gains_zero_output() {
    let z = Fix::zero();
    let mut pid = Pid::new(z, z, z, z, z);
    assert_eq!(pid.next(z).bits, 0);
    assert_eq!(pid.next(z).bits, 0);
}

#[test]
fn pid_proportional_only_is_exact() {
    let z = Fix::zero();
    let mut pid = Pid::new(Fix::from_int(2), z, z, z, z);
    assert_eq!(pid.next(Fix::from_int(3)).bits, -6 * ONE);
    let mut half = Pid::new(Fix::from_ratio(1, 2), z, z, z, z);
    assert_eq!(half.next(Fix::from_int(3)).bits, -3 * ONE / 2);
    assert_eq!(half.next(Fix::from_int(-7)).bits, 7 * ONE / 2);
}

#[test]
fn pid_integral_never_decreases_under_large_positive_error() {
    let z = Fix::zero();
    // error is -measurement; ki * 5 = 15 is capped at 10 per step
    let mut pid = Pid::new(z, Fix::from_int(3), z, Fix::from_int(1), Fix::from_int(10));
    let mut last = pid.integral_term.bits;
    for step in 1..=20 {
        let out = pid.next(Fix::from_int(-5));
        assert!(pid.integral_term.bits >= last);
        assert_eq!(pid.integral_term.bits, 10 * ONE * step);
        assert_eq!(out.bits, pid.integral_term.bits);
        last = pid.integral_term.bits;
    }
}

#[test]
fn pid_integral_clamp_is_one_sided() {
    let z = Fix::zero();
    let mut pid = Pid::new(z, Fix::from_int(3), z, Fix::from_int(1), Fix::from_int(10));
    pid.next(Fix::from_int(5));
    assert_eq!(pid.integral_term.bits, -15 * ONE);
    pid.next(Fix::from_int(5));
    assert_eq!(pid.integral_term.bits, -30 * ONE);
}

#[test]
fn pid_deadzone_skips_integral() {
    let z = Fix::zero();
    let mut pid = Pid::new(z, Fix::from_int(1), z, Fix::from_int(5), Fix::from_int(100));
    pid.next(Fix::from_int(-5));
    assert_eq!(pid.integral_term.bits, 0);
    pid.next(Fix::from_int(-6));
    assert_eq!(pid.integral_term.bits, 6 * ONE);
}

#[test]
fn pid_derivative_uses_previous_measurement() {
    let z = Fix::zero();
    let mut pid = Pid::new(z, z, Fix::from_int(2), z, z);
    assert_eq!(pid.next(Fix::from_int(1)).bits, 0);
    assert_eq!(pid.next(Fix::from_int(4)).bits, -6 * ONE);
}

#[test]
fn pid_settings_keep_state_and_reset_clears_it() {
    let z = Fix::zero();
    let mut pid = Pid::new(z, Fix::from_int(1), z, z, Fix::from_int(100));
    pid.next(Fix::from_int(-4));
    pid.settings(Fix::from_int(1), Fix::from_int(2), z, z, Fix::from_int(50));
    assert_eq!(pid.integral_term.bits, 4 * ONE);
    assert_eq!(pid.prev_measurement, Some(Fix::from_int(-4)));
    pid.reset();
    assert_eq!(pid.integral_term.bits, 0);
    assert_eq!(pid.prev_measurement, None);
    assert_eq!(pid.kp, Fix::from_int(1));
    assert_eq!(pid.ki, Fix::from_int(2));
}

#[test]
fn equal_arcs_keep_heading() {
    let track = fix(130.5);
    for arc in [0.0, 12.5, -300.25, 1000.0] {
        assert_eq!(heading_delta(fix(arc), fix(arc), track).bits, 0);
    }
}

#[test]
fn heading_delta_is_degrees_of_arc_difference_over_track() {
    // (100 - 0) / 100 = 1 radian
    let d = heading_delta(Fix::from_int(100), Fix::zero(), Fix::from_int(100));
    assert_eq!(d.bits, DEGREES_PER_RADIAN_BITS);
    let q = heading_delta(Fix::from_int(0), Fix::from_int(50), Fix::from_int(100));
    assert!((value(q) + 28.6479).abs() < 1e-3);
    // a quarter turn on a 130.5 mm track
    let arc = 130.5 * std::f64::consts::PI / 4.0;
    let t = heading_delta(fix(arc / 2.0), fix(-arc / 2.0), fix(130.5));
    assert!((value(t) - 45.0).abs() < 1e-3);
}

#[test]
fn wheel_arc_and_mean() {
    let a = wheel_arc(fix(62.4), 360);
    assert!((value(a) - 62.4 * std::f64::consts::PI).abs() < 1e-3);
    let h = wheel_arc(fix(62.4), -180);
    assert!((value(h) + 31.2 * std::f64::consts::PI).abs() < 1e-3);
    assert_eq!(travelled(Fix::from_int(10), Fix::from_int(20)).bits, 15 * ONE);
}

#[test]
fn gyro_heading_zero_after_reset() {
    let mut g = GyroController::new(&vec![100, -40]);
    g.reset(&vec![250, 7]);
    assert_eq!(g.heading(&vec![250, 7]), Ok(Fix::zero()));
    let mut one = GyroController::new(&vec![-32768]);
    one.reset(&vec![32767]);
    assert_eq!(one.heading(&vec![32767]), Ok(Fix::zero()));
}

#[test]
fn gyro_mean_of_offset_readings() {
    let g = GyroController::new(&vec![10, -10]);
    assert_eq!(g.heading(&vec![20, 10]), Ok(Fix::from_int(15)));
    assert_eq!(g.heading(&vec![11, -10]), Ok(Fix::from_ratio(1, 2)));
    assert_eq!(g.angular_velocity(&vec![3, 4]), Ok(Fix::from_ratio(7, 2)));
    let none = GyroController::new(&vec![]);
    assert_eq!(none.heading(&vec![]), Err(Ev3Error::NoSensorProvided));
    assert_eq!(none.angular_velocity(&vec![]), Err(Ev3Error::NoSensorProvided));
}

/// Runs the current motion against simulated wheels; returns the final
/// command and the wheel angles in degrees.
fn simulate(drive: &mut DriveBase, angles: &mut (f64, f64), gyro: bool, max_ticks: usize) -> Option<DriveCommand> {
    for _ in 0..max_ticks {
        let input = TickInput {
            left_angle: angles.0.round() as i32,
            right_angle: angles.1.round() as i32,
            gyro_headings: if gyro {
                let arc_per_degree = 62.4 * std::f64::consts::PI / 360.0;
                let heading = (angles.0 - angles.1) * arc_per_degree / 130.5 * 180.0 / std::f64::consts::PI;
                vec![heading.round() as i16]
            } else {
                vec![]
            },
        };
        match drive.tick(&input) {
            DriveCommand::Run { left, right } => {
                assert!(left.abs() <= drive.max_speed && right.abs() <= drive.max_speed);
                angles.0 += left as f64 * 0.005;
                angles.1 += right as f64 * 0.005;
            }
            stop => return Some(stop),
        }
    }
    None
}

#[test]
fn straight_500_stops_both_motors() {
    let mut drive = DriveBase::new(fix(62.4), fix(130.5), 0, 0, 1050);
    drive.straight(500);
    let mut angles = (0.0, 0.0);
    let end = simulate(&mut drive, &mut angles, false, 20000);
    assert_eq!(end, Some(DriveCommand::Stop { action: Stop::Coast }));
    let (left, right) = command_writes(end.unwrap());
    for writes in [left, right] {
        let w: Vec<(AttributeName, String)> = writes.into_iter().map(|w| (w.name, w.value)).collect();
        assert_eq!(
            w,
            vec![(AttributeName::StopAction, "coast".to_string()), (AttributeName::Command, "stop".to_string())]
        );
    }
    let arc_per_degree = 62.4 * std::f64::consts::PI / 360.0;
    let travelled = (angles.0 + angles.1) / 2.0 * arc_per_degree;
    assert!((travelled - 500.0).abs() <= 5.0, "travelled {}", travelled);
}

#[test]
fn relative_moves_compose() {
    let mut drive = DriveBase::new(fix(62.4), fix(130.5), 0, 0, 1050);
    drive.set_stop_option(Stop::Hold);
    drive.straight(200);
    let mut angles = (0.0, 0.0);
    assert_eq!(simulate(&mut drive, &mut angles, false, 20000), Some(DriveCommand::Stop { action: Stop::Hold }));
    drive.straight(-100);
    assert_eq!(drive.distance_target, Fix::from_int(100));
    assert_eq!(simulate(&mut drive, &mut angles, false, 20000), Some(DriveCommand::Stop { action: Stop::Hold }));
    let arc_per_degree = 62.4 * std::f64::consts::PI / 360.0;
    let travelled = (angles.0 + angles.1) / 2.0 * arc_per_degree;
    assert!((travelled - 100.0).abs() <= 5.0, "travelled {}", travelled);
}

#[test]
fn turn_reduces_heading_error() {
    let mut drive = DriveBase::new(fix(62.4), fix(130.5), 0, 0, 1050);
    drive.turn(90);
    let first = drive.tick(&TickInput { left_angle: 0, right_angle: 0, gyro_headings: vec![] });
    match first {
        DriveCommand::Run { left, right } => assert!(left > 0 && right < 0),
        other => panic!("unexpected {:?}", other),
    }
    let mut angles = (0.0, 0.0);
    assert!(simulate(&mut drive, &mut angles, false, 20000).is_some());
    let arc_per_degree = 62.4 * std::f64::consts::PI / 360.0;
    let heading = (angles.0 - angles.1) * arc_per_degree / 130.5 * 180.0 / std::f64::consts::PI;
    assert!((heading - 90.0).abs() < 2.0, "heading {}", heading);
}

#[test]
fn gyro_needs_a_controller() {
    let mut drive = DriveBase::new(fix(62.4), fix(130.5), 0, 0, 1050);
    assert_eq!(drive.use_gyro(true), Err(Ev3Error::NoSensorProvided));
    assert!(!drive.using_gyro);
    assert_eq!(drive.use_gyro(false), Ok(()));
    assert_eq!(drive.find_calibrated_axle_track(Fix::from_int(5)).err(), Some(Ev3Error::NoSensorProvided));
    assert_eq!(drive.reset_gyro(&vec![]), Err(Ev3Error::NoSensorProvided));
    drive.add_gyro(GyroController::new(&vec![0]));
    assert_eq!(drive.use_gyro(true), Ok(()));
    drive.straight(300);
    let mut angles = (0.0, 0.0);
    assert!(simulate(&mut drive, &mut angles, true, 20000).is_some());
}

#[test]
fn curve_and_veer_targets() {
    let mut drive = DriveBase::new(fix(62.4), fix(130.5), 0, 0, 1050);
    drive.curve(-200, 90);
    assert!((value(drive.distance_target) - 100.0 * std::f64::consts::PI).abs() < 1e-3);
    assert_eq!(drive.heading_target, Fix::from_int(90));
    drive.veer(100, 50);
    assert!((value(drive.heading_target) - (90.0 + 0.5 * 180.0 / std::f64::consts::PI)).abs() < 1e-3);
}

#[test]
fn min_speed_floor_and_max_speed_clamp() {
    let mut drive = DriveBase::new(fix(62.4), fix(130.5), 0, 0, 1050);
    drive.straight(1000);
    match drive.tick(&TickInput { left_angle: 0, right_angle: 0, gyro_headings: vec![] }) {
        DriveCommand::Run { left, right } => {
            assert_eq!(left, 1050);
            assert_eq!(right, 1050);
        }
        other => panic!("unexpected {:?}", other),
    }
    let mut near = DriveBase::new(fix(62.4), fix(130.5), 0, 0, 1050);
    near.straight(5);
    match near.tick(&TickInput { left_angle: 0, right_angle: 0, gyro_headings: vec![] }) {
        DriveCommand::Run { left, right } => {
            assert_eq!(left, near.min_speed);
            assert_eq!(right, near.min_speed);
        }
        other => panic!("unexpected {:?}", other),
    }
}

#[test]
fn golden_section_finds_minimum() {
    for m in [130.5, 126.2, 133.9] {
        let mut search = AxleTrackSearch::new(fix(129.0), Fix::from_int(5));
        let mut rounds = 0;
        while let Some(candidate) = search.next_candidate() {
            let cost = fix((value(candidate) - m).abs());
            search.record(cost);
            rounds += 1;
            assert!(rounds < 1000);
        }
        assert!((value(search.result()) - m).abs() < 0.5, "m {} result {}", m, value(search.result()));
    }
}

#[test]
fn golden_section_with_calibration_cost() {
    let m = 131.25;
    let mut drive = DriveBase::new(fix(62.4), fix(130.0), 0, 0, 1050);
    drive.add_gyro(GyroController::new(&vec![0]));
    let mut search = drive.find_calibrated_axle_track(Fix::from_int(5)).unwrap();
    while let Some(candidate) = search.next_candidate() {
        // a turn the gyro sees as 90 degrees reads 90 * m / candidate on the encoders
        let encoder_turn = fix(90.0 * m / value(candidate));
        search.record(turn_discrepancy(Fix::from_int(90), encoder_turn));
    }
    drive.set_axle_track(search.result());
    assert!((value(drive.axle_track) - m).abs() < 0.5);
    assert_eq!(turn_discrepancy(Fix::from_int(3), Fix::from_int(5)), Fix::from_int(2));
}

#[test]
fn run_command_writes_speeds() {
    let (left, right) = command_writes(DriveCommand::Run { left: 120, right: -45 });
    let l: Vec<(AttributeName, String)> = left.into_iter().map(|w| (w.name, w.value)).collect();
    let r: Vec<(AttributeName, String)> = right.into_iter().map(|w| (w.name, w.value)).collect();
    assert_eq!(l, vec![(AttributeName::SpeedSetpoint, "120".to_string()), (AttributeName::Command, "run-forever".to_string())]);
    assert_eq!(r, vec![(AttributeName::SpeedSetpoint, "-45".to_string()), (AttributeName::Command, "run-forever".to_string())]);
}

#[test]
fn pid_saturates_instead_of_overflowing() {
    let z = Fix::zero();
    let mut pid = Pid::new(Fix::from_bits(i64::MAX), Fix::from_bits(i64::MAX), z, z, Fix::from_bits(i64::MAX));
    assert_eq!(pid.next(Fix::from_bits(i64::MIN)).bits, i64::MAX);
    assert_eq!(pid.next(Fix::from_bits(i64::MIN)).bits, i64::MAX);
    assert_eq!(pid.integral_term.bits, i64::MAX);
}

#[test]
fn setters_keep_the_rest_and_stop_action_applies() {
    let mut drive = DriveBase::new(fix(62.4), fix(130.5), 0, 0, 1050);
    drive.set_stop_option(Stop::Brake);
    drive.set_turn_speed(200);
    drive.set_straight_speed(250);
    assert_eq!(drive.turn_speed, 200);
    assert_eq!(drive.straight_speed, 250);
    drive.straight(100);
    let mut angles = (0.0, 0.0);
    assert_eq!(simulate(&mut drive, &mut angles, false, 20000), Some(DriveCommand::Stop { action: Stop::Brake }));
}

#[test]
fn equal_arcs_give_equal_speeds() {
    let mut drive = DriveBase::new(fix(62.4), fix(130.5), 10, -20, 1050);
    drive.straight(400);
    for k in 0..50 {
        match drive.tick(&TickInput { left_angle: 10 + 7 * k, right_angle: -20 + 7 * k, gyro_headings: vec![] }) {
            DriveCommand::Run { left, right } => assert_eq!(left, right),
            other => panic!("unexpected {:?}", other),
        }
    }
    assert_eq!(drive.filtered_heading, Fix::zero());
    assert_eq!(drive.heading_pid.integral_term, Fix::zero());
}
