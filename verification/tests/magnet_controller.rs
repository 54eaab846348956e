use bldc::magnet_controller::{DutyCommand, MagnetController};
use bldc::math::{PI1_2, PI2, PI2_3, PI4_3, UNIT};

fn duty(angle: i64, power_scale: i64) -> f64 {
    ((angle as f64 * 1e-9).cos() / 2.0 + 0.5) * (power_scale as f64 * 1e-9)
}

fn duties(command: DutyCommand) -> (f64, f64, f64) {
    (
        duty(command.angle_u, command.power_scale),
        duty(command.angle_v, command.power_scale),
        duty(command.angle_w, command.power_scale),
    )
}

fn close(a: f64, b: f64) -> bool {
    (a - b).abs() < 1e-5
}

#[test]
fn new_controller_is_at_rest() {
    let mc = MagnetController::new();
    assert_eq!(mc.get_phase_angle(), 0);
    assert_eq!(mc.get_power_scale(), 0);
}

#[test]
fn zero_angle_at_full_power() {
    let mut mc = MagnetController::new();
    let command = mc.set_phase_angle_and_power(0, UNIT);
    assert_eq!(
        command,
        DutyCommand {
            angle_u: 0,
            angle_v: 4_188_786_667,
            angle_w: 2_094_393_334,
            power_scale: UNIT
        }
    );
    let (u, v, w) = duties(command);
    assert!(close(u, 1.0));
    assert!(close(v, 0.25));
    assert!(close(w, 0.25));
    assert_eq!(mc.get_phase_angle(), 0);
    assert_eq!(mc.get_power_scale(), UNIT);
}

#[test]
fn quarter_turn_at_half_power() {
    let mut mc = MagnetController::new();
    let command = mc.set_phase_angle_and_power(PI1_2, UNIT / 2);
    assert_eq!(
        command,
        DutyCommand {
            angle_u: 1_570_795_000,
            angle_v: 5_759_581_667,
            angle_w: 3_665_188_334,
            power_scale: 500_000_000
        }
    );
    let (u, v, w) = duties(command);
    let quarter = std::f64::consts::FRAC_PI_2;
    let third = 2.0 * std::f64::consts::FRAC_PI_3;
    assert!(close(u, (quarter.cos() / 2.0 + 0.5) * 0.5));
    assert!(close(v, ((quarter - third).cos() / 2.0 + 0.5) * 0.5));
    assert!(close(w, ((quarter - 2.0 * third).cos() / 2.0 + 0.5) * 0.5));
    assert!(close(u, 0.25));
    for d in [u, v, w] {
        assert!(0.0 <= d && d <= 0.5);
    }
}

#[test]
fn power_above_one_is_taken_as_one() {
    let mut a = MagnetController::new();
    let mut b = MagnetController::new();
    assert_eq!(
        a.set_phase_angle_and_power(0, 2 * UNIT),
        b.set_phase_angle_and_power(0, UNIT)
    );
    assert_eq!(a, b);
    assert_eq!(a.get_power_scale(), UNIT);
    assert_eq!(DutyCommand::new(123, UNIT + 1).power_scale, UNIT);
    assert_eq!(DutyCommand::new(123, i64::MAX).power_scale, UNIT);
}

#[test]
fn power_below_zero_is_taken_as_zero() {
    let mut mc = MagnetController::new();
    let command = mc.set_phase_angle_and_power(PI1_2, -1);
    assert_eq!(command.power_scale, 0);
    assert_eq!(mc.get_power_scale(), 0);
    assert_eq!(DutyCommand::new(0, i64::MIN).power_scale, 0);
    assert_eq!(DutyCommand::new(0, 0).power_scale, 0);
    assert_eq!(DutyCommand::new(0, 1).power_scale, 1);
    assert_eq!(DutyCommand::new(0, UNIT).power_scale, UNIT);
}

#[test]
fn angle_is_stored_normalised() {
    let mut mc = MagnetController::new();
    let command = mc.set_phase_angle_and_power(-1, 5);
    assert_eq!(
        command,
        DutyCommand {
            angle_u: PI2 - 1,
            angle_v: 4_188_786_666,
            angle_w: 2_094_393_333,
            power_scale: 5
        }
    );
    assert_eq!(mc.get_phase_angle(), PI2 - 1);
    assert_eq!(
        DutyCommand::new(3 * PI2 + 17, 9),
        DutyCommand::new(17, 9)
    );
}

#[test]
fn channels_stand_a_third_of_a_turn_apart() {
    for phase_angle in [0, 1, PI2_3, PI4_3, PI1_2, PI2 - 1, -77, 8 * PI2 + 3] {
        let command = DutyCommand::new(phase_angle, UNIT);
        let u = phase_angle.rem_euclid(PI2);
        assert_eq!(command.angle_u, u);
        assert_eq!(command.angle_v, (u - PI2_3).rem_euclid(PI2));
        assert_eq!(command.angle_w, (u - PI4_3).rem_euclid(PI2));
    }
}

#[test]
fn set_phase_angle_keeps_the_power() {
    let mut mc = MagnetController::new();
    mc.set_phase_angle_and_power(0, 300_000_000);
    let command = mc.set_phase_angle(PI2 + 10);
    assert_eq!(command, DutyCommand::new(10, 300_000_000));
    assert_eq!(mc.get_phase_angle(), 10);
    assert_eq!(mc.get_power_scale(), 300_000_000);
}

#[test]
fn set_power_scale_keeps_the_angle() {
    let mut mc = MagnetController::new();
    mc.set_phase_angle_and_power(PI1_2, 300_000_000);
    let command = mc.set_power_scale(2 * UNIT);
    assert_eq!(command, DutyCommand::new(PI1_2, UNIT));
    assert_eq!(mc.get_phase_angle(), PI1_2);
    assert_eq!(mc.get_power_scale(), UNIT);
}

#[test]
fn apply_records_a_command() {
    let mut mc = MagnetController::new();
    let command = DutyCommand::new(PI1_2, 7);
    mc.apply(command);
    assert_eq!(mc.get_phase_angle(), PI1_2);
    assert_eq!(mc.get_power_scale(), 7);
}
