use pid_fan::fan::Fan;
use pid_fan::heat::HeatSrc;
use pid_fan::pid::Pid;

fn idle_src(last_pid: i64) -> HeatSrc {
    HeatSrc {
        last_pid,
        pid: Pid::new(1_000_000, 0, 0, 50_000),
    }
}

#[test]
fn duty_mapping_midpoint() {
    // min_duty = 50, max_duty = 250, pressure = 0.5:
    // duty = 50 + round(200 * 0.5) = 150.
    let fan = Fan::new(50, 250, false, Vec::new());
    assert_eq!(fan.drive(500_000), 150);
}

#[test]
fn duty_mapping_rounds_to_nearest() {
    // range 200, pressure 0.2505: 50.1 rounds down; 0.2525: 50.5 rounds up.
    let fan = Fan::new(0, 200, false, Vec::new());
    assert_eq!(fan.drive(250_500), 50);
    assert_eq!(fan.drive(252_500), 51);
}

#[test]
fn cutoff_forces_full_stop_at_min() {
    // min_duty = 50, cutoff on, zero pressure: the duty is 0, not 50.
    let fan = Fan::new(50, 250, true, Vec::new());
    assert_eq!(fan.drive(0), 0);
}

#[test]
fn no_cutoff_idles_at_min() {
    let fan = Fan::new(50, 250, false, Vec::new());
    assert_eq!(fan.drive(0), 50);
}

#[test]
fn cutoff_leaves_nonzero_duties_alone() {
    let fan = Fan::new(50, 250, true, Vec::new());
    assert_eq!(fan.drive(500_000), 150);
}

#[test]
fn full_pressure_reaches_max_duty() {
    // the widest possible range, driven flat out
    let fan = Fan::new(0, u32::MAX, false, Vec::new());
    assert_eq!(fan.drive(1_000_000), u32::MAX);
}

#[test]
fn aggregation_takes_the_maximum() {
    // sources at 0.2, 0.7 and 0.1: pressure = 0.7.
    let srcs = vec![idle_src(200_000), idle_src(700_000), idle_src(100_000)];
    let fan = Fan::new(0, 100, false, vec![0, 1, 2]);
    // duty = round(100 * 0.7) = 70
    assert_eq!(fan.compute_duty(&srcs), 70);
}

#[test]
fn aggregation_ignores_unreferenced_sources() {
    // the hottest source is not assigned to this fan
    let srcs = vec![idle_src(200_000), idle_src(700_000), idle_src(100_000)];
    let fan = Fan::new(0, 100, false, vec![0, 2]);
    assert_eq!(fan.compute_duty(&srcs), 20);
}

#[test]
fn aggregation_floor_is_zero() {
    // a fan whose sources are all idle drives at min_duty
    let srcs = vec![idle_src(0), idle_src(0)];
    let fan = Fan::new(30, 100, false, vec![0, 1]);
    assert_eq!(fan.compute_duty(&srcs), 30);
}

#[test]
fn compute_duty_is_idempotent_within_a_tick() {
    // without an intervening update, a second computation yields the same duty
    let srcs = vec![idle_src(340_000), idle_src(120_000)];
    let fan = Fan::new(40, 255, true, vec![0, 1]);
    let first: u32 = fan.compute_duty(&srcs);
    let second: u32 = fan.compute_duty(&srcs);
    assert_eq!(first, second);
}

#[test]
fn equal_min_and_max_duty() {
    // a degenerate range: every pressure maps to min_duty
    let fan = Fan::new(128, 128, false, Vec::new());
    assert_eq!(fan.drive(0), 128);
    assert_eq!(fan.drive(999_999), 128);
}
