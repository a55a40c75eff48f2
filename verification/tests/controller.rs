use pid_fan::pid::{Pid, SCALE};

#[test]
fn gains_are_prescaled_at_construction() {
    // A gain configured as 2.0 (micro-units: 2_000_000) acts internally as
    // 0.002 per millidegree (2000 micro-units).
    let pid = Pid::new(2_000_000, 3_000_000, 4_000_000, 50_000);
    assert_eq!(pid.p, 2000);
    assert_eq!(pid.i, 3000);
    assert_eq!(pid.d, 4000);
    assert_eq!(pid.setpoint, 50_000);
    assert_eq!(pid.prev_error, 0);
    assert_eq!(pid.integral, 0);
}

#[test]
fn prescaled_and_raw_controllers_coincide() {
    // Scaling the configured gains by 1000 gives a controller whose internal
    // state is exactly the bare values; fed the same raw readings it behaves
    // identically, tick for tick.
    let mut by_config = Pid::new(2_000_000, 1_000_000, 500_000, 40_000);
    let mut by_hand = Pid {
        p: 2000,
        i: 1000,
        d: 500,
        setpoint: 40_000,
        prev_error: 0,
        integral: 0,
    };
    assert_eq!(by_config, by_hand);
    for raw in [39_000i64, 39_500, 40_250, 41_000] {
        assert_eq!(by_config.run(raw, 500), by_hand.run(raw, 500));
        assert_eq!(by_config, by_hand);
    }
}

#[test]
fn first_tick_at_setpoint_is_zero() {
    // measured == setpoint with no history: p-term and d-term are zero and
    // nothing accumulates, whatever the gains.
    let mut pid = Pid::new(5_000_000, 3_000_000, 1_000_000, 50_000);
    assert_eq!(pid.run(50_000, 500), 0);
    assert_eq!(pid.prev_error, 0);
    assert_eq!(pid.integral, 0);
}

#[test]
fn proportional_term_alone() {
    // p = 2.0, error = 100 millidegrees: output = 100 * 0.002 = 0.2.
    let mut pid = Pid::new(2_000_000, 0, 0, 50_000);
    assert_eq!(pid.run(49_900, 500), 200_000);
    assert_eq!(pid.prev_error, 100);
    // the tentative output sat strictly inside (0, 1), so the integral accumulated
    assert_eq!(pid.integral, 50_000);
}

#[test]
fn integral_accumulates_only_strictly_inside_the_range() {
    // With a zero p-term and d-term the tentative output sits at the lower
    // bound, so the anti-windup check never lets the integral accumulate.
    let mut pid = Pid::new(0, 1_000_000, 0, 50_000);
    assert_eq!(pid.run(49_900, 500), 0);
    assert_eq!(pid.integral, 0);
}

#[test]
fn integral_grows_across_ticks() {
    // p = 1.0, i = 2.0, constant error of 100 millidegrees at 500 ms ticks.
    let mut pid = Pid::new(1_000_000, 2_000_000, 0, 50_000);
    assert_eq!(pid.run(49_900, 500), 200_000);
    assert_eq!(pid.integral, 50_000);
    assert_eq!(pid.run(49_900, 500), 300_000);
    assert_eq!(pid.integral, 100_000);
}

#[test]
fn derivative_spike_is_clamped() {
    // d = 3.0, error jumps 1000 millidegrees in 500 ms: the raw output is
    // 6.0, far over the top of the range, and comes back clamped to 1.0.
    let mut pid = Pid::new(0, 0, 3_000_000, 50_000);
    assert_eq!(pid.run(49_000, 500), SCALE);
    // a saturated output blocks accumulation
    assert_eq!(pid.integral, 0);
    // same reading again: the derivative term vanishes
    assert_eq!(pid.run(49_000, 500), 0);
}

#[test]
fn output_stays_on_the_unit_interval() {
    // Runaway gains, wild readings: every output stays within [0, 1].
    let mut pid = Pid::new(1_000_000_000_000, -1_000_000_000_000, 999_999_999_999, 0);
    for raw in [1_000_000_000i64, -1_000_000_000, 0, 123_456_789, -1] {
        let out: i64 = pid.run(raw, 1);
        assert!((0..=SCALE).contains(&out));
    }
}

#[test]
fn negative_error_clamps_to_zero() {
    // measured above setpoint drives the raw output negative; it is clamped
    // to 0.
    let mut pid = Pid::new(2_000_000, 0, 0, 50_000);
    assert_eq!(pid.run(51_000, 500), 0);
}
