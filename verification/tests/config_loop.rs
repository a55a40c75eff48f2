use pid_fan::config::{
    def_interval, def_max_pwm, pick_single, resolve_heat_srcs, ConfigError, PathError,
};
use pid_fan::control::{pwm_mode_value, ControlLoop};
use pid_fan::fan::Fan;
use pid_fan::heat::HeatSrc;
use pid_fan::pid::Pid;
use pid_fan::sensor::parse_temp;

#[test]
fn default_max_pwm_is_255() {
    assert_eq!(def_max_pwm(), 255);
}

#[test]
fn default_interval_is_500ms() {
    assert_eq!(def_interval(), 500);
}

#[test]
fn pick_single_accepts_exactly_one_match() {
    let paths = vec![String::from("/sys/class/hwmon/hwmon2/temp1_input")];
    assert_eq!(
        pick_single(paths),
        Ok(String::from("/sys/class/hwmon/hwmon2/temp1_input"))
    );
}

#[test]
fn pick_single_rejects_several_matches() {
    let paths = vec![String::from("a"), String::from("b")];
    assert_eq!(pick_single(paths), Err(PathError::Multiple));
}

#[test]
fn pick_single_rejects_no_match() {
    assert_eq!(pick_single(Vec::new()), Err(PathError::NoMatch));
}

#[test]
fn resolve_maps_names_to_indices() {
    let declared = vec![String::from("cpu"), String::from("gpu")];
    let wanted = vec![String::from("gpu"), String::from("cpu")];
    assert_eq!(resolve_heat_srcs(&declared, &wanted), Ok(vec![1, 0]));
}

#[test]
fn resolve_repeated_name_takes_last_declaration() {
    let declared = vec![String::from("cpu"), String::from("cpu")];
    let wanted = vec![String::from("cpu")];
    assert_eq!(resolve_heat_srcs(&declared, &wanted), Ok(vec![1]));
}

#[test]
fn resolve_reports_dangling_reference() {
    let declared = vec![String::from("cpu")];
    let wanted = vec![String::from("cpu"), String::from("nvme")];
    assert_eq!(
        resolve_heat_srcs(&declared, &wanted),
        Err(ConfigError::UnknownHeatSrc { wanted: 1 })
    );
}

#[test]
fn resolve_empty_list_is_trivially_fine() {
    let declared = vec![String::from("cpu")];
    assert_eq!(resolve_heat_srcs(&declared, &Vec::new()), Ok(Vec::new()));
}

#[test]
fn parse_temp_reads_millidegrees() {
    assert_eq!(parse_temp(&b"45000\n".to_vec()), Some(45000));
    assert_eq!(parse_temp(&b"123\n".to_vec()), Some(123));
    assert_eq!(parse_temp(&b"0\n".to_vec()), Some(0));
}

#[test]
fn parse_temp_reads_negative_values() {
    assert_eq!(parse_temp(&b"-5000\n".to_vec()), Some(-5000));
}

#[test]
fn parse_temp_rejects_garbage() {
    assert_eq!(parse_temp(&b"abc\n".to_vec()), None);
    assert_eq!(parse_temp(&b"12a\n".to_vec()), None);
    assert_eq!(parse_temp(&b"-\n".to_vec()), None);
    assert_eq!(parse_temp(&b"\n".to_vec()), None);
    assert_eq!(parse_temp(&Vec::new()), None);
}

fn small_loop() -> ControlLoop {
    let srcs = vec![HeatSrc::new(Pid::new(2_000_000, 0, 0, 50_000))];
    let fans = vec![Fan::new(0, 255, false, vec![0])];
    ControlLoop::new(srcs, fans, 500)
}

#[test]
fn tick_updates_sources_then_fans() {
    // error of 100 millidegrees at p = 2.0: output 0.2, duty round(255 * 0.2).
    let mut cl = small_loop();
    let duties = cl.tick(&vec![49_900]);
    assert_eq!(cl.heat_srcs[0].last_pid, 200_000);
    assert_eq!(duties, vec![51]);
}

#[test]
fn tick_with_no_error_idles() {
    let mut cl = small_loop();
    let duties = cl.tick(&vec![50_000]);
    assert_eq!(cl.heat_srcs[0].last_pid, 0);
    assert_eq!(duties, vec![0]);
}

#[test]
fn disabled_loop_writes_passthrough_everywhere() {
    // disable semantics: every actuator gets the automatic passthrough mode
    let srcs = vec![HeatSrc::new(Pid::new(1_000_000, 0, 0, 40_000))];
    let fans = vec![
        Fan::new(0, 255, false, vec![0]),
        Fan::new(50, 250, true, vec![0]),
    ];
    let cl = ControlLoop::new(srcs, fans, 500);
    assert_eq!(cl.startup_modes(false), vec![2, 2]);
    assert_eq!(cl.startup_modes(true), vec![1, 1]);
}

#[test]
fn mode_values_match_the_hardware_convention() {
    // 1 selects manual (software) control, 2 automatic passthrough
    assert_eq!(pwm_mode_value(true), 1);
    assert_eq!(pwm_mode_value(false), 2);
}
