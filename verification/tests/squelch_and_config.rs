use gqrx_scanner::config::{ConfigError, DateFormat, ScanConfig, ScanModes};
use gqrx_scanner::squelch::{SquelchCalibrator, clamp_level};

fn valid_sweep() -> ScanConfig {
    let mut c = ScanConfig::default();
    c.min = 100_000_000;
    c.max = 100_050_000;
    c.step = 10_000;
    c
}

#[test]
fn fixed_mode_threshold_is_base_plus_delta() {
    let mut c = valid_sweep();
    c.squelch_delta = 600;
    let mut cal = SquelchCalibrator::from_config(&c);
    cal.set_base(-8000);
    // threshold sits at -74.00 dB
    assert!(!cal.is_active(-7400));
    assert!(cal.is_active(-7399));
    assert!(cal.is_active(0));
}

#[test]
fn auto_mode_threshold_follows_the_noise_floor() {
    let mut c = valid_sweep();
    c.squelch_delta = 600;
    c.squelch_delta_auto = true;
    let mut cal = SquelchCalibrator::from_config(&c);
    cal.set_noise_floor(-12000);
    assert!(!cal.is_active(-11400));
    assert!(cal.is_active(-11399));
    cal.set_noise_floor(-9000);
    assert!(!cal.is_active(-11399));
    assert!(cal.is_active(-8399));
}

#[test]
fn raising_an_active_level_keeps_it_active_without_a_ceiling() {
    let mut c = valid_sweep();
    c.squelch_delta = 600;
    c.squelch_delta_auto = true;
    let mut cal = SquelchCalibrator::from_config(&c);
    cal.set_noise_floor(-10000);
    let mut level: i64 = -9399;
    assert!(cal.is_active(level));
    while level < 20000 {
        level += 1000;
        let l = clamp_level(level);
        assert!(cal.is_active(l));
    }
}

#[test]
fn ceiling_rejects_saturated_levels() {
    let mut c = valid_sweep();
    c.squelch_delta = 600;
    c.squelch_delta_auto = true;
    c.squelch_delta_top = Some(3000);
    let mut cal = SquelchCalibrator::from_config(&c);
    cal.set_noise_floor(-10000);
    assert!(cal.is_active(-9000));
    // 30 dB over the noise floor: read as interference, not a signal
    assert!(!cal.is_active(-7000));
    assert!(!cal.is_active(0));
}

#[test]
fn ceiling_below_delta_classifies_nothing_as_active() {
    let mut c = valid_sweep();
    c.squelch_delta = 600;
    c.squelch_delta_auto = true;
    c.squelch_delta_top = Some(300);
    let mut cal = SquelchCalibrator::from_config(&c);
    cal.set_noise_floor(-10000);
    let mut level: i64 = -20000;
    while level <= 20000 {
        assert!(!cal.is_active(level));
        level += 500;
    }
}

#[test]
fn default_config_misses_frequencies() {
    assert_eq!(ScanConfig::default().validate(), Err(ConfigError::MissingFrequencies));
}

#[test]
fn valid_range_and_center_configs_pass() {
    assert_eq!(valid_sweep().validate(), Ok(()));
    let mut c = ScanConfig::default();
    c.freq = 145_500_000;
    assert_eq!(c.validate(), Ok(()));
}

#[test]
fn center_and_range_together_are_rejected() {
    let mut c = valid_sweep();
    c.freq = 145_500_000;
    assert_eq!(c.validate(), Err(ConfigError::CenterAndRange));
}

#[test]
fn inverted_range_is_rejected() {
    let mut c = ScanConfig::default();
    c.min = 200_000_000;
    c.max = 100_000_000;
    c.step = 10_000;
    assert_eq!(c.validate(), Err(ConfigError::InvertedRange));
}

#[test]
fn zero_step_over_a_range_is_rejected() {
    let mut c = valid_sweep();
    c.step = 0;
    assert_eq!(c.validate(), Err(ConfigError::ZeroStep));
}

#[test]
fn out_of_bound_deltas_are_rejected() {
    let mut c = valid_sweep();
    c.squelch_delta = 20_001;
    assert_eq!(c.validate(), Err(ConfigError::DeltaOutOfRange));
    let mut c2 = valid_sweep();
    c2.squelch_delta_top = Some(-20_001);
    assert_eq!(c2.validate(), Err(ConfigError::DeltaOutOfRange));
}

#[test]
fn bookmark_mode_needs_no_frequencies() {
    let mut c = ScanConfig::default();
    c.mode = ScanModes::Bookmark;
    assert_eq!(c.validate(), Ok(()));
}

#[test]
fn defaults_match_the_command_line_surface() {
    let c = ScanConfig::default();
    assert_eq!(c.port, 7356);
    assert_eq!(c.mode, ScanModes::Sweep);
    assert_eq!(c.delay_ms, 2000);
    assert_eq!(c.max_listen_ms, 0);
    assert_eq!(c.speed_ms, 250);
    assert_eq!(c.date_format, DateFormat::MonthDayYear);
    assert_eq!(c.squelch_delta, 0);
    assert!(!c.squelch_delta_auto);
    assert_eq!(c.squelch_delta_top, None);
    assert!(!c.udp_listen);
    assert!(c.tags.is_empty());
    assert!(!c.verbose);
}
