use gqrx_scanner::bookmarks::Bookmark;
use gqrx_scanner::config::{ConfigError, ScanConfig, ScanModes};
use gqrx_scanner::cursor::sweep_next;
use gqrx_scanner::engine::{ActivitySource, ActivityState, LinkAction, SampleOutcome, ScanEngine};

fn sweep_config() -> ScanConfig {
    let mut c = ScanConfig::default();
    c.min = 100_000_000;
    c.max = 100_050_000;
    c.step = 10_000;
    c.delay_ms = 2000;
    c.max_listen_ms = 0;
    c.squelch_delta = 600; // 6.0 dB in hundredths
    c
}

fn tagged(freq: u64, tags: &[&str]) -> Bookmark {
    Bookmark {
        freq,
        tags: tags.iter().map(|t| t.as_bytes().to_vec()).collect(),
    }
}

#[test]
fn quiet_sweep_visits_six_frequencies_then_wraps() {
    let mut e = ScanEngine::new(sweep_config(), Vec::new()).unwrap();
    let mut visited: Vec<u64> = Vec::new();
    let mut now: u64 = 0;
    for _ in 0..6 {
        visited.push(e.current_frequency());
        // far below the 6 dB threshold the whole pass
        let out = e.on_sample(now, Some(-8000), false);
        assert_eq!(out, SampleOutcome::Inactive);
        assert!(matches!(e.activity, ActivityState::Idle));
        e.advance();
        now += 2000;
    }
    assert_eq!(
        visited,
        vec![
            100_000_000,
            100_010_000,
            100_020_000,
            100_030_000,
            100_040_000,
            100_050_000
        ]
    );
    assert_eq!(e.current_frequency(), 100_000_000);
}

#[test]
fn active_signal_holds_engine_until_quiet_delay_elapses() {
    let mut e = ScanEngine::new(sweep_config(), Vec::new()).unwrap();
    e.advance();
    e.advance();
    assert_eq!(e.current_frequency(), 100_020_000);
    let t0: u64 = 10_000;
    // 10 dB above the 6 dB threshold
    assert_eq!(e.on_sample(t0, Some(1600), false), SampleOutcome::Activated);
    assert!(matches!(
        e.activity,
        ActivityState::Listening {
            since: 10_000,
            quiet_since: None,
            source: ActivitySource::ControlChannel
        }
    ));
    assert_eq!(e.on_sample(t0 + 250, Some(1600), false), SampleOutcome::StillActive);
    // the signal drops; the quiet stretch starts
    assert_eq!(e.on_sample(t0 + 500, Some(0), false), SampleOutcome::StillActive);
    // quiet for only 1500 ms of the 2000 ms lingering time
    assert_eq!(e.on_sample(t0 + 2000, Some(0), false), SampleOutcome::StillActive);
    // a full 2000 ms of quiet: released by threshold, not by timeout
    assert_eq!(e.on_sample(t0 + 2500, Some(0), false), SampleOutcome::DeactivatedQuiet);
    assert!(matches!(e.activity, ActivityState::Idle));
    // exactly one activation/deactivation pair happened above; scanning resumes
    e.advance();
    assert_eq!(e.current_frequency(), 100_030_000);
}

#[test]
fn signal_reviving_during_quiet_stretch_resets_the_lingering_clock() {
    let mut e = ScanEngine::new(sweep_config(), Vec::new()).unwrap();
    assert_eq!(e.on_sample(0, Some(1600), false), SampleOutcome::Activated);
    assert_eq!(e.on_sample(500, Some(0), false), SampleOutcome::StillActive);
    // live again: the quiet stretch is forgotten
    assert_eq!(e.on_sample(1000, Some(1600), false), SampleOutcome::StillActive);
    // 1900 ms after the new quiet start: still within the lingering time
    assert_eq!(e.on_sample(1500, Some(0), false), SampleOutcome::StillActive);
    assert_eq!(e.on_sample(3400, Some(0), false), SampleOutcome::StillActive);
    assert_eq!(e.on_sample(3500, Some(0), false), SampleOutcome::DeactivatedQuiet);
}

#[test]
fn max_listen_forces_reactivation_even_while_active() {
    let mut c = sweep_config();
    c.max_listen_ms = 1000;
    let mut e = ScanEngine::new(c, Vec::new()).unwrap();
    assert_eq!(e.on_sample(0, Some(1600), false), SampleOutcome::Activated);
    assert_eq!(e.on_sample(500, Some(1600), false), SampleOutcome::StillActive);
    // the level never drops, yet the cap ends the stay exactly at 1000 ms,
    // reported as a timeout, not as a threshold release
    assert_eq!(e.on_sample(1000, Some(1600), false), SampleOutcome::DeactivatedTimeout);
    assert!(matches!(e.activity, ActivityState::Idle));
}

#[test]
fn unreadable_level_counts_as_quiet_and_scanning_goes_on() {
    let mut e = ScanEngine::new(sweep_config(), Vec::new()).unwrap();
    assert_eq!(e.on_sample(0, None, false), SampleOutcome::Inactive);
    e.advance();
    assert_eq!(e.current_frequency(), 100_010_000);
}

#[test]
fn udp_activity_triggers_listening_only_when_enabled() {
    let mut c = sweep_config();
    c.udp_listen = true;
    let mut e = ScanEngine::new(c, Vec::new()).unwrap();
    let out = e.on_sample(0, None, true);
    assert_eq!(out, SampleOutcome::Activated);
    assert!(matches!(
        e.activity,
        ActivityState::Listening { source: ActivitySource::Udp, .. }
    ));

    let mut e2 = ScanEngine::new(sweep_config(), Vec::new()).unwrap();
    assert_eq!(e2.on_sample(0, None, true), SampleOutcome::Inactive);
}

#[test]
fn one_reconnect_attempt_then_fatal() {
    let mut e = ScanEngine::new(sweep_config(), Vec::new()).unwrap();
    // a ConnectError on tuning: exactly one reconnect is requested
    assert_eq!(e.on_tune_failure(), LinkAction::Reconnect);
    // the retried tune fails again: the second consecutive failure is fatal
    assert_eq!(e.on_tune_failure(), LinkAction::Fatal);
    // after a successful tune the streak is forgotten
    e.on_tune_success();
    assert_eq!(e.on_tune_failure(), LinkAction::Reconnect);
}

#[test]
fn sweep_step_wraps_exactly_past_the_range_end() {
    assert_eq!(sweep_next(100_040_000, 100_000_000, 100_050_000, 10_000), 100_050_000);
    assert_eq!(sweep_next(100_050_000, 100_000_000, 100_050_000, 10_000), 100_000_000);
    // a step past max from inside wraps too
    assert_eq!(sweep_next(100_045_000, 100_000_000, 100_050_000, 10_000), 100_000_000);
}

#[test]
fn center_frequency_sweep_never_moves() {
    let mut c = ScanConfig::default();
    c.freq = 145_500_000;
    let mut e = ScanEngine::new(c, Vec::new()).unwrap();
    assert_eq!(e.current_frequency(), 145_500_000);
    e.advance();
    assert_eq!(e.current_frequency(), 145_500_000);
}

#[test]
fn bookmark_scan_visits_only_matching_bookmarks_and_wraps() {
    let mut c = ScanConfig::default();
    c.mode = ScanModes::Bookmark;
    c.tags = vec![b"fire".to_vec()];
    let bms = vec![
        tagged(144_000_000, &["Ham"]),
        tagged(154_130_000, &["FIRE Dispatch"]),
        tagged(155_000_000, &["police"]),
        tagged(460_600_000, &["City Fire TAC"]),
    ];
    let mut e = ScanEngine::new(c, bms).unwrap();
    assert_eq!(e.current_frequency(), 154_130_000);
    e.advance();
    assert_eq!(e.current_frequency(), 460_600_000);
    e.advance();
    assert_eq!(e.current_frequency(), 154_130_000);
}

#[test]
fn bookmark_scan_without_any_match_is_a_config_error() {
    let mut c = ScanConfig::default();
    c.mode = ScanModes::Bookmark;
    c.tags = vec![b"marine".to_vec()];
    let bms = vec![tagged(144_000_000, &["Ham"]), tagged(155_000_000, &["police"])];
    match ScanEngine::new(c, bms) {
        Err(e) => assert_eq!(e, ConfigError::NoMatchingBookmark),
        Ok(_) => panic!("engine started with no matching bookmark"),
    }
}

#[test]
fn empty_tag_filter_admits_every_bookmark() {
    let mut c = ScanConfig::default();
    c.mode = ScanModes::Bookmark;
    let bms = vec![tagged(144_000_000, &["Ham"]), tagged(155_000_000, &["police"])];
    let mut e = ScanEngine::new(c, bms).unwrap();
    assert_eq!(e.current_frequency(), 144_000_000);
    e.advance();
    assert_eq!(e.current_frequency(), 155_000_000);
    e.advance();
    assert_eq!(e.current_frequency(), 144_000_000);
}

#[test]
fn probe_interval_follows_the_mode() {
    let e = ScanEngine::new(sweep_config(), Vec::new()).unwrap();
    assert_eq!(e.probe_interval_ms(), 2000);
    let mut c = ScanConfig::default();
    c.mode = ScanModes::Bookmark;
    c.speed_ms = 500;
    let e2 = ScanEngine::new(c, vec![tagged(1000, &["x"])]).unwrap();
    assert_eq!(e2.probe_interval_ms(), 500);
}
