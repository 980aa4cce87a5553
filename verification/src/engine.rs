//! The scan engine: the frequency cursor, the dwell/listen state machine
//! and the reconnect discipline of the control link.
//!
//! The engine never touches a socket or a clock. The caller tunes the
//! receiver, samples levels and timestamps, and hands the engine plain
//! values; the engine answers with the next state and the outcome to act
//! on.

use vstd::prelude::*;

use crate::bookmarks::Bookmark;
use crate::bookmarks::bookmark_matches;
use crate::bookmarks::find_first_match;
use crate::bookmarks::find_next_match;
use crate::bookmarks::first_match_from;
use crate::bookmarks::lemma_first_match_some;
use crate::bookmarks::lemma_next_match_matches;
use crate::bookmarks::next_match_spec;
use crate::config::ConfigError;
use crate::config::ScanConfig;
use crate::config::ScanModes;
use crate::config::config_check;
use crate::config::config_valid;
use crate::config::range_given;
use crate::cursor::ScanCursor;
use crate::cursor::sweep_next;
use crate::cursor::sweep_next_spec;
use crate::squelch::SquelchCalibrator;
use crate::squelch::active_spec;
use crate::squelch::calibrator_ready;
use crate::squelch::calibrator_wf;
use crate::squelch::clamp_level;
use crate::squelch::clamp_level_spec;

verus! {

/// Which detector put the engine into the listening state.
#[derive(Clone, Copy, Debug, PartialEq, Eq, Structural)]
pub enum ActivitySource {
    /// The squelch decision on the control-channel level reading.
    ControlChannel,
    /// The datagram activity feed.
    Udp,
}

/// Whether the engine is scanning on or lingering on an active frequency.
#[derive(Clone, Copy, Debug, PartialEq, Eq)]
pub enum ActivityState {
    /// Scanning; nothing held the engine on the current frequency.
    Idle,
    /// Lingering on an active frequency since `since`; `quiet_since` is the
    /// start of the current uninterrupted quiet stretch, if one is running.
    Listening { since: u64, quiet_since: Option<u64>, source: ActivitySource },
}

/// What one sample did to the engine.
#[derive(Clone, Copy, Debug, PartialEq, Eq, Structural)]
pub enum SampleOutcome {
    /// Nothing heard; the caller moves the cursor on.
    Inactive,
    /// The frequency just became active; the engine now lingers on it.
    Activated,
    /// Still lingering, either on live signal or inside the quiet grace
    /// period.
    StillActive,
    /// Released after a full quiet lingering period.
    DeactivatedQuiet,
    /// Released because the listening cap ran out, signal or not.
    DeactivatedTimeout,
}

/// What the caller must do about the control link after a failed tune.
#[derive(Clone, Copy, Debug, PartialEq, Eq, Structural)]
pub enum LinkAction {
    /// Reconnect once and retry.
    Reconnect,
    /// Give up: a second consecutive failure ends the scan.
    Fatal,
}

/// The dwell/listen transition on one sample: the next activity state and
/// the outcome reported to the caller.
///
/// A positive `max_listen` caps the whole stay, checked first so that a
/// loud channel cannot hold the scan forever; otherwise an active sample
/// resets any quiet stretch, and a quiet one starts or extends a stretch
/// that releases the frequency once it has lasted `delay`.
pub open spec fn activity_step(
    act: ActivityState,
    now: u64,
    active: bool,
    src: ActivitySource,
    delay: u64,
    max_listen: u64,
) -> (ActivityState, SampleOutcome) {
    match act {
        ActivityState::Idle => {
            if active {
                (
                    ActivityState::Listening { since: now, quiet_since: None, source: src },
                    SampleOutcome::Activated,
                )
            } else {
                (ActivityState::Idle, SampleOutcome::Inactive)
            }
        },
        ActivityState::Listening { since, quiet_since, source } => {
            if max_listen > 0 && now - since >= max_listen {
                (ActivityState::Idle, SampleOutcome::DeactivatedTimeout)
            } else if active {
                (
                    ActivityState::Listening { since, quiet_since: None, source },
                    SampleOutcome::StillActive,
                )
            } else {
                match quiet_since {
                    None => (
                        ActivityState::Listening { since, quiet_since: Some(now), source },
                        SampleOutcome::StillActive,
                    ),
                    Some(q) => {
                        if now - q >= delay {
                            (ActivityState::Idle, SampleOutcome::DeactivatedQuiet)
                        } else {
                            (
                                ActivityState::Listening {
                                    since,
                                    quiet_since: Some(q),
                                    source,
                                },
                                SampleOutcome::StillActive,
                            )
                        }
                    },
                }
            }
        },
    }
}

/// The control-channel side of the decision: the clamped level reading
/// against the calibrated squelch; an unreadable level counts as quiet.
pub open spec fn level_active(cal: SquelchCalibrator, level: Option<i64>) -> bool {
    match level {
        Some(l) => active_spec(cal, clamp_level_spec(l as int)),
        None => false,
    }
}

/// The combined decision: the squelch verdict, or the datagram feed when
/// that detector is enabled.
pub open spec fn combined_active(
    c: ScanConfig,
    cal: SquelchCalibrator,
    level: Option<i64>,
    udp: bool,
) -> bool {
    level_active(cal, level) || (c.udp_listen && udp)
}

/// Which detector gets the credit when the engine starts listening.
pub open spec fn activation_source(cal: SquelchCalibrator, level: Option<i64>) -> ActivitySource {
    if level_active(cal, level) {
        ActivitySource::ControlChannel
    } else {
        ActivitySource::Udp
    }
}

/// The action after a failed tune: the first failure in a row asks for the
/// one allowed reconnect, any further one is fatal.
pub open spec fn tune_failure_action(failures: int) -> LinkAction {
    if failures == 0 {
        LinkAction::Reconnect
    } else {
        LinkAction::Fatal
    }
}

/// A `ConnectError` on tuning is answered by exactly one reconnect
/// attempt; with no success in between, the next failure ends the scan.
pub proof fn lemma_reconnect_exactly_once(failures: int)
    ensures
        failures == 0 ==> tune_failure_action(failures) == LinkAction::Reconnect,
        failures >= 1 ==> tune_failure_action(failures) == LinkAction::Fatal,
{
}

/// The sample timestamp may not lie before the timestamps already recorded
/// in the activity state.
pub open spec fn sample_time_ok(act: ActivityState, now: u64) -> bool {
    match act {
        ActivityState::Idle => true,
        ActivityState::Listening { since, quiet_since, source } => {
            &&& now >= since
            &&& (quiet_since is Some ==> now >= quiet_since->0)
        },
    }
}

/// The orchestrator: owns the configuration, the bookmark list, the cursor,
/// the calibrator and the activity state, and steps them on the events the
/// caller feeds in.
pub struct ScanEngine {
    pub config: ScanConfig,
    pub bookmarks: Vec<Bookmark>,
    pub cursor: ScanCursor,
    pub activity: ActivityState,
    pub calibrator: SquelchCalibrator,
    /// Consecutive tune failures with no success in between; saturates.
    pub tune_failures: u8,
}

/// The engine's well-formedness: a valid configuration, a calibrator that
/// mirrors it, a cursor inside the range or on a matching bookmark, and
/// ordered listening timestamps.
pub open spec fn engine_inv(e: ScanEngine) -> bool {
    &&& config_valid(e.config)
    &&& calibrator_wf(e.calibrator)
    &&& e.calibrator.delta == e.config.squelch_delta
    &&& e.calibrator.auto == e.config.squelch_delta_auto
    &&& e.calibrator.delta_top == e.config.squelch_delta_top
    &&& match e.config.mode {
        ScanModes::Sweep => {
            if range_given(e.config) {
                e.config.min <= e.cursor.freq <= e.config.max && e.config.step >= 1
            } else {
                e.cursor.freq == e.config.freq
            }
        },
        ScanModes::Bookmark => {
            &&& e.cursor.index < e.bookmarks@.len()
            &&& bookmark_matches(e.bookmarks@[e.cursor.index as int], e.config.tags@)
            &&& e.cursor.freq == e.bookmarks@[e.cursor.index as int].freq
        },
    }
    &&& match e.activity {
        ActivityState::Idle => true,
        ActivityState::Listening { since, quiet_since, source } => quiet_since is Some
            ==> quiet_since->0 >= since,
    }
}

impl ScanEngine {
    /// Builds the engine from a configuration and the externally supplied
    /// bookmark list, validating both before any network work: the engine
    /// starts exactly when the configuration is coherent and, in bookmark
    /// mode, at least one bookmark passes the tag filter.
    ///
    /// The initial frequency is the start of the range, the center
    /// frequency, or the first matching bookmark.
    pub fn new(config: ScanConfig, bookmarks: Vec<Bookmark>) -> (r: Result<ScanEngine, ConfigError>)
        ensures
            r is Ok <==> (config_check(config) is Ok && (config.mode == ScanModes::Bookmark
                ==> first_match_from(bookmarks@, config.tags@, 0) is Some)),
            config_check(config) matches Err(e) ==> r == Err::<ScanEngine, ConfigError>(e),
            (config_check(config) is Ok && config.mode == ScanModes::Bookmark
                && first_match_from(bookmarks@, config.tags@, 0) is None) ==> r == Err::<
                ScanEngine,
                ConfigError,
            >(ConfigError::NoMatchingBookmark),
            r matches Ok(e) ==> {
                &&& engine_inv(e)
                &&& e.config == config
                &&& e.bookmarks@ == bookmarks@
                &&& e.activity == ActivityState::Idle
                &&& e.tune_failures == 0
                &&& e.calibrator.noise_floor is None
                &&& e.calibrator.base == 0
                &&& (config.mode == ScanModes::Sweep && range_given(config) ==> e.cursor.freq
                    == config.min)
                &&& (config.mode == ScanModes::Sweep && !range_given(config) ==> e.cursor.freq
                    == config.freq)
                &&& (config.mode == ScanModes::Bookmark ==> e.cursor.index as int
                    == first_match_from(bookmarks@, config.tags@, 0)->0)
            },
    {
        if let Err(e) = config.validate() {
            return Err(e);
        }
        let calibrator = SquelchCalibrator::from_config(&config);
        match config.mode {
            ScanModes::Sweep => {
                let start = if config.min != 0 || config.max != 0 {
                    config.min
                } else {
                    config.freq
                };
                Ok(
                    ScanEngine {
                        config,
                        bookmarks,
                        cursor: ScanCursor { freq: start, index: 0 },
                        activity: ActivityState::Idle,
                        calibrator,
                        tune_failures: 0,
                    },
                )
            },
            ScanModes::Bookmark => {
                match find_first_match(&bookmarks, &config.tags, 0) {
                    Some(i) => {
                        proof {
                            lemma_first_match_some(bookmarks@, config.tags@, 0);
                        }
                        let freq = bookmarks[i].freq;
                        Ok(
                            ScanEngine {
                                config,
                                bookmarks,
                                cursor: ScanCursor { freq, index: i },
                                activity: ActivityState::Idle,
                                calibrator,
                                tune_failures: 0,
                            },
                        )
                    },
                    None => Err(ConfigError::NoMatchingBookmark),
                }
            },
        }
    }

    /// The frequency the receiver should be tuned to.
    pub fn current_frequency(&self) -> (r: u64)
        ensures
            r == self.cursor.freq,
    {
        self.cursor.freq
    }

    /// Milliseconds to wait between probes: the full lingering cadence in a
    /// sweep, the faster confirmation interval over bookmarks.
    pub fn probe_interval_ms(&self) -> (r: u64)
        ensures
            r == if self.config.mode == ScanModes::Bookmark {
                self.config.speed_ms
            } else {
                self.config.delay_ms
            },
    {
        if self.config.mode == ScanModes::Bookmark {
            self.config.speed_ms
        } else {
            self.config.delay_ms
        }
    }

    /// Moves the cursor to the next frequency: one sweep step with a wrap
    /// at the range end, the next matching bookmark with a wrap at the list
    /// end, or nowhere when a single center frequency is scanned.
    ///
    /// In bookmark mode the landing place always passes the tag filter.
    pub fn advance(&mut self)
        requires
            engine_inv(*old(self)),
        ensures
            engine_inv(*final(self)),
            final(self).config == old(self).config,
            final(self).bookmarks@ == old(self).bookmarks@,
            final(self).activity == old(self).activity,
            final(self).calibrator == old(self).calibrator,
            final(self).tune_failures == old(self).tune_failures,
            (old(self).config.mode == ScanModes::Sweep && range_given(old(self).config))
                ==> final(self).cursor.freq == sweep_next_spec(
                old(self).cursor.freq as int,
                old(self).config.min as int,
                old(self).config.max as int,
                old(self).config.step as int,
            ),
            (old(self).config.mode == ScanModes::Sweep && !range_given(old(self).config))
                ==> final(self).cursor == old(self).cursor,
            old(self).config.mode == ScanModes::Bookmark ==> {
                let nm = next_match_spec(
                    old(self).bookmarks@,
                    old(self).config.tags@,
                    old(self).cursor.index as int,
                );
                &&& nm is Some
                &&& final(self).cursor.index as int == nm->0
                &&& final(self).cursor.freq == old(self).bookmarks@[nm->0].freq
                &&& bookmark_matches(old(self).bookmarks@[nm->0], old(self).config.tags@)
            },
    {
        match self.config.mode {
            ScanModes::Sweep => {
                if self.config.min != 0 || self.config.max != 0 {
                    self.cursor.freq = sweep_next(
                        self.cursor.freq,
                        self.config.min,
                        self.config.max,
                        self.config.step,
                    );
                }
            },
            ScanModes::Bookmark => {
                proof {
                    lemma_next_match_matches(
                        self.bookmarks@,
                        self.config.tags@,
                        self.cursor.index as int,
                    );
                }
                match find_next_match(&self.bookmarks, &self.config.tags, self.cursor.index) {
                    Some(i) => {
                        self.cursor.index = i;
                        self.cursor.freq = self.bookmarks[i].freq;
                    },
                    None => {
                        proof {
                            assert(false);
                        }
                    },
                }
            },
        }
    }

    /// Records the ambient reading taken right after tuning as the noise
    /// floor of the current frequency.
    pub fn set_noise_floor(&mut self, level: i64)
        requires
            engine_inv(*old(self)),
        ensures
            engine_inv(*final(self)),
            final(self).config == old(self).config,
            final(self).bookmarks@ == old(self).bookmarks@,
            final(self).activity == old(self).activity,
            final(self).cursor == old(self).cursor,
            final(self).tune_failures == old(self).tune_failures,
            final(self).calibrator.noise_floor is Some,
            final(self).calibrator.noise_floor->0 == clamp_level_spec(level as int),
            calibrator_ready(final(self).calibrator),
            final(self).calibrator.delta == old(self).calibrator.delta,
            final(self).calibrator.auto == old(self).calibrator.auto,
            final(self).calibrator.delta_top == old(self).calibrator.delta_top,
            final(self).calibrator.base == old(self).calibrator.base,
    {
        self.calibrator.set_noise_floor(level);
    }

    /// Records the receiver's own squelch setting as the fixed-mode
    /// reference level.
    pub fn set_squelch_base(&mut self, base: i64)
        requires
            engine_inv(*old(self)),
        ensures
            engine_inv(*final(self)),
            final(self).config == old(self).config,
            final(self).bookmarks@ == old(self).bookmarks@,
            final(self).activity == old(self).activity,
            final(self).cursor == old(self).cursor,
            final(self).tune_failures == old(self).tune_failures,
            final(self).calibrator.base == clamp_level_spec(base as int),
            final(self).calibrator.delta == old(self).calibrator.delta,
            final(self).calibrator.auto == old(self).calibrator.auto,
            final(self).calibrator.delta_top == old(self).calibrator.delta_top,
            final(self).calibrator.noise_floor == old(self).calibrator.noise_floor,
    {
        self.calibrator.set_base(base);
    }

    /// Feeds one sample into the dwell/listen state machine: the level
    /// reading (or none, when the reply was unreadable — a transient error
    /// counts as quiet and never stalls the scan) and the datagram
    /// activity flag. Returns what happened, and leaves everything but the
    /// activity state untouched.
    pub fn on_sample(&mut self, now: u64, level: Option<i64>, udp_active: bool) -> (r:
        SampleOutcome)
        requires
            engine_inv(*old(self)),
            calibrator_ready(old(self).calibrator),
            sample_time_ok(old(self).activity, now),
        ensures
            engine_inv(*final(self)),
            final(self).config == old(self).config,
            final(self).bookmarks@ == old(self).bookmarks@,
            final(self).cursor == old(self).cursor,
            final(self).calibrator == old(self).calibrator,
            final(self).tune_failures == old(self).tune_failures,
            ({
                let step = activity_step(
                    old(self).activity,
                    now,
                    combined_active(old(self).config, old(self).calibrator, level, udp_active),
                    activation_source(old(self).calibrator, level),
                    old(self).config.delay_ms,
                    old(self).config.max_listen_ms,
                );
                final(self).activity == step.0 && r == step.1
            }),
    {
        let ctrl_active = match level {
            Some(l) => self.calibrator.is_active(clamp_level(l)),
            None => false,
        };
        let active = ctrl_active || (self.config.udp_listen && udp_active);
        let src = if ctrl_active {
            ActivitySource::ControlChannel
        } else {
            ActivitySource::Udp
        };
        let act = self.activity;
        match act {
            ActivityState::Idle => {
                if active {
                    self.activity = ActivityState::Listening {
                        since: now,
                        quiet_since: None,
                        source: src,
                    };
                    SampleOutcome::Activated
                } else {
                    SampleOutcome::Inactive
                }
            },
            ActivityState::Listening { since, quiet_since, source } => {
                if self.config.max_listen_ms > 0 && now - since >= self.config.max_listen_ms {
                    self.activity = ActivityState::Idle;
                    SampleOutcome::DeactivatedTimeout
                } else if active {
                    self.activity = ActivityState::Listening {
                        since,
                        quiet_since: None,
                        source,
                    };
                    SampleOutcome::StillActive
                } else {
                    match quiet_since {
                        None => {
                            self.activity = ActivityState::Listening {
                                since,
                                quiet_since: Some(now),
                                source,
                            };
                            SampleOutcome::StillActive
                        },
                        Some(q) => {
                            if now - q >= self.config.delay_ms {
                                self.activity = ActivityState::Idle;
                                SampleOutcome::DeactivatedQuiet
                            } else {
                                SampleOutcome::StillActive
                            }
                        },
                    }
                }
            },
        }
    }

    /// Notes a `ConnectError` on tuning and says what to do: the first
    /// failure in a row asks for the one allowed reconnect attempt, any
    /// further consecutive failure ends the scan.
    pub fn on_tune_failure(&mut self) -> (r: LinkAction)
        requires
            engine_inv(*old(self)),
        ensures
            engine_inv(*final(self)),
            final(self).config == old(self).config,
            final(self).bookmarks@ == old(self).bookmarks@,
            final(self).cursor == old(self).cursor,
            final(self).activity == old(self).activity,
            final(self).calibrator == old(self).calibrator,
            r == tune_failure_action(old(self).tune_failures as int),
            final(self).tune_failures == if old(self).tune_failures < 2 {
                old(self).tune_failures + 1
            } else {
                old(self).tune_failures as int
            },
    {
        let r = if self.tune_failures == 0 {
            LinkAction::Reconnect
        } else {
            LinkAction::Fatal
        };
        if self.tune_failures < 2 {
            self.tune_failures = self.tune_failures + 1;
        }
        r
    }

    /// Notes a successful tune, clearing the failure streak.
    pub fn on_tune_success(&mut self)
        requires
            engine_inv(*old(self)),
        ensures
            engine_inv(*final(self)),
            final(self).config == old(self).config,
            final(self).bookmarks@ == old(self).bookmarks@,
            final(self).cursor == old(self).cursor,
            final(self).activity == old(self).activity,
            final(self).calibrator == old(self).calibrator,
            final(self).tune_failures == 0,
    {
        self.tune_failures = 0;
    }
}

} // verus!
