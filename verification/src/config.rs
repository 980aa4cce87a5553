//! Scan configuration and its validation.

use vstd::prelude::*;

verus! {

/// How the engine walks the spectrum: a linear range sweep or a curated
/// bookmark list.
#[derive(Clone, Copy, Debug, PartialEq, Eq, Structural)]
pub enum ScanModes {
    Sweep,
    Bookmark,
}

/// Layout of the date prefix on operator-visible report lines.
#[derive(Clone, Copy, Debug, PartialEq, Eq, Structural)]
pub enum DateFormat {
    MonthDayYear,
    DayMonthYear,
}

/// A contradictory or incomplete configuration; scanning never starts.
#[derive(Clone, Copy, Debug, PartialEq, Eq, Structural)]
pub enum ConfigError {
    /// Both a center frequency and a min/max range were given.
    CenterAndRange,
    /// Sweep mode with neither a center frequency nor a range.
    MissingFrequencies,
    /// The range ends below its start.
    InvertedRange,
    /// A range sweep with a zero step can make no progress.
    ZeroStep,
    /// A squelch delta beyond the level bound the engine works in.
    DeltaOutOfRange,
    /// Bookmark mode where no bookmark matches the tag filter.
    NoMatchingBookmark,
}

/// Magnitude bound, in hundredths of a decibel, on every signal level and
/// squelch delta the engine works with: two hundred decibels either way,
/// far beyond anything a receiver reports.
pub const LEVEL_BOUND: i64 = 20000;

/// The validated scan configuration, built once by the caller.
///
/// Signal levels and squelch deltas are carried in hundredths of a decibel,
/// so `squelch_delta == 650` stands for 6.5 dB. Times are milliseconds.
/// A `freq` of zero means "no center frequency given"; a `min`/`max` pair of
/// zeros means "no range given".
pub struct ScanConfig {
    /// Host name or address of the receiver, as bytes; empty means the
    /// local host.
    pub host: Vec<u8>,
    /// Control port of the receiver.
    pub port: u16,
    pub mode: ScanModes,
    /// Center frequency in Hz, or zero if a range is used instead.
    pub freq: u64,
    /// Start of the sweep range in Hz.
    pub min: u64,
    /// End of the sweep range in Hz.
    pub max: u64,
    /// Sweep step in Hz.
    pub step: u64,
    /// Lingering time in milliseconds before a quiet channel is released.
    pub delay_ms: u64,
    /// Cap in milliseconds on listening to one active channel; zero means
    /// unbounded.
    pub max_listen_ms: u64,
    /// Milliseconds between bookmark probes.
    pub speed_ms: u64,
    pub date_format: DateFormat,
    /// Squelch delta in hundredths of a decibel above the reference level.
    pub squelch_delta: i64,
    /// Whether the squelch reference is the per-frequency noise floor.
    pub squelch_delta_auto: bool,
    /// Optional ceiling offset in hundredths of a decibel above the noise
    /// floor; levels at or above the ceiling are not treated as a signal.
    pub squelch_delta_top: Option<i64>,
    /// Whether the datagram activity feed takes part in the decision.
    pub udp_listen: bool,
    /// Case-insensitive substrings; a bookmark is scanned only if one of its
    /// tags contains one of these. Empty means no filtering.
    pub tags: Vec<Vec<u8>>,
    pub verbose: bool,
}

pub open spec fn center_given(c: ScanConfig) -> bool {
    c.freq != 0
}

pub open spec fn range_given(c: ScanConfig) -> bool {
    c.min != 0 || c.max != 0
}

pub open spec fn delta_in_bound(d: int) -> bool {
    -LEVEL_BOUND <= d <= LEVEL_BOUND
}

/// The whole validation decision, first refusal wins.
pub open spec fn config_check(c: ScanConfig) -> Result<(), ConfigError> {
    if !delta_in_bound(c.squelch_delta as int) {
        Err(ConfigError::DeltaOutOfRange)
    } else if c.squelch_delta_top is Some && !delta_in_bound(c.squelch_delta_top->0 as int) {
        Err(ConfigError::DeltaOutOfRange)
    } else if c.mode == ScanModes::Sweep {
        if center_given(c) && range_given(c) {
            Err(ConfigError::CenterAndRange)
        } else if !center_given(c) && !range_given(c) {
            Err(ConfigError::MissingFrequencies)
        } else if range_given(c) && c.min > c.max {
            Err(ConfigError::InvertedRange)
        } else if range_given(c) && c.step == 0 {
            Err(ConfigError::ZeroStep)
        } else {
            Ok(())
        }
    } else {
        Ok(())
    }
}

pub open spec fn config_valid(c: ScanConfig) -> bool {
    config_check(c) is Ok
}

impl ScanConfig {
    /// Checks the configuration invariants of the scan modes and the level
    /// bound on the squelch deltas; the first broken one is reported.
    pub fn validate(&self) -> (r: Result<(), ConfigError>)
        ensures
            r == config_check(*self),
    {
        if !(-LEVEL_BOUND <= self.squelch_delta && self.squelch_delta <= LEVEL_BOUND) {
            return Err(ConfigError::DeltaOutOfRange);
        }
        match self.squelch_delta_top {
            Some(t) => {
                if !(-LEVEL_BOUND <= t && t <= LEVEL_BOUND) {
                    return Err(ConfigError::DeltaOutOfRange);
                }
            },
            None => {},
        }
        if self.mode == ScanModes::Sweep {
            let center = self.freq != 0;
            let range = self.min != 0 || self.max != 0;
            if center && range {
                Err(ConfigError::CenterAndRange)
            } else if !center && !range {
                Err(ConfigError::MissingFrequencies)
            } else if range && self.min > self.max {
                Err(ConfigError::InvertedRange)
            } else if range && self.step == 0 {
                Err(ConfigError::ZeroStep)
            } else {
                Ok(())
            }
        } else {
            Ok(())
        }
    }
}

/// The receiver's conventional control port.
pub const DEFAULT_PORT: u16 = 7356;

/// Default lingering time in milliseconds.
pub const DEFAULT_DELAY_MS: u64 = 2000;

/// Default bookmark probe interval in milliseconds.
pub const DEFAULT_SPEED_MS: u64 = 250;

impl Default for ScanConfig {
    /// The defaults of the command-line surface: a sweep against the local
    /// receiver with nothing filled in yet, a two second lingering time and
    /// the standard bookmark probe cadence.
    fn default() -> (c: Self)
        ensures
            c.host@ == Seq::<u8>::empty(),
            c.port == DEFAULT_PORT,
            c.mode == ScanModes::Sweep,
            c.freq == 0 && c.min == 0 && c.max == 0 && c.step == 0,
            c.delay_ms == DEFAULT_DELAY_MS,
            c.max_listen_ms == 0,
            c.speed_ms == DEFAULT_SPEED_MS,
            c.date_format == DateFormat::MonthDayYear,
            c.squelch_delta == 0 && !c.squelch_delta_auto && c.squelch_delta_top is None,
            !c.udp_listen,
            c.tags@ == Seq::<Vec<u8>>::empty(),
            !c.verbose,
            config_valid(c) == false,
    {
        ScanConfig {
            host: Vec::new(),
            port: DEFAULT_PORT,
            mode: ScanModes::Sweep,
            freq: 0,
            min: 0,
            max: 0,
            step: 0,
            delay_ms: DEFAULT_DELAY_MS,
            max_listen_ms: 0,
            speed_ms: DEFAULT_SPEED_MS,
            date_format: DateFormat::MonthDayYear,
            squelch_delta: 0,
            squelch_delta_auto: false,
            squelch_delta_top: None,
            udp_listen: false,
            tags: Vec::new(),
            verbose: false,
        }
    }
}

} // verus!
