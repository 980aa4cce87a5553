//! Squelch calibration: turning a configured delta and a live noise-floor
//! reading into the activity decision at the current frequency.

use vstd::prelude::*;

use crate::config::LEVEL_BOUND;
use crate::config::ScanConfig;
use crate::config::config_valid;

verus! {

/// Converts the configured squelch deltas and the per-frequency noise-floor
/// sample into a threshold, and decides whether a sampled level counts as an
/// active signal. The decision is a pure function of the fields; the only
/// state is the noise-floor sample taken at each new frequency.
pub struct SquelchCalibrator {
    /// Delta in hundredths of a decibel above the reference level.
    pub delta: i64,
    /// Whether the reference is the per-frequency noise floor rather than
    /// the receiver's own squelch setting.
    pub auto: bool,
    /// Optional ceiling offset above the noise floor; a level at or above
    /// the ceiling is read as saturation or interference, not a signal.
    pub delta_top: Option<i64>,
    /// The receiver's configured squelch, the reference in fixed mode;
    /// zero when unset.
    pub base: i64,
    /// The latest noise-floor sample, refreshed at each new frequency.
    pub noise_floor: Option<i64>,
}

/// Field bounds under which every threshold computation stays far inside
/// the machine integers.
pub open spec fn calibrator_wf(cal: SquelchCalibrator) -> bool {
    &&& -LEVEL_BOUND <= cal.delta <= LEVEL_BOUND
    &&& (cal.delta_top is Some ==> -LEVEL_BOUND <= cal.delta_top->0 <= LEVEL_BOUND)
    &&& -LEVEL_BOUND <= cal.base <= LEVEL_BOUND
    &&& (cal.noise_floor is Some ==> -LEVEL_BOUND <= cal.noise_floor->0 <= LEVEL_BOUND)
}

/// The calibrator can decide once the samples its mode needs are present.
pub open spec fn calibrator_ready(cal: SquelchCalibrator) -> bool {
    (cal.auto || cal.delta_top is Some) ==> cal.noise_floor is Some
}

/// The reference level the delta is applied to: the noise floor in auto
/// mode, the receiver's squelch otherwise.
pub open spec fn reference_level(cal: SquelchCalibrator) -> int {
    if cal.auto {
        cal.noise_floor->0 as int
    } else {
        cal.base as int
    }
}

/// The effective threshold at the current frequency.
pub open spec fn threshold_spec(cal: SquelchCalibrator) -> int {
    reference_level(cal) + cal.delta
}

/// A sampled level counts as active when it exceeds the threshold and, if a
/// ceiling is configured, stays below noise floor plus ceiling offset.
pub open spec fn active_spec(cal: SquelchCalibrator, level: int) -> bool {
    &&& level > threshold_spec(cal)
    &&& match cal.delta_top {
        Some(t) => level < cal.noise_floor->0 + t,
        None => true,
    }
}

/// A raw reading forced into the level bound the engine works in.
pub open spec fn clamp_level_spec(level: int) -> int {
    if level < -LEVEL_BOUND {
        -LEVEL_BOUND as int
    } else if level > LEVEL_BOUND {
        LEVEL_BOUND as int
    } else {
        level
    }
}

/// Forces a raw reading into the level bound.
pub fn clamp_level(level: i64) -> (r: i64)
    ensures
        r == clamp_level_spec(level as int),
        -LEVEL_BOUND <= r <= LEVEL_BOUND,
{
    if level < -LEVEL_BOUND {
        -LEVEL_BOUND
    } else if level > LEVEL_BOUND {
        LEVEL_BOUND
    } else {
        level
    }
}

impl SquelchCalibrator {
    /// Builds the calibrator from a validated configuration, with no
    /// noise-floor sample yet.
    pub fn from_config(config: &ScanConfig) -> (cal: SquelchCalibrator)
        requires
            config_valid(*config),
        ensures
            calibrator_wf(cal),
            cal.delta == config.squelch_delta,
            cal.auto == config.squelch_delta_auto,
            cal.delta_top == config.squelch_delta_top,
            cal.base == 0,
            cal.noise_floor is None,
    {
        SquelchCalibrator {
            delta: config.squelch_delta,
            auto: config.squelch_delta_auto,
            delta_top: config.squelch_delta_top,
            base: 0,
            noise_floor: None,
        }
    }

    /// Records the receiver's own squelch setting as the fixed-mode
    /// reference.
    pub fn set_base(&mut self, base: i64)
        requires
            calibrator_wf(*old(self)),
        ensures
            calibrator_wf(*final(self)),
            final(self).base == clamp_level_spec(base as int),
            final(self).delta == old(self).delta,
            final(self).auto == old(self).auto,
            final(self).delta_top == old(self).delta_top,
            final(self).noise_floor == old(self).noise_floor,
    {
        self.base = clamp_level(base);
    }

    /// Takes the ambient reading sampled right after tuning as the noise
    /// floor of the current frequency.
    pub fn set_noise_floor(&mut self, level: i64)
        requires
            calibrator_wf(*old(self)),
        ensures
            calibrator_wf(*final(self)),
            final(self).noise_floor is Some,
            final(self).noise_floor->0 == clamp_level_spec(level as int),
            final(self).delta == old(self).delta,
            final(self).auto == old(self).auto,
            final(self).delta_top == old(self).delta_top,
            final(self).base == old(self).base,
    {
        self.noise_floor = Some(clamp_level(level));
    }

    /// The activity decision on one sampled level: above the threshold and,
    /// where a ceiling is configured, below it.
    pub fn is_active(&self, level: i64) -> (r: bool)
        requires
            calibrator_wf(*self),
            calibrator_ready(*self),
            -LEVEL_BOUND <= level <= LEVEL_BOUND,
        ensures
            r == active_spec(*self, level as int),
    {
        let reference: i64 = if self.auto {
            match self.noise_floor {
                Some(nf) => nf,
                None => 0,  // unreachable under `calibrator_ready`
            }
        } else {
            self.base
        };
        let above = level > reference + self.delta;
        let below_top = match self.delta_top {
            Some(t) => match self.noise_floor {
                Some(nf) => level < nf + t,
                None => false,  // unreachable under `calibrator_ready`
            },
            None => true,
        };
        above && below_top
    }
}

/// With no ceiling configured, the activity decision is monotonic in the
/// sampled level: for a fixed noise floor and delta, raising an active
/// level keeps it active. (With a ceiling present this is deliberately not
/// so: a level climbing past the ceiling stops counting as a signal.)
pub proof fn lemma_activity_monotone(cal: SquelchCalibrator, low: int, high: int)
    requires
        cal.delta_top is None,
        low <= high,
        active_spec(cal, low),
    ensures
        active_spec(cal, high),
{
}

/// With a ceiling configured, monotonicity holds as far as the ceiling:
/// raising an active level keeps it active as long as it stays below the
/// ceiling.
pub proof fn lemma_activity_monotone_below_ceiling(cal: SquelchCalibrator, low: int, high: int)
    requires
        low <= high,
        active_spec(cal, low),
        cal.delta_top is Some ==> high < cal.noise_floor->0 + cal.delta_top->0,
    ensures
        active_spec(cal, high),
{
}

/// With the ceiling offset at or below the delta and both measured from the
/// noise floor, the active band is empty: no level whatever can be
/// classified active. The decision still answers, it just always says no.
pub proof fn lemma_top_below_delta_never_active(cal: SquelchCalibrator, level: int)
    requires
        cal.delta_top is Some,
        cal.delta_top->0 <= cal.delta,
        cal.auto || cal.base == cal.noise_floor->0,
    ensures
        !active_spec(cal, level),
{
}

} // verus!
