//! Validated configuration of the seeded noise fields.
//!
//! Frequencies and periods are held in thousandths, so that `1000` stands
//! for `1.0`. Sampling a field is floating-point work done by the host from
//! a validated configuration.

use vstd::prelude::*;

verus! {

/// A configuration value that construction refuses.
#[derive(Clone, Copy, Debug, PartialEq, Eq, Structural)]
pub enum ConfigError {
    NonPositiveSpacing,
    NonPositiveFrequency,
    NonPositivePeriod,
}

/// How a noise field blends the random values of neighbouring cells.
#[derive(Clone, Copy, Debug, PartialEq, Eq, Structural)]
pub enum NoiseKind {
    CellValue,
    CellGradient,
}

/// The parameters of one seeded noise field.
#[derive(Clone, Copy, Debug, PartialEq, Eq, Structural)]
pub struct NoiseConfig {
    pub seed: u32,
    pub frequency_milli: i64,
    pub period_milli: i64,
    pub kind: NoiseKind,
}

impl NoiseConfig {
    /// A configuration is usable when its frequency and period are positive.
    pub open spec fn valid(&self) -> bool {
        self.frequency_milli > 0 && self.period_milli > 0
    }

    /// Builds a configuration; a non-positive frequency is reported before a
    /// non-positive period.
    pub fn new(seed: u32, frequency_milli: i64, period_milli: i64, kind: NoiseKind) -> (r: Result<
        NoiseConfig,
        ConfigError,
    >)
        ensures
            match r {
                Ok(c) => c.valid() && c == (NoiseConfig { seed, frequency_milli, period_milli, kind }),
                Err(e) => (frequency_milli <= 0 && e == ConfigError::NonPositiveFrequency) || (
                frequency_milli > 0 && period_milli <= 0 && e == ConfigError::NonPositivePeriod),
            },
    {
        if frequency_milli <= 0 {
            Err(ConfigError::NonPositiveFrequency)
        } else if period_milli <= 0 {
            Err(ConfigError::NonPositivePeriod)
        } else {
            Ok(NoiseConfig { seed, frequency_milli, period_milli, kind })
        }
    }
}

/// Seed of the first field of a spot pair.
pub const SPOT_SEED_A: u32 = 420;

/// Seed of the second field of a spot pair.
pub const SPOT_SEED_B: u32 = 69;

/// Two independently seeded cell-value fields with a shared frequency and
/// period, sampled at two coordinates to drive two output channels.
#[derive(Clone, Copy, Debug, PartialEq, Eq, Structural)]
pub struct VoronoiSpots2D {
    pub d1: NoiseConfig,
    pub d2: NoiseConfig,
}

impl VoronoiSpots2D {
    pub fn new(frequency_milli: i64, period_milli: i64) -> (r: Result<VoronoiSpots2D, ConfigError>)
        ensures
            match r {
                Ok(s) => s.d1 == (NoiseConfig {
                    seed: SPOT_SEED_A,
                    frequency_milli,
                    period_milli,
                    kind: NoiseKind::CellValue,
                }) && s.d2 == (NoiseConfig {
                    seed: SPOT_SEED_B,
                    frequency_milli,
                    period_milli,
                    kind: NoiseKind::CellValue,
                }) && frequency_milli > 0 && period_milli > 0,
                Err(e) => (frequency_milli <= 0 && e == ConfigError::NonPositiveFrequency) || (
                frequency_milli > 0 && period_milli <= 0 && e == ConfigError::NonPositivePeriod),
            },
    {
        let d1 = match NoiseConfig::new(SPOT_SEED_A, frequency_milli, period_milli, NoiseKind::CellValue) {
            Ok(c) => c,
            Err(e) => return Err(e),
        };
        let d2 = match NoiseConfig::new(SPOT_SEED_B, frequency_milli, period_milli, NoiseKind::CellValue) {
            Ok(c) => c,
            Err(e) => return Err(e),
        };
        Ok(VoronoiSpots2D { d1, d2 })
    }
}

} // verus!
