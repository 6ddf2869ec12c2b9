//! Severity classification of percentage readings.
//!
//! Percentages are carried as integers in millionths of a percent
//! ("micro-percent"), so `75.5%` is `75_500_000`. This keeps the thresholds
//! exact without floating point. Classification and the tier-to-color mapping
//! are deliberately separate functions.

use vstd::prelude::*;

verus! {

/// Severity of a percentage reading; drives color coding.
#[derive(Clone, Copy, Debug, PartialEq, Eq, Structural)]
pub enum SeverityTier {
    Normal,
    Elevated,
    Critical,
}

/// Display color attached to a severity tier.
#[derive(Clone, Copy, Debug, PartialEq, Eq, Structural)]
pub enum RunColor {
    Green,
    Yellow,
    Red,
}

/// Threshold above which a reading is critical: 75.5% in micro-percent.
pub const CRITICAL_OVER_MICRO: u64 = 75_500_000;

/// Threshold above which a reading is elevated: 50.0% in micro-percent.
pub const ELEVATED_OVER_MICRO: u64 = 50_000_000;

/// Tier of a percentage given in micro-percent.
pub open spec fn spec_classify(micro_percent: u64) -> SeverityTier {
    if micro_percent > CRITICAL_OVER_MICRO {
        SeverityTier::Critical
    } else if micro_percent > ELEVATED_OVER_MICRO {
        SeverityTier::Elevated
    } else {
        SeverityTier::Normal
    }
}

/// Classify a percentage reading (micro-percent) into a severity tier.
///
/// Critical iff the reading is above 75.5%, Elevated iff it is above 50%
/// and at most 75.5%, Normal otherwise. The function is total; readings
/// above 100% are classified by the same thresholds. (A negative or NaN
/// reading cannot be represented here: the conversion at the sampling edge
/// maps such readings to 0, which lands in Normal.)
pub fn classify(micro_percent: u64) -> (tier: SeverityTier)
    ensures
        tier == spec_classify(micro_percent),
        tier == SeverityTier::Critical <==> micro_percent > CRITICAL_OVER_MICRO,
        tier == SeverityTier::Elevated <==> (ELEVATED_OVER_MICRO < micro_percent
            && micro_percent <= CRITICAL_OVER_MICRO),
        tier == SeverityTier::Normal <==> micro_percent <= ELEVATED_OVER_MICRO,
{
    if micro_percent > CRITICAL_OVER_MICRO {
        SeverityTier::Critical
    } else if micro_percent > ELEVATED_OVER_MICRO {
        SeverityTier::Elevated
    } else {
        SeverityTier::Normal
    }
}

/// Color of a severity tier.
pub open spec fn spec_tier_color(tier: SeverityTier) -> RunColor {
    match tier {
        SeverityTier::Critical => RunColor::Red,
        SeverityTier::Elevated => RunColor::Yellow,
        SeverityTier::Normal => RunColor::Green,
    }
}

/// Map a severity tier to its display color: Critical is red, Elevated is
/// yellow, Normal is green.
pub fn tier_color(tier: SeverityTier) -> (color: RunColor)
    ensures
        color == spec_tier_color(tier),
        color == RunColor::Red <==> tier == SeverityTier::Critical,
        color == RunColor::Yellow <==> tier == SeverityTier::Elevated,
        color == RunColor::Green <==> tier == SeverityTier::Normal,
{
    match tier {
        SeverityTier::Critical => RunColor::Red,
        SeverityTier::Elevated => RunColor::Yellow,
        SeverityTier::Normal => RunColor::Green,
    }
}

} // verus!
