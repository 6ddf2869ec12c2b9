use sysdash::severity::{classify, tier_color, RunColor, SeverityTier};

#[test]
fn classify_boundaries() {
    // 50.0% exactly: not above the elevated threshold.
    assert_eq!(classify(50_000_000), SeverityTier::Normal);
    // Just above 50%.
    assert_eq!(classify(50_000_001), SeverityTier::Elevated);
    // 75.5% exactly: still elevated.
    assert_eq!(classify(75_500_000), SeverityTier::Elevated);
    // 75.50001%: critical.
    assert_eq!(classify(75_500_010), SeverityTier::Critical);
}

#[test]
fn classify_plain_readings() {
    assert_eq!(classify(0), SeverityTier::Normal);
    assert_eq!(classify(25_000_000), SeverityTier::Normal);
    assert_eq!(classify(60_000_000), SeverityTier::Elevated);
    assert_eq!(classify(100_000_000), SeverityTier::Critical);
    // Readings above 100% classify by the same thresholds.
    assert_eq!(classify(250_000_000), SeverityTier::Critical);
}

#[test]
fn tier_colors() {
    assert_eq!(tier_color(SeverityTier::Normal), RunColor::Green);
    assert_eq!(tier_color(SeverityTier::Elevated), RunColor::Yellow);
    assert_eq!(tier_color(SeverityTier::Critical), RunColor::Red);
}
