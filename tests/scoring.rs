use jump::scoring::{days_since_access, decay_percent_for, recalculate_units, SCORE_SCALE};

#[test]
fn days_are_whole_and_clamped() {
    assert_eq!(days_since_access(86400 * 3 + 5, 0), 3);
    assert_eq!(days_since_access(100, 200), 0);
    assert_eq!(days_since_access(1000, 1000), 0);
    assert_eq!(days_since_access(i64::MAX, i64::MIN), (u64::MAX / 86400));
}

#[test]
fn fresh_entry_scores_eleven_points() {
    // base 1 + full bonus 10, no decay
    assert_eq!(recalculate_units(0, 0), 11 * SCORE_SCALE);
    // five accesses add half a point
    assert_eq!(recalculate_units(5, 0), 11 * SCORE_SCALE + SCORE_SCALE / 2);
}

#[test]
fn test_score_recalculate_increases_with_access() {
    let score1 = recalculate_units(0, 0);
    let score2 = recalculate_units(5, 0);
    assert!(score2 > score1);
}

#[test]
fn test_score_recalculate_with_recent_access() {
    let recent = recalculate_units(5, 0);
    let old = recalculate_units(5, days_since_access(60 * 24 * 60 * 60, 0));
    assert!(recent > old);
    // 60 days: no bonus, eight weeks of decay
    assert_eq!(old, (9000 + 900 * 5) * 60);
}

#[test]
fn decay_reaches_zero_after_twenty_weeks() {
    assert_eq!(decay_percent_for(0), 100);
    assert_eq!(decay_percent_for(1), 95);
    assert_eq!(decay_percent_for(19), 5);
    assert_eq!(decay_percent_for(20), 0);
    assert_eq!(decay_percent_for(500), 0);
    assert_eq!(recalculate_units(1000, 200), 0);
}
