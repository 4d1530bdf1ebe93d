use simard_dashboard::enrichment::{
    clamp_limit, clamp_window_hours, classify_freshness, enrichment_status, Freshness,
};

// 2026-01-01T00:00:00Z
const NOW: i64 = 1_767_225_600;

#[test]
fn window_hours_default_and_clamp() {
    assert_eq!(clamp_window_hours(None), 24);
    assert_eq!(clamp_window_hours(Some(0)), 1);
    assert_eq!(clamp_window_hours(Some(48)), 48);
    assert_eq!(clamp_window_hours(Some(100_000)), 8760);
}

#[test]
fn limit_default_and_clamp() {
    assert_eq!(clamp_limit(None), 500);
    assert_eq!(clamp_limit(Some(0)), 1);
    assert_eq!(clamp_limit(Some(7)), 7);
    assert_eq!(clamp_limit(Some(5000)), 1000);
}

#[test]
fn freshness_by_age() {
    assert_eq!(classify_freshness("2025-12-31T23:59:00Z", NOW, 0), (Freshness::Live, Some(60)));
    assert_eq!(classify_freshness("2025-12-31T23:50:00Z", NOW, 0), (Freshness::Stale, Some(600)));
    assert_eq!(classify_freshness("2026-01-01T00:10:00Z", NOW, 0), (Freshness::Live, Some(0)));
    assert_eq!(classify_freshness("not a time", NOW, 0), (Freshness::Live, None));
    assert_eq!(classify_freshness("2026-01-01T01:00:00+01:00", NOW, 0), (Freshness::Live, Some(0)));
}

#[test]
fn status_without_snapshot_or_section() {
    let none = enrichment_status(Some(5), None, true, NOW, 0);
    assert!(!none.available);
    assert_eq!(none.freshness.as_str(), "missing");
    assert_eq!(none.snapshot_age_seconds, None);
    assert_eq!(none.window_hours, 5);
    let no_section = enrichment_status(None, Some("2025-12-31T23:59:30Z"), false, NOW, 0);
    assert!(!no_section.available);
    assert_eq!(no_section.freshness.as_str(), "live");
    assert_eq!(no_section.snapshot_age_seconds, Some(30));
    let ok = enrichment_status(None, Some("2025-12-31T23:59:30Z"), true, NOW, 0);
    assert!(ok.available);
    assert_eq!(ok.window_hours, 24);
}
