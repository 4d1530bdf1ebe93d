use simard_dashboard::journal::{
    journal_snippet, parse_day, parse_entry_day, parse_range, search_text, INVALID_DATE,
};

fn ymd(y: i32, m: u32, d: u32) -> (i32, u32, u32) {
    (y, m, d)
}

#[test]
fn parse_range_tolerates_swapped_bounds_and_ignores_partial() {
    let swapped = parse_range(Some("2026-07-06"), Some("2026-07-01"));
    assert_eq!(swapped, Some((ymd(2026, 7, 1), ymd(2026, 7, 6))));
    assert_eq!(parse_range(Some("2026-07-01"), None), None);
    assert_eq!(parse_range(None, Some("bogus")), None);
}

#[test]
fn parse_range_keeps_ordered_bounds_and_trims() {
    assert_eq!(
        parse_range(Some(" 2025-12-31 "), Some("2026-01-01")),
        Some((ymd(2025, 12, 31), ymd(2026, 1, 1)))
    );
    assert_eq!(parse_range(Some("2026-02-30"), Some("2026-03-01")), None);
}

#[test]
fn entry_day_parses_or_reports_invalid() {
    assert_eq!(parse_entry_day("2026-07-04"), Ok(ymd(2026, 7, 4)));
    assert_eq!(parse_entry_day(" 2026-07-04\n"), Ok(ymd(2026, 7, 4)));
    assert_eq!(parse_entry_day("July 4th"), Err(INVALID_DATE.to_string()));
    assert_eq!(parse_day(""), None);
}

#[test]
fn search_text_trims_and_drops_empty() {
    assert_eq!(search_text(Some("  recall  ")), Some("recall".to_string()));
    assert_eq!(search_text(Some("   ")), None);
    assert_eq!(search_text(None), None);
}

#[test]
fn snippet_keeps_short_narratives_and_cuts_long_ones() {
    assert_eq!(journal_snippet("A quiet day."), "A quiet day.");
    let exact = "a".repeat(220);
    assert_eq!(journal_snippet(&exact), exact);
    let long = format!("{} {}", "b".repeat(219), "tail");
    let s = journal_snippet(&long);
    assert_eq!(s, format!("{}…", "b".repeat(219)));
}
