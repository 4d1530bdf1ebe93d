use simard_dashboard::cycle_source::{
    authoritative_cycle_number, cycle_ref_number, health_cycle_number,
    latest_persisted_cycle_number, newest_report_refs, ReportPicker,
};

fn names(v: &[&str]) -> Vec<String> {
    v.iter().map(|s| s.to_string()).collect()
}

#[test]
fn latest_persisted_is_zero_when_no_reports() {
    assert_eq!(latest_persisted_cycle_number(&[]), 0);
}

#[test]
fn latest_persisted_finds_max_in_top_level_dir() {
    let top = names(&["cycle_3.json", "cycle_1159.json", "cycle_42.json"]);
    assert_eq!(latest_persisted_cycle_number(&top), 1159);
}

#[test]
fn latest_persisted_finds_max_in_state_subdir() {
    let state = names(&["cycle_7.json", "cycle_84.json"]);
    assert_eq!(latest_persisted_cycle_number(&state), 84);
}

#[test]
fn latest_persisted_takes_max_across_both_dirs() {
    // The names of both report directories, top-level first.
    let both = names(&["cycle_1159.json", "cycle_84.json"]);
    assert_eq!(latest_persisted_cycle_number(&both), 1159);
}

#[test]
fn latest_persisted_ignores_non_cycle_files() {
    let dir = names(&["README.md", "cycle_abc.json", "cycle_5.json"]);
    assert_eq!(latest_persisted_cycle_number(&dir), 5);
}

#[test]
fn health_cycle_number_reads_field() {
    assert_eq!(health_cycle_number(Some(1)), 1);
}

#[test]
fn health_cycle_number_defaults_to_zero() {
    assert_eq!(health_cycle_number(None), 0);
}

#[test]
fn authoritative_prefers_persisted_after_restart() {
    let reports = names(&["cycle_1159.json"]);
    assert_eq!(
        authoritative_cycle_number(Some(1), &reports),
        1159,
        "after restart the persisted cumulative count must win over the process-local #1"
    );
}

#[test]
fn authoritative_uses_health_for_in_flight_cycle() {
    let reports = names(&["cycle_1159.json"]);
    assert_eq!(authoritative_cycle_number(Some(1160), &reports), 1160);
}

#[test]
fn authoritative_handles_missing_health_and_reports() {
    assert_eq!(authoritative_cycle_number(None, &[]), 0);
}

#[test]
fn durable_brain_counter_is_the_dashboards_cycle_source_after_restart() {
    // Health carries the durable brain count; no new report was written yet.
    let durable: u64 = 1159;
    assert_eq!(authoritative_cycle_number(Some(durable), &[]), 1159);
}

#[test]
fn cycle_ref_number_accepts_only_cycle_json_names() {
    assert_eq!(cycle_ref_number("cycle_12.json"), Some(12));
    assert_eq!(cycle_ref_number("cycle_.json"), None);
    assert_eq!(cycle_ref_number("cycle_12.txt"), None);
    assert_eq!(cycle_ref_number("cycle_1x.json"), None);
    assert_eq!(cycle_ref_number("report_12.json"), None);
}

#[test]
fn newest_report_refs_orders_by_number_descending() {
    let dir = names(&["cycle_1.json", "notes.md", "cycle_3.json", "cycle_2.json"]);
    let refs = newest_report_refs(&dir);
    let numbers: Vec<u32> = refs.iter().map(|r| r.1).collect();
    assert_eq!(numbers, vec![3, 2, 1]);
    assert_eq!(refs[0].0, 2);
}

#[test]
fn picker_respects_limit_and_skips_duplicate_numbers() {
    // cycle 5 exists in two directories; the first copy wins.
    let refs = vec![(0usize, 5u32), (1usize, 5u32), (2usize, 4u32), (3usize, 3u32)];
    let mut p = ReportPicker::new(refs, 2);
    let first = p.next_to_read().unwrap();
    assert_eq!(first, (0, 5));
    p.taken(first.1);
    let second = p.next_to_read().unwrap();
    assert_eq!(second, (2, 4));
    p.taken(second.1);
    assert_eq!(p.next_to_read(), None);
}

#[test]
fn picker_tries_next_copy_when_one_is_unreadable() {
    let refs = vec![(0usize, 9u32), (1usize, 9u32), (2usize, 8u32)];
    let mut p = ReportPicker::new(refs, 10);
    // The first copy of 9 cannot be read: not taken, so the second copy is offered.
    assert_eq!(p.next_to_read(), Some((0, 9)));
    assert_eq!(p.next_to_read(), Some((1, 9)));
    p.taken(9);
    assert_eq!(p.next_to_read(), Some((2, 8)));
    p.taken(8);
    assert_eq!(p.next_to_read(), None);
}

fn picked(names: &[String], limit: usize) -> Vec<(usize, u32)> {
    let mut p = ReportPicker::new(newest_report_refs(names), limit);
    let mut out = Vec::new();
    while let Some(r) = p.next_to_read() {
        // Every report reads fine here.
        p.taken(r.1);
        out.push(r);
    }
    out
}

#[test]
fn reads_cycle_reports_sorted_newest_first() {
    let dir = names(&["cycle_1.json", "cycle_3.json", "cycle_2.json"]);
    let got: Vec<u32> = picked(&dir, 10).into_iter().map(|r| r.1).collect();
    assert_eq!(got, vec![3, 2, 1]);
}

#[test]
fn reads_cycle_reports_respects_limit() {
    let dir = names(&["cycle_1.json", "cycle_2.json", "cycle_3.json", "cycle_4.json", "cycle_5.json"]);
    let got: Vec<u32> = picked(&dir, 2).into_iter().map(|r| r.1).collect();
    assert_eq!(got, vec![5, 4]);
}

#[test]
fn reads_cycle_reports_empty_dir() {
    assert!(picked(&[], 10).is_empty());
}

#[test]
fn reads_newest_n_and_first_dir_wins_duplicates() {
    // Both directories' names, the top-level directory first.
    let mut all: Vec<String> = (1..=20).map(|i| format!("cycle_{i}.json")).collect();
    let first_dir_len = all.len();
    all.push("cycle_20.json".to_string());
    let got = picked(&all, 3);
    let numbers: Vec<u32> = got.iter().map(|r| r.1).collect();
    assert_eq!(numbers, vec![20, 19, 18]);
    // The copy of cycle 20 taken is the one from the first directory.
    assert!(got[0].0 < first_dir_len);
}
