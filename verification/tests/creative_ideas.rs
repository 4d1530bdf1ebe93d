use simard_dashboard::creative_ideas::{
    checked_status_filter, idea_matches, idea_query, search_ideas, status_counts, status_filter, IdeaRow,
};

fn idea(text: &str, status: &str) -> IdeaRow {
    IdeaRow {
        idea: text.to_string(),
        rationale: "recall precision plateaued".to_string(),
        status: status.to_string(),
    }
}

#[test]
fn lists_pool_with_status_counts() {
    let pool = vec![
        idea("improve recall ranking", "New"),
        idea("auto-delete stale worktrees", "NeedsHumanReview"),
        idea("a rejected idea", "Rejected"),
    ];
    let counts = status_counts(&pool, &["New", "NeedsHumanReview", "Rejected", "Deferred"]);
    assert_eq!(counts, vec![1, 1, 1, 0]);
}

#[test]
fn search_filters_by_status_and_text() {
    let pool = vec![
        idea("improve recall ranking", "New"),
        idea("auto-delete stale worktrees", "NeedsHumanReview"),
        idea("another new recall idea", "New"),
    ];
    let new = status_filter(Some("New")).unwrap();
    let empty = idea_query(None);
    assert_eq!(search_ideas(&pool, Some(&new), &empty).len(), 2);
    let ranking = idea_query(Some("ranking"));
    assert_eq!(search_ideas(&pool, Some(&new), &ranking), vec![0]);
    let worktrees = idea_query(Some("worktrees"));
    assert_eq!(search_ideas(&pool, None, &worktrees), vec![1]);
    // An unknown status is a fail-closed error, not "all".
    let all = ["New", "NeedsHumanReview", "Rejected", "Deferred"];
    assert!(checked_status_filter(Some("Bogus"), &all).is_err());
    assert_eq!(checked_status_filter(Some(" New "), &all), Ok(Some("New".chars().collect())));
    assert_eq!(checked_status_filter(Some("  "), &all), Ok(None));
    assert_eq!(checked_status_filter(None, &all), Ok(None));
}

#[test]
fn query_is_trimmed_and_lowercased() {
    let q = idea_query(Some("  ReCall "));
    assert_eq!(q.iter().collect::<String>(), "recall");
    assert!(idea_matches(&idea("Improve RECALL ranking", "New"), &q));
    let miss = idea_query(Some("zebra"));
    assert!(!idea_matches(&idea("improve ranking", "New"), &miss));
    // The rationale is searched too.
    let why = idea_query(Some("PLATEAUED"));
    assert!(idea_matches(&idea("x", "New"), &why));
}

#[test]
fn blank_status_means_no_filter() {
    assert_eq!(status_filter(Some("   ")), None);
    assert_eq!(status_filter(None), None);
    assert_eq!(status_filter(Some(" New ")), Some("New".chars().collect()));
}
