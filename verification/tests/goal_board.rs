use simard_dashboard::goal_board::{
    active_order, add_goal_plan, demote_target, find_id, goal_removal, needs_seeding,
    parse_goal_status, promote_target, seed_active_goals, seeded_activity, status_update_target,
    AddTarget,
};
use simard_dashboard::goals::GoalProgress;

fn ids(v: &[&str]) -> Vec<String> {
    v.iter().map(|s| s.to_string()).collect()
}

#[test]
fn active_goals_ordered_by_priority_then_id_stably() {
    let keys = vec![
        (3u32, "zeta".to_string()),
        (1u32, "beta".to_string()),
        (3u32, "alpha".to_string()),
        (1u32, "beta".to_string()),
        (2u32, "mid".to_string()),
    ];
    assert_eq!(active_order(&keys), vec![1, 3, 4, 2, 0]);
    assert!(active_order(&[]).is_empty());
}

#[test]
fn status_update_parses_every_status() {
    assert_eq!(parse_goal_status(Some("proposed"), None), Ok(GoalProgress::Proposed));
    assert_eq!(parse_goal_status(Some("not-started"), None), Ok(GoalProgress::NotStarted));
    assert_eq!(parse_goal_status(Some("in-progress"), None), Ok(GoalProgress::InProgress { percent: 0 }));
    assert_eq!(
        parse_goal_status(Some("blocked"), Some("waiting on CI")),
        Ok(GoalProgress::Blocked("waiting on CI".to_string()))
    );
    assert_eq!(
        parse_goal_status(Some("blocked"), None),
        Ok(GoalProgress::Blocked("unspecified".to_string()))
    );
    assert_eq!(parse_goal_status(Some("paused"), None), Ok(GoalProgress::Paused));
    assert_eq!(parse_goal_status(Some("completed"), None), Ok(GoalProgress::Completed));
    assert_eq!(parse_goal_status(Some("done"), None), Err("unknown status: done".to_string()));
    assert_eq!(parse_goal_status(None, None), Err("status is required".to_string()));
}

#[test]
fn edits_find_the_first_matching_goal() {
    let active = ids(&["a", "b", "a"]);
    assert_eq!(find_id(&active, "a"), Some(0));
    assert_eq!(status_update_target(&active, "b"), Ok(1));
    assert_eq!(status_update_target(&active, "x"), Err("goal not found in active goals".to_string()));
    assert_eq!(demote_target(&active, "x"), Err("active goal not found".to_string()));
    assert_eq!(demote_target(&active, "a"), Ok(0));
}

#[test]
fn promotion_respects_the_active_limit() {
    let backlog = ids(&["p", "q"]);
    assert_eq!(
        promote_target(10, 10, &backlog, "q"),
        Err("Maximum 10 active goals reached. Remove one first.".to_string())
    );
    assert_eq!(promote_target(2, 10, &backlog, "q"), Ok(1));
    assert_eq!(promote_target(2, 10, &backlog, "z"), Err("backlog item not found".to_string()));
}

#[test]
fn removal_drops_the_id_from_both_lists() {
    let active = ids(&["a", "b"]);
    let backlog = ids(&["b", "c"]);
    assert_eq!(goal_removal(&active, &backlog, "b"), Ok((vec![0], vec![1])));
    assert_eq!(goal_removal(&active, &backlog, "zz"), Err("goal not found".to_string()));
}

#[test]
fn add_goal_checks_in_order() {
    assert_eq!(add_goal_plan(None, None, None, 0, 10).err(), Some("description is required".to_string()));
    assert_eq!(add_goal_plan(Some("   "), None, None, 0, 10).err(), Some("description is required".to_string()));
    let backlog = add_goal_plan(Some(" tidy docs "), Some("backlog"), None, 10, 10).unwrap();
    assert_eq!(backlog.description, "tidy docs");
    assert!(matches!(backlog.target, AddTarget::Backlog));
    assert_eq!(
        add_goal_plan(Some("x"), None, None, 10, 10).err(),
        Some("Maximum 10 active goals reached. Remove one first or add to backlog.".to_string())
    );
    assert_eq!(add_goal_plan(Some("x"), None, Some(0), 0, 10).err(), Some("priority must be >= 1".to_string()));
    let p = add_goal_plan(Some("x"), Some("active"), None, 0, 10).unwrap();
    assert!(matches!(p.target, AddTarget::Active { priority: 3 }));
    // A priority beyond 32 bits is cut, as a cast would.
    let big = add_goal_plan(Some("x"), None, Some((1u64 << 32) + 2), 0, 10).unwrap();
    assert!(matches!(big.target, AddTarget::Active { priority: 2 }));
    assert_eq!(
        add_goal_plan(Some("x"), None, Some(1u64 << 32), 0, 10).err(),
        Some("priority must be >= 1".to_string())
    );
}

#[test]
fn seeding_only_an_empty_board() {
    assert!(needs_seeding(0));
    assert!(!needs_seeding(1));
    let goals = seed_active_goals();
    assert_eq!(goals.len(), 3);
    assert_eq!(goals[0].id, "self-improvement");
    assert_eq!(goals[2].priority, 3);
    assert_eq!(seeded_activity("T"), "Goal seeded via dashboard at T");
}

#[test]
fn seed_backlog_items_listed() {
    let items = simard_dashboard::goal_board::seed_backlog_items();
    assert_eq!(items.len(), 2);
    assert_eq!(items[0].id, "distributed-sync");
    assert_eq!(items[1].source, "dashboard-seed");
}
