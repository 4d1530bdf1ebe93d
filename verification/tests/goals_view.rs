use simard_dashboard::goals::GoalProgress;
use simard_dashboard::goals_status::{render_status_and_detail, StatusChip};
use simard_dashboard::goals_view::{
    goals_backlog, goals_view, ActiveGoalRow, BacklogEntry, MemoryFact, GOAL_BOARD_READ_FAILED,
};

fn ids(v: &[&str]) -> Vec<String> {
    v.iter().map(|s| s.to_string()).collect()
}

fn fact(id: &str, concept: &str, content: &str) -> MemoryFact {
    MemoryFact { node_id: id.to_string(), concept: concept.to_string(), content: content.to_string() }
}

fn row(id: &str, priority: u32, status: GoalProgress, activity: Option<&str>) -> ActiveGoalRow {
    ActiveGoalRow { id: id.to_string(), priority, status, current_activity: activity.map(str::to_string) }
}

#[test]
fn failed_board_read_is_fail_closed() {
    let v = goals_view(None);
    assert!(v.active.is_empty());
    assert!(v.backlog.is_empty());
    assert_eq!(v.active_count, 0);
    assert_eq!(v.backlog_count, 0);
    assert!(v.breakdown.is_none());
    assert_eq!(v.error, Some(GOAL_BOARD_READ_FAILED));
    assert_eq!(GOAL_BOARD_READ_FAILED, "goal-board read failed");
}

#[test]
fn active_goals_ordered_by_priority_then_id() {
    let rows = vec![
        row("zeta", 2, GoalProgress::InProgress { percent: 100 }, None),
        row("alpha", 2, GoalProgress::Completed, Some("   ")),
        row("omega", 1, GoalProgress::Blocked("waiting on review".into()), Some("advance-goal: brain-error (fallback")),
        row("alpha", 2, GoalProgress::Paused, None),
    ];
    let board = ids(&["b1", "b2"]);
    let v = goals_view(Some((&rows, &board, &[])));
    assert!(v.error.is_none());
    assert_eq!(v.active_count, 4);
    assert_eq!(v.backlog_count, 2);
    assert_eq!(v.backlog.len(), 2);
    let order: Vec<usize> = v.active.iter().map(|g| g.index).collect();
    assert_eq!(order, vec![2, 1, 3, 0]);
    let b = v.breakdown.expect("breakdown");
    assert_eq!((b.proposed, b.not_started, b.in_progress, b.blocked, b.paused, b.completed), (0, 0, 1, 1, 1, 1));
}

#[test]
fn active_goals_carry_rendered_activity() {
    let raw = "advance-goal: brain-error (fallback";
    let rows = vec![row("g", 1, GoalProgress::NotStarted, Some(raw)), row("h", 2, GoalProgress::Proposed, None)];
    let v = goals_view(Some((&rows, &[], &[])));
    let (chip, detail, full) = render_status_and_detail(Some(raw));
    assert_eq!(v.active[0].status_chip, chip);
    assert_eq!(v.active[0].detail, detail);
    assert_eq!(v.active[0].detail_full, full);
    assert_eq!(v.active[1].status_chip, StatusChip::Waiting);
    assert!(v.active[1].detail.is_empty());
    assert!(v.active[1].detail_full.is_empty());
}

#[test]
fn backlog_lists_board_items_then_unseen_facts() {
    let active = ids(&["g1"]);
    let board = ids(&["b1"]);
    let facts = vec![
        fact("g1", "meeting-action", "Ship the release notes"),
        fact("b1", "meeting-action", "Review the backlog"),
        fact("f1", "meeting-decision", "Adopt weekly triage"),
        fact("f1", "meeting-decision", "Adopt weekly triage again"),
        fact("f2", "goal-board-snapshot", "Plain text"),
        fact("f3", "meeting-action", "{\"json\": true}"),
        fact("f4", "meeting-action", "priority=3 status=proposed rationale=Action"),
        fact("f5", "meeting-goal", "Write the onboarding guide"),
    ];
    let r = goals_backlog(&active, &board, &facts);
    assert_eq!(r.len(), 3);
    assert!(matches!(r[0], BacklogEntry::Board { index: 0 }));
    match &r[1] {
        BacklogEntry::Memory { fact, entry } => {
            assert_eq!(*fact, 2);
            assert_eq!(entry.id, "f1");
        }
        _ => panic!("expected a memory entry"),
    }
    match &r[2] {
        BacklogEntry::Memory { fact, entry } => {
            assert_eq!(*fact, 7);
            assert_eq!(entry.id, "f5");
        }
        _ => panic!("expected a memory entry"),
    }
}

#[test]
fn goals_reply_counts_the_merged_backlog() {
    let rows = vec![row("g1", 1, GoalProgress::Proposed, None)];
    let board = ids(&["b1"]);
    let facts = vec![fact("g1", "meeting-action", "Dup of active"), fact("n1", "meeting-action", "New action item")];
    let v = goals_view(Some((&rows, &board, &facts)));
    assert_eq!(v.backlog_count, 2);
    assert_eq!(v.backlog.len(), 2);
}
