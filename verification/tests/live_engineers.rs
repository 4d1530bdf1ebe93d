use simard_dashboard::live_engineers::{
    live_engineers, ClaimEvidence, EngineerSource, SessionEvidence,
};

fn claim(goal: &str, pid: i32) -> ClaimEvidence {
    ClaimEvidence { goal_id: goal.to_string(), pid }
}

fn session(goal: &str, name: &str, pid: i32, ended: bool) -> SessionEvidence {
    SessionEvidence {
        goal_id: goal.to_string(),
        session_name: name.to_string(),
        pid,
        alive: true,
        created_at: 1_700_000_000,
        ended,
    }
}

#[test]
fn worktree_claims_make_bare_single_process_engineers_visible() {
    let pid: i32 = 4242;
    let live = live_engineers(&[], &[claim("goal-alpha", pid), claim("goal-beta", pid)]);
    assert_eq!(live.len(), 2, "both live worktree claims must be counted even with no subagent session");
    let goals: Vec<&str> = live.iter().map(|e| e.goal_id.as_str()).collect();
    assert!(goals.contains(&"goal-alpha"));
    assert!(goals.contains(&"goal-beta"));
    assert!(live.iter().all(|e| e.source.as_str() == "worktree_claim" && e.alive));
}

#[test]
fn empty_state_root_reports_no_engineers() {
    assert!(live_engineers(&[], &[]).is_empty());
}

#[test]
fn session_evidence_wins_and_output_is_goal_sorted() {
    let sessions = vec![
        session("goal-b", "s1", 11, false),
        session("", "tmux-x", 12, false),
        session("goal-z", "s3", 13, true),
        session("goal-b", "s4", 14, false),
    ];
    let claims = vec![claim("goal-b", 99), claim("goal-a", 98)];
    let live = live_engineers(&sessions, &claims);
    let goals: Vec<&str> = live.iter().map(|e| e.goal_id.as_str()).collect();
    assert_eq!(goals, vec!["goal-a", "goal-b", "tmux-x"]);
    assert_eq!(live[0].source, EngineerSource::WorktreeClaim);
    assert_eq!(live[0].started_at, None);
    assert_eq!(live[1].pid, 11);
    assert_eq!(live[1].source, EngineerSource::SubagentSession);
    assert_eq!(live[1].started_at, Some(1_700_000_000));
    assert_eq!(live[2].pid, 12);
}
