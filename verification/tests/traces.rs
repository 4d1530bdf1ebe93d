use simard_dashboard::traces::{first_lines, last_lines, newest_lines_first, LEDGER_SPANS, LEDGER_TAIL_LINES};

fn lines(n: usize) -> Vec<String> {
    (0..n).map(|i| format!("l{i}")).collect()
}

#[test]
fn newest_ledger_lines_come_first() {
    let tail = lines(LEDGER_TAIL_LINES);
    let picked = newest_lines_first(&tail, LEDGER_SPANS);
    assert_eq!(picked.len(), 50);
    assert_eq!(picked[0], "l99");
    assert_eq!(picked[49], "l50");
    let short = lines(3);
    let all: Vec<&String> = newest_lines_first(&short, LEDGER_SPANS);
    assert_eq!(all, vec!["l2", "l1", "l0"]);
}

#[test]
fn journal_keeps_first_lines() {
    let j = lines(60);
    let picked = first_lines(&j, 50);
    assert_eq!(picked.len(), 50);
    assert_eq!(picked[0], "l0");
    assert_eq!(first_lines(&lines(2), 50).len(), 2);
}

#[test]
fn last_lines_keep_order() {
    let l = lines(5);
    assert_eq!(last_lines(&l, 2), vec!["l3", "l4"]);
    assert_eq!(last_lines(&l, 200).len(), 5);
}
