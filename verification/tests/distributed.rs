use simard_dashboard::distributed::{
    apply_probe, parse_probe_fields, vacate_message, vacate_partial_message, vacate_run_result,
    vacate_script_result, VacateRun, probe_haystack, remote_vms_from_hosts, split_lines, vm_probe,
    ProbeFields, ProbeOutcome, VmProbe, PROBE_NOT_FOUND_HINT, strip_ansi_codes,
};
use simard_dashboard::hosts::HostEntry;

fn host(name: &str) -> HostEntry {
    HostEntry { name: Some(name.to_string()), legacy_name: None, resource_group: None, added_at: None, is_local: None }
}

#[test]
fn split_lines_matches_str_lines() {
    for s in ["", "a", "a\n", "a\r\nb", "\n", "a\n\nb\n", "x\r"] {
        let got: Vec<String> = split_lines(&s.chars().collect::<Vec<char>>())
            .into_iter()
            .map(|l| l.into_iter().collect())
            .collect();
        let want: Vec<String> = s.lines().map(|l| l.to_string()).collect();
        assert_eq!(got, want, "input {s:?}");
    }
}

#[test]
fn probe_fields_read_key_value_lines() {
    let f = parse_probe_fields(
        "HOSTNAME=simard-vm\n UPTIME = up 3 days \nDISK_ROOT=42\nDISK_DATA=n/a\nLOAD=0.5 0.4\nMEM_USED=2048\nnoise\nSIMARD_PROCS=3\nCARGO_PROCS=+2\n",
    );
    assert_eq!(f.hostname.as_deref(), Some("simard-vm"));
    assert_eq!(f.uptime.as_deref(), Some("up 3 days"));
    assert_eq!(f.disk_root_pct, Some(Some(42)));
    assert_eq!(f.disk_data_pct, Some(None));
    assert_eq!(f.disk_tmp_pct, None);
    assert_eq!(f.simard_processes, Some(Some(3)));
    assert_eq!(f.cargo_processes, Some(Some(2)));
    assert_eq!(f.load_avg.as_deref(), Some("0.5 0.4"));
    assert_eq!(f.memory_mb.as_deref(), Some("2048"));
    assert_eq!(f.debug_hint, None);
    assert_eq!(f.error, None);
}

#[test]
fn probe_fields_last_line_wins_and_value_keeps_later_equals() {
    let f = parse_probe_fields("hostname=a\r\nHostName=b=c\n");
    assert_eq!(f.hostname.as_deref(), Some("b=c"));
    let g = parse_probe_fields("DISK_TMP=99999999999\n");
    assert_eq!(g.disk_tmp_pct, Some(None));
}

#[test]
fn haystack_prefers_stdout_then_stderr() {
    assert_eq!(probe_haystack("\x1b[1mHOSTNAME=a\x1b[0m", "HOSTNAME=b"), "HOSTNAME=a");
    assert_eq!(probe_haystack("nothing", "\x1b[32mHOSTNAME=b\r"), "HOSTNAME=b");
    assert_eq!(probe_haystack("nothing", "here"), "");
}

#[test]
fn vm_probe_verdicts() {
    let ok = vm_probe(ProbeOutcome::Finished {
        stdout: String::new(),
        stderr: "HOSTNAME=simard\nUPTIME=1h\n".to_string(),
    });
    assert_eq!(ok.status, "reachable");
    assert_eq!(ok.fields.hostname.as_deref(), Some("simard"));

    let missing = vm_probe(ProbeOutcome::Finished { stdout: "x".to_string(), stderr: "y".to_string() });
    assert_eq!(missing.status, "unreachable");
    assert_eq!(missing.fields.debug_hint.as_deref(), Some(PROBE_NOT_FOUND_HINT));

    let spawn = vm_probe(ProbeOutcome::SpawnFailed("No such file".to_string()));
    assert_eq!(spawn.status, "error");
    assert_eq!(spawn.fields.error.as_deref(), Some("azlin connect failed: No such file"));

    let join = vm_probe(ProbeOutcome::JoinFailed("panicked".to_string()));
    assert_eq!(join.fields.error.as_deref(), Some("task join failed: panicked"));

    let timeout = vm_probe(ProbeOutcome::TimedOut);
    assert_eq!(timeout.status, "timeout");
    assert_eq!(timeout.fields.error.as_deref(), Some("azlin connect timed out after 30s"));
}

#[test]
fn apply_probe_enriches_only_the_first_simard_entry() {
    let mut vms = remote_vms_from_hosts(&[host("worker"), host("Simard"), host("Simard")]);
    let probe = VmProbe {
        status: "reachable".to_string(),
        fields: parse_probe_fields("HOSTNAME=simard-vm\nDISK_ROOT=10"),
    };
    apply_probe(&mut vms, probe);
    assert_eq!(vms[0].status, "unknown");
    assert_eq!(vms[1].vm_name, "Simard");
    assert_eq!(vms[1].status, "reachable");
    assert_eq!(vms[1].fields.hostname.as_deref(), Some("simard-vm"));
    assert_eq!(vms[1].fields.disk_root_pct, Some(Some(10)));
    assert_eq!(vms[2].status, "unknown");
    assert_eq!(vms[2].fields.hostname, None);
}

#[test]
fn apply_probe_without_simard_entry_changes_nothing() {
    let mut vms = remote_vms_from_hosts(&[host("worker")]);
    apply_probe(&mut vms, VmProbe { status: "timeout".to_string(), fields: ProbeFields::none() });
    assert_eq!(vms.len(), 1);
    assert_eq!(vms[0].status, "unknown");
}

#[test]
fn vacate_script_reads_remaining_count() {
    assert_eq!(vacate_script_result("REMAINING_PROCS= 3 \nVACATE_STATUS=ok\n", ""), Ok(3));
    assert_eq!(vacate_script_result("", "REMAINING_PROCS=0\nVACATE_STATUS=ok"), Ok(0));
    assert_eq!(vacate_script_result("VACATE_STATUS=ok", ""), Ok(0));
    // Only the first REMAINING_PROCS= line counts, even when unreadable.
    assert_eq!(vacate_script_result("REMAINING_PROCS=x\nREMAINING_PROCS=4\nVACATE_STATUS=ok", ""), Ok(0));
}

#[test]
fn vacate_script_failure_quotes_stdout() {
    assert_eq!(
        vacate_script_result("boom", "err"),
        Err("vacate script did not report success. stdout: boom".to_string())
    );
    let long = "y".repeat(600);
    let e = vacate_script_result(&long, "").unwrap_err();
    assert_eq!(e.len(), "vacate script did not report success. stdout: ".len() + 500);
}

#[test]
fn vacate_run_errors() {
    assert_eq!(
        vacate_run_result(VacateRun::SpawnFailed("nope".to_string())),
        Err("Failed to run azlin connect: nope".to_string())
    );
    assert_eq!(
        vacate_run_result(VacateRun::JoinFailed("panic".to_string())),
        Err("task join error: panic".to_string())
    );
    assert_eq!(
        vacate_run_result(VacateRun::TimedOut),
        Err("Vacate timed out after 60s — the VM may be unreachable".to_string())
    );
    assert_eq!(
        vacate_run_result(VacateRun::Finished { stdout: "VACATE_STATUS=ok".to_string(), stderr: String::new() }),
        Ok(0)
    );
}

#[test]
fn vacate_messages() {
    assert_eq!(vacate_message("vm-1", 0), "All processes stopped on vm-1.");
    assert_eq!(vacate_message("vm-1", 2), "2 process(es) still running on vm-1 — may need manual cleanup.");
    assert_eq!(
        vacate_partial_message("vm-1", 1, "disk full"),
        "Vacate succeeded on vm-1 (1 process(es) remaining) but failed to update hosts file: disk full. Manual cleanup of ~/.simard/hosts.json may be needed."
    );
}

#[test]
fn strip_ansi_only_removes_and_is_idempotent() {
    let raw = "\u{1b}[1;32mok\u{1b}[0m line\r\n\u{1b}]0;title\u{7}done";
    let once = strip_ansi_codes(raw);
    assert_eq!(once, "ok line\ndone");
    assert_eq!(strip_ansi_codes(&once), once);
    assert_eq!(strip_ansi_codes("plain text\n"), "plain text\n");
    let mut it = raw.chars();
    assert!(once.chars().all(|c| it.any(|d| d == c)));
}
