use simard_dashboard::distributed::{remote_vms_from_hosts, strip_ansi_codes};
use simard_dashboard::hosts::{
    add_host_entry, azlin_json_text, cluster_members, discovery_outcome, should_cache, remove_host_entries, DEFAULT_RESOURCE_GROUP,
    cache_is_fresh, host_entry_name, is_local_host, resolve_timeout_secs, tag_local_membership,
    HostEntry, AZLIN_LIST_TIMEOUT_SECS, DISCOVERY_CACHE_TTL_SECS,
};
use std::time::Duration;

fn host(name: &str) -> HostEntry {
    HostEntry {
        name: Some(name.to_string()),
        legacy_name: None,
        resource_group: None,
        added_at: None,
        is_local: None,
    }
}

#[test]
fn same_hostname_matches() {
    assert!(is_local_host("myhost", "myhost"));
}

#[test]
fn case_insensitive_match() {
    assert!(is_local_host("MyHost", "myhost"));
    assert!(is_local_host("myhost", "MYHOST"));
}

#[test]
fn fqdn_stripped_before_compare() {
    assert!(is_local_host("myhost.example.com", "myhost"));
    assert!(is_local_host("myhost", "myhost.corp.net"));
    assert!(is_local_host("MYHOST.DOMAIN.COM", "myhost.other.org"));
}

#[test]
fn empty_input_never_matches() {
    assert!(!is_local_host("", "myhost"));
    assert!(!is_local_host("myhost", ""));
    assert!(!is_local_host("", ""));
}

#[test]
fn different_hostnames_do_not_match() {
    assert!(!is_local_host("host-a", "host-b"));
    assert!(!is_local_host("alpha.example.com", "beta.example.com"));
}

#[test]
fn dot_only_input_returns_false() {
    assert!(!is_local_host(".", "myhost"));
    assert!(!is_local_host("myhost", "."));
}

#[test]
fn extracts_lowercase_name() {
    let mut entry = host("worker-1");
    entry.resource_group = Some("rg".to_string());
    assert_eq!(host_entry_name(&entry), "worker-1");
}

#[test]
fn extracts_capitalized_name() {
    let entry = HostEntry {
        name: None,
        legacy_name: Some("Worker-2".to_string()),
        resource_group: None,
        added_at: None,
        is_local: None,
    };
    assert_eq!(host_entry_name(&entry), "Worker-2");
}

#[test]
fn prefers_lowercase_over_capitalized() {
    let entry = HostEntry {
        name: Some("lower".to_string()),
        legacy_name: Some("Upper".to_string()),
        resource_group: None,
        added_at: None,
        is_local: None,
    };
    assert_eq!(host_entry_name(&entry), "lower");
}

#[test]
fn returns_empty_when_no_name_field() {
    let entry = HostEntry { name: None, legacy_name: None, resource_group: None, added_at: None, is_local: None };
    assert_eq!(host_entry_name(&entry), "");
}

#[test]
fn returns_empty_for_null_name() {
    let entry = HostEntry { name: None, legacy_name: None, resource_group: None, added_at: None, is_local: None };
    assert_eq!(host_entry_name(&entry), "");
}

#[test]
fn tags_local_host_as_joined_when_in_cluster() {
    let mut hosts = vec![host("myhost")];
    let cluster = vec!["myhost".to_string()];
    tag_local_membership(&mut hosts, &cluster, "myhost");
    assert_eq!(hosts[0].is_local, Some(true));
}

#[test]
fn tags_non_local_host_as_not_joined() {
    let mut hosts = vec![host("remote-vm")];
    let cluster = vec!["remote-vm".to_string()];
    tag_local_membership(&mut hosts, &cluster, "myhost");
    assert_eq!(hosts[0].is_local, Some(false));
}

#[test]
fn tags_local_host_not_in_cluster_as_not_joined() {
    let mut hosts = vec![host("myhost")];
    let cluster: Vec<String> = vec![];
    tag_local_membership(&mut hosts, &cluster, "myhost");
    assert_eq!(hosts[0].is_local, Some(false));
}

#[test]
fn tags_multiple_hosts_correctly() {
    let mut hosts = vec![host("local-vm"), host("remote-vm")];
    let cluster = vec!["local-vm".to_string(), "remote-vm".to_string()];
    tag_local_membership(&mut hosts, &cluster, "local-vm");
    assert_eq!(hosts[0].is_local, Some(true));
    assert_eq!(hosts[1].is_local, Some(false));
}

#[test]
fn tag_works_with_fqdn_hostname() {
    let mut hosts = vec![host("myhost")];
    let cluster = vec!["myhost".to_string()];
    tag_local_membership(&mut hosts, &cluster, "myhost.example.com");
    assert_eq!(hosts[0].is_local, Some(true));
}

#[test]
fn empty_hosts_is_noop() {
    let mut hosts: Vec<HostEntry> = vec![];
    tag_local_membership(&mut hosts, &["a".to_string()], "a");
    assert!(hosts.is_empty());
}

#[test]
fn cache_is_fresh_within_ttl() {
    let now = 1_000u64;
    let fetched = now - 10;
    assert!(cache_is_fresh(fetched, now, 60));
}

#[test]
fn cache_is_stale_past_ttl() {
    let now = 1_000u64;
    let fetched = now - 120;
    assert!(!cache_is_fresh(fetched, now, 60));
}

#[test]
fn cache_at_exact_ttl_is_stale() {
    let now = 1_000u64;
    let fetched = now - 60;
    assert!(!cache_is_fresh(fetched, now, 60));
}

#[test]
fn cache_fetched_in_future_counts_as_fresh() {
    assert!(cache_is_fresh(2_000, 1_000, DISCOVERY_CACHE_TTL_SECS));
}

#[test]
fn timeout_uses_default_when_unset() {
    assert_eq!(Duration::from_secs(resolve_timeout_secs(None, 20)), Duration::from_secs(20));
}

#[test]
fn timeout_honours_valid_override() {
    assert_eq!(Duration::from_secs(resolve_timeout_secs(Some("2"), 20)), Duration::from_secs(2));
    assert_eq!(
        Duration::from_secs(resolve_timeout_secs(Some("  5 "), 20)),
        Duration::from_secs(5)
    );
}

#[test]
fn timeout_rejects_zero_and_garbage() {
    assert_eq!(Duration::from_secs(resolve_timeout_secs(Some("0"), 20)), Duration::from_secs(20));
    assert_eq!(
        Duration::from_secs(resolve_timeout_secs(Some("abc"), 20)),
        Duration::from_secs(20)
    );
    assert_eq!(Duration::from_secs(resolve_timeout_secs(Some(""), 20)), Duration::from_secs(20));
    assert_eq!(
        Duration::from_secs(resolve_timeout_secs(Some("-3"), 20)),
        Duration::from_secs(20)
    );
    assert_eq!(
        resolve_timeout_secs(Some("99999999999999999999999"), AZLIN_LIST_TIMEOUT_SECS),
        AZLIN_LIST_TIMEOUT_SECS
    );
}

#[test]
fn remote_vms_one_entry_per_host() {
    let mut a = host("vm-a");
    a.resource_group = Some("rg-1".to_string());
    let unnamed = HostEntry { name: None, legacy_name: None, resource_group: None, added_at: None, is_local: None };
    let b = HostEntry {
        name: None,
        legacy_name: Some("VM-B".to_string()),
        resource_group: None,
        added_at: None,
        is_local: None,
    };
    let vms = remote_vms_from_hosts(&[a, unnamed, b]);
    assert_eq!(vms.len(), 3);
    assert_eq!(vms[0].vm_name, "vm-a");
    assert_eq!(vms[0].resource_group, "rg-1");
    assert_eq!(vms[0].status, "unknown");
    assert_eq!(vms[1].vm_name, "");
    assert_eq!(vms[1].status, "unknown");
    assert_eq!(vms[2].vm_name, "VM-B");
    assert_eq!(vms[2].resource_group, "");
}

#[test]
fn strip_ansi_removes_escapes_and_carriage_returns() {
    assert_eq!(strip_ansi_codes("\x1b[32mgreen\x1b[0m\r\n"), "green\n");
    assert_eq!(strip_ansi_codes("\x1b]0;title\x07text"), "text");
    assert_eq!(strip_ansi_codes("plain"), "plain");
    let out = strip_ansi_codes("\x1b[1;31mred\x1b]8;;link\x1b\\x\r");
    assert!(!out.contains('\x1b') && !out.contains('\r'));
}

fn parse_azlin_list(raw: &str) -> Vec<serde_json::Value> {
    serde_json::from_str::<Vec<serde_json::Value>>(&azlin_json_text(raw)).unwrap_or_default()
}

#[test]
fn parses_clean_json_array() {
    let raw = r#"[{"name":"vm-a"},{"name":"vm-b"}]"#;
    let out = parse_azlin_list(raw);
    assert_eq!(out.len(), 2);
    assert_eq!(out[0]["name"], serde_json::Value::String("vm-a".to_string()));
}

#[test]
fn parses_json_after_version_warning_preamble() {
    let raw = "A newer version of azlin is available. Run 'azlin update'.\n[{\"name\":\"vm-a\"}]";
    let out = parse_azlin_list(raw);
    assert_eq!(out.len(), 1);
    assert_eq!(out[0]["name"], serde_json::Value::String("vm-a".to_string()));
}

#[test]
fn unparseable_output_degrades_to_empty() {
    assert!(parse_azlin_list("not json at all").is_empty());
    assert!(parse_azlin_list("").is_empty());
    assert!(parse_azlin_list("[not valid json").is_empty());
}

#[test]
fn azlin_json_text_starts_at_first_bracket() {
    assert_eq!(azlin_json_text("banner\n[1]"), "[1]");
    assert_eq!(azlin_json_text("no bracket"), "no bracket");
    assert_eq!(azlin_json_text("é[[x"), "[[x");
}

#[test]
fn add_host_rejects_empty_and_duplicate_names() {
    let mut hosts = vec![host("vm-a")];
    assert_eq!(add_host_entry(&mut hosts, "", None, "t0"), Err("name is required".to_string()));
    assert_eq!(
        add_host_entry(&mut hosts, "vm-a", Some("rg"), "t0"),
        Err("host 'vm-a' already exists".to_string())
    );
    assert_eq!(hosts.len(), 1);
}

#[test]
fn add_host_appends_with_default_resource_group() {
    let mut hosts = vec![host("vm-a")];
    assert_eq!(add_host_entry(&mut hosts, "vm-b", None, "2026-01-01T00:00:00Z"), Ok(()));
    assert_eq!(hosts.len(), 2);
    assert_eq!(hosts[1].name.as_deref(), Some("vm-b"));
    assert_eq!(hosts[1].resource_group.as_deref(), Some(DEFAULT_RESOURCE_GROUP));
    assert_eq!(hosts[1].added_at.as_deref(), Some("2026-01-01T00:00:00Z"));
    assert_eq!(add_host_entry(&mut hosts, "vm-c", Some(""), "t"), Ok(()));
    assert_eq!(hosts[2].resource_group.as_deref(), Some(""));
}

#[test]
fn add_host_duplicate_check_ignores_legacy_name() {
    let legacy = HostEntry {
        name: None,
        legacy_name: Some("vm-x".to_string()),
        resource_group: None,
        added_at: None,
        is_local: None,
    };
    let mut hosts = vec![legacy];
    assert_eq!(add_host_entry(&mut hosts, "vm-x", None, "t"), Ok(()));
}

#[test]
fn remove_host_removes_every_match_or_reports_not_found() {
    let mut hosts = vec![host("vm-a"), host("vm-b"), host("vm-a")];
    assert_eq!(remove_host_entries(&mut hosts, "vm-a"), Ok(()));
    assert_eq!(hosts.len(), 1);
    assert_eq!(hosts[0].name.as_deref(), Some("vm-b"));
    assert_eq!(remove_host_entries(&mut hosts, "vm-z"), Err("host 'vm-z' not found".to_string()));
    assert_eq!(hosts.len(), 1);
}

#[test]
fn remove_after_add_restores_list() {
    let mut hosts = vec![host("vm-a")];
    add_host_entry(&mut hosts, "vm-new", None, "t").unwrap();
    remove_host_entries(&mut hosts, "vm-new").unwrap();
    assert_eq!(hosts.len(), 1);
    assert_eq!(hosts[0].name.as_deref(), Some("vm-a"));
}

#[test]
fn discovery_serves_result_or_stale_cache() {
    let fresh = discovery_outcome(Some(vec![host("vm-a")]), Some(vec![host("old")]));
    assert_eq!(fresh.hosts.len(), 1);
    assert!(!fresh.timed_out && !fresh.stale);
    let stale = discovery_outcome(None, Some(vec![host("old")]));
    assert_eq!(stale.hosts[0].name.as_deref(), Some("old"));
    assert!(stale.timed_out && stale.stale);
    let nothing = discovery_outcome(None, None);
    assert!(nothing.hosts.is_empty());
    assert!(nothing.timed_out && !nothing.stale);
    assert!(should_cache(&[host("vm-a")]));
    assert!(!should_cache(&[]));
}

#[test]
fn cluster_members_are_named_hosts() {
    let unnamed = HostEntry { name: None, legacy_name: None, resource_group: None, added_at: None, is_local: None };
    let legacy = HostEntry {
        name: None,
        legacy_name: Some("Legacy".to_string()),
        resource_group: None,
        added_at: None,
        is_local: None,
    };
    assert_eq!(cluster_members(&[host("a"), unnamed, legacy]), vec!["a".to_string(), "Legacy".to_string()]);
}
