//! Cluster host bookkeeping for the Hosts tab: hostname matching, the
//! "joined" badge, the discovery-cache freshness rule and the discovery
//! timeout override.

use vstd::prelude::*;
use crate::num::parse_u64_spec;
use crate::num::parse_u64;
use crate::text::{
    ascii_lower_chars, ascii_lower_seq, chars_eq, first_index, from_chars, index_of_from,
    push_str, sub_chars, to_chars, trim_chars, trim_seq,
};

verus! {

/// Hard bound, in seconds, on the blocking VM-discovery call.
pub const AZLIN_LIST_TIMEOUT_SECS: u64 = 20;

/// Environment variable overriding the discovery timeout.
pub const AZLIN_LIST_TIMEOUT_ENV: &'static str = "SIMARD_AZLIN_LIST_TIMEOUT_SECS";

/// How long, in seconds, a successful discovery is served from the cache.
pub const DISCOVERY_CACHE_TTL_SECS: u64 = 60;

/// The discovery timeout in seconds: the override when it is a positive
/// integer once trimmed, `default_secs` otherwise (never a zero timeout).
pub open spec fn resolve_timeout_spec(raw: Option<Seq<char>>, default_secs: u64) -> u64 {
    match raw {
        Some(r) => match parse_u64_spec(trim_seq(r)) {
            Some(v) => if v > 0 {
                v
            } else {
                default_secs
            },
            None => default_secs,
        },
        None => default_secs,
    }
}

/// Resolve the discovery timeout (in seconds) from an optional raw override,
/// falling back to `default_secs` for a missing, non-numeric or zero value.
pub fn resolve_timeout_secs(raw: Option<&str>, default_secs: u64) -> (secs: u64)
    ensures
        secs == resolve_timeout_spec(
            match raw {
                Some(r) => Some(r@),
                None => None,
            },
            default_secs,
        ),
        secs > 0 || secs == default_secs,
{
    match raw {
        Some(r) => {
            let cs = to_chars(r);
            let t = trim_chars(cs.as_slice());
            match parse_u64(t.as_slice()) {
                Some(v) => if v > 0 {
                    v
                } else {
                    default_secs
                },
                None => default_secs,
            }
        },
        None => default_secs,
    }
}

/// A cache entry fetched at `fetched_at` is fresh at `now` while its age
/// (saturating at zero) is strictly below `ttl`. All three are in the same
/// time unit.
pub fn cache_is_fresh(fetched_at: u64, now: u64, ttl: u64) -> (b: bool)
    ensures
        b == (if now >= fetched_at {
            now - fetched_at
        } else {
            0
        } < ttl),
{
    let age = if now >= fetched_at {
        now - fetched_at
    } else {
        0
    };
    age < ttl
}

/// The short, case-insensitive form of a hostname: everything before the
/// first `.`, ASCII-lowercased.
pub open spec fn short_host(s: Seq<char>) -> Seq<char> {
    ascii_lower_seq(s.take(first_index(s, '.')))
}

/// Two hostnames name the same host: both non-empty and equal short names
/// (an empty short name never matches).
pub open spec fn same_host(a: Seq<char>, b: Seq<char>) -> bool {
    a.len() > 0 && b.len() > 0 && short_host(a).len() > 0 && short_host(a) == short_host(b)
}

fn short_host_chars(s: &[char]) -> (v: Vec<char>)
    ensures
        v@ == short_host(s@),
{
    let k = index_of_from(s, '.', 0);
    assert(s@.skip(0) =~= s@);
    let head = sub_chars(s, 0, k);
    assert(head@ =~= s@.take(k as int));
    ascii_lower_chars(head.as_slice())
}

/// Compare two hostnames as short, case-insensitive names. A UI hint only,
/// never an authorisation decision.
pub fn is_local_host(a: &str, b: &str) -> (r: bool)
    ensures
        r == same_host(a@, b@),
{
    let ac = to_chars(a);
    let bc = to_chars(b);
    if ac.len() == 0 || bc.len() == 0 {
        return false;
    }
    let sa = short_host_chars(ac.as_slice());
    let sb = short_host_chars(bc.as_slice());
    sa.len() > 0 && chars_eq(sa.as_slice(), sb.as_slice())
}

/// A configured or discovered host, holding the fields the Hosts tab reads:
/// the lowercase `name` and legacy capitalised `Name` string fields, the
/// resource group, when it was added, and the `is_local` badge once tagged.
pub struct HostEntry {
    pub name: Option<String>,
    pub legacy_name: Option<String>,
    pub resource_group: Option<String>,
    pub added_at: Option<String>,
    pub is_local: Option<bool>,
}

/// The host's name: `name`, else the legacy `Name`, else empty.
pub open spec fn entry_name(e: HostEntry) -> Seq<char> {
    match e.name {
        Some(n) => n@,
        None => match e.legacy_name {
            Some(n) => n@,
            None => Seq::empty(),
        },
    }
}

/// The host name field, preferring lowercase `name` over legacy `Name`.
pub fn host_entry_name(entry: &HostEntry) -> (s: &str)
    ensures
        s@ == entry_name(*entry),
{
    match &entry.name {
        Some(n) => n.as_str(),
        None => match &entry.legacy_name {
            Some(n) => n.as_str(),
            None => {
                proof {
                    reveal_strlit("");
                }
                ""
            },
        },
    }
}

/// Whether some cluster member names the same host as `name`.
pub open spec fn in_cluster(cluster_members: Seq<String>, name: Seq<char>) -> bool {
    exists|j: int| 0 <= j < cluster_members.len() && same_host(cluster_members[j]@, name)
}

/// A host is joined when the local hostname names it and it is a cluster
/// member.
pub open spec fn is_joined(name: Seq<char>, cluster_members: Seq<String>, local: Seq<char>) -> bool {
    same_host(local, name) && in_cluster(cluster_members, name)
}

fn clone_opt_string(o: &Option<String>) -> (r: Option<String>)
    ensures
        r == *o,
{
    match o {
        Some(s) => Some(s.clone()),
        None => None,
    }
}

fn any_member_matches(cluster_members: &[String], name: &str) -> (b: bool)
    ensures
        b == in_cluster(cluster_members@, name@),
{
    let mut j: usize = 0;
    while j < cluster_members.len()
        invariant
            j <= cluster_members.len(),
            forall|k: int| 0 <= k < j ==> !same_host(#[trigger] cluster_members@[k]@, name@),
        decreases cluster_members.len() - j,
    {
        if is_local_host(cluster_members[j].as_str(), name) {
            return true;
        }
        j = j + 1;
    }
    false
}

/// Tag every host with `is_local`: true exactly when the local hostname names
/// it and it also appears among `cluster_members`. Other fields are kept.
pub fn tag_local_membership(
    hosts: &mut Vec<HostEntry>,
    cluster_members: &[String],
    local_hostname: &str,
)
    ensures
        final(hosts)@.len() == old(hosts)@.len(),
        forall|i: int|
            0 <= i < final(hosts)@.len() ==> {
                &&& (#[trigger] final(hosts)@[i]).name == old(hosts)@[i].name
                &&& final(hosts)@[i].legacy_name == old(hosts)@[i].legacy_name
                &&& final(hosts)@[i].resource_group == old(hosts)@[i].resource_group
                &&& final(hosts)@[i].added_at == old(hosts)@[i].added_at
                &&& final(hosts)@[i].is_local == Some(
                    is_joined(entry_name(old(hosts)@[i]), cluster_members@, local_hostname@),
                )
            },
{
    let mut i: usize = 0;
    while i < hosts.len()
        invariant
            i <= hosts.len(),
            hosts@.len() == old(hosts)@.len(),
            forall|k: int| i <= k < hosts@.len() ==> #[trigger] hosts@[k] == old(hosts)@[k],
            forall|k: int|
                0 <= k < i ==> {
                    &&& (#[trigger] hosts@[k]).name == old(hosts)@[k].name
                    &&& hosts@[k].legacy_name == old(hosts)@[k].legacy_name
                    &&& hosts@[k].resource_group == old(hosts)@[k].resource_group
                    &&& hosts@[k].added_at == old(hosts)@[k].added_at
                    &&& hosts@[k].is_local == Some(
                        is_joined(entry_name(old(hosts)@[k]), cluster_members@, local_hostname@),
                    )
                },
        decreases hosts.len() - i,
    {
        let joined;
        let name_c;
        let legacy_c;
        let rg_c;
        let added_c;
        {
            let e = &hosts[i];
            let name = host_entry_name(e);
            joined = is_local_host(local_hostname, name) && any_member_matches(cluster_members, name);
            name_c = clone_opt_string(&e.name);
            legacy_c = clone_opt_string(&e.legacy_name);
            rg_c = clone_opt_string(&e.resource_group);
            added_c = clone_opt_string(&e.added_at);
        }
        hosts.set(
            i,
            HostEntry {
                name: name_c,
                legacy_name: legacy_c,
                resource_group: rg_c,
                added_at: added_c,
                is_local: Some(joined),
            },
        );
        i = i + 1;
    }
}


// ---------------------------------------------------------------------------
// Discovery output and the configured host list
// ---------------------------------------------------------------------------

/// The JSON part of `azlin list` output: from the first `[` on (a banner may
/// come first), or all of it when there is no `[`.
pub open spec fn azlin_json_spec(raw: Seq<char>) -> Seq<char> {
    let i = first_index(raw, '[');
    if i < raw.len() {
        raw.skip(i)
    } else {
        raw
    }
}

/// The JSON part of `azlin list` output (see `azlin_json_spec`).
pub fn azlin_json_text(raw: &str) -> (r: String)
    ensures
        r@ == azlin_json_spec(raw@),
{
    let cs = to_chars(raw);
    let i = index_of_from(cs.as_slice(), '[', 0);
    assert(cs@.skip(0) =~= cs@);
    if i < cs.len() {
        let tail = sub_chars(cs.as_slice(), i, cs.len());
        assert(tail@ =~= raw@.skip(i as int));
        from_chars(tail.as_slice())
    } else {
        raw.to_owned()
    }
}

/// Resource group given to a host added without one.
pub const DEFAULT_RESOURCE_GROUP: &'static str = "rysweet-linux-vm-pool";

/// Error body when a host is added without a name.
pub const NAME_REQUIRED: &'static str = "name is required";

/// Whether a host's lowercase `name` field is exactly `name`.
pub open spec fn named(h: HostEntry, name: Seq<char>) -> bool {
    h.name matches Some(n) && n@ == name
}

/// `host '<name>' <what>`.
pub open spec fn host_message(name: Seq<char>, what: Seq<char>) -> Seq<char> {
    "host '"@ + name + "' "@ + what
}

fn host_message_of(name: &str, what: &str) -> (r: String)
    ensures
        r@ == host_message(name@, what@),
{
    let mut out = to_chars("host '");
    push_str(&mut out, name);
    push_str(&mut out, "' ");
    push_str(&mut out, what);
    from_chars(out.as_slice())
}

fn find_named(hosts: &Vec<HostEntry>, name: &str) -> (r: bool)
    ensures
        r == exists|i: int| 0 <= i < hosts@.len() && named(#[trigger] hosts@[i], name@),
{
    let target = to_chars(name);
    let mut i: usize = 0;
    while i < hosts.len()
        invariant
            i <= hosts@.len(),
            target@ == name@,
            forall|k: int| 0 <= k < i ==> !named(#[trigger] hosts@[k], name@),
        decreases hosts@.len() - i,
    {
        match &hosts[i].name {
            Some(n) => {
                let nc = to_chars(n.as_str());
                if chars_eq(nc.as_slice(), target.as_slice()) {
                    return true;
                }
            },
            None => {},
        }
        i = i + 1;
    }
    false
}

/// Adds a host named `name` to the configured list, with its resource group
/// (the default when none is given) and the time it was added. Refused, with
/// the list unchanged, when the name is empty or a host already has it.
pub fn add_host_entry(hosts: &mut Vec<HostEntry>, name: &str, resource_group: Option<&str>, added_at: &str) -> (r:
    Result<(), String>)
    ensures
        name@.len() == 0 ==> (r matches Err(e) && e@ == NAME_REQUIRED@),
        name@.len() > 0 && (exists|i: int| 0 <= i < old(hosts)@.len() && named(#[trigger] old(hosts)@[i], name@))
            ==> (r matches Err(e) && e@ == host_message(name@, "already exists"@)),
        r is Err ==> final(hosts)@ == old(hosts)@,
        r is Ok <==> name@.len() > 0 && !(exists|i: int| 0 <= i < old(hosts)@.len() && named(#[trigger] old(hosts)@[i], name@)),
        r is Ok ==> {
            &&& final(hosts)@.len() == old(hosts)@.len() + 1
            &&& final(hosts)@.take(old(hosts)@.len() as int) == old(hosts)@
            &&& final(hosts)@.last().name matches Some(n) && n@ == name@
            &&& final(hosts)@.last().legacy_name is None
            &&& final(hosts)@.last().resource_group matches Some(g) && g@ == match resource_group {
                Some(rg) => rg@,
                None => DEFAULT_RESOURCE_GROUP@,
            }
            &&& final(hosts)@.last().added_at matches Some(t) && t@ == added_at@
            &&& final(hosts)@.last().is_local is None
        },
{
    if name.is_empty() {
        return Err(NAME_REQUIRED.to_owned());
    }
    if find_named(hosts, name) {
        return Err(host_message_of(name, "already exists"));
    }
    let rg: &str = match resource_group {
        Some(g) => g,
        None => DEFAULT_RESOURCE_GROUP,
    };
    hosts.push(
        HostEntry {
            name: Some(name.to_owned()),
            legacy_name: None,
            resource_group: Some(rg.to_owned()),
            added_at: Some(added_at.to_owned()),
            is_local: None,
        },
    );
    assert(hosts@.take(old(hosts)@.len() as int) =~= old(hosts)@);
    Ok(())
}

/// The hosts whose `name` field is not `name`, in order.
pub open spec fn hosts_without(hosts: Seq<HostEntry>, name: Seq<char>) -> Seq<HostEntry>
    decreases hosts.len(),
{
    if hosts.len() == 0 {
        Seq::empty()
    } else if named(hosts.last(), name) {
        hosts_without(hosts.drop_last(), name)
    } else {
        hosts_without(hosts.drop_last(), name).push(hosts.last())
    }
}

/// Removes every host whose `name` field is `name`; refused with
/// `host '<name>' not found` when there is none (the list is then unchanged).
pub fn remove_host_entries(hosts: &mut Vec<HostEntry>, name: &str) -> (r: Result<(), String>)
    ensures
        final(hosts)@ == hosts_without(old(hosts)@, name@),
        r is Err <==> final(hosts)@.len() == old(hosts)@.len(),
        r matches Err(e) ==> e@ == host_message(name@, "not found"@),
{
    let target = to_chars(name);
    let mut kept: Vec<HostEntry> = Vec::new();
    let mut rest: Vec<HostEntry> = Vec::new();
    std::mem::swap(&mut rest, hosts);
    let ghost all = rest@;
    let mut i: usize = 0;
    let n = rest.len();
    while i < n
        invariant
            n == all.len(),
            i <= n,
            target@ == name@,
            rest@ == all.skip(i as int),
            kept@ == hosts_without(all.take(i as int), name@),
            all == old(hosts)@,
        decreases n - i,
    {
        assert(all.take(i + 1).drop_last() =~= all.take(i as int));
        assert(all.take(i + 1).last() == all[i as int]);
        let h = rest.remove(0);
        assert(rest@ =~= all.skip(i + 1));
        let is_named = match &h.name {
            Some(nm) => {
                let nc = to_chars(nm.as_str());
                chars_eq(nc.as_slice(), target.as_slice())
            },
            None => false,
        };
        if !is_named {
            kept.push(h);
        }
        i = i + 1;
    }
    assert(all.take(n as int) =~= all);
    proof {
        lemma_hosts_without_len(all, name@);
    }
    let removed_none = kept.len() == n;
    *hosts = kept;
    if removed_none {
        Err(host_message_of(name, "not found"))
    } else {
        Ok(())
    }
}

proof fn lemma_hosts_without_len(hosts: Seq<HostEntry>, name: Seq<char>)
    ensures
        hosts_without(hosts, name).len() <= hosts.len(),
    decreases hosts.len(),
{
    if hosts.len() > 0 {
        lemma_hosts_without_len(hosts.drop_last(), name);
    }
}


proof fn lemma_without_absent(hosts: Seq<HostEntry>, name: Seq<char>)
    requires
        forall|i: int| 0 <= i < hosts.len() ==> !named(#[trigger] hosts[i], name),
    ensures
        hosts_without(hosts, name) == hosts,
    decreases hosts.len(),
{
    if hosts.len() > 0 {
        let init = hosts.drop_last();
        assert forall|i: int| 0 <= i < init.len() implies !named(#[trigger] init[i], name) by {
            assert(init[i] == hosts[i]);
        }
        lemma_without_absent(init, name);
        assert(hosts.last() == hosts[hosts.len() - 1]);
        assert(init.push(hosts.last()) =~= hosts);
    }
}

/// Law: removing a host right after it was added gives back the list as it
/// was before the add.
pub proof fn lemma_remove_undoes_add(before: Seq<HostEntry>, after: Seq<HostEntry>, name: Seq<char>)
    requires
        !(exists|i: int| 0 <= i < before.len() && named(#[trigger] before[i], name)),
        after.len() == before.len() + 1,
        after.take(before.len() as int) == before,
        named(after.last(), name),
    ensures
        hosts_without(after, name) == before,
{
    assert(after.drop_last() =~= before);
    assert forall|i: int| 0 <= i < before.len() implies !named(#[trigger] before[i], name) by {}
    lemma_without_absent(before, name);
}


// ---------------------------------------------------------------------------
// Discovery and the Hosts tab
// ---------------------------------------------------------------------------

/// The discovered-VM list served to the Hosts tab, and whether it came after
/// a timed-out discovery and from a stale cached copy.
pub struct Discovery {
    pub hosts: Vec<HostEntry>,
    pub timed_out: bool,
    pub stale: bool,
}

/// The list to serve once a discovery run ended: its result when it
/// finished (`ran`), else, after a timeout or a failed join, the cached
/// copy flagged stale, else nothing.
pub fn discovery_outcome(ran: Option<Vec<HostEntry>>, cached: Option<Vec<HostEntry>>) -> (d: Discovery)
    ensures
        ran matches Some(list) ==> d.hosts@ == list@ && !d.timed_out && !d.stale,
        ran is None ==> d.timed_out,
        ran is None && cached is Some ==> d.hosts@ == cached->0@ && d.stale,
        ran is None && cached is None ==> d.hosts@.len() == 0 && !d.stale,
{
    match ran {
        Some(list) => Discovery { hosts: list, timed_out: false, stale: false },
        None => match cached {
            Some(hosts) => Discovery { hosts, timed_out: true, stale: true },
            None => Discovery { hosts: Vec::new(), timed_out: true, stale: false },
        },
    }
}

/// A finished discovery refreshes the cache only when it found something:
/// an empty list may mean `azlin` failed, and caching it would hide VMs.
pub fn should_cache(list: &[HostEntry]) -> (b: bool)
    ensures
        b == (list@.len() > 0),
{
    list.len() > 0
}

/// The names of the configured hosts that have one: the cluster members.
pub open spec fn member_names(hosts: Seq<HostEntry>) -> Seq<Seq<char>>
    decreases hosts.len(),
{
    if hosts.len() == 0 {
        Seq::empty()
    } else if entry_name(hosts.last()).len() == 0 {
        member_names(hosts.drop_last())
    } else {
        member_names(hosts.drop_last()).push(entry_name(hosts.last()))
    }
}

/// The cluster members: the non-empty names of the configured hosts, in
/// order.
pub fn cluster_members(hosts: &[HostEntry]) -> (r: Vec<String>)
    ensures
        r@.map_values(|s: String| s@) == member_names(hosts@),
{
    let mut r: Vec<String> = Vec::new();
    let mut i: usize = 0;
    while i < hosts.len()
        invariant
            i <= hosts@.len(),
            r@.map_values(|s: String| s@) == member_names(hosts@.take(i as int)),
        decreases hosts@.len() - i,
    {
        assert(hosts@.take(i + 1).drop_last() =~= hosts@.take(i as int));
        assert(hosts@.take(i + 1).last() == hosts@[i as int]);
        let name = host_entry_name(&hosts[i]);
        if !name.is_empty() {
            let ghost before = r@.map_values(|s: String| s@);
            r.push(name.to_owned());
            assert(r@.map_values(|s: String| s@) =~= before.push(name@));
        }
        i = i + 1;
    }
    assert(hosts@.take(hosts@.len() as int) =~= hosts@);
    r
}

} // verus!
