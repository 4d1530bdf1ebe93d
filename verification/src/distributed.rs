//! Remote-VM panel entries and terminal-output cleaning for the Distributed
//! tab.

use vstd::prelude::*;
use crate::hosts::{entry_name, host_entry_name, HostEntry};
use crate::num::{decimal, parse_u64, parse_u64_spec, push_decimal};
use crate::text::{
    chars_eq, contains_chars, contains_seq, first_index, from_chars, has_prefix, index_of_from,
    push_all, push_str, split_chars, split_on, starts_with, sub_chars, to_chars, trim_chars,
    trim_seq, utf8_len, utf8_prefix, utf8_truncate,
};

verus! {

/// A CSI sequence ends at the first character in `@`..=`~`.
pub open spec fn is_csi_final(c: char) -> bool {
    '@' <= c && c <= '~'
}

/// What follows a CSI sequence body: everything after its final character.
pub open spec fn skip_csi(t: Seq<char>) -> Seq<char>
    decreases t.len(),
{
    if t.len() == 0 {
        t
    } else if is_csi_final(t[0]) {
        t.skip(1)
    } else {
        skip_csi(t.skip(1))
    }
}

/// What follows an OSC sequence body: everything after the terminating BEL,
/// or after the terminating ESC (and a `\` right behind it).
pub open spec fn skip_osc(t: Seq<char>) -> Seq<char>
    decreases t.len(),
{
    if t.len() == 0 {
        t
    } else if t[0] == '\x07' {
        t.skip(1)
    } else if t[0] == '\x1b' {
        let u = t.skip(1);
        if u.len() > 0 && u[0] == '\\' {
            u.skip(1)
        } else {
            u
        }
    } else {
        skip_osc(t.skip(1))
    }
}

pub proof fn lemma_skip_csi_len(t: Seq<char>)
    ensures
        skip_csi(t).len() <= t.len(),
    decreases t.len(),
{
    if t.len() > 0 && !is_csi_final(t[0]) {
        lemma_skip_csi_len(t.skip(1));
    }
}

pub proof fn lemma_skip_osc_len(t: Seq<char>)
    ensures
        skip_osc(t).len() <= t.len(),
    decreases t.len(),
{
    if t.len() > 0 && t[0] != '\x07' && t[0] != '\x1b' {
        lemma_skip_osc_len(t.skip(1));
    }
}

/// `out` followed by `s` with escape sequences (CSI, OSC and two-character
/// escapes) and carriage returns removed.
pub open spec fn ansi_fold(s: Seq<char>, out: Seq<char>) -> Seq<char>
    decreases s.len(),
{
    if s.len() == 0 {
        out
    } else if s[0] == '\x1b' {
        let t = s.skip(1);
        if t.len() > 0 && t[0] == '[' {
            proof {
                lemma_skip_csi_len(t.skip(1));
            }
            ansi_fold(skip_csi(t.skip(1)), out)
        } else if t.len() > 0 && t[0] == ']' {
            proof {
                lemma_skip_osc_len(t.skip(1));
            }
            ansi_fold(skip_osc(t.skip(1)), out)
        } else if t.len() > 0 {
            ansi_fold(t.skip(1), out)
        } else {
            out
        }
    } else if s[0] == '\r' {
        ansi_fold(s.skip(1), out)
    } else {
        ansi_fold(s.skip(1), out.push(s[0]))
    }
}

/// `s` with terminal escape sequences and carriage returns removed.
pub open spec fn strip_ansi_spec(s: Seq<char>) -> Seq<char> {
    ansi_fold(s, Seq::empty())
}

fn skip_csi_from(s: &[char], from: usize) -> (k: usize)
    requires
        from <= s.len(),
    ensures
        from <= k <= s.len(),
        s@.skip(k as int) == skip_csi(s@.skip(from as int)),
{
    let mut j = from;
    while j < s.len() && !('@' <= s[j] && s[j] <= '~')
        invariant
            from <= j <= s.len(),
            skip_csi(s@.skip(from as int)) == skip_csi(s@.skip(j as int)),
        decreases s.len() - j,
    {
        assert(s@.skip(j as int).skip(1) =~= s@.skip(j + 1));
        j = j + 1;
    }
    if j < s.len() {
        assert(s@.skip(j as int).skip(1) =~= s@.skip(j + 1));
        j + 1
    } else {
        assert(s@.skip(j as int) =~= Seq::<char>::empty());
        j
    }
}

fn skip_osc_from(s: &[char], from: usize) -> (k: usize)
    requires
        from <= s.len(),
    ensures
        from <= k <= s.len(),
        s@.skip(k as int) == skip_osc(s@.skip(from as int)),
{
    let mut j = from;
    while j < s.len() && s[j] != '\x07' && s[j] != '\x1b'
        invariant
            from <= j <= s.len(),
            skip_osc(s@.skip(from as int)) == skip_osc(s@.skip(j as int)),
        decreases s.len() - j,
    {
        assert(s@.skip(j as int).skip(1) =~= s@.skip(j + 1));
        j = j + 1;
    }
    if j == s.len() {
        assert(s@.skip(j as int) =~= Seq::<char>::empty());
        return j;
    }
    assert(s@.skip(j as int).skip(1) =~= s@.skip(j + 1));
    if s[j] == '\x07' {
        return j + 1;
    }
    if j + 1 < s.len() && s[j + 1] == '\\' {
        assert(s@.skip(j + 1).skip(1) =~= s@.skip(j + 2));
        j + 2
    } else {
        j + 1
    }
}

/// Remove terminal escape sequences (CSI `ESC [ ... final`, OSC
/// `ESC ] ... BEL|ESC \`, and two-character escapes) and carriage returns.
pub fn strip_ansi_codes(s: &str) -> (out: String)
    ensures
        out@ == strip_ansi_spec(s@),
{
    let cs = crate::text::to_chars(s);
    let mut out: Vec<char> = Vec::new();
    let mut i: usize = 0;
    assert(cs@.skip(0) =~= cs@);
    while i < cs.len()
        invariant
            i <= cs.len(),
            cs@ == s@,
            strip_ansi_spec(s@) == ansi_fold(cs@.skip(i as int), out@),
        decreases cs.len() - i,
    {
        let ghost rest = cs@.skip(i as int);
        assert(rest[0] == cs@[i as int]);
        assert(rest.skip(1) =~= cs@.skip(i + 1));
        let c = cs[i];
        if c == '\x1b' {
            if i + 1 < cs.len() {
                assert(rest.skip(1)[0] == cs@[i + 1]);
                assert(rest.skip(1).skip(1) =~= cs@.skip(i + 2));
                if cs[i + 1] == '[' {
                    i = skip_csi_from(cs.as_slice(), i + 2);
                } else if cs[i + 1] == ']' {
                    i = skip_osc_from(cs.as_slice(), i + 2);
                } else {
                    i = i + 2;
                }
            } else {
                i = i + 1;
                assert(cs@.skip(i as int) =~= Seq::<char>::empty());
            }
        } else if c == '\r' {
            i = i + 1;
        } else {
            out.push(c);
            i = i + 1;
        }
    }
    assert(cs@.skip(i as int) =~= Seq::<char>::empty());
    crate::text::from_chars(out.as_slice())
}

/// Neither escapes nor carriage returns survive stripping.
pub proof fn lemma_strip_ansi_clean(s: Seq<char>, out: Seq<char>)
    requires
        forall|i: int| 0 <= i < out.len() ==> out[i] != '\x1b' && out[i] != '\r',
    ensures
        forall|i: int|
            0 <= i < ansi_fold(s, out).len() ==> ansi_fold(s, out)[i] != '\x1b' && ansi_fold(
                s,
                out,
            )[i] != '\r',
    decreases s.len(),
{
    if s.len() == 0 {
        assert(ansi_fold(s, out) == out);
    } else if s[0] == '\x1b' {
        let t = s.skip(1);
        if t.len() > 0 && t[0] == '[' {
            lemma_skip_csi_len(t.skip(1));
            lemma_strip_ansi_clean(skip_csi(t.skip(1)), out);
            assert(ansi_fold(s, out) == ansi_fold(skip_csi(t.skip(1)), out));
        } else if t.len() > 0 && t[0] == ']' {
            lemma_skip_osc_len(t.skip(1));
            lemma_strip_ansi_clean(skip_osc(t.skip(1)), out);
            assert(ansi_fold(s, out) == ansi_fold(skip_osc(t.skip(1)), out));
        } else if t.len() > 0 {
            lemma_strip_ansi_clean(t.skip(1), out);
            assert(ansi_fold(s, out) == ansi_fold(t.skip(1), out));
        } else {
            assert(ansi_fold(s, out) == out);
        }
    } else if s[0] == '\r' {
        lemma_strip_ansi_clean(s.skip(1), out);
        assert(ansi_fold(s, out) == ansi_fold(s.skip(1), out));
    } else {
        let o2 = out.push(s[0]);
        assert forall|i: int| 0 <= i < o2.len() implies o2[i] != '\x1b' && o2[i] != '\r' by {
            if i < out.len() {
                assert(o2[i] == out[i]);
            }
        }
        lemma_strip_ansi_clean(s.skip(1), o2);
        assert(ansi_fold(s, out) == ansi_fold(s.skip(1), o2));
    }
}

/// Law: the output of `strip_ansi_codes` holds no ESC and no carriage return.
pub proof fn strip_ansi_output_is_clean(s: Seq<char>)
    ensures
        forall|i: int|
            0 <= i < strip_ansi_spec(s).len() ==> strip_ansi_spec(s)[i] != '\x1b'
                && strip_ansi_spec(s)[i] != '\r',
{
    lemma_strip_ansi_clean(s, Seq::empty());
}

/// One entry of the Remote VMs panel: the host's name and resource group,
/// the probe status, and whatever the probe reported.
pub struct RemoteVm {
    pub vm_name: String,
    pub resource_group: String,
    pub status: String,
    pub fields: ProbeFields,
}

/// What a VM probe reports beside its status. A number field is
/// `Some(None)` when its line was there but did not parse.
pub struct ProbeFields {
    pub hostname: Option<String>,
    pub uptime: Option<String>,
    pub disk_root_pct: Option<Option<u32>>,
    pub disk_data_pct: Option<Option<u32>>,
    pub disk_tmp_pct: Option<Option<u32>>,
    pub simard_processes: Option<Option<u32>>,
    pub cargo_processes: Option<Option<u32>>,
    pub load_avg: Option<String>,
    pub memory_mb: Option<String>,
    pub debug_hint: Option<String>,
    pub error: Option<String>,
}

/// No reported field at all.
pub open spec fn no_fields() -> ProbeFields {
    ProbeFields {
        hostname: None,
        uptime: None,
        disk_root_pct: None,
        disk_data_pct: None,
        disk_tmp_pct: None,
        simard_processes: None,
        cargo_processes: None,
        load_avg: None,
        memory_mb: None,
        debug_hint: None,
        error: None,
    }
}

impl ProbeFields {
    /// No reported field at all.
    pub fn none() -> (f: ProbeFields)
        ensures
            f == no_fields(),
    {
        ProbeFields {
            hostname: None,
            uptime: None,
            disk_root_pct: None,
            disk_data_pct: None,
            disk_tmp_pct: None,
            simard_processes: None,
            cargo_processes: None,
            load_avg: None,
            memory_mb: None,
            debug_hint: None,
            error: None,
        }
    }
}

/// The resource group of a host (empty when absent).
pub open spec fn entry_resource_group(e: HostEntry) -> Seq<char> {
    match e.resource_group {
        Some(r) => r@,
        None => Seq::empty(),
    }
}

/// Map the configured hosts to Remote VMs panel entries: exactly one entry
/// per host, in order, named as the Cluster Topology panel names it (empty
/// when the host has no name), with its resource group (empty when absent)
/// and status `unknown`.
pub fn remote_vms_from_hosts(hosts: &[HostEntry]) -> (out: Vec<RemoteVm>)
    ensures
        out@.len() == hosts@.len(),
        forall|i: int|
            0 <= i < out@.len() ==> (#[trigger] out@[i]).vm_name@ == entry_name(hosts@[i])
                && out@[i].resource_group@ == entry_resource_group(hosts@[i]) && out@[i].status@
                == "unknown"@ && out@[i].fields == no_fields(),
{
    let mut out: Vec<RemoteVm> = Vec::new();
    let mut i: usize = 0;
    while i < hosts.len()
        invariant
            i <= hosts.len(),
            out@.len() == i,
            forall|k: int|
                0 <= k < i ==> (#[trigger] out@[k]).vm_name@ == entry_name(hosts@[k])
                    && out@[k].resource_group@ == entry_resource_group(hosts@[k])
                    && out@[k].status@ == "unknown"@ && out@[k].fields == no_fields(),
        decreases hosts.len() - i,
    {
        let h = &hosts[i];
        let name = host_entry_name(h);
        let rg: String = match &h.resource_group {
            Some(r) => r.clone(),
            None => String::new(),
        };
        out.push(RemoteVm {
            vm_name: name.to_owned(),
            resource_group: rg,
            status: "unknown".to_owned(),
            fields: ProbeFields::none(),
        });
        i = i + 1;
    }
    out
}


// ---------------------------------------------------------------------------
// The VM probe
// ---------------------------------------------------------------------------

/// Name of the VM the probe script checks.
pub const PROBE_VM_NAME: &'static str = "Simard";

/// The marker the probe script prints first.
pub const PROBE_MARKER: &'static str = "HOSTNAME=";

/// Hint given when the probe output holds no marker.
pub const PROBE_NOT_FOUND_HINT: &'static str = "HOSTNAME= not found in stdout or stderr after ANSI stripping";

/// What `str::to_lowercase` gives for `s`.
pub uninterp spec fn str_lower(s: Seq<char>) -> Seq<char>;

/// Lower-cases a string with `str::to_lowercase`. The result is only named.
#[verifier::external_body]
fn lower(s: &str) -> (r: String)
    ensures
        r@ == str_lower(s@),
{
    s.to_lowercase()
}

/// `s` without one trailing carriage return.
pub open spec fn strip_cr(s: Seq<char>) -> Seq<char> {
    if s.len() > 0 && s.last() == '\r' {
        s.drop_last()
    } else {
        s
    }
}

/// Piece `k` of `s` split at line feeds, as a line: without a trailing
/// carriage return when a line feed follows it (every piece but the last).
pub open spec fn line_piece(parts: Seq<Seq<char>>, k: int) -> Seq<char> {
    if k < parts.len() - 1 {
        strip_cr(parts[k])
    } else {
        parts[k]
    }
}

/// The lines of `s` as `str::lines` gives them: split at line feeds (a
/// carriage return before a line feed dropped), with no empty piece after a
/// final line feed.
pub open spec fn lines_spec(s: Seq<char>) -> Seq<Seq<char>> {
    let parts = split_on(s, '\n');
    let n = if parts.len() > 0 && parts.last().len() == 0 {
        parts.len() - 1
    } else {
        parts.len() as int
    };
    Seq::new(n as nat, |k: int| line_piece(parts, k))
}

/// The lines of `s`, as `str::lines` gives them.
pub fn split_lines(s: &[char]) -> (out: Vec<Vec<char>>)
    ensures
        out.deep_view() == lines_spec(s@),
{
    let parts = split_chars(s, '\n');
    let ghost pv = parts.deep_view();
    let n: usize = if parts.len() > 0 && parts[parts.len() - 1].len() == 0 {
        parts.len() - 1
    } else {
        parts.len()
    };
    let mut out: Vec<Vec<char>> = Vec::new();
    let mut i: usize = 0;
    while i < n
        invariant
            i <= n <= parts@.len(),
            pv == parts.deep_view(),
            out@.len() == i,
            forall|k: int| 0 <= k < i ==> (#[trigger] out@[k])@ == line_piece(pv, k),
        decreases n - i,
    {
        let p = &parts[i];
        assert(p@ == pv[i as int]);
        let strip = i + 1 < parts.len() && p.len() > 0 && p[p.len() - 1] == '\r';
        let line = if strip {
            sub_chars(p.as_slice(), 0, p.len() - 1)
        } else {
            sub_chars(p.as_slice(), 0, p.len())
        };
        proof {
            if strip {
                assert(line@ =~= p@.drop_last());
            } else {
                assert(line@ =~= p@);
            }
        }
        out.push(line);
        i = i + 1;
    }
    proof {
        let ls = lines_spec(s@);
        assert(pv == split_on(s@, '\n'));
        assert(ls.len() == n);
        assert forall|k: int| 0 <= k < n implies out.deep_view()[k] == ls[k] by {
            assert(out.deep_view()[k] == out@[k]@);
        }
        assert(out.deep_view() =~= ls);
    }
    out
}

/// A `key=value` line: its key trimmed and lower-cased, and its value
/// trimmed; `None` when the line holds no `=`.
pub open spec fn line_kv(line: Seq<char>) -> Option<(Seq<char>, Seq<char>)> {
    let i = first_index(line, '=');
    if i < line.len() {
        Some((str_lower(trim_seq(line.take(i))), trim_seq(line.skip(i + 1))))
    } else {
        None
    }
}

fn kv_of(line: &[char]) -> (r: Option<(String, String)>)
    ensures
        match r {
            Some((k, v)) => line_kv(line@) == Some((k@, v@)),
            None => line_kv(line@) is None,
        },
{
    let k = index_of_from(line, '=', 0);
    assert(line@.skip(0) =~= line@);
    if k < line.len() {
        let key_part = sub_chars(line, 0, k);
        let val_part = sub_chars(line, k + 1, line.len());
        assert(key_part@ =~= line@.take(k as int));
        assert(val_part@ =~= line@.skip(k + 1));
        let key = from_chars(trim_chars(key_part.as_slice()).as_slice());
        let val = from_chars(trim_chars(val_part.as_slice()).as_slice());
        Some((lower(key.as_str()), val))
    } else {
        None
    }
}

/// The value of the last line whose key is `key`.
pub open spec fn last_value(lines: Seq<Seq<char>>, key: Seq<char>) -> Option<Seq<char>>
    decreases lines.len(),
{
    if lines.len() == 0 {
        None
    } else {
        match line_kv(lines.last()) {
            Some(kv) if kv.0 == key => Some(kv.1),
            _ => last_value(lines.drop_last(), key),
        }
    }
}

/// A string field by its view.
pub open spec fn opt_view(o: Option<String>) -> Option<Seq<char>> {
    match o {
        Some(s) => Some(s@),
        None => None,
    }
}

fn last_value_of(lines: &Vec<Vec<char>>, key: &str) -> (r: Option<String>)
    ensures
        opt_view(r) == last_value(lines.deep_view(), key@),
{
    let ghost dv = lines.deep_view();
    let key_cs = to_chars(key);
    let mut i: usize = lines.len();
    assert(dv.take(i as int) =~= dv);
    while i > 0
        invariant
            i <= lines@.len(),
            dv == lines.deep_view(),
            key_cs@ == key@,
            last_value(dv, key@) == last_value(dv.take(i as int), key@),
        decreases i,
    {
        let ghost t = dv.take(i as int);
        assert(t.drop_last() =~= dv.take(i - 1));
        assert(t.last() == lines@[i - 1]@);
        match kv_of(lines[i - 1].as_slice()) {
            Some((k, v)) => {
                let kc = to_chars(k.as_str());
                if chars_eq(kc.as_slice(), key_cs.as_slice()) {
                    return Some(v);
                }
            },
            None => {},
        }
        i = i - 1;
    }
    None
}

/// A number as `u32::from_str` reads it.
pub open spec fn parse_u32_spec(s: Seq<char>) -> Option<u32> {
    match parse_u64_spec(s) {
        Some(n) => if n <= u32::MAX {
            Some(n as u32)
        } else {
            None
        },
        None => None,
    }
}

/// A number field: absent without its line, `Some(None)` when its value
/// does not parse.
pub open spec fn number_field(v: Option<Seq<char>>) -> Option<Option<u32>> {
    match v {
        Some(t) => Some(parse_u32_spec(t)),
        None => None,
    }
}

fn number_of(v: Option<String>) -> (r: Option<Option<u32>>)
    ensures
        r == number_field(opt_view(v)),
{
    match v {
        Some(t) => {
            let cs = to_chars(t.as_str());
            match parse_u64(cs.as_slice()) {
                Some(n) => if n <= 0xffff_ffffu64 {
                    Some(Some(n as u32))
                } else {
                    Some(None)
                },
                None => Some(None),
            }
        },
        None => None,
    }
}

/// The fields a probe's `KEY=value` lines report, the last line of a key
/// winning, with no hint and no error.
pub open spec fn probe_fields_spec(f: ProbeFields, haystack: Seq<char>) -> bool {
    let ls = lines_spec(haystack);
    &&& opt_view(f.hostname) == last_value(ls, "hostname"@)
    &&& opt_view(f.uptime) == last_value(ls, "uptime"@)
    &&& f.disk_root_pct == number_field(last_value(ls, "disk_root"@))
    &&& f.disk_data_pct == number_field(last_value(ls, "disk_data"@))
    &&& f.disk_tmp_pct == number_field(last_value(ls, "disk_tmp"@))
    &&& f.simard_processes == number_field(last_value(ls, "simard_procs"@))
    &&& f.cargo_processes == number_field(last_value(ls, "cargo_procs"@))
    &&& opt_view(f.load_avg) == last_value(ls, "load"@)
    &&& opt_view(f.memory_mb) == last_value(ls, "mem_used"@)
    &&& f.debug_hint is None
    &&& f.error is None
}

/// Reads the probe's `KEY=value` lines (keys compared trimmed and
/// lower-cased, values trimmed; later lines win).
pub fn parse_probe_fields(haystack: &str) -> (f: ProbeFields)
    ensures
        probe_fields_spec(f, haystack@),
{
    let lines = split_lines(to_chars(haystack).as_slice());
    ProbeFields {
        hostname: last_value_of(&lines, "hostname"),
        uptime: last_value_of(&lines, "uptime"),
        disk_root_pct: number_of(last_value_of(&lines, "disk_root")),
        disk_data_pct: number_of(last_value_of(&lines, "disk_data")),
        disk_tmp_pct: number_of(last_value_of(&lines, "disk_tmp")),
        simard_processes: number_of(last_value_of(&lines, "simard_procs")),
        cargo_processes: number_of(last_value_of(&lines, "cargo_procs")),
        load_avg: last_value_of(&lines, "load"),
        memory_mb: last_value_of(&lines, "mem_used"),
        debug_hint: None,
        error: None,
    }
}

/// The text to read the probe from: the ANSI-stripped stdout when it holds
/// the marker, else the stripped stderr when it does, else both joined by a
/// line feed when that does, else nothing.
pub open spec fn haystack_spec(stdout: Seq<char>, stderr: Seq<char>) -> Seq<char> {
    let so = strip_ansi_spec(stdout);
    let se = strip_ansi_spec(stderr);
    let both = so + "\n"@ + se;
    if contains_seq(so, PROBE_MARKER@) {
        so
    } else if contains_seq(se, PROBE_MARKER@) {
        se
    } else if contains_seq(both, PROBE_MARKER@) {
        both
    } else {
        Seq::empty()
    }
}

/// Picks the text to read the probe from (see `haystack_spec`).
pub fn probe_haystack(stdout: &str, stderr: &str) -> (h: String)
    ensures
        h@ == haystack_spec(stdout@, stderr@),
{
    let so = strip_ansi_codes(stdout);
    let se = strip_ansi_codes(stderr);
    let marker = to_chars(PROBE_MARKER);
    let so_c = to_chars(so.as_str());
    let se_c = to_chars(se.as_str());
    if contains_chars(so_c.as_slice(), marker.as_slice()) {
        return so;
    }
    if contains_chars(se_c.as_slice(), marker.as_slice()) {
        return se;
    }
    let mut both = so_c;
    push_str(&mut both, "\n");
    push_all(&mut both, se_c.as_slice());
    proof {
        reveal_strlit("\n");
    }
    if contains_chars(both.as_slice(), marker.as_slice()) {
        from_chars(both.as_slice())
    } else {
        proof {
            reveal_strlit("");
        }
        String::new()
    }
}

/// How running the probe script ended.
pub enum ProbeOutcome {
    Finished { stdout: String, stderr: String },
    SpawnFailed(String),
    JoinFailed(String),
    TimedOut,
}

/// The probe's verdict on the VM: its status and what it reported.
pub struct VmProbe {
    pub status: String,
    pub fields: ProbeFields,
}

/// Nothing reported but the hint and the error given.
pub open spec fn only_notes(f: ProbeFields, hint: Option<Seq<char>>, error: Option<Seq<char>>) -> bool {
    &&& f.hostname is None
    &&& f.uptime is None
    &&& f.disk_root_pct is None
    &&& f.disk_data_pct is None
    &&& f.disk_tmp_pct is None
    &&& f.simard_processes is None
    &&& f.cargo_processes is None
    &&& f.load_avg is None
    &&& f.memory_mb is None
    &&& opt_view(f.debug_hint) == hint
    &&& opt_view(f.error) == error
}

/// The verdict for each way the probe can end: `reachable` with the
/// reported fields when the marker was found, `unreachable` with a hint
/// when it was not, `error` when the script could not be run or joined,
/// `timeout` after 30 s.
pub open spec fn vm_probe_spec(p: VmProbe, o: ProbeOutcome) -> bool {
    match o {
        ProbeOutcome::Finished { stdout, stderr } => {
            let h = haystack_spec(stdout@, stderr@);
            if h.len() > 0 {
                p.status@ == "reachable"@ && probe_fields_spec(p.fields, h)
            } else {
                p.status@ == "unreachable"@ && only_notes(p.fields, Some(PROBE_NOT_FOUND_HINT@), None)
            }
        },
        ProbeOutcome::SpawnFailed(e) => p.status@ == "error"@ && only_notes(
            p.fields,
            None,
            Some("azlin connect failed: "@ + e@),
        ),
        ProbeOutcome::JoinFailed(e) => p.status@ == "error"@ && only_notes(
            p.fields,
            None,
            Some("task join failed: "@ + e@),
        ),
        ProbeOutcome::TimedOut => p.status@ == "timeout"@ && only_notes(
            p.fields,
            None,
            Some("azlin connect timed out after 30s"@),
        ),
    }
}

fn prefixed(prefix: &str, e: &str) -> (r: String)
    ensures
        r@ == prefix@ + e@,
{
    let mut out = to_chars(prefix);
    push_str(&mut out, e);
    from_chars(out.as_slice())
}

fn notes(hint: Option<String>, error: Option<String>) -> (f: ProbeFields)
    ensures
        only_notes(f, opt_view(hint), opt_view(error)),
{
    let mut f = ProbeFields::none();
    f.debug_hint = hint;
    f.error = error;
    f
}

/// The probe's verdict from how its script ended.
pub fn vm_probe(outcome: ProbeOutcome) -> (p: VmProbe)
    ensures
        vm_probe_spec(p, outcome),
{
    match outcome {
        ProbeOutcome::Finished { stdout, stderr } => {
            let h = probe_haystack(stdout.as_str(), stderr.as_str());
            if !h.as_str().is_empty() {
                VmProbe { status: "reachable".to_owned(), fields: parse_probe_fields(h.as_str()) }
            } else {
                VmProbe {
                    status: "unreachable".to_owned(),
                    fields: notes(Some(PROBE_NOT_FOUND_HINT.to_owned()), None),
                }
            }
        },
        ProbeOutcome::SpawnFailed(e) => VmProbe {
            status: "error".to_owned(),
            fields: notes(None, Some(prefixed("azlin connect failed: ", e.as_str()))),
        },
        ProbeOutcome::JoinFailed(e) => VmProbe {
            status: "error".to_owned(),
            fields: notes(None, Some(prefixed("task join failed: ", e.as_str()))),
        },
        ProbeOutcome::TimedOut => VmProbe {
            status: "timeout".to_owned(),
            fields: notes(None, Some("azlin connect timed out after 30s".to_owned())),
        },
    }
}

/// `top` where it is set, `base` elsewhere.
pub open spec fn overlay<T>(base: Option<T>, top: Option<T>) -> Option<T> {
    match top {
        Some(v) => Some(v),
        None => base,
    }
}

fn overlay_opt<T>(base: Option<T>, top: Option<T>) -> (r: Option<T>)
    ensures
        r == overlay(base, top),
{
    match top {
        Some(v) => Some(v),
        None => base,
    }
}

/// The fields of `base` with those `top` reports written over them.
pub open spec fn overlay_fields(base: ProbeFields, top: ProbeFields) -> ProbeFields {
    ProbeFields {
        hostname: overlay(base.hostname, top.hostname),
        uptime: overlay(base.uptime, top.uptime),
        disk_root_pct: overlay(base.disk_root_pct, top.disk_root_pct),
        disk_data_pct: overlay(base.disk_data_pct, top.disk_data_pct),
        disk_tmp_pct: overlay(base.disk_tmp_pct, top.disk_tmp_pct),
        simard_processes: overlay(base.simard_processes, top.simard_processes),
        cargo_processes: overlay(base.cargo_processes, top.cargo_processes),
        load_avg: overlay(base.load_avg, top.load_avg),
        memory_mb: overlay(base.memory_mb, top.memory_mb),
        debug_hint: overlay(base.debug_hint, top.debug_hint),
        error: overlay(base.error, top.error),
    }
}

fn overlay_all(base: ProbeFields, top: ProbeFields) -> (r: ProbeFields)
    ensures
        r == overlay_fields(base, top),
{
    ProbeFields {
        hostname: overlay_opt(base.hostname, top.hostname),
        uptime: overlay_opt(base.uptime, top.uptime),
        disk_root_pct: overlay_opt(base.disk_root_pct, top.disk_root_pct),
        disk_data_pct: overlay_opt(base.disk_data_pct, top.disk_data_pct),
        disk_tmp_pct: overlay_opt(base.disk_tmp_pct, top.disk_tmp_pct),
        simard_processes: overlay_opt(base.simard_processes, top.simard_processes),
        cargo_processes: overlay_opt(base.cargo_processes, top.cargo_processes),
        load_avg: overlay_opt(base.load_avg, top.load_avg),
        memory_mb: overlay_opt(base.memory_mb, top.memory_mb),
        debug_hint: overlay_opt(base.debug_hint, top.debug_hint),
        error: overlay_opt(base.error, top.error),
    }
}

/// Writes the probe's verdict into the first entry named `Simard`: its
/// status, and every field the probe reports; name and resource group stay.
/// Other entries, and all entries when none has that name, are unchanged.
pub fn apply_probe(vms: &mut Vec<RemoteVm>, probe: VmProbe)
    ensures
        final(vms)@.len() == old(vms)@.len(),
        forall|j: int|
            0 <= j < old(vms)@.len() ==> if (forall|m: int| 0 <= m < j ==> (#[trigger] old(vms)@[m]).vm_name@
                != PROBE_VM_NAME@) && old(vms)@[j].vm_name@ == PROBE_VM_NAME@ {
                &&& (#[trigger] final(vms)@[j]).vm_name == old(vms)@[j].vm_name
                &&& final(vms)@[j].resource_group == old(vms)@[j].resource_group
                &&& final(vms)@[j].status == probe.status
                &&& final(vms)@[j].fields == overlay_fields(old(vms)@[j].fields, probe.fields)
            } else {
                final(vms)@[j] == old(vms)@[j]
            },
{
    let target = to_chars(PROBE_VM_NAME);
    let mut i: usize = 0;
    while i < vms.len()
        invariant
            i <= vms@.len(),
            vms@ == old(vms)@,
            target@ == PROBE_VM_NAME@,
            forall|m: int| 0 <= m < i ==> (#[trigger] vms@[m]).vm_name@ != PROBE_VM_NAME@,
        decreases vms@.len() - i,
    {
        let name = to_chars(vms[i].vm_name.as_str());
        if chars_eq(name.as_slice(), target.as_slice()) {
            let e = vms.remove(i);
            let updated = RemoteVm {
                vm_name: e.vm_name,
                resource_group: e.resource_group,
                status: probe.status,
                fields: overlay_all(e.fields, probe.fields),
            };
            vms.insert(i, updated);
            assert forall|j: int| 0 <= j < old(vms)@.len() && j != i implies vms@[j] == old(vms)@[j] by {
                if j < i {
                } else {
                }
            }
            return;
        }
        i = i + 1;
    }
}


// ---------------------------------------------------------------------------
// Vacating a VM
// ---------------------------------------------------------------------------

/// Error body when a vacate request names no VM.
pub const VM_NAME_REQUIRED: &'static str = "vm_name is required";

/// The line the vacate script prints on success.
pub const VACATE_OK_MARKER: &'static str = "VACATE_STATUS=ok";

/// The prefix of the vacate script's count of remaining processes.
pub const REMAINING_PREFIX: &'static str = "REMAINING_PROCS=";

/// Longest part of the script's stdout quoted in an error, in bytes.
pub const VACATE_STDOUT_QUOTE_BYTES: usize = 500;

/// What follows `prefix` on the first line that starts with it.
pub open spec fn first_after_prefix(lines: Seq<Seq<char>>, prefix: Seq<char>) -> Option<Seq<char>>
    decreases lines.len(),
{
    if lines.len() == 0 {
        None
    } else if has_prefix(lines[0], prefix) {
        Some(lines[0].skip(prefix.len() as int))
    } else {
        first_after_prefix(lines.skip(1), prefix)
    }
}

/// Whether the byte at `limit` of `s` starts a character (or `s` is no
/// longer than `limit` bytes): where `str` slicing at `limit` is allowed.
pub open spec fn byte_cut_ok(s: Seq<char>, limit: nat) -> bool {
    utf8_len(s) <= limit || utf8_len(utf8_prefix(s, limit)) == limit
}

/// What the vacate script's output says: on success (the marker anywhere in
/// stdout and stderr joined by a line feed) the count on the first
/// `REMAINING_PROCS=` line, 0 when missing or unreadable; otherwise an error
/// quoting the first 500 bytes of stdout.
pub open spec fn vacate_script_spec(stdout: Seq<char>, stderr: Seq<char>) -> Result<u32, Seq<char>> {
    let combined = stdout + "\n"@ + stderr;
    if contains_seq(combined, VACATE_OK_MARKER@) {
        Ok(
            match first_after_prefix(lines_spec(combined), REMAINING_PREFIX@) {
                Some(v) => match parse_u32_spec(trim_seq(v)) {
                    Some(n) => n,
                    None => 0,
                },
                None => 0,
            },
        )
    } else {
        Err(
            "vacate script did not report success. stdout: "@ + utf8_prefix(
                stdout,
                VACATE_STDOUT_QUOTE_BYTES as nat,
            ),
        )
    }
}

fn first_after_prefix_of(lines: &Vec<Vec<char>>, prefix: &[char]) -> (r: Option<Vec<char>>)
    ensures
        match r {
            Some(v) => first_after_prefix(lines.deep_view(), prefix@) == Some(v@),
            None => first_after_prefix(lines.deep_view(), prefix@) is None,
        },
{
    let ghost dv = lines.deep_view();
    let mut i: usize = 0;
    assert(dv.skip(0) =~= dv);
    while i < lines.len()
        invariant
            i <= lines@.len(),
            dv == lines.deep_view(),
            first_after_prefix(dv, prefix@) == first_after_prefix(dv.skip(i as int), prefix@),
        decreases lines@.len() - i,
    {
        let ghost t = dv.skip(i as int);
        assert(t[0] == lines@[i as int]@);
        assert(t.skip(1) =~= dv.skip(i + 1));
        let line = &lines[i];
        if starts_with(line.as_slice(), prefix) {
            let rest = sub_chars(line.as_slice(), prefix.len(), line.len());
            assert(rest@ =~= t[0].skip(prefix@.len() as int));
            return Some(rest);
        }
        i = i + 1;
    }
    None
}

/// Reads the vacate script's output (see `vacate_script_spec`).
pub fn vacate_script_result(stdout: &str, stderr: &str) -> (r: Result<u32, String>)
    requires
        !contains_seq(stdout@ + "\n"@ + stderr@, VACATE_OK_MARKER@) ==> byte_cut_ok(
            stdout@,
            VACATE_STDOUT_QUOTE_BYTES as nat,
        ),
    ensures
        match vacate_script_spec(stdout@, stderr@) {
            Ok(n) => r == Ok::<u32, String>(n),
            Err(e) => r matches Err(m) && m@ == e,
        },
{
    proof {
        reveal_strlit("\n");
    }
    let out_c = to_chars(stdout);
    let mut combined = to_chars(stdout);
    push_str(&mut combined, "\n");
    push_str(&mut combined, stderr);
    let marker = to_chars(VACATE_OK_MARKER);
    if contains_chars(combined.as_slice(), marker.as_slice()) {
        let lines = split_lines(combined.as_slice());
        let prefix = to_chars(REMAINING_PREFIX);
        let n: u32 = match first_after_prefix_of(&lines, prefix.as_slice()) {
            Some(v) => {
                let t = trim_chars(v.as_slice());
                match parse_u64(t.as_slice()) {
                    Some(x) => if x <= 0xffff_ffffu64 {
                        x as u32
                    } else {
                        0
                    },
                    None => 0,
                }
            },
            None => 0,
        };
        Ok(n)
    } else {
        let mut msg = to_chars("vacate script did not report success. stdout: ");
        let quoted = utf8_truncate(out_c.as_slice(), VACATE_STDOUT_QUOTE_BYTES);
        push_all(&mut msg, quoted.as_slice());
        Err(from_chars(msg.as_slice()))
    }
}

/// How running the vacate script ended.
pub enum VacateRun {
    Finished { stdout: String, stderr: String },
    SpawnFailed(String),
    JoinFailed(String),
    TimedOut,
}

/// The remaining-process count of a vacate run, or its error text.
pub open spec fn vacate_run_spec(run: VacateRun) -> Result<u32, Seq<char>> {
    match run {
        VacateRun::Finished { stdout, stderr } => vacate_script_spec(stdout@, stderr@),
        VacateRun::SpawnFailed(e) => Err("Failed to run azlin connect: "@ + e@),
        VacateRun::JoinFailed(e) => Err("task join error: "@ + e@),
        VacateRun::TimedOut => Err("Vacate timed out after 60s — the VM may be unreachable"@),
    }
}

/// The remaining-process count of a vacate run, or its error text.
pub fn vacate_run_result(run: VacateRun) -> (r: Result<u32, String>)
    requires
        run matches VacateRun::Finished { stdout, stderr } ==> (!contains_seq(
            stdout@ + "\n"@ + stderr@,
            VACATE_OK_MARKER@,
        ) ==> byte_cut_ok(stdout@, VACATE_STDOUT_QUOTE_BYTES as nat)),
    ensures
        match vacate_run_spec(run) {
            Ok(n) => r == Ok::<u32, String>(n),
            Err(e) => r matches Err(m) && m@ == e,
        },
{
    match run {
        VacateRun::Finished { stdout, stderr } => vacate_script_result(stdout.as_str(), stderr.as_str()),
        VacateRun::SpawnFailed(e) => Err(prefixed("Failed to run azlin connect: ", e.as_str())),
        VacateRun::JoinFailed(e) => Err(prefixed("task join error: ", e.as_str())),
        VacateRun::TimedOut => Err("Vacate timed out after 60s — the VM may be unreachable".to_owned()),
    }
}

/// The message after a vacate: all stopped, or how many still run.
pub open spec fn vacate_message_spec(vm_name: Seq<char>, remaining: u32) -> Seq<char> {
    if remaining == 0 {
        "All processes stopped on "@ + vm_name + "."@
    } else {
        decimal(remaining as nat) + " process(es) still running on "@ + vm_name
            + " — may need manual cleanup."@
    }
}

/// The message after a vacate: all stopped, or how many still run.
pub fn vacate_message(vm_name: &str, remaining: u32) -> (m: String)
    ensures
        m@ == vacate_message_spec(vm_name@, remaining),
{
    let mut out: Vec<char> = Vec::new();
    if remaining == 0 {
        push_str(&mut out, "All processes stopped on ");
        push_str(&mut out, vm_name);
        push_str(&mut out, ".");
    } else {
        push_decimal(&mut out, remaining as u64);
        push_str(&mut out, " process(es) still running on ");
        push_str(&mut out, vm_name);
        push_str(&mut out, " — may need manual cleanup.");
    }
    from_chars(out.as_slice())
}

/// The message when the vacate worked but the host list could not be saved.
pub open spec fn vacate_partial_spec(vm_name: Seq<char>, remaining: u32, error: Seq<char>) -> Seq<char> {
    "Vacate succeeded on "@ + vm_name + " ("@ + decimal(remaining as nat)
        + " process(es) remaining) but failed to update hosts file: "@ + error
        + ". Manual cleanup of ~/.simard/hosts.json may be needed."@
}

/// The message when the vacate worked but the host list could not be saved.
pub fn vacate_partial_message(vm_name: &str, remaining: u32, error: &str) -> (m: String)
    ensures
        m@ == vacate_partial_spec(vm_name@, remaining, error@),
{
    let mut out = to_chars("Vacate succeeded on ");
    push_str(&mut out, vm_name);
    push_str(&mut out, " (");
    push_decimal(&mut out, remaining as u64);
    push_str(&mut out, " process(es) remaining) but failed to update hosts file: ");
    push_str(&mut out, error);
    push_str(&mut out, ". Manual cleanup of ~/.simard/hosts.json may be needed.");
    from_chars(out.as_slice())
}


proof fn lemma_skip_csi_suffix(t: Seq<char>)
    ensures
        skip_csi(t).len() <= t.len(),
        skip_csi(t) == t.skip(t.len() - skip_csi(t).len()),
    decreases t.len(),
{
    if t.len() == 0 {
        assert(t.skip(0) =~= t);
    } else if is_csi_final(t[0]) {
    } else {
        lemma_skip_csi_suffix(t.skip(1));
        assert(t.skip(1).skip(t.skip(1).len() - skip_csi(t.skip(1)).len()) =~= t.skip(
            t.len() - skip_csi(t.skip(1)).len(),
        ));
    }
}

proof fn lemma_skip_osc_suffix(t: Seq<char>)
    ensures
        skip_osc(t).len() <= t.len(),
        skip_osc(t) == t.skip(t.len() - skip_osc(t).len()),
    decreases t.len(),
{
    if t.len() == 0 {
        assert(t.skip(0) =~= t);
    } else if t[0] == '\x07' {
    } else if t[0] == '\x1b' {
        let u = t.skip(1);
        if u.len() > 0 && u[0] == '\\' {
            assert(u.skip(1) =~= t.skip(2));
        }
    } else {
        lemma_skip_osc_suffix(t.skip(1));
        assert(t.skip(1).skip(t.skip(1).len() - skip_osc(t.skip(1)).len()) =~= t.skip(
            t.len() - skip_osc(t.skip(1)).len(),
        ));
    }
}

/// `f` lists, in increasing order, positions of `b` holding the characters
/// of `a` one by one.
pub open spec fn embeds(a: Seq<char>, b: Seq<char>, f: Seq<int>) -> bool {
    &&& f.len() == a.len()
    &&& forall|i: int| 0 <= i < a.len() ==> 0 <= #[trigger] f[i] < b.len() && a[i] == b[f[i]]
    &&& forall|i: int, j: int| 0 <= i < j < a.len() ==> #[trigger] f[i] < #[trigger] f[j]
}

/// `a` is `b` with some characters left out.
pub open spec fn is_subsequence(a: Seq<char>, b: Seq<char>) -> bool {
    exists|f: Seq<int>| embeds(a, b, f)
}

/// `s` holds no ESC and no carriage return.
pub open spec fn ansi_clean(s: Seq<char>) -> bool {
    forall|i: int| 0 <= i < s.len() ==> #[trigger] s[i] != '\x1b' && s[i] != '\r'
}

proof fn lemma_embeds_extend(a: Seq<char>, b: Seq<char>, f: Seq<int>, c: Seq<char>)
    requires
        embeds(a, b, f),
    ensures
        embeds(a, b + c, f),
{
    assert forall|i: int| 0 <= i < a.len() implies 0 <= #[trigger] f[i] < (b + c).len() && a[i] == (b
        + c)[f[i]] by {}
}

proof fn lemma_fold_embeds(s: Seq<char>, out: Seq<char>, p: Seq<char>, f: Seq<int>) -> (g: Seq<int>)
    requires
        embeds(out, p, f),
    ensures
        embeds(ansi_fold(s, out), p + s, g),
    decreases s.len(),
{
    if s.len() == 0 {
        assert(p + s =~= p);
        f
    } else if s[0] == '\x1b' {
        let t = s.skip(1);
        let rest = if t.len() > 0 && t[0] == '[' {
            lemma_skip_csi_suffix(t.skip(1));
            skip_csi(t.skip(1))
        } else if t.len() > 0 && t[0] == ']' {
            lemma_skip_osc_suffix(t.skip(1));
            skip_osc(t.skip(1))
        } else if t.len() > 0 {
            t.skip(1)
        } else {
            t
        };
        assert(ansi_fold(s, out) == ansi_fold(rest, out));
        let k = s.len() - rest.len();
        assert(rest =~= s.skip(k));
        let p2 = p + s.take(k);
        lemma_embeds_extend(out, p, f, s.take(k));
        let g = lemma_fold_embeds(rest, out, p2, f);
        assert(p2 + rest =~= p + s);
        g
    } else if s[0] == '\r' {
        let p2 = p + s.take(1);
        lemma_embeds_extend(out, p, f, s.take(1));
        let g = lemma_fold_embeds(s.skip(1), out, p2, f);
        assert(p2 + s.skip(1) =~= p + s);
        g
    } else {
        let p2 = p.push(s[0]);
        let o2 = out.push(s[0]);
        let f2 = f.push(p.len() as int);
        assert forall|i: int| 0 <= i < o2.len() implies 0 <= #[trigger] f2[i] < p2.len() && o2[i]
            == p2[f2[i]] by {
            if i < out.len() {
                assert(f2[i] == f[i]);
            }
        }
        assert forall|i: int, j: int| 0 <= i < j < o2.len() implies #[trigger] f2[i] < #[trigger] f2[j] by {
            if j < out.len() {
                assert(f2[i] == f[i] && f2[j] == f[j]);
            } else {
                assert(f2[i] == f[i]);
            }
        }
        assert(embeds(o2, p2, f2));
        let g = lemma_fold_embeds(s.skip(1), o2, p2, f2);
        assert(p2 + s.skip(1) =~= p + s);
        g
    }
}

proof fn lemma_fold_clean(s: Seq<char>, out: Seq<char>)
    requires
        ansi_clean(s),
    ensures
        ansi_fold(s, out) == out + s,
    decreases s.len(),
{
    if s.len() == 0 {
        assert(out + s =~= out);
    } else {
        assert(s[0] != '\x1b' && s[0] != '\r');
        assert forall|i: int| 0 <= i < s.skip(1).len() implies #[trigger] s.skip(1)[i] != '\x1b' && s.skip(1)[i]
            != '\r' by {
            assert(s.skip(1)[i] == s[i + 1]);
        }
        lemma_fold_clean(s.skip(1), out.push(s[0]));
        assert(out.push(s[0]) + s.skip(1) =~= out + s);
    }
}

/// Law: stripping only leaves characters out (the output is a subsequence
/// of the input), leaves text without ESC or carriage return unchanged, and
/// changes nothing when run a second time.
pub proof fn lemma_strip_ansi_laws(s: Seq<char>)
    ensures
        is_subsequence(strip_ansi_spec(s), s),
        ansi_clean(s) ==> strip_ansi_spec(s) == s,
        strip_ansi_spec(strip_ansi_spec(s)) == strip_ansi_spec(s),
{
    let e = Seq::<char>::empty();
    let g = lemma_fold_embeds(s, e, e, Seq::<int>::empty());
    assert(e + s =~= s);
    assert(embeds(strip_ansi_spec(s), s, g));
    if ansi_clean(s) {
        lemma_fold_clean(s, e);
        assert(e + s =~= s);
    }
    strip_ansi_output_is_clean(s);
    let t = strip_ansi_spec(s);
    assert forall|i: int| 0 <= i < t.len() implies #[trigger] t[i] != '\x1b' && t[i] != '\r' by {}
    lemma_fold_clean(t, e);
    assert(e + t =~= t);
}

} // verus!
