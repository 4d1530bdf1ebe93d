//! Durable, resumable chat sessions for the dashboard's Chat tab.
//!
//! Sessions live under `<state_root>/chat_sessions/`: `index.json` holds
//! every session's metadata, `<session_id>.json` one session's full,
//! uncapped history. Every session id is checked against
//! `^[A-Za-z0-9_-]{1,64}$` before any path is built from it. A session is
//! created on its first turn, titled from that turn's text; `created_at` is
//! set once and `updated_at` follows the latest turn.
//!
//! Reading and writing the files is the caller's part; this module decides
//! the paths, the new session and index contents, and the listing order.

use vstd::prelude::*;
use crate::agent_log::{is_valid_name, matches_name_pattern};
use crate::text::{from_chars, join_path, path_join, push_str, sub_chars, to_chars};

verus! {

/// Version of the on-disk session and index envelopes.
pub const SCHEMA_VERSION: u32 = 1;

/// Subdirectory of the state root that holds every chat session.
pub const CHAT_SESSIONS_DIR: &'static str = "chat_sessions";

/// Most characters of the first message kept in a session title.
pub const TITLE_MAX_CHARS: usize = 60;

/// Who spoke a turn.
#[derive(Clone, Copy, Debug, PartialEq, Eq, Structural)]
pub enum Role {
    User,
    Assistant,
}

/// One conversation turn.
pub struct ConversationMessage {
    pub role: Role,
    pub content: String,
    /// RFC 3339 time of the turn.
    pub timestamp: String,
}

/// Metadata of one chat session.
pub struct ChatSessionMeta {
    /// Session id, matching `^[A-Za-z0-9_-]{1,64}$`.
    pub id: String,
    /// Title taken from the first message (its timestamp when it is empty).
    pub title: String,
    /// RFC 3339 time of the first turn; never changes.
    pub created_at: String,
    /// RFC 3339 time of the latest turn.
    pub updated_at: String,
}

/// One session: metadata plus the complete turn history.
pub struct ChatSession {
    pub schema_version: u32,
    pub meta: ChatSessionMeta,
    pub history: Vec<ConversationMessage>,
}

/// The `index.json` envelope: every session's metadata.
pub struct ChatSessionIndex {
    pub schema_version: u32,
    pub sessions: Vec<ChatSessionMeta>,
}

impl ChatSessionIndex {
    /// An empty index at the current schema version.
    pub fn new() -> (r: ChatSessionIndex)
        ensures
            r.schema_version == SCHEMA_VERSION,
            r.sessions@.len() == 0,
    {
        ChatSessionIndex { schema_version: SCHEMA_VERSION, sessions: Vec::new() }
    }
}

/// Why a chat-store request was refused.
pub enum ChatStoreError {
    /// The session id fails `^[A-Za-z0-9_-]{1,64}$`.
    InvalidSessionId { value: String, reason: String },
}

fn copy_string(s: &String) -> (r: String)
    ensures
        r == *s,
{
    s.clone()
}

fn copy_meta(m: &ChatSessionMeta) -> (r: ChatSessionMeta)
    ensures
        r == *m,
{
    ChatSessionMeta {
        id: copy_string(&m.id),
        title: copy_string(&m.title),
        created_at: copy_string(&m.created_at),
        updated_at: copy_string(&m.updated_at),
    }
}

fn copy_message(m: &ConversationMessage) -> (r: ConversationMessage)
    ensures
        r == *m,
{
    ConversationMessage {
        role: m.role,
        content: copy_string(&m.content),
        timestamp: copy_string(&m.timestamp),
    }
}

// ---------------------------------------------------------------------------
// Session ids and paths
// ---------------------------------------------------------------------------

/// Whether `id` matches `^[A-Za-z0-9_-]{1,64}$`, the only ids that may reach
/// a file path.
pub fn validate_session_id(id: &str) -> (b: bool)
    ensures
        b == is_valid_name(id@),
{
    matches_name_pattern(id)
}

/// The error for an id that fails the guard.
pub fn invalid_session_id_err(id: &str) -> (e: ChatStoreError)
    ensures
        e matches ChatStoreError::InvalidSessionId { value, reason } && value@ == id@ && reason@
            == "must match ^[A-Za-z0-9_-]{1,64}$"@,
{
    ChatStoreError::InvalidSessionId {
        value: id.to_owned(),
        reason: "must match ^[A-Za-z0-9_-]{1,64}$".to_owned(),
    }
}

/// The directory holding every session: `<state_root>/chat_sessions`.
pub fn chat_sessions_dir(state_root: &str) -> (r: String)
    ensures
        r@ == path_join(state_root@, CHAT_SESSIONS_DIR@),
{
    join_path(state_root, to_chars(CHAT_SESSIONS_DIR).as_slice())
}

/// The file of session `id` in `dir`: `<dir>/<id>.json`.
pub fn session_path(dir: &str, id: &str) -> (r: String)
    ensures
        r@ == path_join(dir@, id@ + ".json"@),
{
    let mut name = to_chars(id);
    push_str(&mut name, ".json");
    join_path(dir, name.as_slice())
}

/// The index file in `dir`: `<dir>/index.json`.
pub fn index_path(dir: &str) -> (r: String)
    ensures
        r@ == path_join(dir@, "index.json"@),
{
    join_path(dir, to_chars("index.json").as_slice())
}

/// Where session `id` is stored under `state_root`, the id checked before
/// any path is built: an invalid id is refused with `InvalidSessionId`. The
/// session is then read from that file; an absent file means no such
/// session.
pub fn load_session_at(state_root: &str, id: &str) -> (r: Result<String, ChatStoreError>)
    ensures
        is_valid_name(id@) ==> (r matches Ok(p) && p@ == path_join(
            path_join(state_root@, CHAT_SESSIONS_DIR@),
            id@ + ".json"@,
        )),
        !is_valid_name(id@) ==> (r matches Err(ChatStoreError::InvalidSessionId { value, .. })
            && value@ == id@),
{
    if !validate_session_id(id) {
        return Err(invalid_session_id_err(id));
    }
    let dir = chat_sessions_dir(state_root);
    Ok(session_path(dir.as_str(), id))
}

// ---------------------------------------------------------------------------
// Listing, newest first
// ---------------------------------------------------------------------------

/// `a` is at most `b` in lexicographic character order (the order of
/// `str::cmp`, since UTF-8 byte order follows code points).
pub open spec fn text_le(a: Seq<char>, b: Seq<char>) -> bool
    decreases a.len(),
{
    if a.len() == 0 {
        true
    } else if b.len() == 0 {
        false
    } else if a[0] != b[0] {
        a[0] < b[0]
    } else {
        text_le(a.skip(1), b.skip(1))
    }
}

/// Compares two texts in the order of `text_le`.
pub fn chars_le(a: &[char], b: &[char]) -> (r: bool)
    ensures
        r == text_le(a@, b@),
{
    let mut i: usize = 0;
    assert(a@.skip(0) =~= a@);
    assert(b@.skip(0) =~= b@);
    while i < a.len() && i < b.len() && a[i] == b[i]
        invariant
            i <= a.len(),
            i <= b.len(),
            text_le(a@, b@) == text_le(a@.skip(i as int), b@.skip(i as int)),
        decreases a.len() - i,
    {
        assert(a@.skip(i as int).skip(1) =~= a@.skip(i + 1));
        assert(b@.skip(i as int).skip(1) =~= b@.skip(i + 1));
        i = i + 1;
    }
    if i == a.len() {
        true
    } else if i == b.len() {
        false
    } else {
        assert(a@.skip(i as int)[0] == a@[i as int]);
        assert(b@.skip(i as int)[0] == b@[i as int]);
        a[i] < b[i]
    }
}

/// `m` is at least as recent as `n` (by `updated_at`).
pub open spec fn not_older(m: ChatSessionMeta, n: ChatSessionMeta) -> bool {
    text_le(n.updated_at@, m.updated_at@)
}

/// `x` inserted into the newest-first list `s` after every entry at least as
/// recent as it, so that equally recent entries keep their order.
pub open spec fn insert_newest_first(s: Seq<ChatSessionMeta>, x: ChatSessionMeta) -> Seq<ChatSessionMeta>
    decreases s.len(),
{
    if s.len() == 0 {
        seq![x]
    } else if not_older(s[0], x) {
        seq![s[0]] + insert_newest_first(s.skip(1), x)
    } else {
        seq![x] + s
    }
}

/// `s` stably sorted newest first by `updated_at`.
pub open spec fn newest_first(s: Seq<ChatSessionMeta>) -> Seq<ChatSessionMeta>
    decreases s.len(),
{
    if s.len() == 0 {
        s
    } else {
        insert_newest_first(newest_first(s.drop_last()), s.last())
    }
}

fn insert_sorted(v: &mut Vec<ChatSessionMeta>, x: ChatSessionMeta)
    ensures
        final(v)@ == insert_newest_first(old(v)@, x),
{
    let xk = to_chars(x.updated_at.as_str());
    let mut k: usize = 0;
    assert(v@.skip(0) =~= v@);
    loop
        invariant
            k <= v.len(),
            v@ == old(v)@,
            xk@ == x.updated_at@,
            insert_newest_first(old(v)@, x) == v@.take(k as int) + insert_newest_first(
                v@.skip(k as int),
                x,
            ),
        ensures
            k <= v.len(),
            v@ == old(v)@,
            insert_newest_first(old(v)@, x) == v@.take(k as int) + seq![x] + v@.skip(k as int),
        decreases v.len() - k,
    {
        if k == v.len() {
            assert(v@.skip(k as int) =~= Seq::<ChatSessionMeta>::empty());
            break;
        }
        let kk = to_chars(v[k].updated_at.as_str());
        let ghost rest = v@.skip(k as int);
        assert(rest[0] == v@[k as int]);
        if chars_le(xk.as_slice(), kk.as_slice()) {
            assert(rest.skip(1) =~= v@.skip(k + 1));
            assert(v@.take(k + 1) =~= v@.take(k as int) + seq![rest[0]]);
            k = k + 1;
        } else {
            break;
        }
    }
    v.insert(k, x);
    assert(v@ =~= old(v)@.take(k as int) + seq![x] + old(v)@.skip(k as int));
}

/// Every session's metadata, newest first: sorted by `updated_at`
/// descending, equally recent sessions in index order. (RFC 3339 UTC stamps
/// of one shape sort chronologically as text.)
pub fn list_sessions_at(index: ChatSessionIndex) -> (r: Vec<ChatSessionMeta>)
    ensures
        r@ == newest_first(index.sessions@),
{
    let mut input = index.sessions;
    let ghost s = input@;
    let mut out: Vec<ChatSessionMeta> = Vec::new();
    let mut i: usize = 0;
    let n = input.len();
    assert(s.len() == n);
    while input.len() > 0
        invariant
            s.len() <= usize::MAX,
            i + input@.len() == s.len(),
            input@ == s.skip(i as int),
            out@ == newest_first(s.take(i as int)),
        decreases input@.len(),
    {
        let x = input.remove(0);
        assert(s.take(i + 1).drop_last() =~= s.take(i as int));
        assert(s.take(i + 1).last() == x);
        assert(input@ =~= s.skip(i + 1));
        insert_sorted(&mut out, x);
        i = i + 1;
    }
    assert(s.take(i as int) =~= s);
    out
}

// ---------------------------------------------------------------------------
// Appending a turn
// ---------------------------------------------------------------------------

/// `s` cut to `max` characters with a trailing ellipsis when longer.
pub open spec fn truncate_with_ellipsis_spec(s: Seq<char>, max: nat) -> Seq<char> {
    if s.len() <= max {
        s
    } else {
        s.take(max as int).push('\u{2026}')
    }
}

/// `s` cut to `max` characters with a trailing ellipsis when longer.
pub fn truncate_with_ellipsis(s: &str, max: usize) -> (r: String)
    ensures
        r@ == truncate_with_ellipsis_spec(s@, max as nat),
{
    let cs = to_chars(s);
    if cs.len() <= max {
        return s.to_owned();
    }
    let mut head = sub_chars(cs.as_slice(), 0, max);
    assert(cs@.subrange(0, max as int) =~= s@.take(max as int));
    head.push('\u{2026}');
    from_chars(head.as_slice())
}

/// A session's title: the first message cut to sixty characters with an
/// ellipsis, or the creation time when the message is empty.
pub open spec fn derive_title_spec(first_content: Seq<char>, created_at: Seq<char>) -> Seq<char> {
    if first_content.len() == 0 {
        created_at
    } else {
        truncate_with_ellipsis_spec(first_content, TITLE_MAX_CHARS as nat)
    }
}

/// A session's title from its first message.
pub fn derive_title(first_content: &str, created_at: &str) -> (r: String)
    ensures
        r@ == derive_title_spec(first_content@, created_at@),
{
    if first_content.is_empty() {
        created_at.to_owned()
    } else {
        truncate_with_ellipsis(first_content, TITLE_MAX_CHARS)
    }
}

/// Position of the first entry with id `id`, or the length when none has.
pub open spec fn find_session(s: Seq<ChatSessionMeta>, id: Seq<char>) -> int
    decreases s.len(),
{
    if s.len() == 0 {
        0
    } else if s[0].id@ == id {
        0
    } else {
        1 + find_session(s.skip(1), id)
    }
}

/// `s` with the entry for `m.id` replaced by `m`, or `m` appended when the
/// id is new.
pub open spec fn upsert_spec(s: Seq<ChatSessionMeta>, m: ChatSessionMeta) -> Seq<ChatSessionMeta> {
    let k = find_session(s, m.id@);
    if k < s.len() {
        s.update(k, m)
    } else {
        s.push(m)
    }
}

proof fn lemma_find_session(s: Seq<ChatSessionMeta>, id: Seq<char>)
    ensures
        0 <= find_session(s, id) <= s.len(),
        forall|j: int| 0 <= j < find_session(s, id) ==> (#[trigger] s[j]).id@ != id,
        find_session(s, id) < s.len() ==> s[find_session(s, id)].id@ == id,
    decreases s.len(),
{
    if s.len() > 0 && s[0].id@ != id {
        lemma_find_session(s.skip(1), id);
        assert forall|j: int| 0 <= j < find_session(s, id) implies (#[trigger] s[j]).id@ != id by {
            if j > 0 {
                assert(s[j] == s.skip(1)[j - 1]);
            }
        }
    }
}

/// The index with `meta` upserted: the entry with its id replaced, or
/// `meta` appended when the id is new.
pub fn upsert_index(index: &mut ChatSessionIndex, meta: &ChatSessionMeta)
    ensures
        final(index).sessions@ == upsert_spec(old(index).sessions@, *meta),
        final(index).schema_version == old(index).schema_version,
{
    let id = to_chars(meta.id.as_str());
    let mut k: usize = 0;
    proof {
        lemma_find_session(index.sessions@, meta.id@);
    }
    while k < index.sessions.len()
        invariant
            k <= index.sessions.len(),
            index.sessions@ == old(index).sessions@,
            index.schema_version == old(index).schema_version,
            id@ == meta.id@,
            0 <= find_session(index.sessions@, meta.id@) <= index.sessions@.len(),
            forall|j: int| 0 <= j < k ==> (#[trigger] index.sessions@[j]).id@ != meta.id@,
            forall|j: int|
                0 <= j < find_session(index.sessions@, meta.id@) ==> (
                #[trigger] index.sessions@[j]).id@ != meta.id@,
            find_session(index.sessions@, meta.id@) < index.sessions@.len() ==> index.sessions@[find_session(
                index.sessions@,
                meta.id@,
            )].id@ == meta.id@,
        decreases index.sessions.len() - k,
    {
        let e = to_chars(index.sessions[k].id.as_str());
        if crate::text::chars_eq(e.as_slice(), id.as_slice()) {
            assert(find_session(index.sessions@, meta.id@) == k);
            index.sessions.set(k, copy_meta(meta));
            return;
        }
        k = k + 1;
    }
    assert(find_session(index.sessions@, meta.id@) == index.sessions@.len());
    index.sessions.push(copy_meta(meta));
}

/// The session after appending `message`: the stored one, or a new one
/// titled from the message and created at its time; `updated_at` becomes
/// the message's time and the message joins the history.
pub open spec fn next_session(
    id: Seq<char>,
    stored: Option<ChatSession>,
    message: ConversationMessage,
) -> (Seq<char>, Seq<char>, Seq<char>, Seq<char>, Seq<ConversationMessage>, u32) {
    match stored {
        Some(s) => (
            s.meta.id@,
            s.meta.title@,
            s.meta.created_at@,
            message.timestamp@,
            s.history@.push(message),
            s.schema_version,
        ),
        None => (
            id,
            derive_title_spec(message.content@, message.timestamp@),
            message.timestamp@,
            message.timestamp@,
            seq![message],
            SCHEMA_VERSION,
        ),
    }
}

/// What appending a turn writes: the session file first, then the index.
pub struct TurnWrite {
    pub session_path: String,
    pub session: ChatSession,
    pub index_path: String,
    pub index: ChatSessionIndex,
}

/// Appends one turn to session `id`, creating it on its first turn.
/// `stored` is the session read from its file (`None` when absent) and
/// `index` the index read from `index.json` (empty when absent). An invalid
/// id is refused before any path is built and nothing is to be written.
/// Otherwise the result holds the full, uncapped session and the index with
/// the session's metadata upserted, each with the file it goes to.
pub fn append_turn_at(
    state_root: &str,
    id: &str,
    message: &ConversationMessage,
    stored: Option<ChatSession>,
    index: ChatSessionIndex,
) -> (r: Result<TurnWrite, ChatStoreError>)
    ensures
        !is_valid_name(id@) ==> (r matches Err(ChatStoreError::InvalidSessionId { value, .. })
            && value@ == id@),
        is_valid_name(id@) ==> (r matches Ok(w) && {
            let n = next_session(id@, stored, *message);
            &&& w.session_path@ == path_join(path_join(state_root@, CHAT_SESSIONS_DIR@), id@ + ".json"@)
            &&& w.index_path@ == path_join(path_join(state_root@, CHAT_SESSIONS_DIR@), "index.json"@)
            &&& (w.session.meta.id@, w.session.meta.title@, w.session.meta.created_at@,
                w.session.meta.updated_at@, w.session.history@, w.session.schema_version) == n
            &&& w.index.sessions@ == upsert_spec(index.sessions@, w.session.meta)
            &&& w.index.schema_version == index.schema_version
        }),
{
    if !validate_session_id(id) {
        return Err(invalid_session_id_err(id));
    }
    let dir = chat_sessions_dir(state_root);
    let path = session_path(dir.as_str(), id);
    let mut session = match stored {
        Some(existing) => existing,
        None => {
            let created_at = copy_string(&message.timestamp);
            let title = derive_title(message.content.as_str(), created_at.as_str());
            ChatSession {
                schema_version: SCHEMA_VERSION,
                meta: ChatSessionMeta {
                    id: id.to_owned(),
                    title,
                    created_at: copy_string(&created_at),
                    updated_at: created_at,
                },
                history: Vec::new(),
            }
        },
    };
    session.meta.updated_at = copy_string(&message.timestamp);
    session.history.push(copy_message(message));
    let mut index = index;
    upsert_index(&mut index, &session.meta);
    proof {
        if stored is None {
            assert(session.history@ =~= seq![*message]);
        }
    }
    Ok(TurnWrite { session_path: path, session, index_path: index_path(dir.as_str()), index })
}

// ---------------------------------------------------------------------------
// Laws
// ---------------------------------------------------------------------------

/// Any two texts are ordered one way or the other.
pub proof fn lemma_text_le_total(a: Seq<char>, b: Seq<char>)
    ensures
        text_le(a, b) || text_le(b, a),
    decreases a.len(),
{
    if a.len() > 0 && b.len() > 0 {
        if a[0] == b[0] {
            lemma_text_le_total(a.skip(1), b.skip(1));
        }
    }
}

/// The text order is transitive.
pub proof fn lemma_text_le_trans(a: Seq<char>, b: Seq<char>, c: Seq<char>)
    requires
        text_le(a, b),
        text_le(b, c),
    ensures
        text_le(a, c),
    decreases a.len(),
{
    if a.len() > 0 && b.len() > 0 && c.len() > 0 && a[0] == b[0] && b[0] == c[0] {
        lemma_text_le_trans(a.skip(1), b.skip(1), c.skip(1));
    }
}

/// Texts ordered both ways are equal.
pub proof fn lemma_text_le_antisym(a: Seq<char>, b: Seq<char>)
    requires
        text_le(a, b),
        text_le(b, a),
    ensures
        a == b,
    decreases a.len(),
{
    if a.len() > 0 && b.len() > 0 {
        lemma_text_le_antisym(a.skip(1), b.skip(1));
        assert(a =~= seq![a[0]] + a.skip(1));
        assert(b =~= seq![b[0]] + b.skip(1));
    }
}

/// `s` runs from the most recently updated session to the least.
pub open spec fn is_newest_first(s: Seq<ChatSessionMeta>) -> bool {
    forall|i: int, j: int| 0 <= i < j < s.len() ==> not_older(#[trigger] s[i], #[trigger] s[j])
}

proof fn lemma_insert_keeps_order(s: Seq<ChatSessionMeta>, x: ChatSessionMeta)
    requires
        is_newest_first(s),
    ensures
        is_newest_first(insert_newest_first(s, x)),
        insert_newest_first(s, x).to_multiset() == s.to_multiset().insert(x),
    decreases s.len(),
{
    broadcast use vstd::seq_lib::group_to_multiset_ensures;
    let r = insert_newest_first(s, x);
    if s.len() == 0 {
        assert(r =~= seq![x]);
        assert(seq![x] =~= Seq::<ChatSessionMeta>::empty().push(x));
    } else if not_older(s[0], x) {
        let t = s.skip(1);
        assert(is_newest_first(t)) by {
            assert forall|i: int, j: int| 0 <= i < j < t.len() implies not_older(#[trigger] t[i], #[trigger] t[j]) by {
                assert(t[i] == s[i + 1] && t[j] == s[j + 1]);
            }
        }
        lemma_insert_keeps_order(t, x);
        let it = insert_newest_first(t, x);
        assert(r == seq![s[0]] + it);
        assert forall|i: int, j: int| 0 <= i < j < r.len() implies not_older(#[trigger] r[i], #[trigger] r[j]) by {
            if i == 0 {
                assert(r[j] == it[j - 1]);
                assert(it.to_multiset().count(it[j - 1]) > 0);
                assert(it.contains(it[j - 1]));
                if it[j - 1] == x {
                } else {
                    assert(t.to_multiset().count(it[j - 1]) > 0);
                    assert(t.contains(it[j - 1]));
                    let k = choose|k: int| 0 <= k < t.len() && t[k] == it[j - 1];
                    assert(s[k + 1] == t[k]);
                    assert(not_older(s[0], s[k + 1]));
                }
            } else {
                assert(r[i] == it[i - 1] && r[j] == it[j - 1]);
            }
        }
        assert(s =~= seq![s[0]] + t);
        vstd::seq_lib::lemma_multiset_commutative(seq![s[0]], it);
        vstd::seq_lib::lemma_multiset_commutative(seq![s[0]], t);
    } else {
        assert(r == seq![x] + s);
        lemma_text_le_total(x.updated_at@, s[0].updated_at@);
        assert forall|i: int, j: int| 0 <= i < j < r.len() implies not_older(#[trigger] r[i], #[trigger] r[j]) by {
            if i == 0 {
                assert(r[j] == s[j - 1]);
                if j - 1 > 0 {
                    assert(not_older(s[0], s[j - 1]));
                    lemma_text_le_trans(s[j - 1].updated_at@, s[0].updated_at@, x.updated_at@);
                }
            } else {
                assert(r[i] == s[i - 1] && r[j] == s[j - 1]);
            }
        }
        vstd::seq_lib::lemma_multiset_commutative(seq![x], s);
    }
}

/// The listing is newest first, and holds exactly the indexed sessions: a
/// reordering of the index with nothing lost or added.
pub proof fn lemma_listing_newest_first(s: Seq<ChatSessionMeta>)
    ensures
        is_newest_first(newest_first(s)),
        newest_first(s).to_multiset() == s.to_multiset(),
    decreases s.len(),
{
    broadcast use vstd::seq_lib::group_to_multiset_ensures;
    if s.len() > 0 {
        lemma_listing_newest_first(s.drop_last());
        lemma_insert_keeps_order(newest_first(s.drop_last()), s.last());
        assert(s =~= s.drop_last().push(s.last()));
    }
}

/// Upserting keeps each session id in the index at most once: when ids were
/// distinct before, they are distinct after, and the upserted metadata is in
/// the index.
pub proof fn lemma_upsert_keeps_ids_unique(s: Seq<ChatSessionMeta>, m: ChatSessionMeta)
    requires
        forall|i: int, j: int| 0 <= i < j < s.len() ==> (#[trigger] s[i]).id@ != (#[trigger] s[j]).id@,
    ensures
        forall|i: int, j: int|
            0 <= i < j < upsert_spec(s, m).len() ==> (#[trigger] upsert_spec(s, m)[i]).id@ != (
            #[trigger] upsert_spec(s, m)[j]).id@,
        upsert_spec(s, m).contains(m),
{
    lemma_find_session(s, m.id@);
    let k = find_session(s, m.id@);
    let r = upsert_spec(s, m);
    if k < s.len() {
        assert(r[k] == m);
    } else {
        assert(r[s.len() as int] == m);
        assert forall|i: int, j: int| 0 <= i < j < r.len() implies (#[trigger] r[i]).id@ != (#[trigger] r[j]).id@ by {
            if j == s.len() {
                assert(r[i] == s[i]);
            }
        }
    }
}


// ---------------------------------------------------------------------------
// Replies of the session endpoints
// ---------------------------------------------------------------------------

/// Error body when a session id fails validation.
pub const INVALID_SESSION_REPLY: &'static str = "invalid session id";

/// Error body when no session has a valid id.
pub const SESSION_NOT_FOUND_REPLY: &'static str = "session not found";

/// Error body when a session file could not be read.
pub const SESSION_LOAD_FAILED_REPLY: &'static str = "failed to load chat session";

/// Error body when the session index could not be read.
pub const SESSIONS_LIST_FAILED_REPLY: &'static str = "failed to list chat sessions";

/// How reading one session's file went.
pub enum SessionLoad {
    Found,
    Absent,
    Failed,
}

/// The HTTP status of `GET /api/chat/sessions/{id}` and its error body: 400
/// for an id that fails validation (the store is not touched), else 200,
/// 404 or 500 by how the read went. No body names an on-disk path.
pub fn session_by_id_reply(id: &str, load: SessionLoad) -> (r: (u16, Option<&'static str>))
    ensures
        !is_valid_name(id@) ==> r.0 == 400 && r.1 == Some(INVALID_SESSION_REPLY),
        is_valid_name(id@) ==> match load {
            SessionLoad::Found => r.0 == 200 && r.1 is None,
            SessionLoad::Absent => r.0 == 404 && r.1 == Some(SESSION_NOT_FOUND_REPLY),
            SessionLoad::Failed => r.0 == 500 && r.1 == Some(SESSION_LOAD_FAILED_REPLY),
        },
{
    if !validate_session_id(id) {
        return (400, Some(INVALID_SESSION_REPLY));
    }
    match load {
        SessionLoad::Found => (200, None),
        SessionLoad::Absent => (404, Some(SESSION_NOT_FOUND_REPLY)),
        SessionLoad::Failed => (500, Some(SESSION_LOAD_FAILED_REPLY)),
    }
}


/// Law: appending a turn. The first turn of a session creates it: schema
/// version 1, titled from the message, created and updated at its time, the
/// message its only history. A later turn keeps the id, title and creation
/// time, takes the message's time as `updated_at`, and appends the message
/// to the full history. Either way the index, with its ids distinct before,
/// then holds the session's metadata exactly once, in the place of the old
/// entry or at the end, every other entry unchanged and the ids still
/// distinct.
pub proof fn lemma_turn_appended(
    id: Seq<char>,
    stored: Option<ChatSession>,
    message: ConversationMessage,
    index: Seq<ChatSessionMeta>,
    meta: ChatSessionMeta,
)
    requires
        forall|i: int, j: int| 0 <= i < j < index.len() ==> (#[trigger] index[i]).id@ != (#[trigger] index[j]).id@,
    ensures
        stored is None ==> next_session(id, stored, message) == (
            id,
            derive_title_spec(message.content@, message.timestamp@),
            message.timestamp@,
            message.timestamp@,
            seq![message],
            1u32,
        ),
        stored matches Some(s0) ==> {
            let n = next_session(id, stored, message);
            &&& n.0 == s0.meta.id@
            &&& n.1 == s0.meta.title@
            &&& n.2 == s0.meta.created_at@
            &&& n.3 == message.timestamp@
            &&& n.4 == s0.history@.push(message)
        },
        ({
            let u = upsert_spec(index, meta);
            &&& forall|i: int, j: int| 0 <= i < j < u.len() ==> (#[trigger] u[i]).id@ != (#[trigger] u[j]).id@
            &&& exists|k: int| 0 <= k < u.len() && u[k] == meta
            &&& forall|i: int| 0 <= i < index.len() && (#[trigger] index[i]).id@ != meta.id@ ==> u[i] == index[i]
            &&& u.len() == index.len() || (u.len() == index.len() + 1 && u.last() == meta)
            &&& forall|i: int| 0 <= i < u.len() && (#[trigger] u[i]).id@ == meta.id@ ==> u[i] == meta
        }),
{
    lemma_upsert_keeps_ids_unique(index, meta);
    lemma_find_session(index, meta.id@);
    let u = upsert_spec(index, meta);
    let k = find_session(index, meta.id@);
    if k < index.len() {
        assert(u[k] == meta);
        assert forall|i: int| 0 <= i < u.len() && (#[trigger] u[i]).id@ == meta.id@ implies u[i] == meta by {
            if i != k {
                assert(u[i] == index[i]);
                assert(index[k].id@ == meta.id@);
            }
        }
    } else {
        assert(u[index.len() as int] == meta);
        assert forall|i: int| 0 <= i < u.len() && (#[trigger] u[i]).id@ == meta.id@ implies u[i] == meta by {
            if i < index.len() {
                assert(u[i] == index[i]);
            }
        }
    }
}

} // verus!
