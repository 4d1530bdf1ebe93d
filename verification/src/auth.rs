//! Dashboard authentication: the operator login code, the session tokens
//! issued after a successful login, and the decision whether a request may
//! pass the auth guard.

use vstd::prelude::*;
use vstd::hash_set::StringHashSet;
use crate::text::{
    chars_eq, from_chars, has_prefix, is_ws, push_str, split_chars, split_from, split_on, starts_with,
    sub_chars, to_chars, trim_chars, trim_seq,
};

verus! {

/// Length of a login code, in characters.
pub const LOGIN_CODE_LEN: usize = 8;

/// Body of the 401 answered while no login code is configured.
pub const AUTH_NOT_INITIALIZED_BODY: &'static str =
    "{\"error\":\"auth not initialized\",\"login_url\":\"/login\"}";

/// The login page.
pub const LOGIN_HTML: &'static str = r#"<!DOCTYPE html>
<html lang="en">
<head>
  <meta charset="utf-8">
  <meta name="viewport" content="width=device-width, initial-scale=1">
  <title>Simard — Login</title>
  <style>
    :root { --bg: #0d1117; --fg: #c9d1d9; --accent: #58a6ff; --card: #161b22; --border: #30363d; }
    * { margin: 0; padding: 0; box-sizing: border-box; }
    body { font-family: -apple-system, BlinkMacSystemFont, 'Segoe UI', sans-serif; background: var(--bg); color: var(--fg); display: flex; align-items: center; justify-content: center; min-height: 100vh; }
    .login-card { background: var(--card); border: 1px solid var(--border); border-radius: 12px; padding: 2rem; width: 340px; text-align: center; }
    h1 { color: var(--accent); font-size: 1.3rem; margin-bottom: 0.5rem; }
    p { color: #8b949e; font-size: 0.85rem; margin-bottom: 1.5rem; }
    input { width: 100%; padding: 0.6rem; border: 1px solid var(--border); border-radius: 6px; background: var(--bg); color: var(--fg); font-size: 1.1rem; text-align: center; letter-spacing: 0.15em; }
    input:focus { outline: none; border-color: var(--accent); }
    button { width: 100%; margin-top: 1rem; padding: 0.6rem; border: none; border-radius: 6px; background: var(--accent); color: #0d1117; font-weight: 600; font-size: 0.95rem; cursor: pointer; }
    button:hover { opacity: 0.9; }
    .error { color: #f85149; margin-top: 0.75rem; font-size: 0.85rem; display: none; }
  </style>
</head>
<body>
  <div class="login-card">
    <h1>🌲 Simard</h1>
    <p>Enter the login code from the server terminal</p>
    <form id="login-form">
      <input id="code" type="text" placeholder="code" autocomplete="off" autofocus maxlength="8">
      <button type="submit">Log in</button>
    </form>
    <div class="error" id="error">Invalid code. Check terminal output.</div>
  </div>



  <script>
    document.getElementById('login-form').addEventListener('submit', async (e) => {
      e.preventDefault();
      const code = document.getElementById('code').value;
      const r = await fetch('/api/login', { method: 'POST', headers: {'content-type':'application/json'}, body: JSON.stringify({code}) });
      if (r.ok) { window.location.href = '/'; }
      else { document.getElementById('error').style.display = 'block'; }
    });
  </script>
</body>
</html>
"#;

/// Body of the 401 answered to an unauthenticated API or socket request.
pub const NOT_AUTHENTICATED_BODY: &'static str =
    "{\"error\":\"not authenticated\",\"login_url\":\"/login\"}";

/// A lowercase hexadecimal digit.
pub open spec fn is_hex_lower(c: char) -> bool {
    ('0' <= c && c <= '9') || ('a' <= c && c <= 'f')
}

/// The hyphenated text form of a UUID: 36 characters, `-` at 8, 13, 18 and
/// 23, lowercase hexadecimal digits everywhere else.
pub open spec fn is_uuid_text(s: Seq<char>) -> bool {
    &&& s.len() == 36
    &&& forall|i: int|
        0 <= i < 36 ==> if i == 8 || i == 13 || i == 18 || i == 23 {
            s[i] == '-'
        } else {
            is_hex_lower(#[trigger] s[i])
        }
}

/// A login code: eight lowercase hexadecimal digits.
pub open spec fn is_login_code_text(s: Seq<char>) -> bool {
    s.len() == LOGIN_CODE_LEN && forall|i: int| 0 <= i < s.len() ==> is_hex_lower(#[trigger] s[i])
}

/// The hyphenated lowercase text of the version 7 UUID that
/// `uuid::Builder::from_unix_timestamp_millis` builds from the Unix time
/// `millis` (milliseconds) and the 10 counter/random bytes `random`.
pub uninterp spec fn uuid_v7_text(millis: u64, random: Seq<u8>) -> Seq<char>;

/// A version 7 UUID for the Unix time `millis` (milliseconds) and the 10
/// counter/random bytes `random`, built with
/// `uuid::Builder::from_unix_timestamp_millis` (which cannot fail) and written
/// in its hyphenated lowercase text form (`Display`, which writes
/// `format_hyphenated`). The text depends on the two arguments alone; of its
/// contents only that form is stated.
#[verifier::external_body]
fn token_from(millis: u64, random: &[u8; 10]) -> (r: String)
    ensures
        r@ == uuid_v7_text(millis, random@),
        is_uuid_text(r@),
{
    uuid::Builder::from_unix_timestamp_millis(millis, random).into_uuid().to_string()
}

/// The login code and the sessions issued under it.
pub struct AuthState {
    login_code: Option<String>,
    sessions: StringHashSet,
}

impl AuthState {
    /// The configured login code, once set.
    pub closed spec fn code(&self) -> Option<Seq<char>> {
        match self.login_code {
            Some(c) => Some(c@),
            None => None,
        }
    }

    /// Whether `t` is an issued session token.
    pub closed spec fn has_session(&self, t: Seq<char>) -> bool {
        self.sessions@.contains(t)
    }

    /// No login code yet, and no sessions.
    pub fn new() -> (r: AuthState)
        ensures
            r.code() is None,
            forall|t: Seq<char>| !r.has_session(t),
    {
        AuthState { login_code: None, sessions: StringHashSet::new() }
    }

    /// The issued session tokens.
    pub fn sessions(&self) -> (r: &StringHashSet)
        ensures
            forall|t: Seq<char>| self.has_session(t) <==> r@.contains(t),
    {
        &self.sessions
    }

    fn has_session_chars(&self, token: &[char]) -> (b: bool)
        ensures
            b == self.has_session(token@),
    {
        let t = from_chars(token);
        self.sessions.contains(t.as_str())
    }

    /// Whether `token` is an issued session token.
    pub fn is_valid_session(&self, token: &str) -> (b: bool)
        ensures
            b == self.has_session(token@),
    {
        self.sessions.contains(token)
    }

    /// Records `token` as an issued session (a set insert: a token already
    /// issued stays issued once).
    pub fn admit_session(&mut self, token: String)
        ensures
            code_step(*old(self), *final(self), false),
            final(self).code() == old(self).code(),
            forall|t: Seq<char>|
                #[trigger] final(self).has_session(t) <==> (old(self).has_session(t) || t == token@),
    {
        self.sessions.insert(token);
    }

    /// Sets the login code unless one is already set (a set-once cell).
    fn set_login_code(&mut self, code: String)
        ensures
            final(self).code() == (match old(self).code() {
                Some(c) => Some(c),
                None => Some(code@),
            }),
            forall|t: Seq<char>| #[trigger] final(self).has_session(t) == old(self).has_session(t),
    {
        if self.login_code.is_none() {
            self.login_code = Some(code);
        }
    }

    /// Initialises the login code from the persisted one: its trimmed
    /// contents when they are not empty (reported as loaded), else the first
    /// eight characters of a fresh token made from the time `millis` and the
    /// random bytes `random`. A code already set stays set; the chosen code
    /// is returned either way, for the caller to persist.
    pub fn init_login_code(&mut self, persisted: Option<&str>, millis: u64, random: &[u8; 10]) -> (r: (
        String,
        bool,
    ))
        ensures
            code_step(*old(self), *final(self), true),
            persisted_code(persisted) matches Some(c) ==> r.1 && r.0@ == c,
            persisted_code(persisted) is None ==> !r.1 && is_login_code_text(r.0@) && r.0@ == uuid_v7_text(
                millis,
                random@,
            ).take(LOGIN_CODE_LEN as int),
            final(self).code() == (match old(self).code() {
                Some(c) => Some(c),
                None => Some(r.0@),
            }),
            forall|t: Seq<char>| #[trigger] final(self).has_session(t) == old(self).has_session(t),
    {
        let fresh = match persisted {
            Some(p) if trim_chars(to_chars(p).as_slice()).len() > 0 => String::new(),
            _ => token_from(millis, random),
        };
        let r = login_code_from(persisted, fresh.as_str());
        let code = r.0.clone();
        self.set_login_code(code);
        r
    }

    /// Checks a login attempt: with a login code set and `code`, trimmed,
    /// equal to it, a fresh session token (made from the time `millis` and
    /// the random bytes `random`) is issued and returned; otherwise `None`
    /// and nothing changes.
    pub fn try_login(&mut self, code: &str, millis: u64, random: &[u8; 10]) -> (r: Option<String>)
        ensures
            code_step(*old(self), *final(self), false),
            r.is_some() <==> (old(self).code() matches Some(c) && trim_seq(code@) == c),
            final(self).code() == old(self).code(),
            r matches Some(t) ==> t@ == uuid_v7_text(millis, random@),
            r matches Some(t) ==> is_uuid_text(t@) && forall|x: Seq<char>|
                #[trigger] final(self).has_session(x) <==> (old(self).has_session(x) || x == t@),
            r is None ==> forall|x: Seq<char>| #[trigger] final(self).has_session(x) == old(self).has_session(x),
    {
        let matches = match &self.login_code {
            Some(expected) => {
                let t = trim_chars(to_chars(code).as_slice());
                chars_eq(t.as_slice(), to_chars(expected.as_str()).as_slice())
            },
            None => false,
        };
        if matches {
            let token = token_from(millis, random);
            self.admit_session(token.clone());
            Some(token)
        } else {
            None
        }
    }
}

/// The persisted login code: the stored contents, trimmed, unless that
/// leaves nothing.
pub open spec fn persisted_code(persisted: Option<&str>) -> Option<Seq<char>> {
    match persisted {
        Some(p) => if trim_seq(p@).len() > 0 {
            Some(trim_seq(p@))
        } else {
            None
        },
        None => None,
    }
}

/// The login code to use: the persisted contents, trimmed, when they are not
/// empty (and then `true`, loaded); otherwise the first eight characters of
/// `fresh` (and `false`).
pub fn login_code_from(persisted: Option<&str>, fresh: &str) -> (r: (String, bool))
    requires
        persisted_code(persisted) is Some || fresh@.len() >= LOGIN_CODE_LEN,
    ensures
        persisted_code(persisted) matches Some(c) ==> r.1 && r.0@ == c,
        persisted_code(persisted) is None ==> !r.1 && r.0@ == fresh@.take(LOGIN_CODE_LEN as int),
{
    if let Some(p) = persisted {
        let t = trim_chars(to_chars(p).as_slice());
        if t.len() > 0 {
            return (from_chars(t.as_slice()), true);
        }
    }
    let f = to_chars(fresh);
    let head = sub_chars(f.as_slice(), 0, LOGIN_CODE_LEN);
    assert(f@.subrange(0, LOGIN_CODE_LEN as int) =~= fresh@.take(LOGIN_CODE_LEN as int));
    (from_chars(head.as_slice()), false)
}

/// Whether a login code has been set.
pub fn is_auth_initialized(state: &AuthState) -> (b: bool)
    ensures
        b == state.code() is Some,
{
    state.login_code.is_some()
}

/// The `Set-Cookie` value carrying a freshly issued session token.
pub open spec fn session_cookie_spec(token: Seq<char>) -> Seq<char> {
    "simard_session="@ + token + "; Path=/; HttpOnly; SameSite=Strict; Max-Age=86400"@
}

/// The `Set-Cookie` value carrying a freshly issued session token.
pub fn session_cookie(token: &str) -> (r: String)
    ensures
        r@ == session_cookie_spec(token@),
{
    let mut out: Vec<char> = Vec::new();
    push_str(&mut out, "simard_session=");
    push_str(&mut out, token);
    push_str(&mut out, "; Path=/; HttpOnly; SameSite=Strict; Max-Age=86400");
    from_chars(out.as_slice())
}

// ---------------------------------------------------------------------------
// The auth guard
// ---------------------------------------------------------------------------

/// What the guard does with a request.
#[derive(Clone, Copy, Debug, PartialEq, Eq, Structural)]
pub enum AuthDecision {
    /// Let the request through.
    Allow,
    /// 401 with `AUTH_NOT_INITIALIZED_BODY`: no login code is configured.
    NotInitialized,
    /// 401 with `NOT_AUTHENTICATED_BODY`, for API and socket paths.
    Unauthenticated,
    /// 303 to `/login`, for pages.
    RedirectToLogin,
}

/// Some `;`-separated part of the cookie header, trimmed, is
/// `simard_session=<token>` for an issued token.
pub open spec fn cookie_admits(state: AuthState, cookie: Seq<char>) -> bool {
    let parts = split_on(cookie, ';');
    exists|i: int|
        0 <= i < parts.len() && #[trigger] has_prefix(trim_seq(parts[i]), "simard_session="@)
            && state.has_session(trim_seq(parts[i]).skip(15))
}

/// The `Authorization` header is `Bearer <token>` with the token equal to a
/// non-empty configured dashboard token, or an issued session token.
pub open spec fn bearer_admits(state: AuthState, authorization: Option<Seq<char>>, env_token: Seq<char>) -> bool {
    &&& authorization matches Some(h)
    &&& has_prefix(h, "Bearer "@)
    &&& ((env_token.len() > 0 && h.skip(7) == env_token) || state.has_session(h.skip(7)))
}

/// The value after `prefix` of the first of `parts` that starts with it.
pub open spec fn first_with_prefix(parts: Seq<Seq<char>>, prefix: Seq<char>) -> Option<Seq<char>>
    decreases parts.len(),
{
    if parts.len() == 0 {
        None
    } else if has_prefix(parts[0], prefix) {
        Some(parts[0].skip(prefix.len() as int))
    } else {
        first_with_prefix(parts.skip(1), prefix)
    }
}

/// The first `&`-separated `token=` query parameter equals a non-empty
/// configured dashboard token.
pub open spec fn query_admits(query: Seq<char>, env_token: Seq<char>) -> bool {
    &&& first_with_prefix(split_on(query, '&'), "token="@) matches Some(t)
    &&& env_token.len() > 0
    &&& t == env_token
}

/// The guard, checking in order: the login paths always pass; with no login
/// code everything is refused; a session cookie, a bearer token or a legacy
/// `?token=` may let the request through; otherwise API and socket paths get
/// a 401 and pages a redirect to the login page.
pub open spec fn auth_decision_spec(
    state: AuthState,
    path: Seq<char>,
    cookie: Seq<char>,
    authorization: Option<Seq<char>>,
    env_token: Seq<char>,
    query: Seq<char>,
) -> AuthDecision {
    if path == "/login"@ || path == "/api/login"@ {
        AuthDecision::Allow
    } else if state.code() is None {
        AuthDecision::NotInitialized
    } else if cookie_admits(state, cookie) || bearer_admits(state, authorization, env_token)
        || query_admits(query, env_token) {
        AuthDecision::Allow
    } else if has_prefix(path, "/api/"@) || has_prefix(path, "/ws/"@) {
        AuthDecision::Unauthenticated
    } else {
        AuthDecision::RedirectToLogin
    }
}

fn cookie_ok(state: &AuthState, cookie: &str) -> (b: bool)
    ensures
        b == cookie_admits(*state, cookie@),
{
    let parts = split_chars(to_chars(cookie).as_slice(), ';');
    let prefix = to_chars("simard_session=");
    proof {
        reveal_strlit("simard_session=");
    }
    let mut i: usize = 0;
    while i < parts.len()
        invariant
            i <= parts.len(),
            parts.deep_view() == split_on(cookie@, ';'),
            prefix@ == "simard_session="@,
            prefix@.len() == 15,
            forall|j: int|
                0 <= j < i ==> !(#[trigger] has_prefix(trim_seq(parts.deep_view()[j]), "simard_session="@)
                    && state.has_session(trim_seq(parts.deep_view()[j]).skip(15))),
        decreases parts.len() - i,
    {
        assert(parts.deep_view()[i as int] =~= parts[i as int]@);
        let p = trim_chars(parts[i].as_slice());
        if starts_with(p.as_slice(), prefix.as_slice()) {
            let token = sub_chars(p.as_slice(), 15, p.len());
            assert(token@ =~= p@.skip(15));
            if state.has_session_chars(token.as_slice()) {
                return true;
            }
        }
        i = i + 1;
    }
    false
}

fn bearer_ok(state: &AuthState, authorization: Option<&str>, env_token: &str) -> (b: bool)
    ensures
        b == bearer_admits(*state, match authorization {
            Some(h) => Some(h@),
            None => None,
        }, env_token@),
{
    match authorization {
        None => false,
        Some(h) => {
            let hc = to_chars(h);
            proof {
                reveal_strlit("Bearer ");
            }
            if !starts_with(hc.as_slice(), to_chars("Bearer ").as_slice()) {
                return false;
            }
            let token = sub_chars(hc.as_slice(), 7, hc.len());
            assert(token@ =~= h@.skip(7));
            let env = to_chars(env_token);
            if env.len() > 0 && chars_eq(token.as_slice(), env.as_slice()) {
                return true;
            }
            state.has_session_chars(token.as_slice())
        },
    }
}

fn first_token_param(parts: &Vec<Vec<char>>) -> (r: Option<Vec<char>>)
    ensures
        match first_with_prefix(parts.deep_view(), "token="@) {
            Some(t) => r matches Some(v) && v@ == t,
            None => r is None,
        },
{
    let prefix = to_chars("token=");
    proof {
        reveal_strlit("token=");
    }
    let mut i: usize = 0;
    assert(parts.deep_view().skip(0) =~= parts.deep_view());
    while i < parts.len()
        invariant
            i <= parts.len(),
            prefix@ == "token="@,
            prefix@.len() == 6,
            first_with_prefix(parts.deep_view(), "token="@) == first_with_prefix(
                parts.deep_view().skip(i as int),
                "token="@,
            ),
        decreases parts.len() - i,
    {
        let ghost rest = parts.deep_view().skip(i as int);
        assert(rest[0] =~= parts[i as int]@);
        assert(rest.skip(1) =~= parts.deep_view().skip(i + 1));
        if starts_with(parts[i].as_slice(), prefix.as_slice()) {
            let v = sub_chars(parts[i].as_slice(), 6, parts[i].len());
            assert(v@ =~= rest[0].skip(6));
            return Some(v);
        }
        i = i + 1;
    }
    None
}

/// Decides whether a request passes the auth guard. `cookie` is the cookie
/// header (empty when absent), `authorization` the authorization header,
/// `env_token` the configured dashboard token (empty when unset) and
/// `query` the query string (empty when absent).
pub fn auth_decision(
    state: &AuthState,
    path: &str,
    cookie: &str,
    authorization: Option<&str>,
    env_token: &str,
    query: &str,
) -> (d: AuthDecision)
    ensures
        d == auth_decision_spec(*state, path@, cookie@, match authorization {
            Some(h) => Some(h@),
            None => None,
        }, env_token@, query@),
{
    let p = to_chars(path);
    if chars_eq(p.as_slice(), to_chars("/login").as_slice()) || chars_eq(
        p.as_slice(),
        to_chars("/api/login").as_slice(),
    ) {
        return AuthDecision::Allow;
    }
    if !is_auth_initialized(state) {
        return AuthDecision::NotInitialized;
    }
    if cookie_ok(state, cookie) || bearer_ok(state, authorization, env_token) {
        return AuthDecision::Allow;
    }
    let parts = split_chars(to_chars(query).as_slice(), '&');
    if let Some(t) = first_token_param(&parts) {
        let env = to_chars(env_token);
        if env.len() > 0 && chars_eq(t.as_slice(), env.as_slice()) {
            return AuthDecision::Allow;
        }
    }
    if starts_with(p.as_slice(), to_chars("/api/").as_slice()) || starts_with(
        p.as_slice(),
        to_chars("/ws/").as_slice(),
    ) {
        AuthDecision::Unauthenticated
    } else {
        AuthDecision::RedirectToLogin
    }
}

// ---------------------------------------------------------------------------
// Laws
// ---------------------------------------------------------------------------

proof fn lemma_split_without_sep(s: Seq<char>, sep: char, cur: Seq<char>, acc: Seq<Seq<char>>)
    requires
        forall|i: int| 0 <= i < s.len() ==> s[i] != sep,
    ensures
        split_from(s, sep, cur, acc) == acc.push(cur + s),
    decreases s.len(),
{
    if s.len() == 0 {
        assert(cur + s =~= cur);
    } else {
        assert forall|i: int| 0 <= i < s.skip(1).len() implies s.skip(1)[i] != sep by {
            assert(s.skip(1)[i] == s[i + 1]);
        }
        lemma_split_without_sep(s.skip(1), sep, cur.push(s[0]), acc);
        assert(cur.push(s[0]) + s.skip(1) =~= cur + s);
    }
}

/// A token issued by a login lets a request through when presented as the
/// cookie `simard_session=<token>`, on any path, once a login code is set.
/// (Issued tokens are hyphenated UUIDs: no `;` and no whitespace.)
pub proof fn lemma_session_cookie_admits(
    state: AuthState,
    token: Seq<char>,
    path: Seq<char>,
    authorization: Option<Seq<char>>,
    env_token: Seq<char>,
    query: Seq<char>,
)
    requires
        state.code() is Some,
        state.has_session(token),
        forall|i: int| 0 <= i < token.len() ==> token[i] != ';' && !is_ws(token[i]),
    ensures
        auth_decision_spec(state, path, "simard_session="@ + token, authorization, env_token, query)
            == AuthDecision::Allow,
{
    reveal_strlit("simard_session=");
    let c = "simard_session="@ + token;
    assert forall|i: int| 0 <= i < c.len() implies c[i] != ';' by {
        if i >= 15 {
            assert(c[i] == token[i - 15]);
        }
    }
    lemma_split_without_sep(c, ';', Seq::empty(), Seq::empty());
    let parts = split_on(c, ';');
    assert(Seq::<char>::empty() + c =~= c);
    assert(parts[0] == c);
    assert(c.last() == (if token.len() > 0 {
        token.last()
    } else {
        '='
    }));
    if token.len() > 0 {
        assert(c.last() == token[token.len() - 1]);
    }
    assert(trim_seq(c) == c);
    assert(c.take(15) =~= "simard_session="@);
    assert(c.skip(15) =~= token);
    assert(has_prefix(trim_seq(parts[0]), "simard_session="@));
    assert(cookie_admits(state, c));
}


proof fn lemma_no_ws_trim(s: Seq<char>)
    requires
        forall|i: int| 0 <= i < s.len() ==> !is_ws(#[trigger] s[i]),
    ensures
        trim_seq(s) == s,
{
    if s.len() > 0 {
        assert(!is_ws(s.last()) && !is_ws(s[0]));
    }
}

/// Law: a fresh login code reads back unchanged. Its eight hexadecimal
/// digits hold no whitespace, so the code written to the dashkey file is,
/// trimmed, itself and not empty: a later start loads that same code.
pub proof fn lemma_login_code_round_trip(code: Seq<char>)
    requires
        is_login_code_text(code),
    ensures
        trim_seq(code) == code,
        trim_seq(code).len() > 0,
{
    assert forall|i: int| 0 <= i < code.len() implies !is_ws(#[trigger] code[i]) by {
        assert(is_hex_lower(code[i]));
    }
    lemma_no_ws_trim(code);
}


/// How one call may change the login code: `init_login_code` (`is_init`)
/// leaves a set code as it is and sets one otherwise; every other call
/// leaves the code as it is.
pub open spec fn code_step(a: AuthState, b: AuthState, is_init: bool) -> bool {
    if is_init {
        &&& b.code() is Some
        &&& a.code() is Some ==> b.code() == a.code()
    } else {
        b.code() == a.code()
    }
}

proof fn lemma_code_run(states: Seq<AuthState>, inits: Seq<bool>, j: int)
    requires
        states.len() == inits.len() + 1,
        states[0].code() is None,
        forall|i: int| 0 <= i < inits.len() ==> code_step(#[trigger] states[i], states[i + 1], inits[i]),
        0 <= j < states.len(),
    ensures
        states[j].code() is Some <==> exists|i: int| 0 <= i < j && #[trigger] inits[i],
        forall|i: int| 0 <= i <= j && (#[trigger] states[i]).code() is Some ==> states[j].code() == states[i].code(),
    decreases j,
{
    if j > 0 {
        lemma_code_run(states, inits, j - 1);
        assert(code_step(states[j - 1], states[j], inits[j - 1]));
        if inits[j - 1] {
            assert(exists|i: int| 0 <= i < j && #[trigger] inits[i]);
        } else if states[j].code() is None {
            assert forall|i: int| 0 <= i < j implies !#[trigger] inits[i] by {
                if i < j - 1 && inits[i] {
                    assert(exists|k: int| 0 <= k < j - 1 && #[trigger] inits[k]);
                }
            }
        }
    }
}

/// Law: the login code is set once. Over any run of calls from a fresh
/// state, the code is set exactly from the first `init_login_code` on, and
/// once set it never changes (so `is_auth_initialized`, once true, stays
/// true).
pub proof fn lemma_login_code_set_once(states: Seq<AuthState>, inits: Seq<bool>)
    requires
        states.len() == inits.len() + 1,
        states[0].code() is None,
        forall|i: int| 0 <= i < inits.len() ==> code_step(#[trigger] states[i], states[i + 1], inits[i]),
    ensures
        forall|j: int|
            0 <= j < states.len() ==> ((#[trigger] states[j]).code() is Some <==> exists|i: int|
                0 <= i < j && #[trigger] inits[i]),
        forall|i: int, j: int|
            0 <= i <= j < states.len() && (#[trigger] states[i]).code() is Some ==> (#[trigger] states[j]).code()
                == states[i].code(),
{
    assert forall|j: int| 0 <= j < states.len() implies ((#[trigger] states[j]).code() is Some <==> exists|i: int|
        0 <= i < j && #[trigger] inits[i]) by {
        lemma_code_run(states, inits, j);
    }
    assert forall|i: int, j: int|
        0 <= i <= j < states.len() && (#[trigger] states[i]).code() is Some implies (#[trigger] states[j]).code()
            == states[i].code() by {
        lemma_code_run(states, inits, j);
    }
}

} // verus!
