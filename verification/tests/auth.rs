use simard_dashboard::auth::{
    is_auth_initialized, login_code_from, session_cookie, AuthDecision, AuthState,
    AUTH_NOT_INITIALIZED_BODY, NOT_AUTHENTICATED_BODY,
};

const MS: u64 = 1_767_225_600_000;
const RND: [u8; 10] = [0x7b, 0x3c, 0x8d, 0x4e, 0x9f, 0x90, 0x12, 0x34, 0x56, 0x78];

fn initialised() -> (AuthState, String) {
    let mut state = AuthState::new();
    let (code, _) = state.init_login_code(None, MS, &RND);
    (state, code)
}

#[test]
fn init_login_code_returns_8_char_string() {
    let (_, code) = initialised();
    assert_eq!(code.len(), 8, "Login code should be 8 characters, got: {code}");
}

#[test]
fn init_login_code_is_nonempty() {
    let (_, code) = initialised();
    assert!(!code.is_empty());
}

#[test]
fn init_login_code_reuses_persisted_code() {
    let mut state = AuthState::new();
    let (code, loaded) = state.init_login_code(Some("  abc12345\n"), MS, &RND);
    assert_eq!(code, "abc12345");
    assert!(loaded);
    assert!(state.try_login("abc12345", MS, &RND).is_some());
}

#[test]
fn init_login_code_ignores_blank_persisted_code() {
    let mut state = AuthState::new();
    let (code, loaded) = state.init_login_code(Some("   "), MS, &RND);
    assert!(!loaded);
    assert_eq!(code.chars().count(), 8);
}

#[test]
fn init_login_code_keeps_first_code() {
    let mut state = AuthState::new();
    state.init_login_code(Some("first123"), MS, &RND);
    let (second, _) = state.init_login_code(Some("second12"), MS, &RND);
    assert_eq!(second, "second12");
    assert!(state.try_login("first123", MS, &RND).is_some());
    assert!(state.try_login("second12", MS, &RND).is_none());
}

#[test]
fn login_code_from_takes_first_eight_characters() {
    let (code, loaded) = login_code_from(None, "0192f1a2-7b3c-7d4e-8f90-123456789abc");
    assert_eq!(code, "0192f1a2");
    assert!(!loaded);
}

#[test]
fn try_login_wrong_code_returns_none() {
    let (mut state, _) = initialised();
    assert!(state.try_login("definitely-wrong-code", MS, &RND).is_none());
}

#[test]
fn try_login_correct_code_returns_token() {
    let (mut state, code) = initialised();
    let result = state.try_login(&code, MS, &RND);
    assert!(result.is_some(), "Correct code should yield a session token");
    assert!(!result.unwrap().is_empty());
}

#[test]
fn try_login_trims_whitespace() {
    let (mut state, code) = initialised();
    let padded = format!("  {}  ", code);
    assert!(state.try_login(&padded, MS, &RND).is_some(), "try_login should trim whitespace");
}

#[test]
fn try_login_empty_string_returns_none() {
    let (mut state, _) = initialised();
    assert!(state.try_login("", MS, &RND).is_none());
}

#[test]
fn try_login_without_code_returns_none() {
    let mut state = AuthState::new();
    assert!(state.try_login("anything", MS, &RND).is_none());
    assert!(state.try_login("", MS, &RND).is_none());
}

#[test]
fn is_valid_session_unknown_token() {
    let (state, _) = initialised();
    assert!(!state.is_valid_session("nonexistent-token"));
}

#[test]
fn is_valid_session_after_login() {
    let (mut state, code) = initialised();
    let token = state.try_login(&code, MS, &RND).expect("login succeeds");
    assert!(state.is_valid_session(&token));
}

#[test]
fn is_valid_session_empty_token() {
    let (state, _) = initialised();
    assert!(!state.is_valid_session(""));
}

#[test]
fn sessions_mutex_is_accessible() {
    let (mut state, code) = initialised();
    assert!(state.sessions().is_empty());
    let token = state.try_login(&code, MS, &RND).unwrap();
    assert_eq!(state.sessions().len(), 1);
    assert!(state.sessions().contains(&token));
}

#[test]
fn auth_initialized_tracks_login_code() {
    let mut state = AuthState::new();
    assert!(!is_auth_initialized(&state));
    state.init_login_code(None, MS, &RND);
    assert!(is_auth_initialized(&state));
}

#[test]
fn session_cookie_attributes() {
    assert_eq!(
        session_cookie("tok"),
        "simard_session=tok; Path=/; HttpOnly; SameSite=Strict; Max-Age=86400"
    );
}

#[test]
fn guard_lets_login_paths_through_even_uninitialised() {
    let state = AuthState::new();
    assert_eq!(state_decision(&state, "/login", "", None, "", ""), AuthDecision::Allow);
    assert_eq!(state_decision(&state, "/api/login", "", None, "", ""), AuthDecision::Allow);
    assert_eq!(
        state_decision(&state, "/api/status", "", None, "", ""),
        AuthDecision::NotInitialized
    );
}

fn state_decision(
    state: &AuthState,
    path: &str,
    cookie: &str,
    authorization: Option<&str>,
    env_token: &str,
    query: &str,
) -> AuthDecision {
    simard_dashboard::auth::auth_decision(state, path, cookie, authorization, env_token, query)
}

#[test]
fn guard_accepts_session_cookie_among_others() {
    let (mut state, code) = initialised();
    let token = state.try_login(&code, MS, &RND).unwrap();
    let cookie = format!("theme=dark;  simard_session={token} ; other=1");
    assert_eq!(state_decision(&state, "/api/goals", &cookie, None, "", ""), AuthDecision::Allow);
    assert_eq!(
        state_decision(&state, "/api/goals", "simard_session=forged", None, "", ""),
        AuthDecision::Unauthenticated
    );
}

#[test]
fn guard_accepts_bearer_env_token_or_session() {
    let (mut state, code) = initialised();
    let token = state.try_login(&code, MS, &RND).unwrap();
    let bearer = format!("Bearer {token}");
    assert_eq!(state_decision(&state, "/", "", Some(&bearer), "", ""), AuthDecision::Allow);
    assert_eq!(
        state_decision(&state, "/", "", Some("Bearer secret"), "secret", ""),
        AuthDecision::Allow
    );
    assert_eq!(
        state_decision(&state, "/", "", Some("Bearer "), "", ""),
        AuthDecision::RedirectToLogin
    );
    assert_eq!(
        state_decision(&state, "/", "", Some("bearer secret"), "secret", ""),
        AuthDecision::RedirectToLogin
    );
}

#[test]
fn guard_query_token_uses_first_token_parameter() {
    let (state, _) = initialised();
    assert_eq!(
        state_decision(&state, "/ws/chat", "", None, "secret", "a=1&token=secret"),
        AuthDecision::Allow
    );
    assert_eq!(
        state_decision(&state, "/ws/chat", "", None, "secret", "token=wrong&token=secret"),
        AuthDecision::Unauthenticated
    );
    assert_eq!(
        state_decision(&state, "/ws/chat", "", None, "", "token="),
        AuthDecision::Unauthenticated
    );
}

#[test]
fn guard_unauthenticated_api_gets_401_pages_redirect() {
    let (state, _) = initialised();
    assert_eq!(state_decision(&state, "/api/x", "", None, "", ""), AuthDecision::Unauthenticated);
    assert_eq!(state_decision(&state, "/ws/x", "", None, "", ""), AuthDecision::Unauthenticated);
    assert_eq!(state_decision(&state, "/", "", None, "", ""), AuthDecision::RedirectToLogin);
    assert!(AUTH_NOT_INITIALIZED_BODY.contains("auth not initialized"));
    assert!(NOT_AUTHENTICATED_BODY.contains("not authenticated"));
}

#[test]
fn session_tokens_are_hyphenated_lowercase_uuids() {
    let (mut state, code) = initialised();
    let token = state.try_login(&code, MS, &RND).unwrap();
    assert_eq!(token.len(), 36);
    for (i, c) in token.chars().enumerate() {
        if [8, 13, 18, 23].contains(&i) {
            assert_eq!(c, '-');
        } else {
            assert!(c.is_ascii_hexdigit() && !c.is_ascii_uppercase());
        }
    }
    assert!(token.starts_with("019b76da"));
}

#[test]
fn fresh_login_code_reads_back_unchanged() {
    let mut first = AuthState::new();
    let (code, loaded) = first.init_login_code(None, MS, &RND);
    assert!(!loaded);
    assert!(code.chars().all(|c| c.is_ascii_hexdigit()));
    let mut next = AuthState::new();
    let (again, loaded) = next.init_login_code(Some(&code), MS, &RND);
    assert!(loaded);
    assert_eq!(again, code);
}

#[test]
fn login_code_is_set_once() {
    let mut state = AuthState::new();
    assert!(!is_auth_initialized(&state));
    let token = state.try_login("anything", MS, &RND);
    assert!(token.is_none());
    assert!(!is_auth_initialized(&state));
    let (first, _) = state.init_login_code(None, MS, &RND);
    assert!(is_auth_initialized(&state));
    let (second, loaded) = state.init_login_code(Some("other1234"), MS + 1, &RND);
    assert!(loaded);
    assert_eq!(second, "other1234");
    // the code set first stays in force
    assert!(state.try_login(&first, MS, &RND).is_some());
    assert!(state.try_login("other1234", MS, &RND).is_none());
    assert!(is_auth_initialized(&state));
}

#[test]
fn tokens_follow_their_time_and_random_bytes() {
    let (mut a, code_a) = initialised();
    let (mut b, code_b) = initialised();
    assert_eq!(code_a, code_b);
    let t1 = a.try_login(&code_a, MS, &RND).unwrap();
    let t2 = b.try_login(&code_b, MS, &RND).unwrap();
    assert_eq!(t1, t2);
    let mut other = RND;
    other[9] ^= 0xff;
    let t3 = a.try_login(&code_a, MS, &other).unwrap();
    assert_ne!(t1, t3);
    let t4 = a.try_login(&code_a, MS + 1, &RND).unwrap();
    assert_ne!(t1, t4);
    let mut c = AuthState::new();
    let (code_c, loaded) = c.init_login_code(None, MS + 86_400_000, &RND);
    assert!(!loaded);
    assert_ne!(code_c, code_a);
    assert_eq!(&code_c[..], &c.try_login(&code_c, MS + 86_400_000, &RND).unwrap()[..8]);
}
