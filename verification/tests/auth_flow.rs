use backend::middleware::auth::auth_middleware;
use backend::routes::auth::callback::google::{google_callback, GoogleUserInfo};
use backend::routes::auth::logout::logout;
use backend::routes::auth::verify::verify_auth;
use backend::util::app_state::AppState;

fn fresh_state() -> AppState {
    AppState::new(
        String::from("https://app.example.com"),
        String::from("example.com"),
    )
}

fn google_profile() -> GoogleUserInfo {
    GoogleUserInfo {
        email: String::from("A@Example.com"),
        given_name: Some(String::from("Ada")),
        family_name: None,
        sub: Some(String::from("sub123")),
    }
}

#[test]
fn callback_creates_user_account_and_session() {
    let mut state = fresh_state();
    let (session, pair) = google_callback(&mut state, google_profile(), 1_000).unwrap();

    assert_eq!(state.db.users.len(), 1);
    let user = &state.db.users[0];
    assert_eq!(user.email, "a@example.com");
    assert_eq!(user.first_name, "Ada");
    assert_eq!(user.last_name, "");
    assert!(user.email_verified.is_none());
    assert_eq!(user.creation_date, 1_000);

    assert_eq!(state.db.accounts.len(), 1);
    let account = &state.db.accounts[0];
    assert_eq!(account.provider, "google");
    assert_eq!(account.google_id.as_deref(), Some("sub123"));
    assert!(account.password.is_none());
    assert_eq!(account.user_id, user.id);

    assert_eq!(state.db.sessions.len(), 1);
    assert_eq!(session.account_id, account.id);
    assert_eq!(session.email, "a@example.com");
    assert_eq!(session.device, "Google OAuth");
    assert_eq!(session.creation_date, 1_000);
    assert_eq!(session.expire_date, 1_000 + 30 * 24 * 60 * 60);

    assert_eq!(pair.token_cookie.name, "token");
    assert_eq!(pair.token_cookie.value, session.token);
    assert_eq!(pair.email_cookie.name, "email");
    assert_eq!(pair.email_cookie.value, "a@example.com");
    for c in [&pair.token_cookie, &pair.email_cookie] {
        assert_eq!(c.domain, "example.com");
        assert_eq!(c.path, "/");
        assert!(c.secure);
        assert!(c.http_only);
        assert!(c.same_site_lax);
        assert_eq!(c.max_age_seconds, 30 * 24 * 60 * 60);
    }
}

#[test]
fn callback_twice_is_idempotent_for_identity() {
    let mut state = fresh_state();
    let (first, _) = google_callback(&mut state, google_profile(), 1_000).unwrap();
    let (second, _) = google_callback(&mut state, google_profile(), 2_000).unwrap();

    assert_eq!(state.db.users.len(), 1);
    assert_eq!(state.db.accounts.len(), 1);
    assert_eq!(state.db.sessions.len(), 2);
    assert_ne!(first.token, second.token);
    assert_eq!(first.token.len(), 36);
    assert_eq!(second.token.len(), 36);

    let now = 2_000;
    for token in [&first.token, &second.token] {
        let r = auth_middleware(
            &state,
            Some(token.clone()),
            Some(String::from("a@example.com")),
            now,
        );
        assert!(r.is_ok());
    }
}

#[test]
fn gate_accepts_valid_pair_and_resolves_user() {
    let mut state = fresh_state();
    let (session, pair) = google_callback(&mut state, google_profile(), 1_000).unwrap();

    let r = auth_middleware(
        &state,
        Some(pair.token_cookie.value.clone()),
        Some(pair.email_cookie.value.clone()),
        1_000,
    );
    let (user, token) = r.unwrap();
    assert_eq!(user.email, "a@example.com");
    assert_eq!(token, session.token);

    // The email cookie is matched case-insensitively.
    let r2 = auth_middleware(
        &state,
        Some(session.token.clone()),
        Some(String::from("A@EXAMPLE.COM")),
        1_000,
    );
    assert!(r2.is_ok());
}

#[test]
fn gate_rejects_missing_mismatched_unknown_and_expired() {
    let mut state = fresh_state();
    let (session, _) = google_callback(&mut state, google_profile(), 1_000).unwrap();

    // Missing token cookie: 401 and verified_email reports the missing half.
    let r = auth_middleware(&state, None, Some(String::from("a@example.com")), 1_000);
    let (code, body) = r.unwrap_err();
    assert_eq!(code, 401);
    assert!(!body.verified_email);

    // Missing email cookie.
    let r = auth_middleware(&state, Some(session.token.clone()), None, 1_000);
    let (code, body) = r.unwrap_err();
    assert_eq!(code, 401);
    assert!(!body.verified_email);

    // Unknown token.
    let r = auth_middleware(
        &state,
        Some(String::from("not-a-token")),
        Some(String::from("a@example.com")),
        1_000,
    );
    let (code, body) = r.unwrap_err();
    assert_eq!(code, 401);
    assert!(body.verified_email);

    // Unknown email.
    let r = auth_middleware(
        &state,
        Some(session.token.clone()),
        Some(String::from("b@example.com")),
        1_000,
    );
    let (code, body) = r.unwrap_err();
    assert_eq!(code, 401);
    assert!(body.verified_email);

    // Expired session: one second past the expiry instant.
    let r = auth_middleware(
        &state,
        Some(session.token.clone()),
        Some(String::from("a@example.com")),
        session.expire_date + 1,
    );
    assert!(r.is_err());
    // At the expiry instant itself the session is still valid.
    let r = auth_middleware(
        &state,
        Some(session.token.clone()),
        Some(String::from("a@example.com")),
        session.expire_date,
    );
    assert!(r.is_ok());
}

#[test]
fn verify_agrees_with_gate_and_never_errors() {
    let mut state = fresh_state();
    let (session, _) = google_callback(&mut state, google_profile(), 1_000).unwrap();

    let cases: [(Option<String>, Option<String>, u64); 5] = [
        (Some(session.token.clone()), Some(String::from("a@example.com")), 1_000),
        (None, None, 1_000),
        (None, Some(String::from("a@example.com")), 1_000),
        (Some(session.token.clone()), Some(String::from("b@example.com")), 1_000),
        (Some(session.token.clone()), Some(String::from("a@example.com")), session.expire_date + 1),
    ];
    for (token, email, now) in cases {
        let gate = auth_middleware(&state, token.clone(), email.clone(), now);
        let v = verify_auth(&state, token, email, now);
        assert_eq!(v.authenticated, gate.is_ok());
    }
}

#[test]
fn logout_deletes_by_token_or_email_and_expires_cookies() {
    let mut state = fresh_state();
    let (s1, _) = google_callback(&mut state, google_profile(), 1_000).unwrap();
    let (s2, _) = google_callback(&mut state, google_profile(), 1_100).unwrap();
    // A session of another user survives.
    let other = GoogleUserInfo {
        email: String::from("b@example.com"),
        given_name: None,
        family_name: Some(String::from("Lovelace")),
        sub: Some(String::from("sub999")),
    };
    let (s3, _) = google_callback(&mut state, other, 1_200).unwrap();
    assert_eq!(state.db.sessions.len(), 3);

    // Logging out with s1's cookies deletes s1 (token match) and s2 (email
    // match), multi-device logout-everywhere.
    let (pair, code) = logout(
        &mut state,
        s1.token.clone(),
        String::from("a@example.com"),
    );
    assert_eq!(code, 200);
    assert_eq!(state.db.sessions.len(), 1);
    assert_eq!(state.db.sessions[0].token, s3.token);
    for c in [&pair.token_cookie, &pair.email_cookie] {
        assert_eq!(c.value, "");
        assert_eq!(c.max_age_seconds, -1);
        assert_eq!(c.domain, "example.com");
        assert_eq!(c.path, "/");
    }

    // The deleted sessions are now rejected; the survivor is still accepted.
    for token in [&s1.token, &s2.token] {
        let r = auth_middleware(
            &state,
            Some(token.clone()),
            Some(String::from("a@example.com")),
            1_300,
        );
        assert!(r.is_err());
    }
    let r = auth_middleware(
        &state,
        Some(s3.token.clone()),
        Some(String::from("b@example.com")),
        1_300,
    );
    assert!(r.is_ok());
}

#[test]
fn full_scenario_login_gate_logout() {
    let mut state = fresh_state();
    let (session, pair) = google_callback(&mut state, google_profile(), 5_000).unwrap();
    assert_eq!(state.db.users.len(), 1);
    assert_eq!(state.db.users[0].email, "a@example.com");
    assert_eq!(state.db.accounts[0].provider, "google");
    assert_eq!(state.db.accounts[0].google_id.as_deref(), Some("sub123"));

    let ok = auth_middleware(
        &state,
        Some(pair.token_cookie.value.clone()),
        Some(pair.email_cookie.value.clone()),
        5_001,
    );
    assert!(ok.is_ok());

    let (_, code) = logout(
        &mut state,
        session.token.clone(),
        String::from("a@example.com"),
    );
    assert_eq!(code, 200);

    let rejected = auth_middleware(
        &state,
        Some(pair.token_cookie.value.clone()),
        Some(pair.email_cookie.value.clone()),
        5_002,
    );
    let (code, _) = rejected.unwrap_err();
    assert_eq!(code, 401);
}

#[test]
fn gate_with_email_but_no_token_reports_unverified_email() {
    let state = fresh_state();
    let r = auth_middleware(&state, None, Some(String::from("a@example.com")), 1);
    let (code, body) = r.unwrap_err();
    assert_eq!(code, 401);
    assert!(!body.verified_email);
}
