use backend::util::account::Account;
use backend::util::app_state::AppState;
use backend::util::errors::AuthError;
use backend::util::session::Session;
use backend::util::user::{validate_password, User};

fn fresh_state() -> AppState {
    AppState::new(
        String::from("https://app.example.com"),
        String::from("example.com"),
    )
}

#[test]
fn create_user_lowers_email_and_conflicts_on_duplicate() {
    let mut state = fresh_state();
    let u = User::create(
        &mut state,
        String::from("Ada"),
        String::from("Lovelace"),
        "Ada@Example.COM",
        42,
    )
    .unwrap();
    assert_eq!(u.email, "ada@example.com");
    assert_eq!(u.first_name, "Ada");
    assert_eq!(u.last_name, "Lovelace");
    assert_eq!(u.creation_date, 42);

    // A second creation under any casing of the same email conflicts.
    let err = User::create(
        &mut state,
        String::from("Someone"),
        String::from("Else"),
        "ADA@example.com",
        43,
    )
    .unwrap_err();
    assert_eq!(err, AuthError::Conflict);
    assert_eq!(state.db.users.len(), 1);
}

#[test]
fn get_by_email_is_case_insensitive() {
    let mut state = fresh_state();
    User::create(
        &mut state,
        String::from("Ada"),
        String::from("Lovelace"),
        "ada@example.com",
        42,
    )
    .unwrap();
    let found = User::get_by_email(&state, "ADA@EXAMPLE.COM").unwrap();
    assert_eq!(found.email, "ada@example.com");
    let missing = User::get_by_email(&state, "nobody@example.com").unwrap_err();
    assert_eq!(missing, AuthError::NotFound);
}

#[test]
fn create_user_storage_error_when_id_space_exhausted() {
    let mut state = fresh_state();
    state.db.next_id = u64::MAX;
    let err = User::create(
        &mut state,
        String::from("Ada"),
        String::from("Lovelace"),
        "ada@example.com",
        42,
    )
    .unwrap_err();
    assert_eq!(err, AuthError::StorageError);
    assert_eq!(state.db.users.len(), 0);
}

#[test]
fn account_per_user_and_provider_is_unique() {
    let mut state = fresh_state();
    let u = User::create(
        &mut state,
        String::from("Ada"),
        String::from("Lovelace"),
        "ada@example.com",
        42,
    )
    .unwrap();
    let a = Account::create_for_provider(
        &mut state,
        u.id,
        String::from("google"),
        Some(String::from("sub123")),
        None,
        43,
    )
    .unwrap();
    assert_eq!(a.user_id, u.id);
    assert_eq!(a.provider, "google");

    let err = Account::create_for_provider(
        &mut state,
        u.id,
        String::from("google"),
        Some(String::from("sub456")),
        None,
        44,
    )
    .unwrap_err();
    assert_eq!(err, AuthError::Conflict);

    let got = Account::get_by_user_id_and_provider(&state, u.id, String::from("google")).unwrap();
    assert_eq!(got.google_id.as_deref(), Some("sub123"));
    let missing =
        Account::get_by_user_id_and_provider(&state, u.id, String::from("github")).unwrap_err();
    assert_eq!(missing, AuthError::NotFound);
}

#[test]
fn get_by_user_id_lists_only_that_users_accounts() {
    let mut state = fresh_state();
    let u1 = User::create(
        &mut state,
        String::from("Ada"),
        String::from("Lovelace"),
        "ada@example.com",
        1,
    )
    .unwrap();
    let u2 = User::create(
        &mut state,
        String::from("Alan"),
        String::from("Turing"),
        "alan@example.com",
        2,
    )
    .unwrap();
    Account::create_for_provider(&mut state, u1.id, String::from("google"), None, None, 3).unwrap();
    Account::create_for_provider(&mut state, u2.id, String::from("google"), None, None, 4).unwrap();
    Account::create_email(&mut state, u1.id, String::from("hunter2Aa"), 5).unwrap();

    let of_u1 = Account::get_by_user_id(&state, u1.id);
    assert_eq!(of_u1.len(), 2);
    assert!(of_u1.iter().all(|a| a.user_id == u1.id));
    let of_u2 = Account::get_by_user_id(&state, u2.id);
    assert_eq!(of_u2.len(), 1);
}

#[test]
fn create_email_stores_a_hash_not_the_password() {
    let mut state = fresh_state();
    let u = User::create(
        &mut state,
        String::from("Ada"),
        String::from("Lovelace"),
        "ada@example.com",
        1,
    )
    .unwrap();
    let a = Account::create_email(&mut state, u.id, String::from("hunter2Aa"), 2).unwrap();
    assert_eq!(a.provider, "email");
    assert!(a.google_id.is_none());
    let hash = a.password.unwrap();
    assert!(hash.starts_with("$argon2"));
    assert_ne!(hash, "hunter2Aa");

    let err = Account::create_email(&mut state, u.id, String::from("hunter2Aa"), 3).unwrap_err();
    assert_eq!(err, AuthError::Conflict);
}

#[test]
fn issued_session_row_matches_cookie_pair() {
    let mut state = fresh_state();
    let u = User::create(
        &mut state,
        String::from("Ada"),
        String::from("Lovelace"),
        "ada@example.com",
        1,
    )
    .unwrap();
    let a =
        Account::create_for_provider(&mut state, u.id, String::from("google"), None, None, 2)
            .unwrap();
    let (s, pair) = Session::create_and_get(
        &mut state,
        a.id,
        String::from("test device"),
        "ada@example.com",
        10_000,
        4_000,
    )
    .unwrap();
    assert_eq!(s.account_id, a.id);
    assert_eq!(s.creation_date, 4_000);
    assert_eq!(s.expire_date, 10_000);
    assert_eq!(s.device, "test device");
    assert_eq!(s.email, "ada@example.com");
    assert_eq!(s.token.len(), 36);
    assert_eq!(state.db.sessions.len(), 1);
    assert_eq!(pair.token_cookie.value, s.token);
    assert_eq!(pair.email_cookie.value, "ada@example.com");
    // Max-age carries the remaining lifetime at issuance.
    assert_eq!(pair.token_cookie.max_age_seconds, 6_000);
    assert_eq!(pair.email_cookie.max_age_seconds, 6_000);

    // `create` persists a row the same way and hands back the cookies alone.
    let pair2 = Session::create(
        &mut state,
        a.id,
        String::from("other device"),
        "ada@example.com",
        10_000,
        4_000,
    )
    .unwrap();
    assert_eq!(state.db.sessions.len(), 2);
    assert_eq!(state.db.sessions[1].token, pair2.token_cookie.value);
    assert_ne!(pair2.token_cookie.value, pair.token_cookie.value);
}

#[test]
fn is_logged_in_checks_token_email_and_expiry() {
    let mut state = fresh_state();
    let u = User::create(
        &mut state,
        String::from("Ada"),
        String::from("Lovelace"),
        "ada@example.com",
        1,
    )
    .unwrap();
    let a =
        Account::create_for_provider(&mut state, u.id, String::from("google"), None, None, 2)
            .unwrap();
    let (s, _) = Session::create_and_get(
        &mut state,
        a.id,
        String::from("test device"),
        "ada@example.com",
        10_000,
        4_000,
    )
    .unwrap();

    assert!(u.is_logged_in(&state, s.token.clone(), 4_000));
    assert!(u.is_logged_in(&state, s.token.clone(), 10_000));
    assert!(!u.is_logged_in(&state, s.token.clone(), 10_001));
    assert!(!u.is_logged_in(&state, String::from("wrong"), 4_000));

    let other = User::create(
        &mut state,
        String::from("Alan"),
        String::from("Turing"),
        "alan@example.com",
        5,
    )
    .unwrap();
    // The session snapshots ada's email, so it does not log alan in.
    assert!(!other.is_logged_in(&state, s.token.clone(), 4_000));
}

#[test]
fn validate_password_requires_length_digit_and_uppercase() {
    assert!(validate_password("Password1"));
    assert!(validate_password("  Password1  "));
    assert!(!validate_password("password1"));
    assert!(!validate_password("PASSWORD"));
    assert!(!validate_password("Pass1"));
    assert!(!validate_password("Pass1   "));
    assert!(!validate_password(""));
    assert!(validate_password("xxxxxxX9"));
}
