use gentlepol::auth::{Auth, AuthError, WEEK_MILLIS};
use gentlepol::store::Store;

#[test]
fn register_then_login_succeeds() {
    let mut store = Store::new();
    let auth = Auth::new();
    assert!(auth.register(&mut store, "alice", "pw1").is_ok());
    let token = auth.login_at(&mut store, "alice", "pw1", 1_000).unwrap();
    assert!(!token.is_empty());
}

#[test]
fn login_wrong_password_fails() {
    let mut store = Store::new();
    let auth = Auth::new();
    auth.register(&mut store, "alice", "pw1").unwrap();
    let r = auth.login_at(&mut store, "alice", "pw2", 1_000);
    assert_eq!(r.unwrap_err(), AuthError::Password);
}

#[test]
fn login_unknown_user_fails() {
    let mut store = Store::new();
    let auth = Auth::new();
    let r = auth.login_at(&mut store, "nobody", "pw1", 1_000);
    assert_eq!(r.unwrap_err(), AuthError::NoUser);
}

#[test]
fn duplicate_register_refused() {
    let mut store = Store::new();
    let auth = Auth::new();
    auth.register(&mut store, "alice", "pw1").unwrap();
    let r = auth.register(&mut store, "alice", "pw2");
    assert_eq!(r.unwrap_err(), AuthError::Duplicate);
}

#[test]
fn token_resolves_to_owner() {
    let mut store = Store::new();
    let auth = Auth::new();
    auth.register(&mut store, "alice", "pw1").unwrap();
    let token = auth.login_at(&mut store, "alice", "pw1", 1_000).unwrap();
    let user = auth.get_user_at(&store, &token, 2_000).unwrap();
    assert_eq!(user.name, "alice");
}

#[test]
fn token_expires_after_window() {
    let issued: i64 = 1_000;
    let mut store = Store::new();
    let auth = Auth::new();
    auth.register(&mut store, "alice", "pw1").unwrap();
    let token = auth.login_at(&mut store, "alice", "pw1", issued).unwrap();
    let just_before = issued + WEEK_MILLIS - 1;
    assert!(auth.get_user_at(&store, &token, just_before).is_ok());
    let at_expiry = issued + WEEK_MILLIS;
    assert_eq!(
        auth.get_user_at(&store, &token, at_expiry).unwrap_err(),
        AuthError::ExpiredToken
    );
    let well_after = issued + 2 * WEEK_MILLIS;
    assert_eq!(
        auth.get_user_at(&store, &token, well_after).unwrap_err(),
        AuthError::ExpiredToken
    );
}

#[test]
fn malformed_token_rejected() {
    let mut store = Store::new();
    let auth = Auth::new();
    auth.register(&mut store, "alice", "pw1").unwrap();
    auth.login_at(&mut store, "alice", "pw1", 1_000).unwrap();
    let r = auth.get_user_at(&store, "not-a-token", 2_000);
    assert_eq!(r.unwrap_err(), AuthError::ParseToken);
}

#[test]
fn unknown_token_rejected() {
    let mut store = Store::new();
    let auth = Auth::new();
    auth.register(&mut store, "alice", "pw1").unwrap();
    auth.login_at(&mut store, "alice", "pw1", 1_000).unwrap();
    // Well-formed, but no session carries it.
    let r = auth.get_user_at(&store, "550e8400-e29b-41d4-a716-446655440000", 2_000);
    assert_eq!(r.unwrap_err(), AuthError::InvalidToken);
}

#[test]
fn token_round_trips_as_text() {
    let mut store = Store::new();
    let auth = Auth::new();
    auth.register(&mut store, "alice", "pw1").unwrap();
    let token = auth.login_at(&mut store, "alice", "pw1", 1_000).unwrap();
    // The canonical text form: 32 lowercase hex digits in groups of
    // 8-4-4-4-12. A token that came back altered would not satisfy this.
    assert_eq!(token.len(), 36);
    for (i, c) in token.chars().enumerate() {
        if i == 8 || i == 13 || i == 18 || i == 23 {
            assert_eq!(c, '-');
        } else {
            assert!(c.is_ascii_hexdigit() && !c.is_ascii_uppercase());
        }
    }
}

#[test]
fn concurrent_sessions_both_resolve() {
    let mut store = Store::new();
    let auth = Auth::new();
    auth.register(&mut store, "alice", "pw1").unwrap();
    let t1 = auth.login_at(&mut store, "alice", "pw1", 1_000).unwrap();
    let t2 = auth.login_at(&mut store, "alice", "pw1", 5_000).unwrap();
    assert_ne!(t1, t2);
    let u1 = auth.get_user_at(&store, &t1, 6_000).unwrap();
    let u2 = auth.get_user_at(&store, &t2, 6_000).unwrap();
    assert_eq!(u1.id, u2.id);
}

#[test]
fn login_with_real_clock_round_trips() {
    let mut store = Store::new();
    let auth = Auth::new();
    auth.register(&mut store, "alice", "pw1").unwrap();
    let token = auth.login(&mut store, "alice", "pw1").unwrap();
    let user = auth.get_user(&store, &token).unwrap();
    assert_eq!(user.name, "alice");
}

#[test]
fn empty_credentials_round_trip() {
    let mut store = Store::new();
    let auth = Auth::new();
    auth.register(&mut store, "", "").unwrap();
    let token = auth.login_at(&mut store, "", "", 1_000).unwrap();
    let user = auth.get_user_at(&store, &token, 2_000).unwrap();
    assert_eq!(user.name, "");
}

#[test]
fn unicode_credentials_round_trip() {
    let mut store = Store::new();
    let auth = Auth::new();
    auth.register(&mut store, "ヤドン", "Schlüssel").unwrap();
    let token = auth.login_at(&mut store, "ヤドン", "Schlüssel", 1_000).unwrap();
    let user = auth.get_user_at(&store, &token, 2_000).unwrap();
    assert_eq!(user.name, "ヤドン");
    let wrong = auth.login_at(&mut store, "ヤドン", "Schlussel", 1_000);
    assert_eq!(wrong.unwrap_err(), AuthError::Password);
}

#[test]
fn distinct_users_resolve_distinctly() {
    let mut store = Store::new();
    let auth = Auth::new();
    auth.register(&mut store, "alice", "pw1").unwrap();
    auth.register(&mut store, "bob", "pw2").unwrap();
    let ta = auth.login_at(&mut store, "alice", "pw1", 1_000).unwrap();
    let tb = auth.login_at(&mut store, "bob", "pw2", 1_000).unwrap();
    let ua = auth.get_user_at(&store, &ta, 2_000).unwrap();
    let ub = auth.get_user_at(&store, &tb, 2_000).unwrap();
    assert_eq!(ua.name, "alice");
    assert_eq!(ub.name, "bob");
    assert_ne!(ua.id, ub.id);
}
