use tsumi_auth::codec::{decode_refresh_token, verify_token, TokenKind};
use tsumi_auth::config::Config;
use tsumi_auth::errors::AuthError;
use tsumi_auth::session::{
    cleanup_existing_tokens, refresh, refresh_with, register_user, sign_in, sign_in_with, sign_out,
    sign_up,
};
use tsumi_auth::store::{RefreshTokenTable, RefreshTokens};
use tsumi_auth::users::{NewUser, SignInRequest, SignUpRequest, UserTable};

const NOW: i64 = 1_700_000_000;

fn config() -> Config {
    Config::new(
        "127.0.0.1".to_string(),
        8000,
        "sqlite://auth.db".to_string(),
        vec!["http://localhost:3000".to_string()],
        "access-secret".to_string(),
        1,
        "refresh-secret".to_string(),
        30,
        "refresh_token".to_string(),
        "client-id".to_string(),
        "client-secret".to_string(),
    )
}

fn cheap_hash(password: &str) -> String {
    bcrypt::hash(password, 4).unwrap()
}

fn directory_with(id: &str, name: &str, email: &str, password: &str, verified: bool) -> UserTable {
    let mut users = UserTable::new();
    users
        .insert(NewUser {
            id: id.to_string(),
            name: name.to_string(),
            email: email.to_string(),
            password: cheap_hash(password),
            email_verified: verified,
            created_at: NOW - 100,
        })
        .unwrap();
    users
}

fn signin(email: &str, password: &str) -> SignInRequest {
    SignInRequest { email: email.to_string(), password: password.to_string() }
}

fn user_count(table: &RefreshTokenTable, user: &str) -> usize {
    RefreshTokens::all(table).iter().filter(|r| r.user_id == user).count()
}

#[test]
fn signup_then_signin_before_verification_is_unauthorized() {
    let cfg = config();
    let mut users = UserTable::new();
    let mut tokens = RefreshTokenTable::new();
    let req = SignUpRequest {
        name: "alice".to_string(),
        email: "a@x.com".to_string(),
        password: "longenough1".to_string(),
    };
    let resp = sign_up(&mut users, &req, NOW).unwrap();
    assert_eq!(resp.username, "alice");
    assert_eq!(resp.email, "a@x.com");
    assert!(!resp.email_verified);
    assert_eq!(resp.created_at, NOW);
    assert_eq!(users.len(), 1);
    let stored = users.find_by_email("a@x.com").unwrap();
    assert_ne!(stored.password, "longenough1");
    let r = sign_in(&users, &mut tokens, &cfg, &signin("a@x.com", "longenough1"), None, NOW);
    assert!(matches!(r, Err(AuthError::Unauthorized { .. })));
    assert_eq!(tokens.len(), 0);
}

#[test]
fn signup_never_creates_two_principals_with_one_email() {
    let mut users = UserTable::new();
    let first = register_user(
        &mut users,
        &SignUpRequest {
            name: "alice".to_string(),
            email: "a@x.com".to_string(),
            password: "longenough1".to_string(),
        },
        Some(cheap_hash("longenough1")),
        "id-1".to_string(),
        NOW,
    );
    assert!(first.is_ok());
    let again = sign_up(
        &mut users,
        &SignUpRequest {
            name: "bob".to_string(),
            email: "a@x.com".to_string(),
            password: "longenough2".to_string(),
        },
        NOW,
    );
    assert!(matches!(again, Err(AuthError::Conflict { .. })));
    assert_eq!(users.len(), 1);
}

#[test]
fn signup_rejects_a_taken_name() {
    let mut users = directory_with("id-1", "alice", "a@x.com", "longenough1", false);
    let r = sign_up(
        &mut users,
        &SignUpRequest {
            name: "alice".to_string(),
            email: "other@x.com".to_string(),
            password: "longenough1".to_string(),
        },
        NOW,
    );
    assert!(matches!(r, Err(AuthError::Conflict { .. })));
    assert_eq!(users.len(), 1);
}

#[test]
fn signup_rejects_invalid_requests() {
    let mut users = UserTable::new();
    let cases = [
        ("al", "a@x.com", "longenough1"),
        ("alice", "not-an-email", "longenough1"),
        ("alice", "a@x.com", "short"),
        ("alice", "", "longenough1"),
    ];
    for (name, email, password) in cases {
        let r = sign_up(
            &mut users,
            &SignUpRequest {
                name: name.to_string(),
                email: email.to_string(),
                password: password.to_string(),
            },
            NOW,
        );
        assert!(matches!(r, Err(AuthError::ValidationError { .. })));
    }
    assert_eq!(users.len(), 0);
}

#[test]
fn register_user_reports_a_hashing_failure() {
    let mut users = UserTable::new();
    let r = register_user(
        &mut users,
        &SignUpRequest {
            name: "alice".to_string(),
            email: "a@x.com".to_string(),
            password: "longenough1".to_string(),
        },
        None,
        "id-1".to_string(),
        NOW,
    );
    assert!(matches!(r, Err(AuthError::InternalServerError { .. })));
    assert_eq!(users.len(), 0);
}

#[test]
fn signin_with_wrong_password_is_unauthorized_and_touches_nothing() {
    let cfg = config();
    let users = directory_with("u1", "alice", "a@x.com", "longenough1", true);
    let mut tokens = RefreshTokenTable::new();
    RefreshTokens::create(&mut tokens, "existing", "u1", 30, NOW).unwrap();
    let r = sign_in(
        &users,
        &mut tokens,
        &cfg,
        &signin("a@x.com", "wrongpassword"),
        Some("existing"),
        NOW,
    );
    assert!(matches!(r, Err(AuthError::Unauthorized { .. })));
    assert_eq!(tokens.len(), 1);
    assert!(RefreshTokens::token_exists(&tokens, "existing"));
}

#[test]
fn signin_with_unknown_email_is_unauthorized() {
    let cfg = config();
    let users = directory_with("u1", "alice", "a@x.com", "longenough1", true);
    let mut tokens = RefreshTokenTable::new();
    let r = sign_in(&users, &mut tokens, &cfg, &signin("b@x.com", "longenough1"), None, NOW);
    assert!(matches!(r, Err(AuthError::Unauthorized { .. })));
    assert_eq!(tokens.len(), 0);
}

#[test]
fn signin_with_unverified_email_is_unauthorized() {
    let cfg = config();
    let users = directory_with("u1", "alice", "a@x.com", "longenough1", false);
    let mut tokens = RefreshTokenTable::new();
    let r = sign_in(&users, &mut tokens, &cfg, &signin("a@x.com", "longenough1"), None, NOW);
    assert!(matches!(r, Err(AuthError::Unauthorized { .. })));
    assert_eq!(tokens.len(), 0);
}

#[test]
fn signin_with_invalid_request_is_a_validation_error() {
    let cfg = config();
    let users = directory_with("u1", "alice", "a@x.com", "longenough1", true);
    let mut tokens = RefreshTokenTable::new();
    let r = sign_in(&users, &mut tokens, &cfg, &signin("a@x.com", "short"), None, NOW);
    assert!(matches!(r, Err(AuthError::ValidationError { .. })));
}

#[test]
fn signin_issues_a_pair_whose_expiries_agree_with_the_record() {
    let cfg = config();
    let users = directory_with("u1", "alice", "a@x.com", "longenough1", true);
    let mut tokens = RefreshTokenTable::new();
    let resp =
        sign_in(&users, &mut tokens, &cfg, &signin("a@x.com", "longenough1"), None, NOW).unwrap();
    assert_eq!(resp.user.id, "u1");
    assert_eq!(resp.signed_in_at, NOW);
    let s = &resp.session;
    assert_eq!(s.record.token, s.refresh_token);
    assert_eq!(s.record.user_id, "u1");
    assert_eq!(s.record.created_at, NOW);
    assert_eq!(s.record.expires_at, NOW + 30 * 86400);
    assert_eq!(s.refresh_claims.exp, s.record.expires_at);
    assert_eq!(s.access_claims.exp, NOW + 3600);
    let decoded = decode_refresh_token(&cfg, &s.refresh_token, NOW).unwrap();
    assert_eq!(decoded.exp, s.record.expires_at);
    assert_eq!(decoded.iat, NOW);
    assert_eq!(decoded.user_id, "u1");
    let access = verify_token(&cfg, TokenKind::Access, &s.access_token, NOW).unwrap();
    assert_eq!(access.exp, NOW + 3600);
    assert_eq!(access.user_id, "u1");
    assert_eq!(tokens.len(), 1);
}

#[test]
fn refresh_token_is_single_use() {
    let cfg = config();
    let users = directory_with("u1", "alice", "a@x.com", "longenough1", true);
    let mut tokens = RefreshTokenTable::new();
    let first =
        sign_in(&users, &mut tokens, &cfg, &signin("a@x.com", "longenough1"), None, NOW).unwrap();
    let issued_token = first.session.refresh_token.clone();
    let rotated = refresh(&mut tokens, &cfg, Some(&issued_token), NOW + 10).unwrap();
    assert_ne!(rotated.session.refresh_token, issued_token);
    assert_eq!(rotated.refreshed_at, NOW + 10);
    let again = refresh(&mut tokens, &cfg, Some(&issued_token), NOW + 20);
    assert!(matches!(again, Err(AuthError::Unauthorized { .. })));
    let next = refresh(&mut tokens, &cfg, Some(&rotated.session.refresh_token), NOW + 30);
    assert!(next.is_ok());
}

#[test]
fn racing_refreshes_have_one_winner_and_no_duplicate_record() {
    let cfg = config();
    let users = directory_with("u1", "alice", "a@x.com", "longenough1", true);
    let mut tokens = RefreshTokenTable::new();
    let first =
        sign_in(&users, &mut tokens, &cfg, &signin("a@x.com", "longenough1"), None, NOW).unwrap();
    let stale = first.session.refresh_token.clone();
    let a = refresh(&mut tokens, &cfg, Some(&stale), NOW + 5);
    let b = refresh(&mut tokens, &cfg, Some(&stale), NOW + 5);
    assert!(a.is_ok());
    assert!(matches!(b, Err(AuthError::Unauthorized { .. })));
    assert_eq!(user_count(&tokens, "u1"), 1);
    assert_eq!(tokens.len(), 1);
}

#[test]
fn refresh_without_a_token_is_unauthorized() {
    let cfg = config();
    let mut tokens = RefreshTokenTable::new();
    assert!(matches!(refresh(&mut tokens, &cfg, None, NOW), Err(AuthError::Unauthorized { .. })));
}

#[test]
fn refresh_with_a_forged_token_is_unauthorized() {
    let cfg = config();
    let mut tokens = RefreshTokenTable::new();
    RefreshTokens::create(&mut tokens, "not.a.token", "u1", 30, NOW).unwrap();
    let r = refresh(&mut tokens, &cfg, Some("not.a.token"), NOW);
    assert!(matches!(r, Err(AuthError::Unauthorized { .. })));
    assert_eq!(tokens.len(), 1);
}

#[test]
fn refresh_with_an_access_token_is_unauthorized() {
    let cfg = config();
    let users = directory_with("u1", "alice", "a@x.com", "longenough1", true);
    let mut tokens = RefreshTokenTable::new();
    let s = sign_in(&users, &mut tokens, &cfg, &signin("a@x.com", "longenough1"), None, NOW)
        .unwrap()
        .session;
    let r = refresh(&mut tokens, &cfg, Some(&s.access_token), NOW);
    assert!(matches!(r, Err(AuthError::Unauthorized { .. })));
    assert_eq!(tokens.len(), 1);
}

#[test]
fn refresh_deletes_a_record_of_another_principal() {
    let cfg = config();
    let mut tokens = RefreshTokenTable::new();
    let (token, _) =
        tsumi_auth::codec::mint(&cfg, TokenKind::Refresh, "u1", None, NOW).unwrap();
    RefreshTokens::create(&mut tokens, &token, "u2", 30, NOW).unwrap();
    let r = refresh(&mut tokens, &cfg, Some(&token), NOW);
    assert!(matches!(r, Err(AuthError::Unauthorized { .. })));
    assert_eq!(tokens.len(), 0);
}

#[test]
fn refresh_deletes_a_record_past_its_stored_expiry() {
    let cfg = config();
    let mut tokens = RefreshTokenTable::new();
    let (token, _) =
        tsumi_auth::codec::mint(&cfg, TokenKind::Refresh, "u1", None, NOW).unwrap();
    RefreshTokens::create(&mut tokens, &token, "u1", -1, NOW).unwrap();
    let r = refresh(&mut tokens, &cfg, Some(&token), NOW);
    assert!(matches!(r, Err(AuthError::Unauthorized { .. })));
    assert_eq!(tokens.len(), 0);
}

#[test]
fn refresh_past_the_claimed_expiry_is_unauthorized() {
    let cfg = config();
    let mut tokens = RefreshTokenTable::new();
    let (token, claims) =
        tsumi_auth::codec::mint(&cfg, TokenKind::Refresh, "u1", None, NOW).unwrap();
    RefreshTokens::create(&mut tokens, &token, "u1", 60, NOW).unwrap();
    let r = refresh(&mut tokens, &cfg, Some(&token), claims.exp + 1);
    assert!(matches!(r, Err(AuthError::Unauthorized { .. })));
    assert_eq!(tokens.len(), 1);
}

#[test]
fn signout_with_an_unknown_token_still_clears_the_credential() {
    let mut tokens = RefreshTokenTable::new();
    RefreshTokens::create(&mut tokens, "kept", "u1", 30, NOW).unwrap();
    let out = sign_out(&mut tokens, Some("unknown"), NOW);
    assert!(matches!(out.result, Err(AuthError::Unauthorized { .. })));
    assert!(out.clear_credential);
    assert_eq!(tokens.len(), 1);
}

#[test]
fn signout_deletes_the_presented_token() {
    let mut tokens = RefreshTokenTable::new();
    RefreshTokens::create(&mut tokens, "live", "u1", 30, NOW).unwrap();
    RefreshTokens::create(&mut tokens, "other", "u1", 30, NOW).unwrap();
    let out = sign_out(&mut tokens, Some("live"), NOW);
    assert_eq!(out.result.unwrap().signed_out_at, NOW);
    assert!(out.clear_credential);
    assert!(!RefreshTokens::token_exists(&tokens, "live"));
    assert!(RefreshTokens::token_exists(&tokens, "other"));
}

#[test]
fn signout_without_a_token_is_unauthorized() {
    let mut tokens = RefreshTokenTable::new();
    let out = sign_out(&mut tokens, None, NOW);
    assert!(matches!(out.result, Err(AuthError::Unauthorized { .. })));
    assert!(!out.clear_credential);
}

#[test]
fn cleanup_of_a_foreign_token_wipes_the_principals_records() {
    let mut tokens = RefreshTokenTable::new();
    RefreshTokens::create(&mut tokens, "mine-1", "u1", 30, NOW).unwrap();
    RefreshTokens::create(&mut tokens, "theirs", "u2", 30, NOW).unwrap();
    RefreshTokens::create(&mut tokens, "mine-2", "u1", 30, NOW).unwrap();
    cleanup_existing_tokens(&mut tokens, Some("theirs"), "u1");
    let left: Vec<String> = RefreshTokens::all(&tokens).into_iter().map(|r| r.token).collect();
    assert_eq!(left, vec!["theirs".to_string()]);
}

#[test]
fn cleanup_of_an_own_token_replaces_it_alone() {
    let mut tokens = RefreshTokenTable::new();
    RefreshTokens::create(&mut tokens, "mine-1", "u1", 30, NOW).unwrap();
    RefreshTokens::create(&mut tokens, "mine-2", "u1", 30, NOW).unwrap();
    cleanup_existing_tokens(&mut tokens, Some("mine-1"), "u1");
    let left: Vec<String> = RefreshTokens::all(&tokens).into_iter().map(|r| r.token).collect();
    assert_eq!(left, vec!["mine-2".to_string()]);
    cleanup_existing_tokens(&mut tokens, Some("absent"), "u1");
    assert_eq!(tokens.len(), 1);
}

#[test]
fn signin_with_a_foreign_presented_token_wipes_then_issues() {
    let cfg = config();
    let users = directory_with("u1", "alice", "a@x.com", "longenough1", true);
    let mut tokens = RefreshTokenTable::new();
    RefreshTokens::create(&mut tokens, "old-mine", "u1", 30, NOW).unwrap();
    RefreshTokens::create(&mut tokens, "theirs", "u2", 30, NOW).unwrap();
    let resp = sign_in(
        &users,
        &mut tokens,
        &cfg,
        &signin("a@x.com", "longenough1"),
        Some("theirs"),
        NOW,
    )
    .unwrap();
    assert!(!RefreshTokens::token_exists(&tokens, "old-mine"));
    assert!(RefreshTokens::token_exists(&tokens, "theirs"));
    assert!(RefreshTokens::token_exists(&tokens, &resp.session.refresh_token));
    assert_eq!(tokens.len(), 2);
}

#[test]
fn verified_principal_can_sign_in_after_marking() {
    let cfg = config();
    let mut users = directory_with("u1", "alice", "a@x.com", "longenough1", false);
    assert!(users.mark_email_verified("u1", NOW));
    assert!(!users.mark_email_verified("nobody", NOW));
    let mut tokens = RefreshTokenTable::new();
    let r = sign_in(&users, &mut tokens, &cfg, &signin("a@x.com", "longenough1"), None, NOW);
    assert!(r.is_ok());
}

fn message_of<T>(r: Result<T, AuthError>) -> String {
    match r {
        Err(AuthError::Unauthorized { message }) => message,
        _ => panic!("expected an Unauthorized error"),
    }
}

#[test]
fn refresh_in_the_issuing_second_succeeds_once() {
    let cfg = config();
    let users = directory_with("u1", "alice", "a@x.com", "longenough1", true);
    let mut tokens = RefreshTokenTable::new();
    let first =
        sign_in(&users, &mut tokens, &cfg, &signin("a@x.com", "longenough1"), None, NOW).unwrap();
    let issued_token = first.session.refresh_token.clone();
    let rotated = refresh(&mut tokens, &cfg, Some(&issued_token), NOW).unwrap();
    assert_ne!(rotated.session.refresh_token, issued_token);
    assert!(!RefreshTokens::token_exists(&tokens, &issued_token));
    assert_eq!(tokens.len(), 1);
    let reuse = refresh(&mut tokens, &cfg, Some(&issued_token), NOW);
    assert!(matches!(reuse, Err(AuthError::Unauthorized { .. })));
    assert_eq!(tokens.len(), 1);
}

#[test]
fn refresh_that_would_reissue_the_same_value_changes_nothing() {
    let cfg = config();
    let mut tokens = RefreshTokenTable::new();
    let t = tsumi_auth::codec::create_refresh_token_with(&cfg, "u1", "jti-1", NOW).unwrap();
    RefreshTokens::create(&mut tokens, &t, "u1", 7, NOW).unwrap();
    let r = refresh_with(&mut tokens, &cfg, Some(&t), NOW, "jti-1", "rec-2".to_string());
    assert!(matches!(r, Err(AuthError::DatabaseError { .. })));
    assert!(RefreshTokens::token_exists(&tokens, &t));
    let ok = refresh_with(&mut tokens, &cfg, Some(&t), NOW, "jti-2", "rec-2".to_string()).unwrap();
    assert_eq!(ok.session.record.id, "rec-2");
    assert!(!RefreshTokens::token_exists(&tokens, &t));
}

#[test]
fn sign_in_with_stores_the_given_identifiers() {
    let cfg = config();
    let users = directory_with("u1", "alice", "a@x.com", "longenough1", true);
    let mut tokens = RefreshTokenTable::new();
    let resp = sign_in_with(
        &users,
        &mut tokens,
        &cfg,
        &signin("a@x.com", "longenough1"),
        None,
        NOW,
        "jti-1",
        "rec-1".to_string(),
    )
    .unwrap();
    assert_eq!(resp.session.record.id, "rec-1");
    let expected =
        tsumi_auth::codec::create_refresh_token_with(&cfg, "u1", "jti-1", NOW).unwrap();
    assert_eq!(resp.session.refresh_token, expected);
}

#[test]
fn refresh_refusals_share_one_message() {
    let cfg = config();
    let mut tokens = RefreshTokenTable::new();
    let (mismatched, _) = tsumi_auth::codec::mint(&cfg, TokenKind::Refresh, "u1", None, NOW).unwrap();
    RefreshTokens::create(&mut tokens, &mismatched, "u2", 30, NOW).unwrap();
    let (expired, _) = tsumi_auth::codec::mint(&cfg, TokenKind::Refresh, "u3", None, NOW).unwrap();
    RefreshTokens::create(&mut tokens, &expired, "u3", -1, NOW).unwrap();
    let (absent, _) = tsumi_auth::codec::mint(&cfg, TokenKind::Refresh, "u4", None, NOW).unwrap();
    let messages = [
        message_of(refresh(&mut tokens, &cfg, None, NOW + 5)),
        message_of(refresh(&mut tokens, &cfg, Some("forged"), NOW + 5)),
        message_of(refresh(&mut tokens, &cfg, Some(&absent), NOW + 5)),
        message_of(refresh(&mut tokens, &cfg, Some(&mismatched), NOW + 5)),
        message_of(refresh(&mut tokens, &cfg, Some(&expired), NOW + 5)),
    ];
    for m in &messages {
        assert_eq!(m, "Invalid or expired refresh token");
    }
}

#[test]
fn signin_refusals_share_one_message() {
    let cfg = config();
    let verified = directory_with("u1", "alice", "a@x.com", "longenough1", true);
    let unverified = directory_with("u2", "bob", "b@x.com", "longenough2", false);
    let mut tokens = RefreshTokenTable::new();
    let unknown = sign_in(&verified, &mut tokens, &cfg, &signin("z@x.com", "longenough1"), None, NOW);
    let wrong = sign_in(&verified, &mut tokens, &cfg, &signin("a@x.com", "wrongpassword"), None, NOW);
    let gated = sign_in(&unverified, &mut tokens, &cfg, &signin("b@x.com", "longenough2"), None, NOW);
    assert_eq!(message_of(unknown), "Invalid email or password");
    assert_eq!(message_of(wrong), "Invalid email or password");
    assert_eq!(message_of(gated), "Invalid email or password");
    assert_eq!(tokens.len(), 0);
}

#[test]
fn signup_stores_a_hash_that_verifies() {
    let mut users = UserTable::new();
    let req = SignUpRequest {
        name: "carol".to_string(),
        email: "c@x.com".to_string(),
        password: "longenough3".to_string(),
    };
    let resp = sign_up(&mut users, &req, NOW).unwrap();
    let stored = users.find_by_email("c@x.com").unwrap();
    assert_eq!(stored.id, resp.id);
    assert!(bcrypt::verify("longenough3", &stored.password).unwrap());
}

#[test]
fn stored_records_get_distinct_identifiers() {
    let mut tokens = RefreshTokenTable::new();
    let a = RefreshTokens::create(&mut tokens, "a", "u1", 1, NOW).unwrap();
    let b = RefreshTokens::create(&mut tokens, "b", "u1", 1, NOW).unwrap();
    assert_ne!(a.id, b.id);
}
