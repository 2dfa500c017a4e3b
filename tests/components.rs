use tsumi_auth::codec::{
    check_decoded_claims, create_access_token, create_jwt, create_refresh_token,
    decode_access_token, extract_user_id_from_claims, is_token_close_to_expiry, mint,
    verify_token, Claims, CodecError, TokenKind,
};
use tsumi_auth::config::{Config, ConfigError};
use tsumi_auth::cookies::{
    github_authorize_url, remove_refresh_token_cookie, set_auth_cookies,
    set_refresh_token_cookie, CookieAction,
};
use tsumi_auth::errors::AuthError;
use tsumi_auth::session::oauth_login;
use tsumi_auth::store::{checked_expiry, RefreshTokenTable, RefreshTokens};
use tsumi_auth::text::{parse_i64, parse_u16, split_commas};

const NOW: i64 = 1_700_000_000;

fn config() -> Config {
    Config::new(
        "127.0.0.1".to_string(),
        8000,
        "sqlite://auth.db".to_string(),
        vec!["http://a".to_string(), "http://b".to_string()],
        "access-secret".to_string(),
        2,
        "refresh-secret".to_string(),
        7,
        "refresh_token".to_string(),
        "client-id".to_string(),
        "client-secret".to_string(),
    )
}

fn env(pairs: &[(&str, &str)]) -> Vec<(String, String)> {
    pairs.iter().map(|(k, v)| (k.to_string(), v.to_string())).collect()
}

fn full_env() -> Vec<(String, String)> {
    env(&[
        ("DATABASE_URL", "sqlite://auth.db"),
        ("CORS_ORIGIN", "http://a,http://b"),
        ("ACCESS_SECRET", "as"),
        ("ACCESS_EXPIRES", "2"),
        ("REFRESH_TOKEN", "rs"),
        ("REFRESH_EXPIRES", "7"),
        ("COOKIE_NAME", "refresh_token"),
        ("GITHUB_OAUTH_CLIENT_ID", "cid"),
        ("GITHUB_OAUTH_CLIENT_SECRET", "csec"),
    ])
}

#[test]
fn minted_token_verifies_with_its_claims() {
    let cfg = config();
    let (token, claims) = mint(&cfg, TokenKind::Access, "user-1", None, NOW).unwrap();
    assert_eq!(token.split('.').count(), 3);
    assert_eq!(claims.exp, NOW + 2 * 3600);
    assert_eq!(claims.iat, NOW);
    let back = verify_token(&cfg, TokenKind::Access, &token, NOW + 10).unwrap();
    assert_eq!(back.exp, claims.exp);
    assert_eq!(back.iat, NOW);
    assert_eq!(back.user_id, "user-1");
    assert_eq!(extract_user_id_from_claims(&back), "user-1");
}

#[test]
fn refresh_claims_live_the_configured_days() {
    let cfg = config();
    let (_, claims) = mint(&cfg, TokenKind::Refresh, "user-1", None, NOW).unwrap();
    assert_eq!(claims.exp, NOW + 7 * 86400);
}

#[test]
fn expired_token_is_reported_as_expired() {
    let cfg = config();
    let (token, claims) = mint(&cfg, TokenKind::Access, "user-1", None, NOW).unwrap();
    assert!(verify_token(&cfg, TokenKind::Access, &token, claims.exp).is_ok());
    assert_eq!(
        verify_token(&cfg, TokenKind::Access, &token, claims.exp + 1).unwrap_err(),
        CodecError::ExpiredToken
    );
    let r = decode_access_token(&cfg, &token, claims.exp + 1);
    assert!(matches!(r, Err(AuthError::Unauthorized { .. })));
}

#[test]
fn token_of_the_other_kind_has_an_invalid_signature() {
    let cfg = config();
    let (token, _) = mint(&cfg, TokenKind::Access, "user-1", None, NOW).unwrap();
    assert_eq!(
        verify_token(&cfg, TokenKind::Refresh, &token, NOW).unwrap_err(),
        CodecError::InvalidSignature
    );
}

#[test]
fn garbage_token_is_malformed() {
    let cfg = config();
    assert_eq!(
        verify_token(&cfg, TokenKind::Access, "garbage", NOW).unwrap_err(),
        CodecError::MalformedToken
    );
    assert_eq!(verify_token(&cfg, TokenKind::Access, "", NOW).unwrap_err(), CodecError::MalformedToken);
}

#[test]
fn decoded_claims_need_all_three_members() {
    assert_eq!(
        check_decoded_claims(Ok((Some(10), None, Some("u".to_string()))), 5).unwrap_err(),
        CodecError::MalformedToken
    );
    assert_eq!(
        check_decoded_claims(Ok((Some(10), Some(1), Some("u".to_string()))), 11).unwrap_err(),
        CodecError::ExpiredToken
    );
    let c = check_decoded_claims(Ok((Some(10), Some(1), Some("u".to_string()))), 10).unwrap();
    assert_eq!((c.exp, c.iat, c.user_id.as_str()), (10, 1, "u"));
    assert_eq!(
        check_decoded_claims(Err(CodecError::InvalidSignature), 0).unwrap_err(),
        CodecError::InvalidSignature
    );
}

#[test]
fn token_creation_reports_an_expiry_out_of_range() {
    let cfg = config();
    let r = create_access_token(&cfg, "user-1", i64::MAX - 10);
    assert!(matches!(r, Err(AuthError::InternalServerError { .. })));
    let ok = create_refresh_token(&cfg, "user-1", NOW).unwrap();
    assert_ne!(ok, "user-1");
}

#[test]
fn refresh_tokens_are_unique_within_one_second() {
    let cfg = config();
    let a = create_refresh_token(&cfg, "user-1", NOW).unwrap();
    let b = create_refresh_token(&cfg, "user-1", NOW).unwrap();
    assert_ne!(a, b);
    let c = verify_token(&cfg, TokenKind::Refresh, &a, NOW).unwrap();
    assert_eq!((c.exp, c.iat, c.user_id.as_str()), (NOW + 7 * 86400, NOW, "user-1"));
}

#[test]
fn refresh_token_with_a_given_identifier_is_reproducible() {
    let cfg = config();
    let a = tsumi_auth::codec::create_refresh_token_with(&cfg, "user-1", "jti-1", NOW).unwrap();
    let b = tsumi_auth::codec::create_refresh_token_with(&cfg, "user-1", "jti-1", NOW).unwrap();
    let c = tsumi_auth::codec::create_refresh_token_with(&cfg, "user-1", "jti-2", NOW).unwrap();
    assert_eq!(a, b);
    assert_ne!(a, c);
}

#[test]
fn close_to_expiry_counts_remaining_minutes() {
    let c = Claims { exp: NOW + 600, iat: NOW, user_id: "u".to_string() };
    assert!(is_token_close_to_expiry(&c, 10, NOW));
    assert!(!is_token_close_to_expiry(&c, 9, NOW));
    assert!(is_token_close_to_expiry(&c, 0, NOW + 700));
}

#[test]
fn oauth_login_sets_a_day_long_token_in_an_eight_hour_cookie() {
    let cfg = config();
    let token = create_jwt(&cfg, "octocat", NOW).unwrap();
    assert_eq!(token.split('.').count(), 3);
    let cookie = oauth_login(&cfg, "octocat", NOW).unwrap();
    assert_eq!(cookie.name, "auth_token");
    assert_eq!(cookie.value, token);
    assert_eq!(cookie.max_age_secs, 28800);
    assert!(cookie.secure && cookie.http_only && cookie.same_site_strict);
    assert_eq!(cookie.path, "/");
}

#[test]
fn store_delete_of_an_absent_token_counts_zero() {
    let mut t = RefreshTokenTable::new();
    assert_eq!(RefreshTokens::delete_by_token(&mut t, "none"), 0);
    RefreshTokens::create(&mut t, "a", "u1", 1, NOW).unwrap();
    assert_eq!(RefreshTokens::delete_by_token(&mut t, "a"), 1);
    assert_eq!(RefreshTokens::delete_by_token(&mut t, "a"), 0);
    assert_eq!(t.len(), 0);
}

#[test]
fn store_rejects_a_duplicate_token_value() {
    let mut t = RefreshTokenTable::new();
    let rec = RefreshTokens::create(&mut t, "a", "u1", 2, NOW).unwrap();
    assert_eq!(rec.expires_at, NOW + 2 * 86400);
    assert_eq!(rec.created_at, NOW);
    assert!(!rec.id.is_empty());
    let dup = RefreshTokens::create(&mut t, "a", "u2", 2, NOW);
    assert!(matches!(dup, Err(AuthError::DatabaseError { .. })));
    assert_eq!(t.len(), 1);
    let far = RefreshTokens::create(&mut t, "b", "u2", i64::MAX, NOW);
    assert!(matches!(far, Err(AuthError::InternalServerError { .. })));
    let same_id = RefreshTokens::create_with_id(&mut t, "c", "u2", 2, NOW, rec.id.clone());
    assert!(matches!(same_id, Err(AuthError::DatabaseError { .. })));
    let fresh = RefreshTokens::create_with_id(&mut t, "c", "u2", 2, NOW, "id-c".to_string()).unwrap();
    assert_eq!(fresh.id, "id-c");
    assert_eq!(t.len(), 2);
}

#[test]
fn store_expiry_treats_absence_as_expired() {
    let mut t = RefreshTokenTable::new();
    assert!(RefreshTokens::is_expired(&t, "none", NOW));
    RefreshTokens::create(&mut t, "a", "u1", 1, NOW).unwrap();
    assert!(!RefreshTokens::is_expired(&t, "a", NOW + 86400));
    assert!(RefreshTokens::is_expired(&t, "a", NOW + 86401));
    let found = RefreshTokens::by_token(&t, "a").unwrap();
    assert_eq!(found.user_id, "u1");
    assert!(RefreshTokens::by_token(&t, "b").is_none());
}

#[test]
fn store_deletes_every_record_of_a_principal() {
    let mut t = RefreshTokenTable::new();
    for (tok, user) in [("a", "u1"), ("b", "u2"), ("c", "u1"), ("d", "u3")] {
        RefreshTokens::create(&mut t, tok, user, 1, NOW).unwrap();
    }
    assert_eq!(RefreshTokens::delete_all_for_user(&mut t, "u1"), 2);
    let left: Vec<String> = RefreshTokens::all(&t).into_iter().map(|r| r.token).collect();
    assert_eq!(left, vec!["b".to_string(), "d".to_string()]);
    assert_eq!(RefreshTokens::delete_all_for_user(&mut t, "u9"), 0);
}

#[test]
fn expiry_arithmetic_is_checked() {
    assert_eq!(checked_expiry(100, 1), Some(86500));
    assert_eq!(checked_expiry(0, -1), Some(-86400));
    assert_eq!(checked_expiry(i64::MAX, 1), None);
    assert_eq!(checked_expiry(-10, i64::MAX / 86400 + 1), None);
}

#[test]
fn config_reads_every_variable() {
    let mut vars = full_env();
    vars.push(("HOST".to_string(), "0.0.0.0".to_string()));
    vars.push(("PORT".to_string(), "9000".to_string()));
    let c = Config::from_vars(&vars).unwrap();
    assert_eq!(c.server_host(), "0.0.0.0");
    assert_eq!(c.server_port(), 9000);
    assert_eq!(c.db_url(), "sqlite://auth.db");
    assert_eq!(c.cors_origin(), vec!["http://a", "http://b"]);
    assert_eq!(c.access_token_secret(), "as");
    assert_eq!(c.access_token_expires_at(), 2);
    assert_eq!(c.refresh_token_secret(), "rs");
    assert_eq!(c.refresh_token_expires_at(), 7);
    assert_eq!(c.refresh_token_cookie_name(), "refresh_token");
    assert_eq!(c.github_auth_client_id(), "cid");
    assert_eq!(c.github_auth_client_secret(), "csec");
}

#[test]
fn config_defaults_host_and_port() {
    let c = Config::from_vars(&full_env()).unwrap();
    assert_eq!(c.server_host(), "127.0.0.1");
    assert_eq!(c.server_port(), 8000);
}

#[test]
fn config_reports_a_missing_variable() {
    let vars: Vec<(String, String)> =
        full_env().into_iter().filter(|(k, _)| k != "ACCESS_SECRET").collect();
    let e = Config::from_vars(&vars).unwrap_err();
    assert_eq!(e, ConfigError::Missing { name: "ACCESS_SECRET".to_string() });
    assert_eq!(e.describe(), "ACCESS_SECRET must be set");
}

#[test]
fn config_reports_a_number_that_does_not_read() {
    let mut vars = full_env();
    vars.push(("REFRESH_EXPIRES".to_string(), "seven".to_string()));
    let e = Config::from_vars(&vars).unwrap_err();
    assert_eq!(e, ConfigError::Invalid { name: "REFRESH_EXPIRES".to_string() });
    assert_eq!(e.describe(), "REFRESH_EXPIRES must be a number");
    let mut vars = full_env();
    vars.push(("PORT".to_string(), "70000".to_string()));
    assert_eq!(
        Config::from_vars(&vars).unwrap_err(),
        ConfigError::Invalid { name: "PORT".to_string() }
    );
}

#[test]
fn decimal_parsing_follows_the_integer_grammar() {
    assert_eq!(parse_i64("42"), Some(42));
    assert_eq!(parse_i64("+42"), Some(42));
    assert_eq!(parse_i64("-42"), Some(-42));
    assert_eq!(parse_i64("-9223372036854775808"), Some(i64::MIN));
    assert_eq!(parse_i64("9223372036854775807"), Some(i64::MAX));
    assert_eq!(parse_i64("9223372036854775808"), None);
    assert_eq!(parse_i64(""), None);
    assert_eq!(parse_i64("-"), None);
    assert_eq!(parse_i64("1 "), None);
    assert_eq!(parse_i64("0x10"), None);
    assert_eq!(parse_u16("65535"), Some(65535));
    assert_eq!(parse_u16("65536"), None);
    assert_eq!(parse_u16("-0"), None);
    assert_eq!(parse_u16("+8"), Some(8));
    assert_eq!(parse_u16("007"), Some(7));
}

#[test]
fn comma_split_keeps_empty_pieces() {
    assert_eq!(split_commas("a,b"), vec!["a".to_string(), "b".to_string()]);
    assert_eq!(split_commas(""), vec!["".to_string()]);
    assert_eq!(split_commas("a,"), vec!["a".to_string(), "".to_string()]);
    assert_eq!(split_commas(",,"), vec!["".to_string(), "".to_string(), "".to_string()]);
    assert_eq!(split_commas("héllo"), vec!["héllo".to_string()]);
}

#[test]
fn errors_map_to_statuses_and_codes() {
    let cases = [
        (AuthError::not_found("u1"), 404, "NOT_FOUND", false),
        (AuthError::validation("bad"), 400, "VALIDATION_ERROR", false),
        (AuthError::unauthorized("no"), 401, "UNAUTHORIZED", false),
        (AuthError::conflict("dup"), 409, "CONFLICT", false),
        (AuthError::database("db"), 500, "DATABASE_ERROR", true),
        (AuthError::internal("oops"), 500, "INTERNAL_SERVER_ERROR", true),
    ];
    for (e, status, code, log) in cases {
        assert_eq!(e.status_code(), status);
        assert_eq!(e.error_code(), code);
        assert_eq!(e.should_log(), log);
    }
}

#[test]
fn errors_describe_themselves() {
    assert_eq!(AuthError::not_found("u1").describe(), "User with identifier 'u1' not found");
    assert_eq!(AuthError::unauthorized("Invalid").describe(), "Unauthorized: Invalid");
    assert_eq!(AuthError::conflict("dup").describe(), "Resource conflict: dup");
    assert_eq!(AuthError::internal("x").describe(), "Internal server error: x");
    assert_eq!(AuthError::validation("v").describe(), "Validation failed: v");
    assert_eq!(AuthError::database("d").describe(), "Database operation failed: d");
}

#[test]
fn signin_cookies_replace_both_credentials() {
    let cfg = config();
    let actions = set_auth_cookies(&cfg, "acc", "ref");
    assert_eq!(actions.len(), 4);
    assert!(matches!(&actions[0], CookieAction::Remove { name } if name == "access_token"));
    assert!(matches!(&actions[1], CookieAction::Remove { name } if name == "refresh_token"));
    match &actions[2] {
        CookieAction::Add { cookie } => {
            assert_eq!((cookie.name.as_str(), cookie.value.as_str()), ("access_token", "acc"));
            assert_eq!(cookie.max_age_secs, 2 * 3600);
        }
        _ => panic!("expected the access credential"),
    }
    match &actions[3] {
        CookieAction::Add { cookie } => {
            assert_eq!((cookie.name.as_str(), cookie.value.as_str()), ("refresh_token", "ref"));
            assert_eq!(cookie.max_age_secs, 7 * 86400);
            assert!(cookie.secure && cookie.http_only && cookie.same_site_strict);
        }
        _ => panic!("expected the refresh credential"),
    }
}

#[test]
fn refresh_cookie_is_expired_then_replaced() {
    let cfg = config();
    let actions = set_refresh_token_cookie(&cfg, "new");
    assert_eq!(actions.len(), 2);
    match (&actions[0], &actions[1]) {
        (CookieAction::Add { cookie: a }, CookieAction::Add { cookie: b }) => {
            assert_eq!((a.value.as_str(), a.max_age_secs), ("", 0));
            assert_eq!((b.value.as_str(), b.max_age_secs), ("new", 7 * 86400));
        }
        _ => panic!("expected two credentials"),
    }
    let gone = remove_refresh_token_cookie();
    assert_eq!((gone.name.as_str(), gone.value.as_str(), gone.max_age_secs), ("refresh_token", "", 0));
}

#[test]
fn authorize_url_names_the_client() {
    assert_eq!(
        github_authorize_url(&config()),
        "https://github.com/login/oauth/authorize?client_id=client-id&scope=read:user"
    );
}

#[test]
fn csrf_tokens_are_unpadded_url_safe_and_fresh() {
    let a = tsumi_auth::ids::generate_csrf_token();
    let b = tsumi_auth::ids::generate_csrf_token();
    assert_eq!(a.len(), 43);
    assert!(!a.contains('='));
    assert!(a.chars().all(|c| c.is_ascii_alphanumeric() || c == '-' || c == '_'));
    assert_ne!(a, b);
}

#[test]
fn decode_reports_each_cause_in_its_message() {
    let cfg = config();
    let (token, claims) = mint(&cfg, TokenKind::Refresh, "user-1", None, NOW).unwrap();
    let text = |r: Result<Claims, AuthError>| match r {
        Err(AuthError::Unauthorized { message }) => message,
        _ => panic!("expected an Unauthorized error"),
    };
    assert_eq!(
        text(tsumi_auth::codec::decode_refresh_token(&cfg, &token, claims.exp + 1)),
        "Refresh token has expired"
    );
    assert_eq!(text(decode_access_token(&cfg, &token, NOW)), "Invalid token signature");
    assert_eq!(text(decode_access_token(&cfg, "garbage", NOW)), "Invalid access token");
    assert_eq!(
        text(tsumi_auth::codec::decode_refresh_token(&cfg, "garbage", NOW)),
        "Invalid refresh token"
    );
}
