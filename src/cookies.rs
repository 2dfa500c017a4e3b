use vstd::prelude::*;
use crate::config::Config;
use crate::store::SECONDS_PER_DAY;

verus! {

/// Name of the client-side credential that carries the refresh token.
pub const REFRESH_COOKIE: &'static str = "refresh_token";

/// Name of the client-side credential that carries the access token.
pub const ACCESS_COOKIE: &'static str = "access_token";

/// Name of the credential issued after an OAuth login.
pub const OAUTH_COOKIE: &'static str = "auth_token";

/// Lifetime of the OAuth login credential, in seconds (eight hours).
pub const OAUTH_COOKIE_SECONDS: i64 = 28800;

/// A client-side credential to set: secure, HTTP-only, strict same-site and
/// scoped to the root path, living `max_age_secs` seconds (0 expires it).
#[derive(Debug, Clone)]
pub struct CookieSpec {
    pub name: String,
    pub value: String,
    pub path: String,
    pub secure: bool,
    pub http_only: bool,
    pub same_site_strict: bool,
    pub max_age_secs: i64,
}

/// What the transport layer does to the client's credentials, in order.
#[derive(Debug, Clone)]
pub enum CookieAction {
    Remove { name: String },
    Add { cookie: CookieSpec },
}

/// `c` is a hardened root-path credential named `name` holding `value`.
pub open spec fn hardened(c: CookieSpec, name: Seq<char>, value: Seq<char>, max_age: int) -> bool {
    &&& c.name@ == name
    &&& c.value@ == value
    &&& c.path@ == "/"@
    &&& c.secure
    &&& c.http_only
    &&& c.same_site_strict
    &&& c.max_age_secs == max_age
}

/// `x` clamped to the timestamp range.
pub open spec fn clamped(x: int) -> int {
    if x > i64::MAX {
        i64::MAX as int
    } else if x < i64::MIN {
        i64::MIN as int
    } else {
        x
    }
}

fn clamp(x: i128) -> (r: i64)
    ensures
        r == clamped(x as int),
{
    if x > i64::MAX as i128 {
        i64::MAX
    } else if x < i64::MIN as i128 {
        i64::MIN
    } else {
        x as i64
    }
}

fn scaled(x: i64, k: i64) -> (r: i128)
    requires
        0 < k <= 86400,
    ensures
        r == x * k,
{
    assert(-9223372036854775808 * 86400 <= x * k <= 9223372036854775807 * 86400) by (nonlinear_arith)
        requires
            i64::MIN <= x <= i64::MAX,
            0 < k <= 86400,
    ;
    x as i128 * k as i128
}

/// A hardened credential.
pub fn credential(name: &str, value: &str, max_age_secs: i64) -> (r: CookieSpec)
    ensures
        hardened(r, name@, value@, max_age_secs as int),
{
    CookieSpec {
        name: String::from_str(name),
        value: String::from_str(value),
        path: String::from_str("/"),
        secure: true,
        http_only: true,
        same_site_strict: true,
        max_age_secs,
    }
}

/// The lifetime of the refresh credential: the refresh lifetime in seconds.
pub open spec fn refresh_cookie_age(config: &Config) -> int {
    clamped(config.spec_refresh_days() * SECONDS_PER_DAY)
}

/// The lifetime of the access credential: the access-token lifetime in
/// seconds, so the credential never outlives, nor dies before, the token
/// it carries.
pub open spec fn access_cookie_age(config: &Config) -> int {
    clamped(config.spec_access_hours() * 3600)
}

/// After a signin: drop both previous credentials, then set the access and
/// the refresh credential.
pub fn set_auth_cookies(config: &Config, access_token: &str, refresh_token: &str) -> (r: Vec<
    CookieAction,
>)
    ensures
        r@.len() == 4,
        r@[0] matches CookieAction::Remove { name } && name@ == ACCESS_COOKIE@,
        r@[1] matches CookieAction::Remove { name } && name@ == REFRESH_COOKIE@,
        r@[2] matches CookieAction::Add { cookie } && hardened(
            cookie,
            ACCESS_COOKIE@,
            access_token@,
            access_cookie_age(config),
        ),
        r@[3] matches CookieAction::Add { cookie } && hardened(
            cookie,
            REFRESH_COOKIE@,
            refresh_token@,
            refresh_cookie_age(config),
        ),
{
    let access_age = clamp(scaled(config.access_token_expires_at(), 3600));
    let refresh_age = clamp(scaled(config.refresh_token_expires_at(), 86400));
    vec![
        CookieAction::Remove { name: String::from_str(ACCESS_COOKIE) },
        CookieAction::Remove { name: String::from_str(REFRESH_COOKIE) },
        CookieAction::Add { cookie: credential(ACCESS_COOKIE, access_token, access_age) },
        CookieAction::Add { cookie: credential(REFRESH_COOKIE, refresh_token, refresh_age) },
    ]
}

/// After a refresh: expire the old refresh credential, then set the new one.
pub fn set_refresh_token_cookie(config: &Config, refresh_token: &str) -> (r: Vec<CookieAction>)
    ensures
        r@.len() == 2,
        r@[0] matches CookieAction::Add { cookie } && hardened(cookie, REFRESH_COOKIE@, ""@, 0),
        r@[1] matches CookieAction::Add { cookie } && hardened(
            cookie,
            REFRESH_COOKIE@,
            refresh_token@,
            refresh_cookie_age(config),
        ),
{
    let refresh_age = clamp(scaled(config.refresh_token_expires_at(), 86400));
    vec![
        CookieAction::Add { cookie: credential(REFRESH_COOKIE, "", 0) },
        CookieAction::Add { cookie: credential(REFRESH_COOKIE, refresh_token, refresh_age) },
    ]
}

/// The empty, already expired refresh credential that clears the client's.
pub fn remove_refresh_token_cookie() -> (r: CookieSpec)
    ensures
        hardened(r, REFRESH_COOKIE@, ""@, 0),
{
    credential(REFRESH_COOKIE, "", 0)
}

/// The credential that carries the token of an OAuth login.
pub fn oauth_session_cookie(token: &str) -> (r: CookieSpec)
    ensures
        hardened(r, OAUTH_COOKIE@, token@, OAUTH_COOKIE_SECONDS as int),
{
    credential(OAUTH_COOKIE, token, OAUTH_COOKIE_SECONDS)
}

/// Where an OAuth login starts: the provider's authorization page for this
/// client, asking for read access to the user profile.
pub fn github_authorize_url(config: &Config) -> (r: String)
    ensures
        r@ == "https://github.com/login/oauth/authorize?client_id="@
            + config.spec_github_client_id() + "&scope=read:user"@,
{
    String::from_str("https://github.com/login/oauth/authorize?client_id=").concat(
        config.github_auth_client_id(),
    ).concat("&scope=read:user")
}

} // verus!
