use vstd::prelude::*;
use jsonwebtoken::errors::ErrorKind;
use jsonwebtoken::{Algorithm, DecodingKey, EncodingKey, Header, Validation};
use serde_json::Value;
use crate::config::Config;
use crate::errors::{error_text, AuthError};
use crate::store::{expiry_after_days, SECONDS_PER_DAY};

verus! {

/// Seconds in one hour: access-token lifetimes are configured in hours.
pub const SECONDS_PER_HOUR: i64 = 3600;

/// The claim set of a token: its subject and the instants (Unix seconds) at
/// which it was issued and at which it stops being valid.
#[derive(Debug, Clone)]
pub struct Claims {
    pub exp: i64,
    pub iat: i64,
    pub user_id: String,
}

/// The claims as plain values: `(exp, iat, user_id)`.
pub open spec fn claims_view(c: Claims) -> (i64, i64, Seq<char>) {
    (c.exp, c.iat, c.user_id@)
}

/// Which secret and lifetime a token is minted with.
#[derive(Debug, Clone, Copy, PartialEq, Eq, Structural)]
pub enum TokenKind {
    Access,
    Refresh,
}

/// Why a token was not accepted.
#[derive(Debug, Clone, Copy, PartialEq, Eq, Structural)]
pub enum CodecError {
    ExpiredToken,
    InvalidSignature,
    MalformedToken,
}

/// The compact HS256 token (`header.claims.signature`) whose claims object
/// holds the integer members `ints` and the text members `texts`, signed
/// with `secret`.
pub uninterp spec fn jwt_hs256_token(
    secret: Seq<char>,
    ints: Seq<(Seq<char>, i64)>,
    texts: Seq<(Seq<char>, Seq<char>)>,
) -> Seq<char>;

/// What an HS256 signature check of `token` under `secret` yields, expiry
/// left aside: the members `exp`, `iat` (integers) and `user_id` (text),
/// each absent where missing or of another type; or why it failed.
pub uninterp spec fn jwt_hs256_claims(secret: Seq<char>, token: Seq<char>) -> Result<
    (Option<i64>, Option<i64>, Option<Seq<char>>),
    CodecError,
>;

pub open spec fn opt_text(o: Option<String>) -> Option<Seq<char>> {
    match o {
        Some(s) => Some(s@),
        None => None,
    }
}

pub open spec fn fields_view(r: Result<(Option<i64>, Option<i64>, Option<String>), CodecError>) -> Result<
    (Option<i64>, Option<i64>, Option<Seq<char>>),
    CodecError,
> {
    match r {
        Ok((e, i, u)) => Ok((e, i, opt_text(u))),
        Err(k) => Err(k),
    }
}

/// Relies on jsonwebtoken::encode with the default (HS256) header: it
/// serialises the claims object and signs it with `secret`. The token depends
/// on the secret and the members alone, and with an HMAC key and a map of
/// text keys to integers and texts it is always produced.
#[verifier::external_body]
fn jwt_encode(secret: &str, ints: Vec<(String, i64)>, texts: Vec<(String, String)>) -> (r: Option<
    String,
>)
    ensures
        r is Some,
        r matches Some(t) ==> t@ == jwt_hs256_token(
            secret@,
            ints@.map_values(|p: (String, i64)| (p.0@, p.1)),
            texts@.map_values(|p: (String, String)| (p.0@, p.1@)),
        ),
{
    let mut claims = serde_json::Map::new();
    claims.extend(ints.into_iter().map(|(k, v)| (k, Value::from(v))));
    claims.extend(texts.into_iter().map(|(k, v)| (k, Value::from(v))));
    let key = EncodingKey::from_secret(secret.as_bytes());
    jsonwebtoken::encode(&Header::default(), &claims, &key).ok()
}

/// Relies on jsonwebtoken::decode (HS256 only, expiry not validated, so no
/// clock is read): a signature mismatch is told apart from every other
/// failure, and the three claims are read from the decoded object.
#[verifier::external_body]
fn jwt_decode(secret: &str, token: &str) -> (r: Result<
    (Option<i64>, Option<i64>, Option<String>),
    CodecError,
>)
    ensures
        fields_view(r) == jwt_hs256_claims(secret@, token@),
{
    let mut rules = Validation::new(Algorithm::HS256);
    rules.validate_exp = false;
    let key = DecodingKey::from_secret(secret.as_bytes());
    match jsonwebtoken::decode::<serde_json::Map<String, Value>>(token, &key, &rules) {
        Ok(d) => Ok((
            d.claims.get("exp").and_then(Value::as_i64),
            d.claims.get("iat").and_then(Value::as_i64),
            d.claims.get("user_id").and_then(Value::as_str).map(String::from),
        )),
        Err(e) => match e.kind() {
            ErrorKind::InvalidSignature => Err(CodecError::InvalidSignature),
            _ => Err(CodecError::MalformedToken),
        },
    }
}

/// The signing secret of each kind.
pub open spec fn secret_of(config: &Config, kind: TokenKind) -> Seq<char> {
    match kind {
        TokenKind::Access => config.spec_access_secret(),
        TokenKind::Refresh => config.spec_refresh_secret(),
    }
}

/// The expiry instant of a token of `kind` minted at `now`.
pub open spec fn token_expiry(config: &Config, kind: TokenKind, now: i64) -> int {
    match kind {
        TokenKind::Access => now + config.spec_access_hours() * SECONDS_PER_HOUR,
        TokenKind::Refresh => expiry_after_days(now, config.spec_refresh_days()),
    }
}

pub open spec fn expiry_in_range(config: &Config, kind: TokenKind, now: i64) -> bool {
    i64::MIN <= token_expiry(config, kind, now) <= i64::MAX
}

/// The text members of a token for `user_id`: the subject, and for a
/// refresh token the random identifier `jti` that makes each value unique.
pub open spec fn claim_texts(user_id: Seq<char>, jti: Option<Seq<char>>) -> Seq<(Seq<char>, Seq<char>)> {
    match jti {
        Some(j) => seq![("jti"@, j), ("user_id"@, user_id)],
        None => seq![("user_id"@, user_id)],
    }
}

/// The token for the claims `{exp, iat, user_id}` (and `jti`, if any) under
/// `secret`.
pub open spec fn minted_token(
    secret: Seq<char>,
    exp: i64,
    iat: i64,
    user_id: Seq<char>,
    jti: Option<Seq<char>>,
) -> Seq<char> {
    jwt_hs256_token(secret, seq![("exp"@, exp), ("iat"@, iat)], claim_texts(user_id, jti))
}

pub open spec fn opt_str(o: Option<&str>) -> Option<Seq<char>> {
    match o {
        Some(s) => Some(s@),
        None => None,
    }
}

/// The outcome of verifying at `now` a token whose signature check gave
/// `decoded`: all three claims must be there, and `now` must not be past
/// the expiry.
pub open spec fn verify_outcome(
    decoded: Result<(Option<i64>, Option<i64>, Option<Seq<char>>), CodecError>,
    now: i64,
) -> Result<(i64, i64, Seq<char>), CodecError> {
    match decoded {
        Err(e) => Err(e),
        Ok((Some(exp), Some(iat), Some(u))) => if now > exp {
            Err(CodecError::ExpiredToken)
        } else {
            Ok((exp, iat, u))
        },
        Ok(_) => Err(CodecError::MalformedToken),
    }
}

/// The outcome of verifying `token` as a token of `kind` at `now`.
pub open spec fn verified(config: &Config, kind: TokenKind, token: Seq<char>, now: i64) -> Result<
    (i64, i64, Seq<char>),
    CodecError,
> {
    verify_outcome(jwt_hs256_claims(secret_of(config, kind), token), now)
}

pub open spec fn claims_result_view(r: Result<Claims, CodecError>) -> Result<
    (i64, i64, Seq<char>),
    CodecError,
> {
    match r {
        Ok(c) => Ok(claims_view(c)),
        Err(e) => Err(e),
    }
}

fn kind_secret(config: &Config, kind: TokenKind) -> (r: &str)
    ensures
        r@ == secret_of(config, kind),
{
    match kind {
        TokenKind::Access => config.access_token_secret(),
        TokenKind::Refresh => config.refresh_token_secret(),
    }
}

/// The expiry of a token of `kind` minted at `now`, or `None` where it
/// leaves the timestamp range.
pub fn expiry_for(config: &Config, kind: TokenKind, now: i64) -> (r: Option<i64>)
    ensures
        r is Some <==> expiry_in_range(config, kind, now),
        r matches Some(v) ==> v == token_expiry(config, kind, now),
{
    match kind {
        TokenKind::Access => {
            let wide: i128 = now as i128 + config.access_token_expires_at() as i128
                * SECONDS_PER_HOUR as i128;
            if wide < i64::MIN as i128 || wide > i64::MAX as i128 {
                None
            } else {
                Some(wide as i64)
            }
        },
        TokenKind::Refresh => crate::store::checked_expiry(now, config.refresh_token_expires_at()),
    }
}

/// Mints a token of `kind` for `user_id` at `now`: the claims are
/// `{exp: now + lifetime, iat: now, user_id}`, plus `jti` where one is given.
/// It fails only where the expiry leaves the timestamp range.
pub fn mint(config: &Config, kind: TokenKind, user_id: &str, jti: Option<&str>, now: i64) -> (r:
    Result<(String, Claims), AuthError>)
    ensures
        r is Ok <==> expiry_in_range(config, kind, now),
        r matches Ok((t, c)) ==> c.exp == token_expiry(config, kind, now) && c.iat == now
            && c.user_id@ == user_id@ && t@ == minted_token(
            secret_of(config, kind),
            c.exp,
            c.iat,
            c.user_id@,
            opt_str(jti),
        ),
        r matches Err(e) ==> e is InternalServerError,
{
    let exp = match expiry_for(config, kind, now) {
        Some(v) => v,
        None => {
            return Err(AuthError::internal("Token expiry is out of range"));
        },
    };
    let ints = vec![(String::from_str("exp"), exp), (String::from_str("iat"), now)];
    let texts = match jti {
        Some(j) => vec![
            (String::from_str("jti"), String::from_str(j)),
            (String::from_str("user_id"), String::from_str(user_id)),
        ],
        None => vec![(String::from_str("user_id"), String::from_str(user_id))],
    };
    proof {
        assert(ints@.map_values(|p: (String, i64)| (p.0@, p.1)) =~= seq![("exp"@, exp), ("iat"@, now)]);
        assert(texts@.map_values(|p: (String, String)| (p.0@, p.1@)) =~= claim_texts(user_id@, opt_str(jti)));
    }
    match jwt_encode(kind_secret(config, kind), ints, texts) {
        Some(t) => Ok((t, Claims { exp, iat: now, user_id: String::from_str(user_id) })),
        None => Err(AuthError::internal("Failed to sign token")),
    }
}

/// Turns the outcome of a signature check into the verified claims at `now`:
/// a missing claim makes the token malformed, and a token past its expiry
/// is expired.
pub fn check_decoded_claims(
    decoded: Result<(Option<i64>, Option<i64>, Option<String>), CodecError>,
    now: i64,
) -> (r: Result<Claims, CodecError>)
    ensures
        claims_result_view(r) == verify_outcome(fields_view(decoded), now),
{
    match decoded {
        Err(e) => Err(e),
        Ok((Some(exp), Some(iat), Some(user_id))) => {
            if now > exp {
                Err(CodecError::ExpiredToken)
            } else {
                Ok(Claims { exp, iat, user_id })
            }
        },
        Ok(_) => Err(CodecError::MalformedToken),
    }
}

/// Verifies `token` as a token of `kind` at `now`.
pub fn verify_token(config: &Config, kind: TokenKind, token: &str, now: i64) -> (r: Result<
    Claims,
    CodecError,
>)
    ensures
        claims_result_view(r) == verified(config, kind, token@, now),
{
    check_decoded_claims(jwt_decode(kind_secret(config, kind), token), now)
}

/// Mints an access token for `user_id` at `now`.
pub fn create_access_token(config: &Config, user_id: &str, now: i64) -> (r: Result<String, AuthError>)
    ensures
        r is Ok <==> expiry_in_range(config, TokenKind::Access, now),
        r matches Ok(t) ==> t@ == minted_token(
            config.spec_access_secret(),
            token_expiry(config, TokenKind::Access, now) as i64,
            now,
            user_id@,
            None,
        ),
        r matches Err(e) ==> e is InternalServerError,
{
    match mint(config, TokenKind::Access, user_id, None, now) {
        Ok((t, _)) => Ok(t),
        Err(_) => Err(AuthError::internal("Failed to create access token")),
    }
}

/// Mints a refresh token for `user_id` at `now` under the token identifier
/// `jti`.
pub fn create_refresh_token_with(config: &Config, user_id: &str, jti: &str, now: i64) -> (r: Result<
    String,
    AuthError,
>)
    ensures
        r is Ok <==> expiry_in_range(config, TokenKind::Refresh, now),
        r matches Ok(t) ==> t@ == minted_token(
            config.spec_refresh_secret(),
            token_expiry(config, TokenKind::Refresh, now) as i64,
            now,
            user_id@,
            Some(jti@),
        ),
        r matches Err(e) ==> e is InternalServerError,
{
    match mint(config, TokenKind::Refresh, user_id, Some(jti), now) {
        Ok((t, _)) => Ok(t),
        Err(_) => Err(AuthError::internal("Failed to create refresh token")),
    }
}

/// Mints a refresh token for `user_id` at `now` under a fresh random token
/// identifier.
pub fn create_refresh_token(config: &Config, user_id: &str, now: i64) -> (r: Result<String, AuthError>)
    ensures
        r is Ok <==> expiry_in_range(config, TokenKind::Refresh, now),
        r matches Ok(t) ==> exists|jti: Seq<char>|
            t@ == minted_token(
                config.spec_refresh_secret(),
                token_expiry(config, TokenKind::Refresh, now) as i64,
                now,
                user_id@,
                Some(jti),
            ),
        r matches Err(e) ==> e is InternalServerError,
{
    let jti = crate::ids::new_record_id();
    create_refresh_token_with(config, user_id, jti.as_str(), now)
}

/// The caller-facing error of a rejected token: always `Unauthorized`.
pub open spec fn rejection_is_unauthorized(r: Result<Claims, AuthError>) -> bool {
    r matches Err(e) ==> e is Unauthorized
}

/// Verifies an access token at `now`.
pub fn decode_access_token(config: &Config, token: &str, now: i64) -> (r: Result<Claims, AuthError>)
    ensures
        r is Ok <==> verified(config, TokenKind::Access, token@, now) is Ok,
        r matches Ok(c) ==> verified(config, TokenKind::Access, token@, now) == Ok::<(i64, i64, Seq<char>), CodecError>(claims_view(c)),
        rejection_is_unauthorized(r),
        verified(config, TokenKind::Access, token@, now) matches Err(CodecError::ExpiredToken) ==> (r matches Err(e)
            && error_text(e) == "Access token has expired"@),
        verified(config, TokenKind::Access, token@, now) matches Err(CodecError::InvalidSignature) ==> (r matches Err(e)
            && error_text(e) == "Invalid token signature"@),
        verified(config, TokenKind::Access, token@, now) matches Err(CodecError::MalformedToken) ==> (r matches Err(e)
            && error_text(e) == "Invalid access token"@),
{
    match verify_token(config, TokenKind::Access, token, now) {
        Ok(c) => Ok(c),
        Err(CodecError::ExpiredToken) => Err(AuthError::unauthorized("Access token has expired")),
        Err(CodecError::InvalidSignature) => Err(AuthError::unauthorized("Invalid token signature")),
        Err(CodecError::MalformedToken) => Err(AuthError::unauthorized("Invalid access token")),
    }
}

/// Verifies a refresh token at `now`.
pub fn decode_refresh_token(config: &Config, token: &str, now: i64) -> (r: Result<Claims, AuthError>)
    ensures
        r is Ok <==> verified(config, TokenKind::Refresh, token@, now) is Ok,
        r matches Ok(c) ==> verified(config, TokenKind::Refresh, token@, now) == Ok::<(i64, i64, Seq<char>), CodecError>(claims_view(c)),
        rejection_is_unauthorized(r),
        verified(config, TokenKind::Refresh, token@, now) matches Err(CodecError::ExpiredToken) ==> (r matches Err(e)
            && error_text(e) == "Refresh token has expired"@),
        verified(config, TokenKind::Refresh, token@, now) matches Err(CodecError::InvalidSignature) ==> (r matches Err(e)
            && error_text(e) == "Invalid token signature"@),
        verified(config, TokenKind::Refresh, token@, now) matches Err(CodecError::MalformedToken) ==> (r matches Err(e)
            && error_text(e) == "Invalid refresh token"@),
{
    match verify_token(config, TokenKind::Refresh, token, now) {
        Ok(c) => Ok(c),
        Err(CodecError::ExpiredToken) => Err(AuthError::unauthorized("Refresh token has expired")),
        Err(CodecError::InvalidSignature) => Err(AuthError::unauthorized("Invalid token signature")),
        Err(CodecError::MalformedToken) => Err(AuthError::unauthorized("Invalid refresh token")),
    }
}

pub fn extract_user_id_from_claims(claims: &Claims) -> (r: &str)
    ensures
        r@ == claims.user_id@,
{
    claims.user_id.as_str()
}

/// Whether at `now` at most `threshold_minutes` minutes remain before the
/// claims expire (an expired token has none left).
pub fn is_token_close_to_expiry(claims: &Claims, threshold_minutes: i64, now: i64) -> (r: bool)
    ensures
        r == ((if claims.exp > now {
            claims.exp - now
        } else {
            0
        }) <= threshold_minutes * 60),
{
    let left: i128 = if claims.exp > now {
        claims.exp as i128 - now as i128
    } else {
        0
    };
    left <= threshold_minutes as i128 * 60
}

/// Lifetime of the session credential issued after an OAuth login.
pub const OAUTH_TOKEN_HOURS: i64 = 24;

/// The token issued after an OAuth login: claims `{exp, iat, iss, sub}`
/// with the issuer name `iss`.
pub open spec fn oauth_token(secret: Seq<char>, login: Seq<char>, now: i64, iss: Seq<char>) -> Seq<char> {
    jwt_hs256_token(
        secret,
        seq![("exp"@, (now + OAUTH_TOKEN_HOURS * SECONDS_PER_HOUR) as i64), ("iat"@, now)],
        seq![("iss"@, iss), ("sub"@, login)],
    )
}

/// Mints the session token for an external login name, signed with the
/// access secret and valid for a day.
pub fn create_jwt(config: &Config, login: &str, now: i64) -> (r: Result<String, AuthError>)
    ensures
        r is Ok <==> now + OAUTH_TOKEN_HOURS * SECONDS_PER_HOUR <= i64::MAX,
        r matches Ok(t) ==> t@ == oauth_token(config.spec_access_secret(), login@, now, "tsumi"@),
        r matches Err(e) ==> e is InternalServerError,
{
    let exp = match now.checked_add(OAUTH_TOKEN_HOURS * SECONDS_PER_HOUR) {
        Some(v) => v,
        None => {
            return Err(AuthError::internal("Token expiry is out of range"));
        },
    };
    let ints = vec![(String::from_str("exp"), exp), (String::from_str("iat"), now)];
    let texts = vec![
        (String::from_str("iss"), String::from_str("tsumi")),
        (String::from_str("sub"), String::from_str(login)),
    ];
    proof {
        assert(ints@.map_values(|p: (String, i64)| (p.0@, p.1)) =~= seq![("exp"@, exp), ("iat"@, now)]);
        assert(texts@.map_values(|p: (String, String)| (p.0@, p.1@)) =~= seq![
            ("iss"@, "tsumi"@),
            ("sub"@, login@),
        ]);
    }
    match jwt_encode(config.access_token_secret(), ints, texts) {
        Some(t) => Ok(t),
        None => Err(AuthError::internal("Failed to create session token")),
    }
}

} // verus!
