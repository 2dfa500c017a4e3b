use vstd::prelude::*;
use crate::codec::{
    claims_view, create_jwt, create_refresh_token_with, decode_refresh_token, expiry_for, expiry_in_range,
    mint, minted_token, oauth_token, secret_of, token_expiry, verified, Claims, TokenKind,
};
use crate::config::Config;
use crate::cookies::{hardened, oauth_session_cookie, CookieSpec, OAUTH_COOKIE, OAUTH_COOKIE_SECONDS};
use crate::errors::{error_text, AuthError};
use crate::store::{
    has_token, id_held, records_without_user, RefreshTokenTable, RefreshTokens,
};
use crate::users::{
    bcrypt_verdict, has_email, has_id, has_name, password_matches, row_of, signin_valid,
    signup_valid, hash_password, NewUser, SignInRequest, SignUpRequest, UserModel, UserTable,
};

verus! {

/// An access and refresh pair as issued, with the claims each was minted
/// from and the stored record of the refresh token.
#[derive(Debug, Clone)]
pub struct IssuedSession {
    pub access_token: String,
    pub refresh_token: String,
    pub access_claims: Claims,
    pub refresh_claims: Claims,
    pub record: RefreshTokens,
}

/// The view of an optional presented credential.
pub open spec fn presented_view(o: Option<&str>) -> Option<Seq<char>> {
    match o {
        Some(t) => Some(t@),
        None => None,
    }
}

/// The token of `kind` minted for `user` at `now` (a refresh token carries
/// the token identifier `jti`).
pub open spec fn minted_for(
    config: &Config,
    kind: TokenKind,
    user: Seq<char>,
    now: i64,
    jti: Option<Seq<char>>,
) -> Seq<char> {
    minted_token(secret_of(config, kind), token_expiry(config, kind, now) as i64, now, user, jti)
}

/// A pair can be issued for `user` at `now` against the records `s`, with
/// token identifier `jti` and record identifier `id`: both expiries are
/// timestamps, and neither the refresh token's value nor `id` is stored yet.
pub open spec fn issuable(
    config: &Config,
    s: Seq<RefreshTokens>,
    user: Seq<char>,
    now: i64,
    jti: Seq<char>,
    id: Seq<char>,
) -> bool {
    &&& expiry_in_range(config, TokenKind::Access, now)
    &&& expiry_in_range(config, TokenKind::Refresh, now)
    &&& !has_token(s, minted_for(config, TokenKind::Refresh, user, now, Some(jti)))
    &&& !id_held(s, id)
}

/// `x` is the pair issued for `user` at `now` with token identifier `jti`,
/// and `s1` is `s0` with its refresh record appended. The record expires
/// when the refresh claims do.
pub open spec fn issued(
    config: &Config,
    s0: Seq<RefreshTokens>,
    s1: Seq<RefreshTokens>,
    user: Seq<char>,
    now: i64,
    jti: Seq<char>,
    x: IssuedSession,
) -> bool {
    &&& s1 == s0.push(x.record)
    &&& expiry_in_range(config, TokenKind::Access, now)
    &&& expiry_in_range(config, TokenKind::Refresh, now)
    &&& claims_view(x.access_claims) == (
        token_expiry(config, TokenKind::Access, now) as i64,
        now,
        user,
    )
    &&& claims_view(x.refresh_claims) == (
        token_expiry(config, TokenKind::Refresh, now) as i64,
        now,
        user,
    )
    &&& x.access_token@ == minted_for(config, TokenKind::Access, user, now, None)
    &&& x.refresh_token@ == minted_for(config, TokenKind::Refresh, user, now, Some(jti))
    &&& x.record.token@ == x.refresh_token@
    &&& x.record.user_id@ == user
    &&& x.record.created_at == x.refresh_claims.iat
    &&& x.record.expires_at == x.refresh_claims.exp
}

/// Mints an access and a refresh token (with token identifier `jti`) for
/// `user_id` at `now` and stores the refresh token's record under `id`; the
/// record expires with the refresh claims.
pub fn issue_session(
    tokens: &mut RefreshTokenTable,
    config: &Config,
    user_id: &str,
    now: i64,
    jti: &str,
    id: String,
) -> (r: Result<IssuedSession, AuthError>)
    requires
        old(tokens).wf(),
    ensures
        final(tokens).wf(),
        r is Ok <==> issuable(config, old(tokens)@, user_id@, now, jti@, id@),
        r matches Ok(x) ==> issued(config, old(tokens)@, final(tokens)@, user_id@, now, jti@, x)
            && x.record.id@ == id@,
        r matches Err(e) ==> final(tokens)@ == old(tokens)@ && (e is InternalServerError
            || e is DatabaseError),
{
    let (access_token, access_claims) = match mint(config, TokenKind::Access, user_id, None, now) {
        Ok(p) => p,
        Err(_) => {
            return Err(AuthError::internal("Failed to generate authentication tokens"));
        },
    };
    let (refresh_token, refresh_claims) = match mint(
        config,
        TokenKind::Refresh,
        user_id,
        Some(jti),
        now,
    ) {
        Ok(p) => p,
        Err(_) => {
            return Err(AuthError::internal("Failed to generate authentication tokens"));
        },
    };
    let record = match RefreshTokens::create_with_id(
        tokens,
        refresh_token.as_str(),
        user_id,
        config.refresh_token_expires_at(),
        now,
        id,
    ) {
        Ok(rec) => rec,
        Err(_) => {
            return Err(AuthError::database("Failed to create user session"));
        },
    };
    Ok(IssuedSession { access_token, refresh_token, access_claims, refresh_claims, record })
}

/// The response to a successful refresh: the new pair and when it was issued.
#[derive(Debug, Clone)]
pub struct RefreshResponse {
    pub session: IssuedSession,
    pub message: String,
    pub refreshed_at: i64,
}

/// The one message of every refused refresh: the caller does not learn
/// whether the token was absent, forged, expired or mismatched.
pub const REFRESH_REJECTED: &'static str = "Invalid or expired refresh token";

/// The one message of every refused signin: the caller does not learn
/// whether the email, the password or the verification was at fault.
pub const SIGNIN_REJECTED: &'static str = "Invalid email or password";

pub open spec fn is_unauthorized<T>(r: Result<T, AuthError>) -> bool {
    r matches Err(e) && e is Unauthorized
}

/// `r` is an `Unauthorized` error that carries exactly `message`.
pub open spec fn refused_with<T>(r: Result<T, AuthError>, message: Seq<char>) -> bool {
    r matches Err(e) && e is Unauthorized && error_text(e) == message
}

/// A refresh presenting `t` is turned down before anything is deleted: the
/// token does not verify, or no record holds it.
pub open spec fn refused_untouched(config: &Config, s: Seq<RefreshTokens>, t: Seq<char>, now: i64) -> bool {
    verified(config, TokenKind::Refresh, t, now) is Err || !has_token(s, t)
}

/// The subject that a verified refresh token names.
pub open spec fn verified_subject(config: &Config, t: Seq<char>, now: i64) -> Seq<char> {
    verified(config, TokenKind::Refresh, t, now)->Ok_0.2
}

/// The index of the record that holds `t` (one at most: values are unique).
pub open spec fn token_index(s: Seq<RefreshTokens>, t: Seq<char>) -> int {
    choose|i: int| 0 <= i < s.len() && s[i].token@ == t
}

/// `s1` is `s0` with the record of `t` consumed and `rec`, a record of the
/// same principal under another token value, appended.
pub open spec fn rotated(s0: Seq<RefreshTokens>, s1: Seq<RefreshTokens>, t: Seq<char>, rec: RefreshTokens) -> bool {
    &&& rec.token@ != t
    &&& exists|i: int|
        0 <= i < s0.len() && s0[i].token@ == t && s1 == s0.remove(i).push(rec) && rec.user_id@
            == s0[i].user_id@
}

/// What a refresh presenting `presented` at `now` does to the records `s0`
/// (leaving `s1`) and returns as `r`, with token identifier `jti` and
/// record identifier `id` for the new pair.
pub open spec fn refresh_outcome(
    config: &Config,
    s0: Seq<RefreshTokens>,
    s1: Seq<RefreshTokens>,
    presented: Option<Seq<char>>,
    now: i64,
    jti: Seq<char>,
    id: Seq<char>,
    r: Result<RefreshResponse, AuthError>,
) -> bool {
    &&& r matches Err(e) ==> e is Unauthorized || e is InternalServerError || e is DatabaseError
    &&& is_unauthorized(r) ==> refused_with(r, REFRESH_REJECTED@)
    &&& match presented {
        None => is_unauthorized(r) && s1 == s0,
        Some(t) => if refused_untouched(config, s0, t, now) {
            is_unauthorized(r) && s1 == s0
        } else {
            let rec = s0[token_index(s0, t)];
            let rest = s0.remove(token_index(s0, t));
            let u = verified_subject(config, t, now);
            if rec.user_id@ != u || rec.expires_at < now {
                is_unauthorized(r) && s1 == rest
            } else if !expiry_in_range(config, TokenKind::Access, now) || !expiry_in_range(
                config,
                TokenKind::Refresh,
                now,
            ) {
                (r matches Err(e) && e is InternalServerError) && s1 == s0
            } else if minted_for(config, TokenKind::Refresh, u, now, Some(jti)) == t {
                (r matches Err(e) && e is DatabaseError) && s1 == s0
            } else {
                &&& r is Ok <==> issuable(config, rest, u, now, jti, id)
                &&& r is Err ==> s1 == rest
                &&& r matches Ok(resp) ==> issued(config, rest, s1, u, now, jti, resp.session)
                    && resp.session.record.id@ == id && resp.refreshed_at == now && rotated(
                    s0,
                    s1,
                    t,
                    resp.session.record,
                )
            }
        },
    }
}

/// Exchanges a presented refresh token for a new pair, the new refresh token
/// carrying `jti` and its record stored under `id`. The token must verify,
/// be stored for the principal it names and not be past the stored expiry;
/// a record that fails a check is deleted. A valid token is consumed and a
/// pair issued, unless the new value would equal the presented one, which is
/// refused as a storage conflict before anything changes. Every refusal of
/// the token is `Unauthorized` with one generic message.
pub fn refresh_with(
    tokens: &mut RefreshTokenTable,
    config: &Config,
    presented: Option<&str>,
    now: i64,
    jti: &str,
    id: String,
) -> (r: Result<RefreshResponse, AuthError>)
    requires
        old(tokens).wf(),
    ensures
        final(tokens).wf(),
        refresh_outcome(
            config,
            old(tokens)@,
            final(tokens)@,
            presented_view(presented),
            now,
            jti@,
            id@,
            r,
        ),
{
    let t = match presented {
        Some(t) => t,
        None => {
            return Err(AuthError::unauthorized(REFRESH_REJECTED));
        },
    };
    let claims = match decode_refresh_token(config, t, now) {
        Ok(c) => c,
        Err(_) => {
            return Err(AuthError::unauthorized(REFRESH_REJECTED));
        },
    };
    let record = match RefreshTokens::by_token(tokens, t) {
        Some(rec) => rec,
        None => {
            return Err(AuthError::unauthorized(REFRESH_REJECTED));
        },
    };
    let ghost s0 = tokens@;
    let ghost i = token_index(s0, t@);
    proof {
        assert(0 <= i < s0.len() && s0[i].token@ == t@);
        assert(record == s0[i]);
        assert(verified_subject(config, t@, now) == claims.user_id@);
    }
    if record.user_id != claims.user_id {
        let _ = RefreshTokens::delete_by_token(tokens, t);
        return Err(AuthError::unauthorized(REFRESH_REJECTED));
    }
    if RefreshTokens::is_expired(tokens, t, now) {
        let _ = RefreshTokens::delete_by_token(tokens, t);
        return Err(AuthError::unauthorized(REFRESH_REJECTED));
    }
    if expiry_for(config, TokenKind::Access, now).is_none() {
        return Err(AuthError::internal("Failed to generate authentication tokens"));
    }
    let next = match create_refresh_token_with(config, claims.user_id.as_str(), jti, now) {
        Ok(v) => v,
        Err(_) => {
            return Err(AuthError::internal("Failed to generate authentication tokens"));
        },
    };
    if next == String::from_str(t) {
        return Err(AuthError::database("Refresh token value is already stored"));
    }
    let deleted = RefreshTokens::delete_by_token(tokens, t);
    if deleted == 0 {
        return Err(AuthError::unauthorized(REFRESH_REJECTED));
    }
    let ghost s1 = tokens@;
    assert(s1 == s0.remove(i));
    let session = match issue_session(tokens, config, claims.user_id.as_str(), now, jti, id) {
        Ok(x) => x,
        Err(e) => {
            return Err(e);
        },
    };
    proof {
        assert(tokens@ == s0.remove(i).push(session.record));
        assert(rotated(s0, tokens@, t@, session.record));
    }
    Ok(
        RefreshResponse {
            session,
            message: String::from_str("Tokens refreshed successfully"),
            refreshed_at: now,
        },
    )
}

/// Exchanges a presented refresh token for a new pair, as `refresh_with`
/// does for a freshly drawn token identifier and record identifier.
pub fn refresh(tokens: &mut RefreshTokenTable, config: &Config, presented: Option<&str>, now: i64) -> (r:
    Result<RefreshResponse, AuthError>)
    requires
        old(tokens).wf(),
    ensures
        final(tokens).wf(),
        exists|jti: Seq<char>, id: Seq<char>|
            refresh_outcome(
                config,
                old(tokens)@,
                final(tokens)@,
                presented_view(presented),
                now,
                jti,
                id,
                r,
            ),
{
    let jti = crate::ids::new_record_id();
    let id = crate::ids::new_record_id();
    let ghost ids = (jti@, id@);
    let r = refresh_with(tokens, config, presented, now, jti.as_str(), id);
    assert(refresh_outcome(
        config,
        old(tokens)@,
        tokens@,
        presented_view(presented),
        now,
        ids.0,
        ids.1,
        r,
    ));
    r
}

/// The records left after signin cleans up a presented refresh token: a
/// token of another principal wipes every record of the principal signing
/// in; one of the same principal is replaced, so it alone goes.
pub open spec fn after_cleanup(s: Seq<RefreshTokens>, presented: Option<Seq<char>>, user: Seq<char>) -> Seq<RefreshTokens> {
    match presented {
        Some(t) => if has_token(s, t) {
            let i = token_index(s, t);
            if s[i].user_id@ != user {
                records_without_user(s, user)
            } else {
                s.remove(i)
            }
        } else {
            s
        },
        None => s,
    }
}

/// Before a signin issues a pair, removes what a presented refresh token
/// leaves behind.
pub fn cleanup_existing_tokens(tokens: &mut RefreshTokenTable, presented: Option<&str>, user_id: &str)
    requires
        old(tokens).wf(),
    ensures
        final(tokens).wf(),
        final(tokens)@ == after_cleanup(old(tokens)@, presented_view(presented), user_id@),
{
    if let Some(t) = presented {
        match RefreshTokens::by_token(tokens, t) {
            Some(existing) => {
                let user = String::from_str(user_id);
                if existing.user_id != user {
                    let _ = RefreshTokens::delete_all_for_user(tokens, user_id);
                } else {
                    let _ = RefreshTokens::delete_by_token(tokens, t);
                }
            },
            None => {},
        }
    }
}

/// The response to a successful signin.
#[derive(Debug, Clone)]
pub struct SignInResponse {
    pub user: UserModel,
    pub message: String,
    pub signed_in_at: i64,
    pub session: IssuedSession,
}

/// The index of the principal registered under `email` (one at most).
pub open spec fn email_index(users: Seq<UserModel>, email: Seq<char>) -> int {
    choose|i: int| 0 <= i < users.len() && users[i].email@ == email
}

/// What a signin of `payload` against the directory `users` does to the
/// records `s0` (leaving `s1`) and returns as `r`, with token identifier
/// `jti` and record identifier `id` for the new pair.
pub open spec fn signin_outcome(
    users: Seq<UserModel>,
    config: &Config,
    s0: Seq<RefreshTokens>,
    s1: Seq<RefreshTokens>,
    payload: SignInRequest,
    presented: Option<Seq<char>>,
    now: i64,
    jti: Seq<char>,
    id: Seq<char>,
    r: Result<SignInResponse, AuthError>,
) -> bool {
    &&& is_unauthorized(r) ==> refused_with(r, SIGNIN_REJECTED@)
    &&& if !signin_valid(payload) {
        (r matches Err(e) && e is ValidationError) && s1 == s0
    } else if !has_email(users, payload.email@) {
        refused_with(r, SIGNIN_REJECTED@) && s1 == s0
    } else {
        let u = users[email_index(users, payload.email@)];
        let verdict = bcrypt_verdict(payload.password@, u.password@);
        let base = after_cleanup(s0, presented, u.id@);
        if verdict is None {
            (r matches Err(e) && e is InternalServerError) && s1 == s0
        } else if verdict == Some(false) || !u.email_verified {
            refused_with(r, SIGNIN_REJECTED@) && s1 == s0
        } else {
            &&& r is Ok <==> issuable(config, base, u.id@, now, jti, id)
            &&& r is Err ==> s1 == base
            &&& r matches Ok(resp) ==> resp.user == u && resp.signed_in_at == now && issued(
                config,
                base,
                s1,
                u.id@,
                now,
                jti,
                resp.session,
            ) && resp.session.record.id@ == id
        }
    }
}

/// Signs a principal in by email and password, the new refresh token
/// carrying `jti` and its record stored under `id`. An unknown email, a
/// wrong password and an unverified email all give the same `Unauthorized`
/// error and touch nothing; on success a presented refresh token is cleaned
/// up and a new pair is issued.
pub fn sign_in_with(
    users: &UserTable,
    tokens: &mut RefreshTokenTable,
    config: &Config,
    payload: &SignInRequest,
    presented: Option<&str>,
    now: i64,
    jti: &str,
    id: String,
) -> (r: Result<SignInResponse, AuthError>)
    requires
        users.wf(),
        old(tokens).wf(),
    ensures
        final(tokens).wf(),
        signin_outcome(
            users@,
            config,
            old(tokens)@,
            final(tokens)@,
            *payload,
            presented_view(presented),
            now,
            jti@,
            id@,
            r,
        ),
{
    match payload.validate() {
        Ok(()) => {},
        Err(e) => {
            return Err(e);
        },
    }
    let user = match users.find_by_email(payload.email.as_str()) {
        Some(u) => u,
        None => {
            return Err(AuthError::unauthorized(SIGNIN_REJECTED));
        },
    };
    proof {
        let k = email_index(users@, payload.email@);
        assert(0 <= k < users@.len() && users@[k].email@ == payload.email@);
        assert(user == users@[k]);
    }
    match password_matches(payload.password.as_str(), user.password.as_str()) {
        None => {
            return Err(AuthError::internal("Authentication processing failed"));
        },
        Some(false) => {
            return Err(AuthError::unauthorized(SIGNIN_REJECTED));
        },
        Some(true) => {},
    }
    if !user.email_verified {
        return Err(AuthError::unauthorized(SIGNIN_REJECTED));
    }
    cleanup_existing_tokens(tokens, presented, user.id.as_str());
    let session = match issue_session(tokens, config, user.id.as_str(), now, jti, id) {
        Ok(x) => x,
        Err(e) => {
            return Err(e);
        },
    };
    Ok(
        SignInResponse {
            user,
            message: String::from_str("Successfully signed in"),
            signed_in_at: now,
            session,
        },
    )
}

/// Signs a principal in, as `sign_in_with` does for a freshly drawn token
/// identifier and record identifier.
pub fn sign_in(
    users: &UserTable,
    tokens: &mut RefreshTokenTable,
    config: &Config,
    payload: &SignInRequest,
    presented: Option<&str>,
    now: i64,
) -> (r: Result<SignInResponse, AuthError>)
    requires
        users.wf(),
        old(tokens).wf(),
    ensures
        final(tokens).wf(),
        exists|jti: Seq<char>, id: Seq<char>|
            signin_outcome(
                users@,
                config,
                old(tokens)@,
                final(tokens)@,
                *payload,
                presented_view(presented),
                now,
                jti,
                id,
                r,
            ),
{
    let jti = crate::ids::new_record_id();
    let id = crate::ids::new_record_id();
    let ghost ids = (jti@, id@);
    let r = sign_in_with(users, tokens, config, payload, presented, now, jti.as_str(), id);
    assert(signin_outcome(
        users@,
        config,
        old(tokens)@,
        tokens@,
        *payload,
        presented_view(presented),
        now,
        ids.0,
        ids.1,
        r,
    ));
    r
}

/// What signup reports of the new principal.
#[derive(Debug, Clone)]
pub struct SignUpResponse {
    pub id: String,
    pub username: String,
    pub email: String,
    pub email_verified: bool,
    pub created_at: i64,
}

/// The response that reports principal `u`.
pub open spec fn reports(resp: SignUpResponse, u: UserModel) -> bool {
    &&& resp.id == u.id
    &&& resp.username == u.name
    &&& resp.email == u.email
    &&& resp.email_verified == u.email_verified
    &&& resp.created_at == u.created_at
}

impl From<UserModel> for SignUpResponse {
    fn from(user: UserModel) -> (r: SignUpResponse)
        ensures
            reports(r, user),
    {
        SignUpResponse {
            id: user.id,
            username: user.name,
            email: user.email,
            email_verified: user.email_verified,
            created_at: user.created_at,
        }
    }
}

impl vstd::std_specs::convert::FromSpecImpl<UserModel> for SignUpResponse {
    open spec fn obeys_from_spec() -> bool {
        true
    }

    open spec fn from_spec(user: UserModel) -> SignUpResponse {
        SignUpResponse {
            id: user.id,
            username: user.name,
            email: user.email,
            email_verified: user.email_verified,
            created_at: user.created_at,
        }
    }
}

/// The principal that signup stores for `payload` with credential hash
/// `hash` and identifier `id`: unverified, created at `now`.
pub open spec fn new_principal(payload: SignUpRequest, hash: String, id: String, now: i64) -> NewUser {
    NewUser {
        id,
        name: payload.name,
        email: payload.email,
        password: hash,
        email_verified: false,
        created_at: now,
    }
}

/// Stores the principal of a signup once its credential has been hashed
/// (`None`: hashing failed) and an identifier drawn.
pub fn register_user(
    users: &mut UserTable,
    payload: &SignUpRequest,
    hashed: Option<String>,
    id: String,
    now: i64,
) -> (r: Result<SignUpResponse, AuthError>)
    requires
        old(users).wf(),
    ensures
        final(users).wf(),
        hashed is None ==> (r matches Err(e) && e is InternalServerError) && final(users)@ == old(
            users,
        )@,
        hashed matches Some(h) ==> {
            let n = new_principal(*payload, h, id, now);
            &&& r is Ok <==> !has_id(old(users)@, id@) && !has_email(old(users)@, payload.email@)
                && !has_name(old(users)@, payload.name@)
            &&& r matches Err(e) ==> e is Conflict && final(users)@ == old(users)@
            &&& r matches Ok(resp) ==> final(users)@ == old(users)@.push(row_of(n)) && reports(
                resp,
                row_of(n),
            )
        },
{
    let hash = match hashed {
        Some(h) => h,
        None => {
            return Err(AuthError::internal("Failed to process password"));
        },
    };
    let new_user = NewUser {
        id,
        name: payload.name.clone(),
        email: payload.email.clone(),
        password: hash,
        email_verified: false,
        created_at: now,
    };
    match users.insert(new_user) {
        Ok(u) => Ok(SignUpResponse::from(u)),
        Err(e) => Err(e),
    }
}

/// Registers a principal. The request is validated, then the email address
/// and the name must both be free; the credential is hashed only after that.
/// On success exactly one principal is added, unverified, under a fresh
/// identifier and with a hash that verifies against the password. A valid
/// request with a free email and name fails only where hashing fails or the
/// drawn identifier is already held.
pub fn sign_up(users: &mut UserTable, payload: &SignUpRequest, now: i64) -> (r: Result<
    SignUpResponse,
    AuthError,
>)
    requires
        old(users).wf(),
    ensures
        final(users).wf(),
        !signup_valid(*payload) ==> (r matches Err(e) && e is ValidationError),
        signup_valid(*payload) && has_email(old(users)@, payload.email@) ==> (r matches Err(e)
            && e is Conflict),
        signup_valid(*payload) && has_name(old(users)@, payload.name@) ==> (r matches Err(e)
            && e is Conflict),
        r matches Err(e) && e is ValidationError ==> !signup_valid(*payload),
        r matches Err(e) && e is Conflict ==> signup_valid(*payload),
        signup_valid(*payload) && !has_email(old(users)@, payload.email@) && !has_name(
            old(users)@,
            payload.name@,
        ) ==> r is Ok || (r matches Err(e) && (e is InternalServerError || e is Conflict)),
        r is Err ==> final(users)@ == old(users)@,
        r matches Ok(resp) ==> signup_valid(*payload) && final(users)@.len() == old(users)@.len() + 1
            && final(users)@.drop_last() == old(users)@ && ({
            let u = final(users)@.last();
            &&& !has_id(old(users)@, u.id@)
            &&& u.name@ == payload.name@
            &&& u.email@ == payload.email@
            &&& bcrypt_verdict(payload.password@, u.password@) == Some(true)
            &&& !u.email_verified
            &&& u.created_at == now
            &&& u.deleted_at is None
            &&& reports(resp, u)
        }),
{
    match payload.validate() {
        Ok(()) => {},
        Err(e) => {
            return Err(e);
        },
    }
    if users.email_taken(payload.email.as_str()) {
        return Err(AuthError::conflict("Email address is already registered"));
    }
    if users.name_taken(payload.name.as_str()) {
        return Err(AuthError::conflict("Username is already taken"));
    }
    let hashed = hash_password(payload.password.as_str());
    let id = crate::ids::new_record_id();
    let r = register_user(users, payload, hashed, id, now);
    proof {
        if r is Ok {
            assert(users@.drop_last() =~= old(users)@);
        }
    }
    r
}

/// What signout reports.
#[derive(Debug, Clone)]
pub struct SignOutResponse {
    pub message: String,
    pub signed_out_at: i64,
}

/// The outcome of a signout, and whether the client-side refresh credential
/// is to be cleared.
#[derive(Debug)]
pub struct SignOutOutcome {
    pub result: Result<SignOutResponse, AuthError>,
    pub clear_credential: bool,
}

/// Ends the session of the presented refresh token by deleting its record.
/// A token that is not stored gives `Unauthorized`, yet the client-side
/// credential is cleared so that a stale client converges to signed out.
pub fn sign_out(tokens: &mut RefreshTokenTable, presented: Option<&str>, now: i64) -> (r: SignOutOutcome)
    requires
        old(tokens).wf(),
    ensures
        final(tokens).wf(),
        presented is None ==> is_unauthorized(r.result) && !r.clear_credential && final(tokens)@
            == old(tokens)@,
        presented matches Some(t) ==> r.clear_credential && (r.result is Ok <==> has_token(
            old(tokens)@,
            t@,
        )),
        presented matches Some(t) && !has_token(old(tokens)@, t@) ==> is_unauthorized(r.result)
            && final(tokens)@ == old(tokens)@,
        presented matches Some(t) ==> forall|i: int|
            0 <= i < old(tokens)@.len() && old(tokens)@[i].token@ == t@ ==> final(tokens)@ == old(
                tokens,
            )@.remove(i),
        r.result matches Ok(resp) ==> resp.signed_out_at == now,
{
    let t = match presented {
        Some(t) => t,
        None => {
            return SignOutOutcome {
                result: Err(AuthError::unauthorized("No active session found")),
                clear_credential: false,
            };
        },
    };
    if !RefreshTokens::token_exists(tokens, t) {
        return SignOutOutcome {
            result: Err(AuthError::unauthorized("Invalid or expired session")),
            clear_credential: true,
        };
    }
    let _ = RefreshTokens::delete_by_token(tokens, t);
    SignOutOutcome {
        result: Ok(
            SignOutResponse {
                message: String::from_str("Successfully signed out"),
                signed_out_at: now,
            },
        ),
        clear_credential: true,
    }
}

/// Completes an OAuth login once the provider has named the external
/// login: mints its session token and the credential that carries it.
pub fn oauth_login(config: &Config, login: &str, now: i64) -> (r: Result<CookieSpec, AuthError>)
    ensures
        r matches Ok(c) ==> hardened(
            c,
            OAUTH_COOKIE@,
            oauth_token(config.spec_access_secret(), login@, now, "tsumi"@),
            OAUTH_COOKIE_SECONDS as int,
        ),
        r is Ok <==> now + 86400 <= i64::MAX,
        r matches Err(e) ==> e is InternalServerError,
{
    match create_jwt(config, login, now) {
        Ok(t) => Ok(oauth_session_cookie(t.as_str())),
        Err(e) => Err(e),
    }
}

} // verus!
