use vstd::prelude::*;
use crate::codec::minted_token;
use crate::config::Config;
use crate::session::{
    issued, refresh_outcome, refused_untouched, refused_with, rotated, IssuedSession,
    REFRESH_REJECTED,
};
use crate::store::{
    expiry_after_days, has_token, lemma_remove_keeps_unique, tokens_unique, user_record_count,
    RefreshTokens,
};

verus! {

/// A refresh token is single-use: once a refresh has rotated it (into a
/// token of another value, which refresh guarantees), the table holds no
/// record of it, so any later refresh that presents it is refused without
/// touching the table.
pub proof fn lemma_rotated_token_refused(
    config: &Config,
    s0: Seq<RefreshTokens>,
    s1: Seq<RefreshTokens>,
    t: Seq<char>,
    rec: RefreshTokens,
    later: i64,
)
    requires
        tokens_unique(s0),
        rotated(s0, s1, t, rec),
    ensures
        !has_token(s1, t),
        refused_untouched(config, s1, t, later),
{
    let i = choose|i: int|
        0 <= i < s0.len() && s0[i].token@ == t && s1 == s0.remove(i).push(rec) && rec.user_id@
            == s0[i].user_id@;
    lemma_remove_keeps_unique(s0, i);
    let r = s0.remove(i);
    if has_token(s1, t) {
        let a = choose|a: int| 0 <= a < s1.len() && s1[a].token@ == t;
        if a < r.len() {
            assert(s1[a] == r[a]);
        } else {
            assert(s1[a] == rec);
        }
    }
}

proof fn lemma_count_push(s: Seq<RefreshTokens>, x: RefreshTokens, u: Seq<char>)
    ensures
        user_record_count(s.push(x), u) == user_record_count(s, u) + (if x.user_id@ == u {
            1nat
        } else {
            0nat
        }),
{
    assert(s.push(x).drop_last() =~= s);
}

proof fn lemma_count_remove(s: Seq<RefreshTokens>, i: int, u: Seq<char>)
    requires
        0 <= i < s.len(),
    ensures
        user_record_count(s.remove(i), u) + (if s[i].user_id@ == u {
            1nat
        } else {
            0nat
        }) == user_record_count(s, u),
    decreases s.len(),
{
    if i == s.len() - 1 {
        assert(s.remove(i) =~= s.drop_last());
    } else {
        lemma_count_remove(s.drop_last(), i, u);
        assert(s.remove(i).drop_last() =~= s.drop_last().remove(i));
        assert(s.remove(i).last() == s.last());
    }
}

/// A rotation consumes one record of a principal and stores one for the
/// same principal: no principal gains a record, so two refreshes racing on
/// one token cannot leave a duplicate live record behind.
pub proof fn lemma_rotation_keeps_record_counts(
    s0: Seq<RefreshTokens>,
    s1: Seq<RefreshTokens>,
    t: Seq<char>,
    rec: RefreshTokens,
    u: Seq<char>,
)
    requires
        rotated(s0, s1, t, rec),
    ensures
        user_record_count(s1, u) == user_record_count(s0, u),
{
    let i = choose|i: int|
        0 <= i < s0.len() && s0[i].token@ == t && s1 == s0.remove(i).push(rec) && rec.user_id@
            == s0[i].user_id@;
    lemma_count_remove(s0, i, u);
    lemma_count_push(s0.remove(i), rec, u);
}

/// The expiries of an issued refresh token agree: the stored record expires
/// exactly when the claims the token was signed with do, `days` days after
/// the issuance instant, at which both were created.
pub proof fn lemma_issued_expiries_agree(
    config: &Config,
    s0: Seq<RefreshTokens>,
    s1: Seq<RefreshTokens>,
    user: Seq<char>,
    now: i64,
    jti: Seq<char>,
    x: IssuedSession,
)
    requires
        issued(config, s0, s1, user, now, jti, x),
    ensures
        x.record.expires_at == x.refresh_claims.exp,
        x.refresh_claims.exp == expiry_after_days(now, config.spec_refresh_days()),
        x.record.created_at == now && x.refresh_claims.iat == now,
        minted_token(
            config.spec_refresh_secret(),
            x.refresh_claims.exp,
            x.refresh_claims.iat,
            x.refresh_claims.user_id@,
            Some(jti),
        ) == x.refresh_token@,
        s1.last() == x.record,
{
}

/// Two refreshes presenting the same token one after the other, which is
/// how a race on one token is serialized by the table: once the first has
/// succeeded, the second is refused with the generic message and changes
/// nothing, no record of the presented value is left, and every principal
/// holds as many records as before the first.
pub proof fn lemma_refresh_race_single_winner(
    config: &Config,
    s0: Seq<RefreshTokens>,
    s1: Seq<RefreshTokens>,
    s2: Seq<RefreshTokens>,
    t: Seq<char>,
    now1: i64,
    jti1: Seq<char>,
    id1: Seq<char>,
    r1: Result<crate::session::RefreshResponse, crate::errors::AuthError>,
    now2: i64,
    jti2: Seq<char>,
    id2: Seq<char>,
    r2: Result<crate::session::RefreshResponse, crate::errors::AuthError>,
    u: Seq<char>,
)
    requires
        tokens_unique(s0),
        refresh_outcome(config, s0, s1, Some(t), now1, jti1, id1, r1),
        r1 is Ok,
        refresh_outcome(config, s1, s2, Some(t), now2, jti2, id2, r2),
    ensures
        refused_with(r2, REFRESH_REJECTED@),
        s2 == s1,
        !has_token(s2, t),
        user_record_count(s2, u) == user_record_count(s0, u),
{
    let rec = r1->Ok_0.session.record;
    assert(rotated(s0, s1, t, rec));
    lemma_rotated_token_refused(config, s0, s1, t, rec, now2);
    lemma_rotation_keeps_record_counts(s0, s1, t, rec, u);
}

} // verus!
