use vstd::prelude::*;
use crate::errors::AuthError;

verus! {

/// Seconds in one day: refresh-token lifetimes are configured in days.
pub const SECONDS_PER_DAY: i64 = 86400;

/// One persisted refresh token: the opaque token value is the key, `user_id`
/// the owning principal, times are Unix seconds.
#[derive(Debug, Clone)]
pub struct RefreshTokens {
    pub id: String,
    pub token: String,
    pub user_id: String,
    pub expires_at: i64,
    pub created_at: i64,
}

impl RefreshTokens {
    /// A field-by-field copy.
    pub fn copied(&self) -> (r: RefreshTokens)
        ensures
            r == *self,
    {
        RefreshTokens {
            id: self.id.clone(),
            token: self.token.clone(),
            user_id: self.user_id.clone(),
            expires_at: self.expires_at,
            created_at: self.created_at,
        }
    }
}

/// Some record of `s` holds the token value `t`.
pub open spec fn has_token(s: Seq<RefreshTokens>, t: Seq<char>) -> bool {
    exists|i: int| 0 <= i < s.len() && s[i].token@ == t
}

/// Some record of `s` is stored under the identifier `id`.
pub open spec fn id_held(s: Seq<RefreshTokens>, id: Seq<char>) -> bool {
    exists|k: int| 0 <= k < s.len() && s[k].id@ == id
}

/// No two records share a token value.
pub open spec fn tokens_unique(s: Seq<RefreshTokens>) -> bool {
    forall|i: int, j: int|
        0 <= i < s.len() && 0 <= j < s.len() && i != j ==> s[i].token@ != s[j].token@
}

/// The records of `s` that do not belong to principal `u`, in their order.
pub open spec fn records_without_user(s: Seq<RefreshTokens>, u: Seq<char>) -> Seq<RefreshTokens>
    decreases s.len(),
{
    if s.len() == 0 {
        Seq::empty()
    } else {
        let rest = records_without_user(s.drop_last(), u);
        if s.last().user_id@ == u {
            rest
        } else {
            rest.push(s.last())
        }
    }
}

/// The number of records of `s` that belong to principal `u`.
pub open spec fn user_record_count(s: Seq<RefreshTokens>, u: Seq<char>) -> nat
    decreases s.len(),
{
    if s.len() == 0 {
        0
    } else {
        user_record_count(s.drop_last(), u) + if s.last().user_id@ == u {
            1nat
        } else {
            0nat
        }
    }
}

/// The expiry instant of a record created at `now` that lives `days` days.
pub open spec fn expiry_after_days(now: i64, days: i64) -> int {
    now + days * SECONDS_PER_DAY
}

/// That instant is representable as a timestamp.
pub open spec fn expiry_fits(now: i64, days: i64) -> bool {
    i64::MIN <= expiry_after_days(now, days) <= i64::MAX
}

/// `now + days` in seconds, or `None` where it leaves the timestamp range.
pub fn checked_expiry(now: i64, days: i64) -> (r: Option<i64>)
    ensures
        r is Some <==> expiry_fits(now, days),
        r matches Some(v) ==> v == expiry_after_days(now, days),
{
    let wide: i128 = now as i128 + days as i128 * SECONDS_PER_DAY as i128;
    if wide < i64::MIN as i128 || wide > i64::MAX as i128 {
        None
    } else {
        Some(wide as i64)
    }
}

proof fn lemma_without_user_from(s: Seq<RefreshTokens>, u: Seq<char>)
    ensures
        forall|k: int|
            0 <= k < records_without_user(s, u).len() ==> s.contains(
                #[trigger] records_without_user(s, u)[k],
            ),
        tokens_unique(s) ==> tokens_unique(records_without_user(s, u)),
    decreases s.len(),
{
    if s.len() > 0 {
        let d = s.drop_last();
        lemma_without_user_from(d, u);
        let rest = records_without_user(d, u);
        assert forall|k: int| 0 <= k < rest.len() implies s.contains(#[trigger] rest[k]) by {
            let j = choose|j: int| 0 <= j < d.len() && d[j] == rest[k];
            assert(s[j] == rest[k]);
        }
        if tokens_unique(s) {
            assert(tokens_unique(d));
            if s.last().user_id@ != u {
                let r = rest.push(s.last());
                assert forall|i: int, j: int|
                    0 <= i < r.len() && 0 <= j < r.len() && i != j implies r[i].token@
                    != r[j].token@ by {
                    if i < rest.len() && j < rest.len() {
                    } else if i < rest.len() {
                        let a = choose|a: int| 0 <= a < d.len() && d[a] == rest[i];
                        assert(s[a] == r[i]);
                        assert(s[s.len() - 1] == r[j]);
                    } else {
                        let a = choose|a: int| 0 <= a < d.len() && d[a] == rest[j];
                        assert(s[a] == r[j]);
                        assert(s[s.len() - 1] == r[i]);
                    }
                }
            }
        }
    }
}

/// Removing a record keeps the others' token values distinct.
pub proof fn lemma_remove_keeps_unique(s: Seq<RefreshTokens>, i: int)
    requires
        tokens_unique(s),
        0 <= i < s.len(),
    ensures
        tokens_unique(s.remove(i)),
        !has_token(s.remove(i), s[i].token@),
        forall|t: Seq<char>| t != s[i].token@ ==> (has_token(s.remove(i), t) == has_token(s, t)),
{
    let r = s.remove(i);
    assert forall|a: int, b: int|
        0 <= a < r.len() && 0 <= b < r.len() && a != b implies r[a].token@ != r[b].token@ by {
        let a2 = if a < i { a } else { a + 1 };
        let b2 = if b < i { b } else { b + 1 };
        assert(r[a] == s[a2] && r[b] == s[b2]);
    }
    if has_token(r, s[i].token@) {
        let a = choose|a: int| 0 <= a < r.len() && r[a].token@ == s[i].token@;
        let a2 = if a < i { a } else { a + 1 };
        assert(r[a] == s[a2]);
    }
    assert forall|t: Seq<char>| t != s[i].token@ implies (has_token(r, t) == has_token(s, t)) by {
        if has_token(s, t) {
            let a = choose|a: int| 0 <= a < s.len() && s[a].token@ == t;
            let a2 = if a < i { a } else { a - 1 };
            assert(r[a2] == s[a]);
        }
        if has_token(r, t) {
            let a = choose|a: int| 0 <= a < r.len() && r[a].token@ == t;
            let a2 = if a < i { a } else { a + 1 };
            assert(r[a] == s[a2]);
        }
    }
}

/// Appending a record whose token value is new keeps token values distinct.
pub proof fn lemma_push_keeps_unique(s: Seq<RefreshTokens>, rec: RefreshTokens)
    requires
        tokens_unique(s),
        !has_token(s, rec.token@),
    ensures
        tokens_unique(s.push(rec)),
        has_token(s.push(rec), rec.token@),
        forall|t: Seq<char>| t != rec.token@ ==> (has_token(s.push(rec), t) == has_token(s, t)),
{
    let r = s.push(rec);
    assert(r[s.len() as int] == rec);
    assert forall|t: Seq<char>| t != rec.token@ implies (has_token(r, t) == has_token(s, t)) by {
        if has_token(s, t) {
            let a = choose|a: int| 0 <= a < s.len() && s[a].token@ == t;
            assert(r[a] == s[a]);
        }
        if has_token(r, t) {
            let a = choose|a: int| 0 <= a < r.len() && r[a].token@ == t;
            assert(r[a] == s[a]);
        }
    }
}

/// The refresh-token table: the records in insertion order, each token value
/// held by one record at most.
pub struct RefreshTokenTable {
    records: Vec<RefreshTokens>,
}

impl View for RefreshTokenTable {
    type V = Seq<RefreshTokens>;

    closed spec fn view(&self) -> Seq<RefreshTokens> {
        self.records@
    }
}

impl RefreshTokenTable {
    /// The table's invariant: token values are unique.
    pub open spec fn wf(&self) -> bool {
        tokens_unique(self@)
    }

    pub fn new() -> (r: RefreshTokenTable)
        ensures
            r@ == Seq::<RefreshTokens>::empty(),
            r.wf(),
    {
        RefreshTokenTable { records: Vec::new() }
    }

    pub fn len(&self) -> (r: usize)
        ensures
            r == self@.len(),
    {
        self.records.len()
    }

    fn id_taken(&self, id: &String) -> (r: bool)
        ensures
            r == id_held(self@, id@),
    {
        let mut i: usize = 0;
        while i < self.records.len()
            invariant
                i <= self.records@.len(),
                forall|j: int| 0 <= j < i ==> self.records@[j].id@ != id@,
            decreases self.records@.len() - i,
        {
            if self.records[i].id == *id {
                assert(self@[i as int].id@ == id@);
                return true;
            }
            i += 1;
        }
        false
    }

    fn position(&self, tok: &String) -> (r: Option<usize>)
        ensures
            match r {
                Some(i) => i < self@.len() && self@[i as int].token@ == tok@,
                None => !has_token(self@, tok@),
            },
    {
        let mut i: usize = 0;
        while i < self.records.len()
            invariant
                i <= self.records@.len(),
                forall|j: int| 0 <= j < i ==> self.records@[j].token@ != tok@,
            decreases self.records@.len() - i,
        {
            if self.records[i].token == *tok {
                return Some(i);
            }
            i += 1;
        }
        None
    }
}

impl RefreshTokens {
    /// Every record of the table, in insertion order.
    pub fn all(table: &RefreshTokenTable) -> (r: Vec<RefreshTokens>)
        ensures
            r@ == table@,
    {
        let mut out: Vec<RefreshTokens> = Vec::new();
        let mut i: usize = 0;
        while i < table.records.len()
            invariant
                i <= table.records@.len(),
                out@ == table.records@.subrange(0, i as int),
            decreases table.records@.len() - i,
        {
            out.push(table.records[i].copied());
            i += 1;
            assert(out@ =~= table.records@.subrange(0, i as int));
        }
        assert(out@ =~= table.records@);
        out
    }

    /// The record whose token value is `tok`, if there is one.
    pub fn by_token(table: &RefreshTokenTable, tok: &str) -> (r: Option<RefreshTokens>)
        requires
            table.wf(),
        ensures
            r is Some <==> has_token(table@, tok@),
            forall|i: int|
                0 <= i < table@.len() && table@[i].token@ == tok@ ==> r == Some(table@[i]),
    {
        let key = String::from_str(tok);
        match table.position(&key) {
            Some(i) => Some(table.records[i].copied()),
            None => None,
        }
    }

    /// Whether a record holds the token value `tok`.
    pub fn token_exists(table: &RefreshTokenTable, tok: &str) -> (r: bool)
        ensures
            r == has_token(table@, tok@),
    {
        let key = String::from_str(tok);
        table.position(&key).is_some()
    }

    /// Deletes the record of `tok`; the count of deleted records is 0 when
    /// there was none, which is not an error.
    pub fn delete_by_token(table: &mut RefreshTokenTable, tok: &str) -> (r: usize)
        requires
            old(table).wf(),
        ensures
            final(table).wf(),
            r == 0 <==> !has_token(old(table)@, tok@),
            has_token(old(table)@, tok@) ==> r == 1,
            !has_token(old(table)@, tok@) ==> final(table)@ == old(table)@,
            forall|i: int|
                0 <= i < old(table)@.len() && old(table)@[i].token@ == tok@ ==> r == 1
                    && final(table)@ == old(table)@.remove(i),
            !has_token(final(table)@, tok@),
    {
        let key = String::from_str(tok);
        match table.position(&key) {
            Some(i) => {
                proof {
                    lemma_remove_keeps_unique(table.records@, i as int);
                }
                table.records.remove(i);
                1
            },
            None => 0,
        }
    }

    /// Whether `tok` cannot be used at `now`: there is no record of it, or
    /// its record expired before `now`.
    pub fn is_expired(table: &RefreshTokenTable, tok: &str, now: i64) -> (r: bool)
        requires
            table.wf(),
        ensures
            !has_token(table@, tok@) ==> r,
            forall|i: int|
                0 <= i < table@.len() && table@[i].token@ == tok@ ==> r == (table@[i].expires_at
                    < now),
    {
        let key = String::from_str(tok);
        match table.position(&key) {
            Some(i) => table.records[i].expires_at < now,
            None => true,
        }
    }

    /// Stores a new record of `tok` for `user_id` under the identifier `id`,
    /// created at `now` and expiring `days` days later. A token value or an
    /// identifier that is already stored is a storage conflict.
    pub fn create_with_id(
        table: &mut RefreshTokenTable,
        tok: &str,
        user_id: &str,
        days: i64,
        now: i64,
        id: String,
    ) -> (r: Result<RefreshTokens, AuthError>)
        requires
            old(table).wf(),
        ensures
            final(table).wf(),
            r is Ok <==> !has_token(old(table)@, tok@) && expiry_fits(now, days) && !id_held(
                old(table)@,
                id@,
            ),
            has_token(old(table)@, tok@) ==> (r matches Err(e) && e is DatabaseError),
            !has_token(old(table)@, tok@) && !expiry_fits(now, days) ==> (r matches Err(e)
                && e is InternalServerError),
            !has_token(old(table)@, tok@) && expiry_fits(now, days) && id_held(old(table)@, id@)
                ==> (r matches Err(e) && e is DatabaseError),
            r is Err ==> final(table)@ == old(table)@,
            r is Ok ==> has_token(final(table)@, tok@),
            r matches Ok(rec) ==> final(table)@ == old(table)@.push(rec) && rec.token@ == tok@
                && rec.user_id@ == user_id@ && rec.expires_at == expiry_after_days(now, days)
                && rec.created_at == now && rec.id == id,
    {
        let key = String::from_str(tok);
        if table.position(&key).is_some() {
            return Err(AuthError::database("Refresh token value is already stored"));
        }
        let expires_at = match checked_expiry(now, days) {
            Some(v) => v,
            None => {
                return Err(AuthError::internal("Refresh token lifetime is out of range"));
            },
        };
        if table.id_taken(&id) {
            return Err(AuthError::database("Refresh token identifier is already stored"));
        }
        let rec = RefreshTokens {
            id,
            token: key,
            user_id: String::from_str(user_id),
            expires_at,
            created_at: now,
        };
        proof {
            lemma_push_keeps_unique(table.records@, rec);
        }
        table.records.push(rec.copied());
        Ok(rec)
    }

    /// Stores a new record as `create_with_id` does, under a fresh random
    /// identifier; it fails only as that function says for the drawn one.
    pub fn create(table: &mut RefreshTokenTable, tok: &str, user_id: &str, days: i64, now: i64) -> (r:
        Result<RefreshTokens, AuthError>)
        requires
            old(table).wf(),
        ensures
            final(table).wf(),
            r is Ok ==> !has_token(old(table)@, tok@) && expiry_fits(now, days),
            !has_token(old(table)@, tok@) && expiry_fits(now, days) ==> r is Ok || (r matches Err(
                e,
            ) && e is DatabaseError),
            has_token(old(table)@, tok@) ==> (r matches Err(e) && e is DatabaseError),
            !has_token(old(table)@, tok@) && !expiry_fits(now, days) ==> (r matches Err(e)
                && e is InternalServerError),
            r is Err ==> final(table)@ == old(table)@,
            r is Ok ==> has_token(final(table)@, tok@),
            r matches Ok(rec) ==> final(table)@ == old(table)@.push(rec) && rec.token@ == tok@
                && rec.user_id@ == user_id@ && rec.expires_at == expiry_after_days(now, days)
                && rec.created_at == now && !id_held(old(table)@, rec.id@),
    {
        let id = crate::ids::new_record_id();
        RefreshTokens::create_with_id(table, tok, user_id, days, now, id)
    }

    /// Deletes every record of principal `user_id`; returns how many went.
    pub fn delete_all_for_user(table: &mut RefreshTokenTable, user_id: &str) -> (r: usize)
        requires
            old(table).wf(),
        ensures
            final(table).wf(),
            final(table)@ == records_without_user(old(table)@, user_id@),
            r == old(table)@.len() - final(table)@.len(),
    {
        let user = String::from_str(user_id);
        let ghost s = table.records@;
        let mut kept: Vec<RefreshTokens> = Vec::new();
        let mut i: usize = 0;
        while i < table.records.len()
            invariant
                s == table.records@,
                i <= s.len(),
                kept@ == records_without_user(s.subrange(0, i as int), user@),
                kept@.len() <= i,
            decreases s.len() - i,
        {
            assert(s.subrange(0, i + 1).drop_last() =~= s.subrange(0, i as int));
            if table.records[i].user_id != user {
                kept.push(table.records[i].copied());
            }
            i += 1;
        }
        assert(s.subrange(0, s.len() as int) =~= s);
        proof {
            lemma_without_user_from(s, user@);
        }
        let removed = table.records.len() - kept.len();
        table.records = kept;
        removed
    }
}

} // verus!
