use vstd::prelude::*;
use validator::ValidateEmail;
use crate::errors::AuthError;

verus! {

/// A registered principal. `password` holds the credential hash; times are
/// Unix seconds, and `deleted_at` is the tombstone of a soft delete.
#[derive(Debug, Clone)]
pub struct UserModel {
    pub id: String,
    pub name: String,
    pub email: String,
    pub password: String,
    pub email_verified: bool,
    pub created_at: i64,
    pub updated_at: i64,
    pub deleted_at: Option<i64>,
}

/// The columns given when a principal is inserted.
#[derive(Debug, Clone)]
pub struct NewUser {
    pub id: String,
    pub name: String,
    pub email: String,
    pub password: String,
    pub email_verified: bool,
    pub created_at: i64,
}

/// A pending email verification: the token mailed to the principal and
/// when it stops being accepted.
#[derive(Debug, Clone)]
pub struct NewEmailVerificationTable {
    pub token: String,
    pub expires_at: String,
}

/// The row that inserting `n` stores.
pub open spec fn row_of(n: NewUser) -> UserModel {
    UserModel {
        id: n.id,
        name: n.name,
        email: n.email,
        password: n.password,
        email_verified: n.email_verified,
        created_at: n.created_at,
        updated_at: n.created_at,
        deleted_at: None,
    }
}

impl UserModel {
    /// A field-by-field copy.
    pub fn copied(&self) -> (r: UserModel)
        ensures
            r == *self,
    {
        UserModel {
            id: self.id.clone(),
            name: self.name.clone(),
            email: self.email.clone(),
            password: self.password.clone(),
            email_verified: self.email_verified,
            created_at: self.created_at,
            updated_at: self.updated_at,
            deleted_at: self.deleted_at,
        }
    }
}

pub open spec fn has_email(s: Seq<UserModel>, e: Seq<char>) -> bool {
    exists|i: int| 0 <= i < s.len() && s[i].email@ == e
}

pub open spec fn has_name(s: Seq<UserModel>, n: Seq<char>) -> bool {
    exists|i: int| 0 <= i < s.len() && s[i].name@ == n
}

pub open spec fn has_id(s: Seq<UserModel>, id: Seq<char>) -> bool {
    exists|i: int| 0 <= i < s.len() && s[i].id@ == id
}

/// No two principals share an identifier, an email address or a name.
pub open spec fn users_unique(s: Seq<UserModel>) -> bool {
    forall|i: int, j: int|
        0 <= i < s.len() && 0 <= j < s.len() && i != j ==> s[i].id@ != s[j].id@ && s[i].email@
            != s[j].email@ && s[i].name@ != s[j].name@
}

/// The principal directory, each identifier, email address and name held
/// by one principal at most.
pub struct UserTable {
    rows: Vec<UserModel>,
}

impl View for UserTable {
    type V = Seq<UserModel>;

    closed spec fn view(&self) -> Seq<UserModel> {
        self.rows@
    }
}

/// Which column a lookup compares.
enum Column {
    Id,
    Name,
    Email,
}

spec fn column_of(u: UserModel, c: Column) -> Seq<char> {
    match c {
        Column::Id => u.id@,
        Column::Name => u.name@,
        Column::Email => u.email@,
    }
}

impl UserTable {
    pub open spec fn wf(&self) -> bool {
        users_unique(self@)
    }

    pub fn new() -> (r: UserTable)
        ensures
            r@ == Seq::<UserModel>::empty(),
            r.wf(),
    {
        UserTable { rows: Vec::new() }
    }

    pub fn len(&self) -> (r: usize)
        ensures
            r == self@.len(),
    {
        self.rows.len()
    }

    fn position(&self, c: Column, key: &String) -> (r: Option<usize>)
        ensures
            match r {
                Some(i) => i < self@.len() && column_of(self@[i as int], c) == key@,
                None => forall|j: int| 0 <= j < self@.len() ==> column_of(self@[j], c) != key@,
            },
    {
        let mut i: usize = 0;
        while i < self.rows.len()
            invariant
                i <= self.rows@.len(),
                forall|j: int| 0 <= j < i ==> column_of(self.rows@[j], c) != key@,
            decreases self.rows@.len() - i,
        {
            let row = &self.rows[i];
            let hit = match c {
                Column::Id => row.id == *key,
                Column::Name => row.name == *key,
                Column::Email => row.email == *key,
            };
            if hit {
                return Some(i);
            }
            i += 1;
        }
        None
    }

    /// The principal registered under `email`, compared as stored.
    pub fn find_by_email(&self, email: &str) -> (r: Option<UserModel>)
        requires
            self.wf(),
        ensures
            r is Some <==> has_email(self@, email@),
            forall|i: int|
                0 <= i < self@.len() && self@[i].email@ == email@ ==> r == Some(self@[i]),
    {
        match self.position(Column::Email, &String::from_str(email)) {
            Some(i) => Some(self.rows[i].copied()),
            None => None,
        }
    }

    pub fn email_taken(&self, email: &str) -> (r: bool)
        ensures
            r == has_email(self@, email@),
    {
        self.position(Column::Email, &String::from_str(email)).is_some()
    }

    pub fn name_taken(&self, name: &str) -> (r: bool)
        ensures
            r == has_name(self@, name@),
    {
        self.position(Column::Name, &String::from_str(name)).is_some()
    }

    /// Inserts a principal; a taken identifier, email address or name is a
    /// conflict and leaves the directory as it was.
    pub fn insert(&mut self, new_user: NewUser) -> (r: Result<UserModel, AuthError>)
        requires
            old(self).wf(),
        ensures
            final(self).wf(),
            r is Ok <==> !has_id(old(self)@, new_user.id@) && !has_email(old(self)@, new_user.email@)
                && !has_name(old(self)@, new_user.name@),
            r matches Err(e) ==> e is Conflict && final(self)@ == old(self)@,
            r matches Ok(u) ==> u == row_of(new_user) && final(self)@ == old(self)@.push(u),
    {
        if self.position(Column::Id, &new_user.id).is_some() || self.position(
            Column::Email,
            &new_user.email,
        ).is_some() || self.position(Column::Name, &new_user.name).is_some() {
            return Err(AuthError::conflict("Email or username already exists"));
        }
        let row = UserModel {
            id: new_user.id,
            name: new_user.name,
            email: new_user.email,
            password: new_user.password,
            email_verified: new_user.email_verified,
            created_at: new_user.created_at,
            updated_at: new_user.created_at,
            deleted_at: None,
        };
        let ghost s = self.rows@;
        self.rows.push(row.copied());
        proof {
            let t = self.rows@;
            assert(t[s.len() as int] == row);
            assert forall|i: int, j: int|
                0 <= i < t.len() && 0 <= j < t.len() && i != j implies t[i].id@ != t[j].id@
                && t[i].email@ != t[j].email@ && t[i].name@ != t[j].name@ by {
                if i < s.len() && j < s.len() {
                    assert(t[i] == s[i] && t[j] == s[j]);
                } else if i < s.len() {
                    assert(t[i] == s[i]);
                    assert(column_of(s[i], Column::Id) != row.id@);
                    assert(column_of(s[i], Column::Email) != row.email@);
                    assert(column_of(s[i], Column::Name) != row.name@);
                } else {
                    assert(t[j] == s[j]);
                    assert(column_of(s[j], Column::Id) != row.id@);
                    assert(column_of(s[j], Column::Email) != row.email@);
                    assert(column_of(s[j], Column::Name) != row.name@);
                }
            }
        }
        Ok(row)
    }

    /// Sets the verification flag of the principal `id` (the outcome of a
    /// verification workflow run elsewhere); false when there is none.
    pub fn mark_email_verified(&mut self, id: &str, now: i64) -> (r: bool)
        requires
            old(self).wf(),
        ensures
            final(self).wf(),
            r == has_id(old(self)@, id@),
            !r ==> final(self)@ == old(self)@,
            forall|i: int|
                0 <= i < old(self)@.len() && old(self)@[i].id@ == id@ ==> final(self)@ == old(
                    self,
                )@.update(i, UserModel { email_verified: true, updated_at: now, ..old(self)@[i] }),
    {
        match self.position(Column::Id, &String::from_str(id)) {
            Some(i) => {
                let ghost s = self.rows@;
                let mut row = self.rows[i].copied();
                row.email_verified = true;
                row.updated_at = now;
                self.rows.set(i, row);
                proof {
                    let t = self.rows@;
                    assert forall|a: int, b: int|
                        0 <= a < t.len() && 0 <= b < t.len() && a != b implies t[a].id@
                        != t[b].id@ && t[a].email@ != t[b].email@ && t[a].name@ != t[b].name@ by {
                        assert(t[a].id@ == s[a].id@ && t[a].email@ == s[a].email@ && t[a].name@
                            == s[a].name@);
                        assert(t[b].id@ == s[b].id@ && t[b].email@ == s[b].email@ && t[b].name@
                            == s[b].name@);
                    }
                    assert forall|k: int|
                        0 <= k < s.len() && s[k].id@ == id@ implies k == i by {
                        if k != i {
                            assert(s[k].id@ != s[i as int].id@);
                        }
                    }
                }
                true
            },
            None => false,
        }
    }
}

/// Whether `s` is a well-formed email address, by the validator crate's rules.
pub uninterp spec fn valid_email(s: Seq<char>) -> bool;

/// Relies on validator's ValidateEmail for str: a syntactic check of the
/// local and domain parts; an empty text or one without '@' is rejected.
#[verifier::external_body]
fn email_is_valid(s: &str) -> (r: bool)
    ensures
        r == valid_email(s@),
        s@.len() == 0 ==> !r,
        !s@.contains('@') ==> !r,
{
    s.validate_email()
}

/// The credential hashing collaborator's verdict on `password` against a
/// stored `hash`: `None` where the hash cannot be read.
pub uninterp spec fn bcrypt_verdict(password: Seq<char>, hash: Seq<char>) -> Option<bool>;

/// Relies on bcrypt::verify: it re-hashes `password` with the cost and salt
/// read from `hash` and compares; a hash that cannot be read is an error.
#[verifier::external_body]
pub(crate) fn password_matches(password: &str, hash: &str) -> (r: Option<bool>)
    ensures
        r == bcrypt_verdict(password@, hash@),
{
    bcrypt::verify(password, hash).ok()
}

/// Relies on bcrypt::hash at the default cost, with a random salt: the hash
/// may fail to be made (no random source), and a hash that is made is one
/// that bcrypt::verify accepts for the same password.
#[verifier::external_body]
pub(crate) fn hash_password(password: &str) -> (r: Option<String>)
    ensures
        r matches Some(h) ==> bcrypt_verdict(password@, h@) == Some(true),
{
    bcrypt::hash(password, bcrypt::DEFAULT_COST).ok()
}

/// The text's length in characters lies in `[lo, hi]`.
pub open spec fn length_within(s: Seq<char>, lo: int, hi: int) -> bool {
    lo <= s.len() <= hi
}

fn length_ok(s: &str, lo: usize, hi: usize) -> (r: bool)
    ensures
        r == length_within(s@, lo as int, hi as int),
{
    let n = s.unicode_len();
    lo <= n && n <= hi
}

/// A signup: display name, email address and plain-text password.
#[derive(Debug, Clone)]
pub struct SignUpRequest {
    pub name: String,
    pub email: String,
    pub password: String,
}

/// A signin: email address and plain-text password.
#[derive(Debug, Clone)]
pub struct SignInRequest {
    pub email: String,
    pub password: String,
}

/// A name of 3 to 50 characters, a valid email address and a password of 8
/// to 128 characters.
pub open spec fn signup_valid(r: SignUpRequest) -> bool {
    length_within(r.name@, 3, 50) && valid_email(r.email@) && length_within(r.password@, 8, 128)
}

/// A valid email address and a password of 8 to 128 characters.
pub open spec fn signin_valid(r: SignInRequest) -> bool {
    valid_email(r.email@) && length_within(r.password@, 8, 128)
}

impl SignUpRequest {
    pub fn validate(&self) -> (r: Result<(), AuthError>)
        ensures
            r is Ok <==> signup_valid(*self),
            r matches Err(e) ==> e is ValidationError,
    {
        if !length_ok(self.name.as_str(), 3, 50) {
            return Err(AuthError::validation("Username must be between 3 and 50 characters."));
        }
        if !email_is_valid(self.email.as_str()) {
            return Err(AuthError::validation("Email must be a valid email."));
        }
        if !length_ok(self.password.as_str(), 8, 128) {
            return Err(
                AuthError::validation("Password must be between 8 and 128 characters"),
            );
        }
        Ok(())
    }
}

impl SignInRequest {
    pub fn validate(&self) -> (r: Result<(), AuthError>)
        ensures
            r is Ok <==> signin_valid(*self),
            r matches Err(e) ==> e is ValidationError,
    {
        if !email_is_valid(self.email.as_str()) {
            return Err(AuthError::validation("Email must be a valid email."));
        }
        if !length_ok(self.password.as_str(), 8, 128) {
            return Err(
                AuthError::validation("Password must be between 8 and 128 characters"),
            );
        }
        Ok(())
    }
}

} // verus!
