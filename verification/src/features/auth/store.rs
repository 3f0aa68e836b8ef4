//! The customer-side tables (users, refresh tokens, e-mail verification tokens)
//! as plain values, with the queries and updates that the customer
//! authentication service runs on them. Keys are auto-incremented 32-bit
//! integers; times are microseconds since the Unix epoch.

use vstd::prelude::*;

use crate::repositories::StoreError;
use crate::text::str_equal;

verus! {

/// A row of the `user` table.
pub struct UserRow {
    pub id: i32,
    pub email: String,
    pub password_hash: String,
    pub role: String,
    pub is_active: bool,
    pub email_verified_at: Option<i64>,
    pub created_at: i64,
    pub updated_at: i64,
}

/// A row of the `refresh_token` table.
pub struct RefreshTokenRow {
    pub id: i32,
    pub user_id: i32,
    /// Hex text of the SHA-256 digest of the token's text.
    pub token_hash: String,
    pub expires_at: i64,
    pub revoked_at: Option<i64>,
    pub created_at: i64,
}

/// A row of the `email_verification_token` table.
pub struct EmailVerificationTokenRow {
    pub id: i32,
    pub user_id: i32,
    /// Hex text of the SHA-256 digest of the token's text.
    pub token_hash: String,
    pub expires_at: i64,
    pub created_at: i64,
}

impl UserRow {
    /// A copy of the row.
    pub fn duplicate(&self) -> (res: UserRow)
        ensures
            res == *self,
    {
        UserRow {
            id: self.id,
            email: self.email.clone(),
            password_hash: self.password_hash.clone(),
            role: self.role.clone(),
            is_active: self.is_active,
            email_verified_at: self.email_verified_at,
            created_at: self.created_at,
            updated_at: self.updated_at,
        }
    }
}

impl RefreshTokenRow {
    /// A copy of the row.
    pub fn duplicate(&self) -> (res: RefreshTokenRow)
        ensures
            res == *self,
    {
        RefreshTokenRow {
            id: self.id,
            user_id: self.user_id,
            token_hash: self.token_hash.clone(),
            expires_at: self.expires_at,
            revoked_at: self.revoked_at,
            created_at: self.created_at,
        }
    }
}

impl EmailVerificationTokenRow {
    /// A copy of the row.
    pub fn duplicate(&self) -> (res: EmailVerificationTokenRow)
        ensures
            res == *self,
    {
        EmailVerificationTokenRow {
            id: self.id,
            user_id: self.user_id,
            token_hash: self.token_hash.clone(),
            expires_at: self.expires_at,
            created_at: self.created_at,
        }
    }
}

/// No two users share an id or an e-mail address, and every id was handed out
/// (lies in `1..=last`).
pub open spec fn users_ok(s: Seq<UserRow>, last: i32) -> bool {
    &&& forall|i: int, j: int|
        0 <= i < s.len() && 0 <= j < s.len() && i != j ==> (#[trigger] s[i]).id != (#[trigger] s[j]).id
            && s[i].email@ != s[j].email@
    &&& forall|i: int| 0 <= i < s.len() ==> 0 < (#[trigger] s[i]).id <= last
}

/// No two refresh tokens share an id or a hash, and every id was handed out.
pub open spec fn refresh_rows_ok(s: Seq<RefreshTokenRow>, last: i32) -> bool {
    &&& forall|i: int, j: int|
        0 <= i < s.len() && 0 <= j < s.len() && i != j ==> (#[trigger] s[i]).id != (#[trigger] s[j]).id
            && s[i].token_hash@ != s[j].token_hash@
    &&& forall|i: int| 0 <= i < s.len() ==> 0 < (#[trigger] s[i]).id <= last
}

/// No two verification tokens share an id or a hash, and every id was handed out.
pub open spec fn verification_rows_ok(s: Seq<EmailVerificationTokenRow>, last: i32) -> bool {
    &&& forall|i: int, j: int|
        0 <= i < s.len() && 0 <= j < s.len() && i != j ==> (#[trigger] s[i]).id != (#[trigger] s[j]).id
            && s[i].token_hash@ != s[j].token_hash@
    &&& forall|i: int| 0 <= i < s.len() ==> 0 < (#[trigger] s[i]).id <= last
}

/// Whether a user has this e-mail address.
pub open spec fn user_email_taken(s: Seq<UserRow>, email: Seq<char>) -> bool {
    exists|i: int| 0 <= i < s.len() && #[trigger] s[i].email@ == email
}

/// Whether a user has this id.
pub open spec fn user_id_taken(s: Seq<UserRow>, id: i32) -> bool {
    exists|i: int| 0 <= i < s.len() && #[trigger] s[i].id == id
}

/// Whether a refresh token has this hash.
pub open spec fn refresh_hash_in(s: Seq<RefreshTokenRow>, h: Seq<char>) -> bool {
    exists|i: int| 0 <= i < s.len() && #[trigger] s[i].token_hash@ == h
}

/// Whether a verification token has this hash.
pub open spec fn verification_hash_in(s: Seq<EmailVerificationTokenRow>, h: Seq<char>) -> bool {
    exists|i: int| 0 <= i < s.len() && #[trigger] s[i].token_hash@ == h
}

/// The user row marked as verified at `now`, if it was not verified yet.
pub open spec fn verified_at(u: UserRow, now: i64) -> UserRow {
    if u.email_verified_at is None {
        UserRow { email_verified_at: Some(now), ..u }
    } else {
        u
    }
}

/// Whether a verification token is kept when the user's tokens go.
pub open spec fn keeps_user_token(user_id: i32) -> spec_fn(EmailVerificationTokenRow) -> bool {
    |t: EmailVerificationTokenRow| t.user_id != user_id
}

/// The verification tokens that do not belong to the user.
pub open spec fn tokens_not_of_user(s: Seq<EmailVerificationTokenRow>, user_id: i32) -> Seq<
    EmailVerificationTokenRow,
> {
    s.filter(keeps_user_token(user_id))
}

/// The customer-side tables, with the last key handed out for each.
pub struct UserTables {
    users: Vec<UserRow>,
    refresh_tokens: Vec<RefreshTokenRow>,
    verification_tokens: Vec<EmailVerificationTokenRow>,
    last_user_id: i32,
    last_refresh_token_id: i32,
    last_verification_token_id: i32,
}

impl UserTables {
    /// The rows of the `user` table, in insertion order.
    pub closed spec fn users(&self) -> Seq<UserRow> {
        self.users@
    }

    /// The rows of the `refresh_token` table, in insertion order.
    pub closed spec fn refresh_tokens(&self) -> Seq<RefreshTokenRow> {
        self.refresh_tokens@
    }

    /// The rows of the `email_verification_token` table, in insertion order.
    pub closed spec fn verification_tokens(&self) -> Seq<EmailVerificationTokenRow> {
        self.verification_tokens@
    }

    /// The last user id handed out (0 before the first).
    pub closed spec fn last_user_id(&self) -> i32 {
        self.last_user_id
    }

    /// The last refresh token id handed out (0 before the first).
    pub closed spec fn last_refresh_token_id(&self) -> i32 {
        self.last_refresh_token_id
    }

    /// The last verification token id handed out (0 before the first).
    pub closed spec fn last_verification_token_id(&self) -> i32 {
        self.last_verification_token_id
    }

    /// The keys and unique columns hold.
    pub open spec fn wf(&self) -> bool {
        &&& self.last_user_id() >= 0
        &&& self.last_refresh_token_id() >= 0
        &&& self.last_verification_token_id() >= 0
        &&& users_ok(self.users(), self.last_user_id())
        &&& refresh_rows_ok(self.refresh_tokens(), self.last_refresh_token_id())
        &&& verification_rows_ok(self.verification_tokens(), self.last_verification_token_id())
    }

    /// Empty tables.
    pub fn new() -> (res: UserTables)
        ensures
            res.wf(),
            res.users() == Seq::<UserRow>::empty(),
            res.refresh_tokens() == Seq::<RefreshTokenRow>::empty(),
            res.verification_tokens() == Seq::<EmailVerificationTokenRow>::empty(),
            res.last_user_id() == 0,
            res.last_refresh_token_id() == 0,
            res.last_verification_token_id() == 0,
    {
        UserTables {
            users: Vec::new(),
            refresh_tokens: Vec::new(),
            verification_tokens: Vec::new(),
            last_user_id: 0,
            last_refresh_token_id: 0,
            last_verification_token_id: 0,
        }
    }

    /// `SELECT COUNT(*) FROM user`.
    pub fn user_count(&self) -> (res: usize)
        ensures
            res == self.users().len(),
    {
        self.users.len()
    }

    /// `SELECT COUNT(*) FROM refresh_token`.
    pub fn refresh_token_count(&self) -> (res: usize)
        ensures
            res == self.refresh_tokens().len(),
    {
        self.refresh_tokens.len()
    }

    /// `SELECT COUNT(*) FROM email_verification_token`.
    pub fn verification_token_count(&self) -> (res: usize)
        ensures
            res == self.verification_tokens().len(),
    {
        self.verification_tokens.len()
    }

    /// The last keys handed out: (user, refresh token, verification token).
    pub fn last_ids(&self) -> (res: (i32, i32, i32))
        ensures
            res.0 == self.last_user_id(),
            res.1 == self.last_refresh_token_id(),
            res.2 == self.last_verification_token_id(),
    {
        (self.last_user_id, self.last_refresh_token_id, self.last_verification_token_id)
    }

    /// The user row at a position.
    pub fn user(&self, i: usize) -> (res: &UserRow)
        requires
            i < self.users().len(),
        ensures
            *res == self.users()[i as int],
    {
        &self.users[i]
    }

    /// The refresh token row at a position.
    pub fn refresh_token(&self, i: usize) -> (res: &RefreshTokenRow)
        requires
            i < self.refresh_tokens().len(),
        ensures
            *res == self.refresh_tokens()[i as int],
    {
        &self.refresh_tokens[i]
    }

    /// The verification token row at a position.
    pub fn verification_token(&self, i: usize) -> (res: &EmailVerificationTokenRow)
        requires
            i < self.verification_tokens().len(),
        ensures
            *res == self.verification_tokens()[i as int],
    {
        &self.verification_tokens[i]
    }

    /// `SELECT .. FROM user WHERE email = ?`: the position of the row.
    pub fn find_user_by_email(&self, email: &str) -> (res: Option<usize>)
        ensures
            res matches Some(i) ==> i < self.users().len() && self.users()[i as int].email@ == email@,
            res is None ==> !user_email_taken(self.users(), email@),
    {
        let mut i: usize = 0;
        while i < self.users.len()
            invariant
                i <= self.users@.len(),
                forall|k: int| 0 <= k < i ==> (#[trigger] self.users@[k]).email@ != email@,
            decreases self.users@.len() - i,
        {
            if str_equal(self.users[i].email.as_str(), email) {
                return Some(i);
            }
            i = i + 1;
        }
        None
    }

    /// `SELECT .. FROM user WHERE id = ?`: the position of the row.
    pub fn find_user_by_id(&self, id: i32) -> (res: Option<usize>)
        ensures
            res matches Some(i) ==> i < self.users().len() && self.users()[i as int].id == id,
            res is None ==> !user_id_taken(self.users(), id),
    {
        let mut i: usize = 0;
        while i < self.users.len()
            invariant
                i <= self.users@.len(),
                forall|k: int| 0 <= k < i ==> (#[trigger] self.users@[k]).id != id,
            decreases self.users@.len() - i,
        {
            if self.users[i].id == id {
                return Some(i);
            }
            i = i + 1;
        }
        None
    }

    /// `INSERT INTO user`, with the next id: fails when the e-mail address is
    /// taken or the ids are exhausted.
    pub fn insert_user(
        &mut self,
        email: String,
        password_hash: String,
        role: String,
        is_active: bool,
        now: i64,
    ) -> (res: Result<i32, StoreError>)
        requires
            old(self).wf(),
        ensures
            final(self).wf(),
            final(self).refresh_tokens() == old(self).refresh_tokens(),
            final(self).verification_tokens() == old(self).verification_tokens(),
            final(self).last_refresh_token_id() == old(self).last_refresh_token_id(),
            final(self).last_verification_token_id() == old(self).last_verification_token_id(),
            res is Ok <==> !user_email_taken(old(self).users(), email@) && old(self).last_user_id()
                < i32::MAX,
            res matches Ok(id) ==> {
                &&& id == old(self).last_user_id() + 1
                &&& final(self).last_user_id() == id
                &&& final(self).users() == old(self).users().push(
                    UserRow {
                        id,
                        email,
                        password_hash,
                        role,
                        is_active,
                        email_verified_at: None,
                        created_at: now,
                        updated_at: now,
                    },
                )
            },
            res is Err ==> final(self).users() == old(self).users() && final(self).last_user_id()
                == old(self).last_user_id(),
    {
        if self.find_user_by_email(email.as_str()).is_some() {
            return Err(StoreError::UniqueViolation);
        }
        if self.last_user_id == i32::MAX {
            return Err(StoreError::KeyExhausted);
        }
        let id = self.last_user_id + 1;
        self.users.push(
            UserRow {
                id,
                email,
                password_hash,
                role,
                is_active,
                email_verified_at: None,
                created_at: now,
                updated_at: now,
            },
        );
        self.last_user_id = id;
        Ok(id)
    }

    /// `UPDATE user SET email_verified_at = ? WHERE id = ?` for the row at a
    /// position.
    pub fn set_user_verified(&mut self, i: usize, now: i64)
        requires
            old(self).wf(),
            i < old(self).users().len(),
        ensures
            final(self).wf(),
            final(self).users() == old(self).users().update(
                i as int,
                UserRow { email_verified_at: Some(now), ..old(self).users()[i as int] },
            ),
            final(self).refresh_tokens() == old(self).refresh_tokens(),
            final(self).verification_tokens() == old(self).verification_tokens(),
            final(self).last_user_id() == old(self).last_user_id(),
            final(self).last_refresh_token_id() == old(self).last_refresh_token_id(),
            final(self).last_verification_token_id() == old(self).last_verification_token_id(),
    {
        let mut u = self.users[i].duplicate();
        u.email_verified_at = Some(now);
        self.users.set(i, u);
        proof {
            let s = self.users@;
            assert forall|a: int, b: int|
                0 <= a < s.len() && 0 <= b < s.len() && a != b implies (#[trigger] s[a]).id != (
                #[trigger] s[b]).id && s[a].email@ != s[b].email@ by {
                assert(s[a].id == old(self).users@[a].id && s[a].email@ == old(self).users@[a].email@);
                assert(s[b].id == old(self).users@[b].id && s[b].email@ == old(self).users@[b].email@);
            }
            assert forall|a: int| 0 <= a < s.len() implies 0 < (#[trigger] s[a]).id
                <= self.last_user_id by {
                assert(s[a].id == old(self).users@[a].id);
            }
        }
    }

    /// `UPDATE user SET is_active = ? WHERE id = ?` for the row at a position.
    pub fn set_user_active(&mut self, i: usize, is_active: bool)
        requires
            old(self).wf(),
            i < old(self).users().len(),
        ensures
            final(self).wf(),
            final(self).users() == old(self).users().update(
                i as int,
                UserRow { is_active, ..old(self).users()[i as int] },
            ),
            final(self).refresh_tokens() == old(self).refresh_tokens(),
            final(self).verification_tokens() == old(self).verification_tokens(),
            final(self).last_user_id() == old(self).last_user_id(),
            final(self).last_refresh_token_id() == old(self).last_refresh_token_id(),
            final(self).last_verification_token_id() == old(self).last_verification_token_id(),
    {
        let mut u = self.users[i].duplicate();
        u.is_active = is_active;
        self.users.set(i, u);
        proof {
            let s = self.users@;
            assert forall|a: int, b: int|
                0 <= a < s.len() && 0 <= b < s.len() && a != b implies (#[trigger] s[a]).id != (
                #[trigger] s[b]).id && s[a].email@ != s[b].email@ by {
                assert(s[a].id == old(self).users@[a].id && s[a].email@ == old(self).users@[a].email@);
                assert(s[b].id == old(self).users@[b].id && s[b].email@ == old(self).users@[b].email@);
            }
            assert forall|a: int| 0 <= a < s.len() implies 0 < (#[trigger] s[a]).id
                <= self.last_user_id by {
                assert(s[a].id == old(self).users@[a].id);
            }
        }
    }

    /// `UPDATE user SET email_verified_at = ? WHERE email_verified_at IS NULL`.
    pub fn verify_unverified_users(&mut self, now: i64)
        requires
            old(self).wf(),
        ensures
            final(self).wf(),
            final(self).users() == Seq::new(
                old(self).users().len(),
                |k: int| verified_at(old(self).users()[k], now),
            ),
            final(self).refresh_tokens() == old(self).refresh_tokens(),
            final(self).verification_tokens() == old(self).verification_tokens(),
            final(self).last_user_id() == old(self).last_user_id(),
            final(self).last_refresh_token_id() == old(self).last_refresh_token_id(),
            final(self).last_verification_token_id() == old(self).last_verification_token_id(),
    {
        let ghost old_users = self.users@;
        let mut i: usize = 0;
        while i < self.users.len()
            invariant
                i <= self.users@.len(),
                self.users@.len() == old_users.len(),
                old_users == old(self).users@,
                old(self).wf(),
                self.last_user_id == old(self).last_user_id,
                self.last_refresh_token_id == old(self).last_refresh_token_id,
                self.last_verification_token_id == old(self).last_verification_token_id,
                self.refresh_tokens@ == old(self).refresh_tokens@,
                self.verification_tokens@ == old(self).verification_tokens@,
                forall|k: int| 0 <= k < i ==> (#[trigger] self.users@[k]) == verified_at(old_users[k], now),
                forall|k: int| i <= k < self.users@.len() ==> (#[trigger] self.users@[k]) == old_users[k],
            decreases self.users@.len() - i,
        {
            if self.users[i].email_verified_at.is_none() {
                let mut u = self.users[i].duplicate();
                u.email_verified_at = Some(now);
                self.users.set(i, u);
            }
            i = i + 1;
        }
        assert(self.users@ =~= Seq::new(old_users.len(), |k: int| verified_at(old_users[k], now)));
        proof {
            let s = self.users@;
            assert forall|a: int, b: int|
                0 <= a < s.len() && 0 <= b < s.len() && a != b implies (#[trigger] s[a]).id != (
                #[trigger] s[b]).id && s[a].email@ != s[b].email@ by {
                assert(s[a].id == old_users[a].id && s[a].email@ == old_users[a].email@);
                assert(s[b].id == old_users[b].id && s[b].email@ == old_users[b].email@);
            }
            assert forall|a: int| 0 <= a < s.len() implies 0 < (#[trigger] s[a]).id
                <= self.last_user_id by {
                assert(s[a].id == old_users[a].id);
            }
        }
    }

    /// `SELECT .. FROM refresh_token WHERE token_hash = ?`: the position of the row.
    pub fn find_refresh_token_by_hash(&self, token_hash: &str) -> (res: Option<usize>)
        ensures
            res matches Some(i) ==> i < self.refresh_tokens().len()
                && self.refresh_tokens()[i as int].token_hash@ == token_hash@,
            res is None ==> !refresh_hash_in(self.refresh_tokens(), token_hash@),
    {
        let mut i: usize = 0;
        while i < self.refresh_tokens.len()
            invariant
                i <= self.refresh_tokens@.len(),
                forall|k: int| 0 <= k < i ==> (#[trigger] self.refresh_tokens@[k]).token_hash@ != token_hash@,
            decreases self.refresh_tokens@.len() - i,
        {
            if str_equal(self.refresh_tokens[i].token_hash.as_str(), token_hash) {
                return Some(i);
            }
            i = i + 1;
        }
        None
    }

    /// `INSERT INTO refresh_token`, with the next id: fails when the hash is
    /// taken or the ids are exhausted.
    pub fn insert_refresh_token(&mut self, user_id: i32, token_hash: String, expires_at: i64, now: i64) -> (res:
        Result<i32, StoreError>)
        requires
            old(self).wf(),
        ensures
            final(self).wf(),
            final(self).users() == old(self).users(),
            final(self).verification_tokens() == old(self).verification_tokens(),
            final(self).last_user_id() == old(self).last_user_id(),
            final(self).last_verification_token_id() == old(self).last_verification_token_id(),
            res is Ok <==> !refresh_hash_in(old(self).refresh_tokens(), token_hash@)
                && old(self).last_refresh_token_id() < i32::MAX,
            res matches Err(e) ==> (e is UniqueViolation && refresh_hash_in(
                old(self).refresh_tokens(),
                token_hash@,
            )) || (e is KeyExhausted && old(self).last_refresh_token_id() == i32::MAX),
            res matches Ok(id) ==> {
                &&& id == old(self).last_refresh_token_id() + 1
                &&& final(self).last_refresh_token_id() == id
                &&& final(self).refresh_tokens() == old(self).refresh_tokens().push(
                    RefreshTokenRow { id, user_id, token_hash, expires_at, revoked_at: None, created_at: now },
                )
            },
            res is Err ==> final(self).refresh_tokens() == old(self).refresh_tokens()
                && final(self).last_refresh_token_id() == old(self).last_refresh_token_id(),
    {
        if self.find_refresh_token_by_hash(token_hash.as_str()).is_some() {
            return Err(StoreError::UniqueViolation);
        }
        if self.last_refresh_token_id == i32::MAX {
            return Err(StoreError::KeyExhausted);
        }
        let id = self.last_refresh_token_id + 1;
        self.refresh_tokens.push(
            RefreshTokenRow { id, user_id, token_hash, expires_at, revoked_at: None, created_at: now },
        );
        self.last_refresh_token_id = id;
        Ok(id)
    }

    /// `UPDATE refresh_token SET revoked_at = ? WHERE id = ?` for the row at a
    /// position.
    pub fn revoke_refresh_token_at(&mut self, i: usize, now: i64)
        requires
            old(self).wf(),
            i < old(self).refresh_tokens().len(),
        ensures
            final(self).wf(),
            final(self).refresh_tokens() == old(self).refresh_tokens().update(
                i as int,
                RefreshTokenRow { revoked_at: Some(now), ..old(self).refresh_tokens()[i as int] },
            ),
            final(self).users() == old(self).users(),
            final(self).verification_tokens() == old(self).verification_tokens(),
            final(self).last_user_id() == old(self).last_user_id(),
            final(self).last_refresh_token_id() == old(self).last_refresh_token_id(),
            final(self).last_verification_token_id() == old(self).last_verification_token_id(),
    {
        let mut t = self.refresh_tokens[i].duplicate();
        t.revoked_at = Some(now);
        self.refresh_tokens.set(i, t);
        proof {
            let s = self.refresh_tokens@;
            let o = old(self).refresh_tokens@;
            assert forall|a: int, b: int|
                0 <= a < s.len() && 0 <= b < s.len() && a != b implies (#[trigger] s[a]).id != (
                #[trigger] s[b]).id && s[a].token_hash@ != s[b].token_hash@ by {
                assert(s[a].id == o[a].id && s[a].token_hash@ == o[a].token_hash@);
                assert(s[b].id == o[b].id && s[b].token_hash@ == o[b].token_hash@);
            }
            assert forall|a: int| 0 <= a < s.len() implies 0 < (#[trigger] s[a]).id
                <= self.last_refresh_token_id by {
                assert(s[a].id == o[a].id);
            }
        }
    }

    /// `UPDATE refresh_token SET expires_at = ? WHERE id = ?` for the row at a
    /// position.
    pub fn set_refresh_token_expiry_at(&mut self, i: usize, expires_at: i64)
        requires
            old(self).wf(),
            i < old(self).refresh_tokens().len(),
        ensures
            final(self).wf(),
            final(self).refresh_tokens() == old(self).refresh_tokens().update(
                i as int,
                RefreshTokenRow { expires_at, ..old(self).refresh_tokens()[i as int] },
            ),
            final(self).users() == old(self).users(),
            final(self).verification_tokens() == old(self).verification_tokens(),
            final(self).last_user_id() == old(self).last_user_id(),
            final(self).last_refresh_token_id() == old(self).last_refresh_token_id(),
            final(self).last_verification_token_id() == old(self).last_verification_token_id(),
    {
        let mut t = self.refresh_tokens[i].duplicate();
        t.expires_at = expires_at;
        self.refresh_tokens.set(i, t);
        proof {
            let s = self.refresh_tokens@;
            let o = old(self).refresh_tokens@;
            assert forall|a: int, b: int|
                0 <= a < s.len() && 0 <= b < s.len() && a != b implies (#[trigger] s[a]).id != (
                #[trigger] s[b]).id && s[a].token_hash@ != s[b].token_hash@ by {
                assert(s[a].id == o[a].id && s[a].token_hash@ == o[a].token_hash@);
                assert(s[b].id == o[b].id && s[b].token_hash@ == o[b].token_hash@);
            }
            assert forall|a: int| 0 <= a < s.len() implies 0 < (#[trigger] s[a]).id
                <= self.last_refresh_token_id by {
                assert(s[a].id == o[a].id);
            }
        }
    }

    /// `SELECT .. FROM email_verification_token WHERE token_hash = ?`: the
    /// position of the row.
    pub fn find_verification_token_by_hash(&self, token_hash: &str) -> (res: Option<usize>)
        ensures
            res matches Some(i) ==> i < self.verification_tokens().len()
                && self.verification_tokens()[i as int].token_hash@ == token_hash@,
            res is None ==> !verification_hash_in(self.verification_tokens(), token_hash@),
    {
        let mut i: usize = 0;
        while i < self.verification_tokens.len()
            invariant
                i <= self.verification_tokens@.len(),
                forall|k: int|
                    0 <= k < i ==> (#[trigger] self.verification_tokens@[k]).token_hash@ != token_hash@,
            decreases self.verification_tokens@.len() - i,
        {
            if str_equal(self.verification_tokens[i].token_hash.as_str(), token_hash) {
                return Some(i);
            }
            i = i + 1;
        }
        None
    }

    /// `INSERT INTO email_verification_token`, with the next id: fails when the
    /// hash is taken or the ids are exhausted.
    pub fn insert_verification_token(&mut self, user_id: i32, token_hash: String, expires_at: i64, now: i64) -> (res:
        Result<i32, StoreError>)
        requires
            old(self).wf(),
        ensures
            final(self).wf(),
            final(self).users() == old(self).users(),
            final(self).refresh_tokens() == old(self).refresh_tokens(),
            final(self).last_user_id() == old(self).last_user_id(),
            final(self).last_refresh_token_id() == old(self).last_refresh_token_id(),
            res is Ok <==> !verification_hash_in(old(self).verification_tokens(), token_hash@)
                && old(self).last_verification_token_id() < i32::MAX,
            res matches Ok(id) ==> {
                &&& id == old(self).last_verification_token_id() + 1
                &&& final(self).last_verification_token_id() == id
                &&& final(self).verification_tokens() == old(self).verification_tokens().push(
                    EmailVerificationTokenRow { id, user_id, token_hash, expires_at, created_at: now },
                )
            },
            res is Err ==> final(self).verification_tokens() == old(self).verification_tokens()
                && final(self).last_verification_token_id() == old(self).last_verification_token_id(),
    {
        if self.find_verification_token_by_hash(token_hash.as_str()).is_some() {
            return Err(StoreError::UniqueViolation);
        }
        if self.last_verification_token_id == i32::MAX {
            return Err(StoreError::KeyExhausted);
        }
        let id = self.last_verification_token_id + 1;
        self.verification_tokens.push(
            EmailVerificationTokenRow { id, user_id, token_hash, expires_at, created_at: now },
        );
        self.last_verification_token_id = id;
        Ok(id)
    }

    /// `DELETE FROM email_verification_token WHERE id = ?` for the row at a
    /// position.
    pub fn delete_verification_token_at(&mut self, i: usize)
        requires
            old(self).wf(),
            i < old(self).verification_tokens().len(),
        ensures
            final(self).wf(),
            final(self).verification_tokens() == old(self).verification_tokens().remove(i as int),
            final(self).users() == old(self).users(),
            final(self).refresh_tokens() == old(self).refresh_tokens(),
            final(self).last_user_id() == old(self).last_user_id(),
            final(self).last_refresh_token_id() == old(self).last_refresh_token_id(),
            final(self).last_verification_token_id() == old(self).last_verification_token_id(),
    {
        let _removed = self.verification_tokens.remove(i);
        proof {
            let s = self.verification_tokens@;
            let o = old(self).verification_tokens@;
            assert forall|a: int| 0 <= a < s.len() implies (#[trigger] s[a]) == (if a < i {
                o[a]
            } else {
                o[a + 1]
            }) by {}
            assert forall|a: int, b: int|
                0 <= a < s.len() && 0 <= b < s.len() && a != b implies (#[trigger] s[a]).id != (
                #[trigger] s[b]).id && s[a].token_hash@ != s[b].token_hash@ by {
                let a0 = if a < i { a } else { a + 1 };
                let b0 = if b < i { b } else { b + 1 };
                assert(s[a] == o[a0]);
                assert(s[b] == o[b0]);
            }
            assert forall|a: int| 0 <= a < s.len() implies 0 < (#[trigger] s[a]).id
                <= self.last_verification_token_id by {
                let a0 = if a < i { a } else { a + 1 };
                assert(s[a] == o[a0]);
            }
        }
    }

    /// `DELETE FROM email_verification_token WHERE user_id = ?`.
    pub fn delete_verification_tokens_of_user(&mut self, user_id: i32)
        requires
            old(self).wf(),
        ensures
            final(self).wf(),
            final(self).verification_tokens() == tokens_not_of_user(old(self).verification_tokens(), user_id),
            final(self).users() == old(self).users(),
            final(self).refresh_tokens() == old(self).refresh_tokens(),
            final(self).last_user_id() == old(self).last_user_id(),
            final(self).last_refresh_token_id() == old(self).last_refresh_token_id(),
            final(self).last_verification_token_id() == old(self).last_verification_token_id(),
    {
        let ghost old_tokens = self.verification_tokens@;
        let ghost pred = keeps_user_token(user_id);
        let mut kept: Vec<EmailVerificationTokenRow> = Vec::new();
        let ghost mut idx: Seq<int> = Seq::empty();
        let mut i: usize = 0;
        while i < self.verification_tokens.len()
            invariant
                i <= self.verification_tokens@.len(),
                self.verification_tokens@ == old_tokens,
                pred == keeps_user_token(user_id),
                kept@ == old_tokens.take(i as int).filter(pred),
                idx.len() == kept@.len(),
                forall|k: int|
                    0 <= k < idx.len() ==> 0 <= #[trigger] idx[k] < i && kept@[k] == old_tokens[idx[k]],
                forall|k1: int, k2: int| 0 <= k1 < k2 < idx.len() ==> #[trigger] idx[k1] < #[trigger] idx[k2],
            decreases self.verification_tokens@.len() - i,
        {
            proof {
                reveal(Seq::filter);
                assert(old_tokens.take(i + 1).drop_last() =~= old_tokens.take(i as int));
            }
            if self.verification_tokens[i].user_id != user_id {
                let t = self.verification_tokens[i].duplicate();
                kept.push(t);
                proof {
                    idx = idx.push(i as int);
                }
            }
            i = i + 1;
        }
        proof {
            assert(old_tokens.take(old_tokens.len() as int) =~= old_tokens);
        }
        self.verification_tokens = kept;
        proof {
            let s = self.verification_tokens@;
            assert forall|a: int, b: int|
                0 <= a < s.len() && 0 <= b < s.len() && a != b implies (#[trigger] s[a]).id != (
                #[trigger] s[b]).id && s[a].token_hash@ != s[b].token_hash@ by {
                assert(idx[a] != idx[b]);
                assert(old_tokens[idx[a]] == s[a]);
                assert(old_tokens[idx[b]] == s[b]);
            }
            assert forall|a: int| 0 <= a < s.len() implies 0 < (#[trigger] s[a]).id
                <= self.last_verification_token_id by {
                assert(old_tokens[idx[a]] == s[a]);
            }
        }
    }
}

} // verus!
