//! The employee-side tables (employees, refresh tokens, e-mail verification
//! tokens, invitations) as plain values, with the queries and updates that the
//! dashboard services run on them. Times are microseconds since the Unix epoch;
//! identifiers are the 128-bit values of UUIDs.

use vstd::prelude::*;

use crate::text::str_equal;

verus! {

/// A row of the `employee` table.
pub struct Employee {
    pub id: u128,
    pub email: String,
    pub password_hash: String,
    pub role: String,
    pub is_active: bool,
    pub email_verified_at: Option<i64>,
    pub created_at: i64,
    pub updated_at: i64,
}

/// A row of the `employee_refresh_token` table.
pub struct RefreshTokenRecord {
    pub id: u128,
    pub employee_id: u128,
    /// Hex text of the SHA-256 digest of the raw token.
    pub token_hash: String,
    pub expires_at: i64,
    pub revoked_at: Option<i64>,
    pub created_at: i64,
}

/// A row of the `employee_email_verification_token` table.
pub struct VerificationTokenRecord {
    pub id: u128,
    pub employee_id: u128,
    /// Hex text of the SHA-256 digest of the raw token.
    pub token_hash: String,
    pub expires_at: i64,
    pub created_at: i64,
}

/// A row of the invitation table.
pub struct Invitation {
    pub id: u128,
    pub email: String,
    pub role: String,
    /// Hex text of the SHA-256 digest of the raw invitation token.
    pub token_hash: String,
    pub invited_by: u128,
    pub expires_at: i64,
    pub accepted_at: Option<i64>,
    pub created_at: i64,
}

/// A constraint of the schema that an insert would break.
#[derive(Debug)]
pub enum StoreError {
    /// A primary key or a unique column already holds the value.
    UniqueViolation,
    /// The referenced employee does not exist.
    ForeignKeyViolation,
    /// An auto-increment key has reached its largest value.
    KeyExhausted,
}

impl Employee {
    /// A copy of the row.
    pub fn duplicate(&self) -> (res: Employee)
        ensures
            res == *self,
    {
        Employee {
            id: self.id,
            email: self.email.clone(),
            password_hash: self.password_hash.clone(),
            role: self.role.clone(),
            is_active: self.is_active,
            email_verified_at: self.email_verified_at,
            created_at: self.created_at,
            updated_at: self.updated_at,
        }
    }
}

impl RefreshTokenRecord {
    /// A copy of the row.
    pub fn duplicate(&self) -> (res: RefreshTokenRecord)
        ensures
            res == *self,
    {
        RefreshTokenRecord {
            id: self.id,
            employee_id: self.employee_id,
            token_hash: self.token_hash.clone(),
            expires_at: self.expires_at,
            revoked_at: self.revoked_at,
            created_at: self.created_at,
        }
    }
}

/// No two employees share an id or an e-mail address.
pub open spec fn employees_unique(s: Seq<Employee>) -> bool {
    forall|i: int, j: int|
        0 <= i < s.len() && 0 <= j < s.len() && i != j ==> (#[trigger] s[i]).id != (#[trigger] s[j]).id
            && s[i].email@ != s[j].email@
}

/// Whether an employee with this id exists.
pub open spec fn has_employee(s: Seq<Employee>, id: u128) -> bool {
    exists|i: int| 0 <= i < s.len() && #[trigger] s[i].id == id
}

/// Whether an employee with this e-mail address exists.
pub open spec fn has_email(s: Seq<Employee>, email: Seq<char>) -> bool {
    exists|i: int| 0 <= i < s.len() && #[trigger] s[i].email@ == email
}

/// No two refresh tokens share an id or a hash, and each belongs to an employee.
pub open spec fn refresh_tokens_ok(s: Seq<RefreshTokenRecord>, emps: Seq<Employee>) -> bool {
    &&& forall|i: int, j: int|
        0 <= i < s.len() && 0 <= j < s.len() && i != j ==> (#[trigger] s[i]).id != (#[trigger] s[j]).id
            && s[i].token_hash@ != s[j].token_hash@
    &&& forall|i: int| 0 <= i < s.len() ==> has_employee(emps, #[trigger] s[i].employee_id)
}

/// No two verification tokens share an id or a hash, and each belongs to an employee.
pub open spec fn verification_tokens_ok(s: Seq<VerificationTokenRecord>, emps: Seq<Employee>) -> bool {
    &&& forall|i: int, j: int|
        0 <= i < s.len() && 0 <= j < s.len() && i != j ==> (#[trigger] s[i]).id != (#[trigger] s[j]).id
            && s[i].token_hash@ != s[j].token_hash@
    &&& forall|i: int| 0 <= i < s.len() ==> has_employee(emps, #[trigger] s[i].employee_id)
}

/// No two invitations share an id or a hash.
pub open spec fn invitations_ok(s: Seq<Invitation>) -> bool {
    forall|i: int, j: int|
        0 <= i < s.len() && 0 <= j < s.len() && i != j ==> (#[trigger] s[i]).id != (#[trigger] s[j]).id
            && s[i].token_hash@ != s[j].token_hash@
}

/// Whether some row of the sequence has this hash.
pub open spec fn refresh_hash_taken(s: Seq<RefreshTokenRecord>, h: Seq<char>) -> bool {
    exists|i: int| 0 <= i < s.len() && #[trigger] s[i].token_hash@ == h
}

/// Whether some row of the sequence has this id.
pub open spec fn refresh_id_taken(s: Seq<RefreshTokenRecord>, id: u128) -> bool {
    exists|i: int| 0 <= i < s.len() && #[trigger] s[i].id == id
}

/// Whether some row of the sequence has this hash.
pub open spec fn verification_hash_taken(s: Seq<VerificationTokenRecord>, h: Seq<char>) -> bool {
    exists|i: int| 0 <= i < s.len() && #[trigger] s[i].token_hash@ == h
}

/// Whether some row of the sequence has this id.
pub open spec fn verification_id_taken(s: Seq<VerificationTokenRecord>, id: u128) -> bool {
    exists|i: int| 0 <= i < s.len() && #[trigger] s[i].id == id
}

/// Whether some invitation has this hash.
pub open spec fn invitation_hash_taken(s: Seq<Invitation>, h: Seq<char>) -> bool {
    exists|i: int| 0 <= i < s.len() && #[trigger] s[i].token_hash@ == h
}

/// Whether some invitation has this id.
pub open spec fn invitation_id_taken(s: Seq<Invitation>, id: u128) -> bool {
    exists|i: int| 0 <= i < s.len() && #[trigger] s[i].id == id
}

/// The refresh token row with `revoked_at` set to `now` if it was unset.
pub open spec fn revoked(t: RefreshTokenRecord, now: i64) -> RefreshTokenRecord {
    if t.revoked_at is None {
        RefreshTokenRecord { revoked_at: Some(now), ..t }
    } else {
        t
    }
}

/// The refresh tokens after revoking the one whose hash is `h`.
pub open spec fn revoke_by_hash(s: Seq<RefreshTokenRecord>, h: Seq<char>, now: i64) -> Seq<RefreshTokenRecord> {
    Seq::new(s.len(), |i: int| if s[i].token_hash@ == h { revoked(s[i], now) } else { s[i] })
}

/// The employees after marking every one as verified at `now`.
pub open spec fn all_verified(s: Seq<Employee>, now: i64) -> Seq<Employee> {
    Seq::new(s.len(), |i: int| Employee { email_verified_at: Some(now), ..s[i] })
}

/// Whether a verification token is kept when the employee's tokens go.
pub open spec fn keeps_token(employee_id: u128) -> spec_fn(VerificationTokenRecord) -> bool {
    |t: VerificationTokenRecord| t.employee_id != employee_id
}

/// The verification tokens that do not belong to the employee.
pub open spec fn tokens_without_employee(s: Seq<VerificationTokenRecord>, employee_id: u128) -> Seq<
    VerificationTokenRecord,
> {
    s.filter(keeps_token(employee_id))
}

/// Whether an invitation is kept when the pending ones for the address go.
pub open spec fn keeps_invitation(email: Seq<char>) -> spec_fn(Invitation) -> bool {
    |v: Invitation| !(v.email@ == email && v.accepted_at is None)
}

/// The invitations that are not pending for the e-mail address.
pub open spec fn invitations_without_pending(s: Seq<Invitation>, email: Seq<char>) -> Seq<Invitation> {
    s.filter(keeps_invitation(email))
}

/// Revoking leaves the ids and hashes of the refresh tokens as they were.
pub proof fn lemma_revoke_keeps_keys(s: Seq<RefreshTokenRecord>, h: Seq<char>, now: i64, id: u128, x: Seq<char>)
    ensures
        revoke_by_hash(s, h, now).len() == s.len(),
        refresh_id_taken(revoke_by_hash(s, h, now), id) == refresh_id_taken(s, id),
        refresh_hash_taken(revoke_by_hash(s, h, now), x) == refresh_hash_taken(s, x),
{
    let r = revoke_by_hash(s, h, now);
    if refresh_id_taken(s, id) {
        let k = choose|k: int| 0 <= k < s.len() && #[trigger] s[k].id == id;
        assert(r[k].id == id);
    }
    if refresh_id_taken(r, id) {
        let k = choose|k: int| 0 <= k < r.len() && #[trigger] r[k].id == id;
        assert(s[k].id == id);
    }
    if refresh_hash_taken(s, x) {
        let k = choose|k: int| 0 <= k < s.len() && #[trigger] s[k].token_hash@ == x;
        assert(r[k].token_hash@ == x);
    }
    if refresh_hash_taken(r, x) {
        let k = choose|k: int| 0 <= k < r.len() && #[trigger] r[k].token_hash@ == x;
        assert(s[k].token_hash@ == x);
    }
}

/// A verification token survives the deletion of another employee's tokens, and
/// the surviving ids and hashes are those of other employees' tokens.
pub proof fn lemma_tokens_without_employee(s: Seq<VerificationTokenRecord>, employee_id: u128, id: u128, x: Seq<char>)
    ensures
        verification_id_taken(tokens_without_employee(s, employee_id), id) <==> exists|k: int|
            0 <= k < s.len() && (#[trigger] s[k]).id == id && s[k].employee_id != employee_id,
        verification_hash_taken(tokens_without_employee(s, employee_id), x) <==> exists|k: int|
            0 <= k < s.len() && (#[trigger] s[k]).token_hash@ == x && s[k].employee_id != employee_id,
{
    broadcast use vstd::seq_lib::group_filter_ensures;
    let pred = keeps_token(employee_id);
    let f = s.filter(pred);
    if verification_id_taken(f, id) {
        let k = choose|k: int| 0 <= k < f.len() && #[trigger] f[k].id == id;
        assert(pred(f[k]));
        assert(f.contains(f[k]));
        s.lemma_filter_contains_rev(pred, f[k]);
        let m = choose|m: int| 0 <= m < s.len() && s[m] == f[k];
        assert(s[m].id == id);
    }
    if exists|k: int| 0 <= k < s.len() && (#[trigger] s[k]).id == id && s[k].employee_id != employee_id {
        let k = choose|k: int| 0 <= k < s.len() && (#[trigger] s[k]).id == id && s[k].employee_id != employee_id;
        assert(pred(s[k]));
        assert(f.contains(s[k]));
        let m = choose|m: int| 0 <= m < f.len() && f[m] == s[k];
        assert(f[m].id == id);
    }
    if verification_hash_taken(f, x) {
        let k = choose|k: int| 0 <= k < f.len() && #[trigger] f[k].token_hash@ == x;
        assert(pred(f[k]));
        assert(f.contains(f[k]));
        s.lemma_filter_contains_rev(pred, f[k]);
        let m = choose|m: int| 0 <= m < s.len() && s[m] == f[k];
        assert(s[m].token_hash@ == x);
    }
    if exists|k: int| 0 <= k < s.len() && (#[trigger] s[k]).token_hash@ == x && s[k].employee_id != employee_id {
        let k = choose|k: int| 0 <= k < s.len() && (#[trigger] s[k]).token_hash@ == x && s[k].employee_id != employee_id;
        assert(pred(s[k]));
        assert(f.contains(s[k]));
        let m = choose|m: int| 0 <= m < f.len() && f[m] == s[k];
        assert(f[m].token_hash@ == x);
    }
}

/// An invitation survives the deletion of the pending invitations for an address
/// exactly when it is not one of them.
pub proof fn lemma_invitations_without_pending(s: Seq<Invitation>, email: Seq<char>, id: u128, x: Seq<char>)
    ensures
        invitation_id_taken(invitations_without_pending(s, email), id) <==> exists|k: int|
            0 <= k < s.len() && (#[trigger] s[k]).id == id && !(s[k].email@ == email
                && s[k].accepted_at is None),
        invitation_hash_taken(invitations_without_pending(s, email), x) <==> exists|k: int|
            0 <= k < s.len() && (#[trigger] s[k]).token_hash@ == x && !(s[k].email@ == email
                && s[k].accepted_at is None),
{
    broadcast use vstd::seq_lib::group_filter_ensures;
    let pred = keeps_invitation(email);
    let f = s.filter(pred);
    if invitation_id_taken(f, id) {
        let k = choose|k: int| 0 <= k < f.len() && #[trigger] f[k].id == id;
        assert(pred(f[k]));
        assert(f.contains(f[k]));
        s.lemma_filter_contains_rev(pred, f[k]);
        let m = choose|m: int| 0 <= m < s.len() && s[m] == f[k];
        assert(s[m].id == id);
    }
    if exists|k: int| 0 <= k < s.len() && (#[trigger] s[k]).id == id && !(s[k].email@ == email && s[k].accepted_at is None) {
        let k = choose|k: int| 0 <= k < s.len() && (#[trigger] s[k]).id == id && !(s[k].email@ == email && s[k].accepted_at is None);
        assert(pred(s[k]));
        assert(f.contains(s[k]));
        let m = choose|m: int| 0 <= m < f.len() && f[m] == s[k];
        assert(f[m].id == id);
    }
    if invitation_hash_taken(f, x) {
        let k = choose|k: int| 0 <= k < f.len() && #[trigger] f[k].token_hash@ == x;
        assert(pred(f[k]));
        assert(f.contains(f[k]));
        s.lemma_filter_contains_rev(pred, f[k]);
        let m = choose|m: int| 0 <= m < s.len() && s[m] == f[k];
        assert(s[m].token_hash@ == x);
    }
    if exists|k: int| 0 <= k < s.len() && (#[trigger] s[k]).token_hash@ == x && !(s[k].email@ == email && s[k].accepted_at is None) {
        let k = choose|k: int| 0 <= k < s.len() && (#[trigger] s[k]).token_hash@ == x && !(s[k].email@ == email && s[k].accepted_at is None);
        assert(pred(s[k]));
        assert(f.contains(s[k]));
        let m = choose|m: int| 0 <= m < f.len() && f[m] == s[k];
        assert(f[m].token_hash@ == x);
    }
}

/// The employee-side tables.
pub struct Database {
    employees: Vec<Employee>,
    refresh_tokens: Vec<RefreshTokenRecord>,
    verification_tokens: Vec<VerificationTokenRecord>,
    invitations: Vec<Invitation>,
}

impl Database {
    /// The rows of the `employee` table, in insertion order.
    pub closed spec fn employees(&self) -> Seq<Employee> {
        self.employees@
    }

    /// The rows of the `employee_refresh_token` table, in insertion order.
    pub closed spec fn refresh_tokens(&self) -> Seq<RefreshTokenRecord> {
        self.refresh_tokens@
    }

    /// The rows of the `employee_email_verification_token` table, in insertion order.
    pub closed spec fn verification_tokens(&self) -> Seq<VerificationTokenRecord> {
        self.verification_tokens@
    }

    /// The rows of the invitation table, in insertion order.
    pub closed spec fn invitations(&self) -> Seq<Invitation> {
        self.invitations@
    }

    /// The schema's keys, unique columns and foreign keys hold.
    pub open spec fn wf(&self) -> bool {
        &&& employees_unique(self.employees())
        &&& refresh_tokens_ok(self.refresh_tokens(), self.employees())
        &&& verification_tokens_ok(self.verification_tokens(), self.employees())
        &&& invitations_ok(self.invitations())
    }

    /// An empty database.
    pub fn new() -> (res: Database)
        ensures
            res.wf(),
            res.employees() == Seq::<Employee>::empty(),
            res.refresh_tokens() == Seq::<RefreshTokenRecord>::empty(),
            res.verification_tokens() == Seq::<VerificationTokenRecord>::empty(),
            res.invitations() == Seq::<Invitation>::empty(),
    {
        Database {
            employees: Vec::new(),
            refresh_tokens: Vec::new(),
            verification_tokens: Vec::new(),
            invitations: Vec::new(),
        }
    }

    /// `SELECT COUNT(*) FROM employee`.
    pub fn count_employees(&self) -> (res: usize)
        ensures
            res == self.employees().len(),
    {
        self.employees.len()
    }

    /// The employee row at a position returned by a lookup.
    pub fn employee(&self, i: usize) -> (res: &Employee)
        requires
            i < self.employees().len(),
        ensures
            *res == self.employees()[i as int],
    {
        &self.employees[i]
    }

    /// The refresh token row at a position returned by a lookup.
    pub fn refresh_token(&self, i: usize) -> (res: &RefreshTokenRecord)
        requires
            i < self.refresh_tokens().len(),
        ensures
            *res == self.refresh_tokens()[i as int],
    {
        &self.refresh_tokens[i]
    }

    /// The verification token row at a position returned by a lookup.
    pub fn verification_token(&self, i: usize) -> (res: &VerificationTokenRecord)
        requires
            i < self.verification_tokens().len(),
        ensures
            *res == self.verification_tokens()[i as int],
    {
        &self.verification_tokens[i]
    }

    /// The invitation row at a position.
    pub fn invitation(&self, i: usize) -> (res: &Invitation)
        requires
            i < self.invitations().len(),
        ensures
            *res == self.invitations()[i as int],
    {
        &self.invitations[i]
    }

    /// `SELECT .. FROM employee WHERE email = ?`: the position of the row.
    pub fn find_employee_by_email(&self, email: &str) -> (res: Option<usize>)
        ensures
            res matches Some(i) ==> i < self.employees().len() && self.employees()[i as int].email@
                == email@,
            res is None ==> !has_email(self.employees(), email@),
    {
        let mut i: usize = 0;
        while i < self.employees.len()
            invariant
                i <= self.employees@.len(),
                forall|k: int| 0 <= k < i ==> (#[trigger] self.employees@[k]).email@ != email@,
            decreases self.employees@.len() - i,
        {
            if str_equal(self.employees[i].email.as_str(), email) {
                return Some(i);
            }
            i = i + 1;
        }
        None
    }

    /// `SELECT .. FROM employee WHERE id = ?`: the position of the row.
    pub fn find_employee_by_id(&self, id: u128) -> (res: Option<usize>)
        ensures
            res matches Some(i) ==> i < self.employees().len() && self.employees()[i as int].id == id,
            res is None ==> !has_employee(self.employees(), id),
    {
        let mut i: usize = 0;
        while i < self.employees.len()
            invariant
                i <= self.employees@.len(),
                forall|k: int| 0 <= k < i ==> (#[trigger] self.employees@[k]).id != id,
            decreases self.employees@.len() - i,
        {
            if self.employees[i].id == id {
                return Some(i);
            }
            i = i + 1;
        }
        None
    }

    /// `INSERT INTO employee`: fails when the id or the e-mail address is taken.
    pub fn insert_employee(&mut self, employee: Employee) -> (res: Result<(), StoreError>)
        requires
            old(self).wf(),
        ensures
            final(self).wf(),
            final(self).refresh_tokens() == old(self).refresh_tokens(),
            final(self).verification_tokens() == old(self).verification_tokens(),
            final(self).invitations() == old(self).invitations(),
            res is Ok <==> !has_employee(old(self).employees(), employee.id) && !has_email(
                old(self).employees(),
                employee.email@,
            ),
            res is Ok ==> final(self).employees() == old(self).employees().push(employee),
            res is Err ==> final(self).employees() == old(self).employees(),
    {
        if self.find_employee_by_id(employee.id).is_some() {
            return Err(StoreError::UniqueViolation);
        }
        if self.find_employee_by_email(employee.email.as_str()).is_some() {
            return Err(StoreError::UniqueViolation);
        }
        let ghost old_emps = self.employees@;
        self.employees.push(employee);
        proof {
            assert forall|i: int| 0 <= i < self.refresh_tokens@.len() implies has_employee(
                self.employees@,
                #[trigger] self.refresh_tokens@[i].employee_id,
            ) by {
                let k = choose|k: int| 0 <= k < old_emps.len() && #[trigger] old_emps[k].id
                    == self.refresh_tokens@[i].employee_id;
                assert(self.employees@[k] == old_emps[k]);
            }
            assert forall|i: int| 0 <= i < self.verification_tokens@.len() implies has_employee(
                self.employees@,
                #[trigger] self.verification_tokens@[i].employee_id,
            ) by {
                let k = choose|k: int| 0 <= k < old_emps.len() && #[trigger] old_emps[k].id
                    == self.verification_tokens@[i].employee_id;
                assert(self.employees@[k] == old_emps[k]);
            }
        }
        Ok(())
    }

    /// `UPDATE employee SET email_verified_at = ?` on every row.
    pub fn update_all_email_verified_at(&mut self, now: i64)
        requires
            old(self).wf(),
        ensures
            final(self).wf(),
            final(self).employees() == all_verified(old(self).employees(), now),
            final(self).refresh_tokens() == old(self).refresh_tokens(),
            final(self).verification_tokens() == old(self).verification_tokens(),
            final(self).invitations() == old(self).invitations(),
    {
        let ghost old_emps = self.employees@;
        let mut updated: Vec<Employee> = Vec::new();
        let mut i: usize = 0;
        while i < self.employees.len()
            invariant
                i <= self.employees@.len(),
                self.employees@ == old_emps,
                updated@ == all_verified(old_emps, now).take(i as int),
            decreases self.employees@.len() - i,
        {
            let mut e = self.employees[i].duplicate();
            e.email_verified_at = Some(now);
            updated.push(e);
            i = i + 1;
        }
        assert(updated@ == all_verified(old_emps, now));
        self.employees = updated;
        proof {
            assert forall|i: int| 0 <= i < self.refresh_tokens@.len() implies has_employee(
                self.employees@,
                #[trigger] self.refresh_tokens@[i].employee_id,
            ) by {
                let k = choose|k: int| 0 <= k < old_emps.len() && #[trigger] old_emps[k].id
                    == self.refresh_tokens@[i].employee_id;
                assert(self.employees@[k].id == old_emps[k].id);
            }
            assert forall|i: int| 0 <= i < self.verification_tokens@.len() implies has_employee(
                self.employees@,
                #[trigger] self.verification_tokens@[i].employee_id,
            ) by {
                let k = choose|k: int| 0 <= k < old_emps.len() && #[trigger] old_emps[k].id
                    == self.verification_tokens@[i].employee_id;
                assert(self.employees@[k].id == old_emps[k].id);
            }
        }
    }
    /// `SELECT .. FROM employee_refresh_token WHERE token_hash = ?`: the position of the row.
    pub fn find_refresh_token_by_hash(&self, token_hash: &str) -> (res: Option<usize>)
        ensures
            res matches Some(i) ==> i < self.refresh_tokens().len()
                && self.refresh_tokens()[i as int].token_hash@ == token_hash@,
            res is None ==> !refresh_hash_taken(self.refresh_tokens(), token_hash@),
    {
        let mut i: usize = 0;
        while i < self.refresh_tokens.len()
            invariant
                i <= self.refresh_tokens@.len(),
                forall|k: int| 0 <= k < i ==> (#[trigger] self.refresh_tokens@[k]).token_hash@ != token_hash@,
            decreases self.refresh_tokens@.len() - i,
        {
            if str_equal(self.refresh_tokens[i].token_hash.as_str(), token_hash) {
                return Some(i);
            }
            i = i + 1;
        }
        None
    }

    /// Whether a refresh token row has this id.
    pub fn refresh_id_in_use(&self, id: u128) -> (res: bool)
        ensures
            res == refresh_id_taken(self.refresh_tokens(), id),
    {
        let mut i: usize = 0;
        while i < self.refresh_tokens.len()
            invariant
                i <= self.refresh_tokens@.len(),
                forall|k: int| 0 <= k < i ==> (#[trigger] self.refresh_tokens@[k]).id != id,
            decreases self.refresh_tokens@.len() - i,
        {
            if self.refresh_tokens[i].id == id {
                return true;
            }
            i = i + 1;
        }
        false
    }

    /// `INSERT INTO employee_refresh_token`: fails when the id or the hash is
    /// taken or the employee does not exist.
    pub fn insert_refresh_token(&mut self, token: RefreshTokenRecord) -> (res: Result<(), StoreError>)
        requires
            old(self).wf(),
        ensures
            final(self).wf(),
            final(self).employees() == old(self).employees(),
            final(self).verification_tokens() == old(self).verification_tokens(),
            final(self).invitations() == old(self).invitations(),
            res is Ok <==> !refresh_id_taken(old(self).refresh_tokens(), token.id)
                && !refresh_hash_taken(old(self).refresh_tokens(), token.token_hash@)
                && has_employee(old(self).employees(), token.employee_id),
            res is Ok ==> final(self).refresh_tokens() == old(self).refresh_tokens().push(token),
            res is Err ==> final(self).refresh_tokens() == old(self).refresh_tokens(),
    {
        if self.find_employee_by_id(token.employee_id).is_none() {
            return Err(StoreError::ForeignKeyViolation);
        }
        if self.refresh_id_in_use(token.id) {
            return Err(StoreError::UniqueViolation);
        }
        if self.find_refresh_token_by_hash(token.token_hash.as_str()).is_some() {
            return Err(StoreError::UniqueViolation);
        }
        self.refresh_tokens.push(token);
        Ok(())
    }

    /// `UPDATE employee_refresh_token SET revoked_at = ? WHERE token_hash = ? AND
    /// revoked_at IS NULL`.
    pub fn revoke_refresh_token(&mut self, token_hash: &str, now: i64)
        requires
            old(self).wf(),
        ensures
            final(self).wf(),
            final(self).employees() == old(self).employees(),
            final(self).refresh_tokens() == revoke_by_hash(old(self).refresh_tokens(), token_hash@, now),
            final(self).verification_tokens() == old(self).verification_tokens(),
            final(self).invitations() == old(self).invitations(),
    {
        let ghost old_tokens = self.refresh_tokens@;
        match self.find_refresh_token_by_hash(token_hash) {
            None => {
                assert(self.refresh_tokens@ =~= revoke_by_hash(old_tokens, token_hash@, now));
            },
            Some(i) => {
                if self.refresh_tokens[i].revoked_at.is_none() {
                    let mut t = self.refresh_tokens[i].duplicate();
                    t.revoked_at = Some(now);
                    self.refresh_tokens.set(i, t);
                }
                assert forall|k: int| 0 <= k < old_tokens.len() && k != i implies (
                #[trigger] old_tokens[k]).token_hash@ != token_hash@ by {
                    assert(old_tokens[k].token_hash@ != old_tokens[i as int].token_hash@);
                }
                assert(self.refresh_tokens@ =~= revoke_by_hash(old_tokens, token_hash@, now));
            },
        }
    }

    /// `UPDATE employee_refresh_token SET expires_at = ? WHERE token_hash = ?`.
    pub fn set_refresh_token_expiry(&mut self, token_hash: &str, expires_at: i64) -> (res: usize)
        requires
            old(self).wf(),
        ensures
            final(self).wf(),
            final(self).employees() == old(self).employees(),
            final(self).verification_tokens() == old(self).verification_tokens(),
            final(self).invitations() == old(self).invitations(),
            final(self).refresh_tokens() == Seq::new(
                old(self).refresh_tokens().len(),
                |k: int|
                    if old(self).refresh_tokens()[k].token_hash@ == token_hash@ {
                        RefreshTokenRecord { expires_at, ..old(self).refresh_tokens()[k] }
                    } else {
                        old(self).refresh_tokens()[k]
                    },
            ),
            res == 1 <==> refresh_hash_taken(old(self).refresh_tokens(), token_hash@),
            res == 0 <==> !refresh_hash_taken(old(self).refresh_tokens(), token_hash@),
    {
        let ghost old_tokens = self.refresh_tokens@;
        let ghost target = Seq::new(
            old_tokens.len(),
            |k: int|
                if old_tokens[k].token_hash@ == token_hash@ {
                    RefreshTokenRecord { expires_at, ..old_tokens[k] }
                } else {
                    old_tokens[k]
                },
        );
        match self.find_refresh_token_by_hash(token_hash) {
            None => {
                assert(self.refresh_tokens@ =~= target);
                0
            },
            Some(i) => {
                let mut t = self.refresh_tokens[i].duplicate();
                t.expires_at = expires_at;
                self.refresh_tokens.set(i, t);
                assert forall|k: int| 0 <= k < old_tokens.len() && k != i implies (
                #[trigger] old_tokens[k]).token_hash@ != token_hash@ by {
                    assert(old_tokens[k].token_hash@ != old_tokens[i as int].token_hash@);
                }
                assert(self.refresh_tokens@ =~= target);
                1
            },
        }
    }

    /// `UPDATE employee SET is_active = ? WHERE email = ?`.
    pub fn set_active_by_email(&mut self, email: &str, is_active: bool) -> (res: usize)
        requires
            old(self).wf(),
        ensures
            final(self).wf(),
            final(self).employees() == Seq::new(
                old(self).employees().len(),
                |k: int|
                    if old(self).employees()[k].email@ == email@ {
                        Employee { is_active, ..old(self).employees()[k] }
                    } else {
                        old(self).employees()[k]
                    },
            ),
            final(self).refresh_tokens() == old(self).refresh_tokens(),
            final(self).verification_tokens() == old(self).verification_tokens(),
            final(self).invitations() == old(self).invitations(),
            res == 1 <==> has_email(old(self).employees(), email@),
            res == 0 <==> !has_email(old(self).employees(), email@),
    {
        let ghost old_emps = self.employees@;
        let ghost target = Seq::new(
            old_emps.len(),
            |k: int|
                if old_emps[k].email@ == email@ {
                    Employee { is_active, ..old_emps[k] }
                } else {
                    old_emps[k]
                },
        );
        match self.find_employee_by_email(email) {
            None => {
                assert(self.employees@ =~= target);
                0
            },
            Some(i) => {
                let mut e = self.employees[i].duplicate();
                e.is_active = is_active;
                self.employees.set(i, e);
                assert forall|k: int| 0 <= k < old_emps.len() && k != i implies (
                #[trigger] old_emps[k]).email@ != email@ by {
                    assert(old_emps[k].email@ != old_emps[i as int].email@);
                }
                assert(self.employees@ =~= target);
                proof {
                    assert forall|j: int| 0 <= j < self.refresh_tokens@.len() implies has_employee(
                        self.employees@,
                        #[trigger] self.refresh_tokens@[j].employee_id,
                    ) by {
                        let k = choose|k: int| 0 <= k < old_emps.len() && #[trigger] old_emps[k].id
                            == self.refresh_tokens@[j].employee_id;
                        assert(self.employees@[k].id == old_emps[k].id);
                    }
                    assert forall|j: int| 0 <= j < self.verification_tokens@.len() implies has_employee(
                        self.employees@,
                        #[trigger] self.verification_tokens@[j].employee_id,
                    ) by {
                        let k = choose|k: int| 0 <= k < old_emps.len() && #[trigger] old_emps[k].id
                            == self.verification_tokens@[j].employee_id;
                        assert(self.employees@[k].id == old_emps[k].id);
                    }
                }
                1
            },
        }
    }
    /// `SELECT .. FROM employee_email_verification_token WHERE token_hash = ?`:
    /// the position of the row.
    pub fn find_verification_token_by_hash(&self, token_hash: &str) -> (res: Option<usize>)
        ensures
            res matches Some(i) ==> i < self.verification_tokens().len()
                && self.verification_tokens()[i as int].token_hash@ == token_hash@,
            res is None ==> !verification_hash_taken(self.verification_tokens(), token_hash@),
    {
        let mut i: usize = 0;
        while i < self.verification_tokens.len()
            invariant
                i <= self.verification_tokens@.len(),
                forall|k: int|
                    0 <= k < i ==> (#[trigger] self.verification_tokens@[k]).token_hash@ != token_hash@,
            decreases self.verification_tokens@.len() - i,
        {
            if str_equal(self.verification_tokens[i].token_hash.as_str(), token_hash) {
                return Some(i);
            }
            i = i + 1;
        }
        None
    }

    /// `SELECT .. FROM employee_email_verification_token WHERE id = ?`: the
    /// position of the row.
    pub fn find_verification_token_by_id(&self, id: u128) -> (res: Option<usize>)
        ensures
            res matches Some(i) ==> i < self.verification_tokens().len()
                && self.verification_tokens()[i as int].id == id,
            res is None ==> !verification_id_taken(self.verification_tokens(), id),
    {
        let mut i: usize = 0;
        while i < self.verification_tokens.len()
            invariant
                i <= self.verification_tokens@.len(),
                forall|k: int| 0 <= k < i ==> (#[trigger] self.verification_tokens@[k]).id != id,
            decreases self.verification_tokens@.len() - i,
        {
            if self.verification_tokens[i].id == id {
                return Some(i);
            }
            i = i + 1;
        }
        None
    }

    /// Whether a verification token row has this id.
    fn verification_id_in_use(&self, id: u128) -> (res: bool)
        ensures
            res == verification_id_taken(self.verification_tokens(), id),
    {
        let mut i: usize = 0;
        while i < self.verification_tokens.len()
            invariant
                i <= self.verification_tokens@.len(),
                forall|k: int| 0 <= k < i ==> (#[trigger] self.verification_tokens@[k]).id != id,
            decreases self.verification_tokens@.len() - i,
        {
            if self.verification_tokens[i].id == id {
                return true;
            }
            i = i + 1;
        }
        false
    }

    /// `INSERT INTO employee_email_verification_token`: fails when the id or the
    /// hash is taken or the employee does not exist.
    pub fn insert_verification_token(&mut self, token: VerificationTokenRecord) -> (res: Result<
        (),
        StoreError,
    >)
        requires
            old(self).wf(),
        ensures
            final(self).wf(),
            final(self).employees() == old(self).employees(),
            final(self).refresh_tokens() == old(self).refresh_tokens(),
            final(self).invitations() == old(self).invitations(),
            res is Ok <==> !verification_id_taken(old(self).verification_tokens(), token.id)
                && !verification_hash_taken(old(self).verification_tokens(), token.token_hash@)
                && has_employee(old(self).employees(), token.employee_id),
            res is Ok ==> final(self).verification_tokens() == old(self).verification_tokens().push(
                token,
            ),
            res is Err ==> final(self).verification_tokens() == old(self).verification_tokens(),
    {
        if self.find_employee_by_id(token.employee_id).is_none() {
            return Err(StoreError::ForeignKeyViolation);
        }
        if self.verification_id_in_use(token.id) {
            return Err(StoreError::UniqueViolation);
        }
        if self.find_verification_token_by_hash(token.token_hash.as_str()).is_some() {
            return Err(StoreError::UniqueViolation);
        }
        let ghost old_tokens = self.verification_tokens@;
        self.verification_tokens.push(token);
        proof {
            let s = self.verification_tokens@;
            assert forall|a: int, b: int|
                0 <= a < s.len() && 0 <= b < s.len() && a != b implies (#[trigger] s[a]).id != (
                #[trigger] s[b]).id && s[a].token_hash@ != s[b].token_hash@ by {
                if a == old_tokens.len() {
                    assert(s[b] == old_tokens[b]);
                } else if b == old_tokens.len() {
                    assert(s[a] == old_tokens[a]);
                } else {
                    assert(s[a] == old_tokens[a]);
                    assert(s[b] == old_tokens[b]);
                }
            }
            assert forall|a: int| 0 <= a < s.len() implies has_employee(
                self.employees@,
                #[trigger] s[a].employee_id,
            ) by {
                if a < old_tokens.len() {
                    assert(s[a] == old_tokens[a]);
                }
            }
        }
        Ok(())
    }

    /// `DELETE FROM employee_email_verification_token`.
    pub fn delete_all_verification_tokens(&mut self)
        requires
            old(self).wf(),
        ensures
            final(self).wf(),
            final(self).employees() == old(self).employees(),
            final(self).refresh_tokens() == old(self).refresh_tokens(),
            final(self).verification_tokens() == Seq::<VerificationTokenRecord>::empty(),
            final(self).invitations() == old(self).invitations(),
    {
        self.verification_tokens = Vec::new();
    }

    /// `DELETE FROM employee_email_verification_token WHERE employee_id = ?`.
    pub fn delete_verification_tokens_for(&mut self, employee_id: u128)
        requires
            old(self).wf(),
        ensures
            final(self).wf(),
            final(self).employees() == old(self).employees(),
            final(self).refresh_tokens() == old(self).refresh_tokens(),
            final(self).verification_tokens() == tokens_without_employee(
                old(self).verification_tokens(),
                employee_id,
            ),
            forall|k: int|
                0 <= k < final(self).verification_tokens().len() ==> (#[trigger] final(self).verification_tokens()[k]).employee_id != employee_id,
            final(self).invitations() == old(self).invitations(),
    {
        let ghost old_tokens = self.verification_tokens@;
        let ghost pred = keeps_token(employee_id);
        let mut kept: Vec<VerificationTokenRecord> = Vec::new();
        let ghost mut idx: Seq<int> = Seq::empty();
        let mut i: usize = 0;
        while i < self.verification_tokens.len()
            invariant
                i <= self.verification_tokens@.len(),
                self.verification_tokens@ == old_tokens,
                pred == keeps_token(employee_id),
                kept@ == old_tokens.take(i as int).filter(pred),
                idx.len() == kept@.len(),
                forall|k: int|
                    0 <= k < idx.len() ==> 0 <= #[trigger] idx[k] < i && kept@[k] == old_tokens[idx[k]],
                forall|k1: int, k2: int| 0 <= k1 < k2 < idx.len() ==> #[trigger] idx[k1] < #[trigger] idx[k2],
                forall|k: int| 0 <= k < kept@.len() ==> (#[trigger] kept@[k]).employee_id != employee_id,
            decreases self.verification_tokens@.len() - i,
        {
            proof {
                reveal(Seq::filter);
                assert(old_tokens.take(i + 1).drop_last() =~= old_tokens.take(i as int));
            }
            if self.verification_tokens[i].employee_id != employee_id {
                let t = VerificationTokenRecord {
                    id: self.verification_tokens[i].id,
                    employee_id: self.verification_tokens[i].employee_id,
                    token_hash: self.verification_tokens[i].token_hash.clone(),
                    expires_at: self.verification_tokens[i].expires_at,
                    created_at: self.verification_tokens[i].created_at,
                };
                kept.push(t);
                proof {
                    idx = idx.push(i as int);
                }
            }
            i = i + 1;
        }
        proof {
            assert(old_tokens.take(old_tokens.len() as int) =~= old_tokens);
        }
        self.verification_tokens = kept;
        proof {
            let s = self.verification_tokens@;
            assert forall|a: int, b: int|
                0 <= a < s.len() && 0 <= b < s.len() && a != b implies (#[trigger] s[a]).id != (
                #[trigger] s[b]).id && s[a].token_hash@ != s[b].token_hash@ by {
                assert(idx[a] != idx[b]);
                assert(old_tokens[idx[a]] == s[a]);
                assert(old_tokens[idx[b]] == s[b]);
            }
            assert forall|a: int| 0 <= a < s.len() implies has_employee(
                self.employees@,
                #[trigger] s[a].employee_id,
            ) by {
                assert(old_tokens[idx[a]] == s[a]);
            }
        }
    }

    /// `UPDATE employee SET email_verified_at = ?, updated_at = ? WHERE id = ?` for
    /// the row at a position.
    pub fn set_email_verified(&mut self, i: usize, now: i64)
        requires
            old(self).wf(),
            i < old(self).employees().len(),
        ensures
            final(self).wf(),
            final(self).employees() == old(self).employees().update(
                i as int,
                Employee {
                    email_verified_at: Some(now),
                    updated_at: now,
                    ..old(self).employees()[i as int]
                },
            ),
            final(self).refresh_tokens() == old(self).refresh_tokens(),
            final(self).verification_tokens() == old(self).verification_tokens(),
            final(self).invitations() == old(self).invitations(),
    {
        let ghost old_emps = self.employees@;
        let mut e = self.employees[i].duplicate();
        e.email_verified_at = Some(now);
        e.updated_at = now;
        self.employees.set(i, e);
        proof {
            assert forall|j: int| 0 <= j < self.refresh_tokens@.len() implies has_employee(
                self.employees@,
                #[trigger] self.refresh_tokens@[j].employee_id,
            ) by {
                let k = choose|k: int| 0 <= k < old_emps.len() && #[trigger] old_emps[k].id
                    == self.refresh_tokens@[j].employee_id;
                assert(self.employees@[k].id == old_emps[k].id);
            }
            assert forall|j: int| 0 <= j < self.verification_tokens@.len() implies has_employee(
                self.employees@,
                #[trigger] self.verification_tokens@[j].employee_id,
            ) by {
                let k = choose|k: int| 0 <= k < old_emps.len() && #[trigger] old_emps[k].id
                    == self.verification_tokens@[j].employee_id;
                assert(self.employees@[k].id == old_emps[k].id);
            }
        }
    }
    /// `SELECT .. FROM invitation WHERE email = ? AND accepted_at IS NULL`: the
    /// position of a pending invitation.
    pub fn find_pending_invitation_by_email(&self, email: &str) -> (res: Option<usize>)
        ensures
            res matches Some(i) ==> i < self.invitations().len() && self.invitations()[i as int].email@
                == email@ && self.invitations()[i as int].accepted_at is None,
            res is None ==> forall|k: int|
                0 <= k < self.invitations().len() ==> !((#[trigger] self.invitations()[k]).email@
                    == email@ && self.invitations()[k].accepted_at is None),
    {
        let mut i: usize = 0;
        while i < self.invitations.len()
            invariant
                i <= self.invitations@.len(),
                forall|k: int|
                    0 <= k < i ==> !((#[trigger] self.invitations@[k]).email@ == email@
                        && self.invitations@[k].accepted_at is None),
            decreases self.invitations@.len() - i,
        {
            if self.invitations[i].accepted_at.is_none() && str_equal(
                self.invitations[i].email.as_str(),
                email,
            ) {
                return Some(i);
            }
            i = i + 1;
        }
        None
    }

    /// `DELETE FROM invitation WHERE email = ? AND accepted_at IS NULL`.
    pub fn delete_pending_invitations_by_email(&mut self, email: &str)
        requires
            old(self).wf(),
        ensures
            final(self).wf(),
            final(self).employees() == old(self).employees(),
            final(self).refresh_tokens() == old(self).refresh_tokens(),
            final(self).verification_tokens() == old(self).verification_tokens(),
            final(self).invitations() == invitations_without_pending(old(self).invitations(), email@),
    {
        let ghost old_invs = self.invitations@;
        let ghost pred = keeps_invitation(email@);
        let mut kept: Vec<Invitation> = Vec::new();
        let ghost mut idx: Seq<int> = Seq::empty();
        let mut i: usize = 0;
        while i < self.invitations.len()
            invariant
                i <= self.invitations@.len(),
                self.invitations@ == old_invs,
                pred == keeps_invitation(email@),
                kept@ == old_invs.take(i as int).filter(pred),
                idx.len() == kept@.len(),
                forall|k: int|
                    0 <= k < idx.len() ==> 0 <= #[trigger] idx[k] < i && kept@[k] == old_invs[idx[k]],
                forall|k1: int, k2: int| 0 <= k1 < k2 < idx.len() ==> #[trigger] idx[k1] < #[trigger] idx[k2],
            decreases self.invitations@.len() - i,
        {
            proof {
                reveal(Seq::filter);
                assert(old_invs.take(i + 1).drop_last() =~= old_invs.take(i as int));
            }
            let pending = self.invitations[i].accepted_at.is_none() && str_equal(
                self.invitations[i].email.as_str(),
                email,
            );
            if !pending {
                let v = Invitation {
                    id: self.invitations[i].id,
                    email: self.invitations[i].email.clone(),
                    role: self.invitations[i].role.clone(),
                    token_hash: self.invitations[i].token_hash.clone(),
                    invited_by: self.invitations[i].invited_by,
                    expires_at: self.invitations[i].expires_at,
                    accepted_at: self.invitations[i].accepted_at,
                    created_at: self.invitations[i].created_at,
                };
                kept.push(v);
                proof {
                    idx = idx.push(i as int);
                }
            }
            i = i + 1;
        }
        proof {
            assert(old_invs.take(old_invs.len() as int) =~= old_invs);
        }
        self.invitations = kept;
        proof {
            let s = self.invitations@;
            assert forall|a: int, b: int|
                0 <= a < s.len() && 0 <= b < s.len() && a != b implies (#[trigger] s[a]).id != (
                #[trigger] s[b]).id && s[a].token_hash@ != s[b].token_hash@ by {
                assert(idx[a] != idx[b]);
                assert(old_invs[idx[a]] == s[a]);
                assert(old_invs[idx[b]] == s[b]);
            }
        }
    }

    /// `SELECT .. FROM invitation WHERE id = ?`: the position of the row.
    pub fn find_invitation_by_id(&self, id: u128) -> (res: Option<usize>)
        ensures
            res matches Some(i) ==> i < self.invitations().len() && self.invitations()[i as int].id == id,
            res is None ==> !invitation_id_taken(self.invitations(), id),
    {
        let mut i: usize = 0;
        while i < self.invitations.len()
            invariant
                i <= self.invitations@.len(),
                forall|k: int| 0 <= k < i ==> (#[trigger] self.invitations@[k]).id != id,
            decreases self.invitations@.len() - i,
        {
            if self.invitations[i].id == id {
                return Some(i);
            }
            i = i + 1;
        }
        None
    }

    /// `SELECT .. FROM invitation WHERE token_hash = ?`: the position of the row.
    pub fn find_invitation_by_hash(&self, token_hash: &str) -> (res: Option<usize>)
        ensures
            res matches Some(i) ==> i < self.invitations().len()
                && self.invitations()[i as int].token_hash@ == token_hash@,
            res is None ==> !invitation_hash_taken(self.invitations(), token_hash@),
    {
        let mut i: usize = 0;
        while i < self.invitations.len()
            invariant
                i <= self.invitations@.len(),
                forall|k: int| 0 <= k < i ==> (#[trigger] self.invitations@[k]).token_hash@ != token_hash@,
            decreases self.invitations@.len() - i,
        {
            if str_equal(self.invitations[i].token_hash.as_str(), token_hash) {
                return Some(i);
            }
            i = i + 1;
        }
        None
    }

    /// `INSERT INTO invitation`: fails when the id or the hash is taken.
    pub fn insert_invitation(&mut self, invitation: Invitation) -> (res: Result<(), StoreError>)
        requires
            old(self).wf(),
        ensures
            final(self).wf(),
            final(self).employees() == old(self).employees(),
            final(self).refresh_tokens() == old(self).refresh_tokens(),
            final(self).verification_tokens() == old(self).verification_tokens(),
            res is Ok <==> !invitation_id_taken(old(self).invitations(), invitation.id)
                && !invitation_hash_taken(old(self).invitations(), invitation.token_hash@),
            res is Ok ==> final(self).invitations() == old(self).invitations().push(invitation),
            res is Err ==> final(self).invitations() == old(self).invitations(),
    {
        if self.find_invitation_by_id(invitation.id).is_some() {
            return Err(StoreError::UniqueViolation);
        }
        if self.find_invitation_by_hash(invitation.token_hash.as_str()).is_some() {
            return Err(StoreError::UniqueViolation);
        }
        self.invitations.push(invitation);
        Ok(())
    }
}

} // verus!
