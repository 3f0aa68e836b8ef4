use vstd::prelude::*;
use vstd::utf8::encode_utf8;

use super::service::{DashboardAuthServiceError, LoginResult};
use crate::auth::jwt::{self, access_token_spec, encode_outcome_ok, jwt_expiry};
use crate::auth::password::{self, bcrypt_verify_outcome, made_at_cost};
use crate::auth::token::{self, hex_decode_spec, hex_encode_spec, is_hex_text, token_hash_spec};
use crate::clock;
use crate::repositories::{
    all_verified, has_email, has_employee, lemma_revoke_keeps_keys, lemma_tokens_without_employee,
    refresh_hash_taken, refresh_id_taken, revoke_by_hash, tokens_without_employee,
    verification_hash_taken, verification_id_taken, Database, Employee, RefreshTokenRecord,
    StoreError, VerificationTokenRecord,
};
use crate::text::{owned, to_chars};

verus! {

/// The largest TTL, in seconds, that the service accepts for its tokens (about
/// 250,000 years, below the range of `chrono`'s dates).
pub const MAX_TTL_SECONDS: u64 = 8_000_000_000_000;

/// The time `ttl_seconds` after `now` (both in microseconds since the epoch),
/// saturating at the largest representable time.
pub open spec fn expiry_after(now: i64, ttl_seconds: u64) -> i64 {
    if now + ttl_seconds * 1_000_000 > i64::MAX {
        i64::MAX
    } else {
        (now + ttl_seconds * 1_000_000) as i64
    }
}

/// Computes `expiry_after`.
pub fn expiry_at(now: i64, ttl_seconds: u64) -> (res: i64)
    requires
        ttl_seconds <= MAX_TTL_SECONDS,
    ensures
        res == expiry_after(now, ttl_seconds),
{
    let d: i64 = (ttl_seconds * 1_000_000) as i64;
    match now.checked_add(d) {
        Some(v) => v,
        None => i64::MAX,
    }
}

/// Configuration for JWT and refresh token generation.
pub struct TokenConfig {
    /// Secret key used to sign JWTs.
    pub jwt_secret: String,
    /// Access token time-to-live in seconds.
    pub access_token_ttl: u64,
    /// Refresh token time-to-live in seconds.
    pub refresh_token_ttl: u64,
}

/// Implementation of the dashboard authentication service over the employee
/// tables.
pub struct DashboardAuthServiceImpl {
    /// The employee-side tables.
    pub pool: Database,
    /// bcrypt cost factor for password hashing.
    pub bcrypt_cost: u32,
    /// Email verification token TTL in seconds.
    pub email_verification_token_ttl: u64,
    /// Token generation configuration.
    pub token_config: TokenConfig,
    /// Application name for e-mail subjects.
    pub app_name: String,
    /// Base URL for links in e-mails.
    pub base_url: String,
}

/// The tables are the same.
pub open spec fn same_tables(a: Database, b: Database) -> bool {
    &&& a.employees() == b.employees()
    &&& a.refresh_tokens() == b.refresh_tokens()
    &&& a.verification_tokens() == b.verification_tokens()
    &&& a.invitations() == b.invitations()
}

/// The HMAC secret: the UTF-8 bytes of the configured text.
pub open spec fn secret_bytes(cfg: TokenConfig) -> Seq<u8> {
    encode_utf8(cfg.jwt_secret@)
}

/// A refresh token row as issued to `employee_id` for the raw token `raw` at `now`.
pub open spec fn issued_refresh_record(
    t: RefreshTokenRecord,
    employee_id: u128,
    raw: Seq<u8>,
    now: i64,
    ttl: u64,
) -> bool {
    &&& t.employee_id == employee_id
    &&& t.token_hash@ == token_hash_spec(raw)
    &&& t.expires_at == expiry_after(now, ttl)
    &&& t.revoked_at is None
    &&& t.created_at == now
}

/// What issuing an access and a refresh token at `now` does, the refresh table
/// standing at `base` before the new row goes in: either the access token cannot
/// be encoded, or both tokens are returned and the new row is appended, or the
/// insert is refused (only when the fresh id or hash is already taken).
pub open spec fn issued_tokens(
    old: Database,
    new: Database,
    cfg: TokenConfig,
    base: Seq<RefreshTokenRecord>,
    employee_id: u128,
    role: Seq<char>,
    now: i64,
    res: Result<LoginResult, DashboardAuthServiceError>,
) -> bool {
    if !encode_outcome_ok(now, cfg.access_token_ttl) {
        res matches Err(DashboardAuthServiceError::Jwt(_))
    } else {
        &&& base.len() == 0 ==> res is Ok
        &&& (res matches Err(e) ==> e is Database)
        &&& (res matches Ok(r) ==> {
            &&& r.access_token@.len() > 0
            &&& r.access_token@ == access_token_spec(
                employee_id,
                role,
                secret_bytes(cfg),
                jwt_expiry(now, cfg.access_token_ttl) as usize,
            )
            &&& r.expires_in == cfg.access_token_ttl
            &&& r.refresh_token@.len() == 32
            &&& new.employees() == old.employees()
            &&& new.verification_tokens() == old.verification_tokens()
            &&& new.invitations() == old.invitations()
            &&& new.refresh_tokens().len() == base.len() + 1
            &&& new.refresh_tokens().drop_last() == base
            &&& issued_refresh_record(
                new.refresh_tokens().last(),
                employee_id,
                r.refresh_token@,
                now,
                cfg.refresh_token_ttl,
            )
        })
    }
}

/// Neither the id nor the hash of the drawn bytes is taken by a refresh token row.
pub open spec fn fresh_refresh(s: Seq<RefreshTokenRecord>, raw: Seq<u8>, id: u128) -> bool {
    !refresh_id_taken(s, id) && !refresh_hash_taken(s, token_hash_spec(raw))
}

/// How issuing tokens from the drawn bytes `raw` and id `id` ends: it succeeds
/// exactly when they are fresh in `base`, and then returns those bytes and
/// stores a row with that id.
pub open spec fn issue_drawn(
    base: Seq<RefreshTokenRecord>,
    new: Database,
    raw: Seq<u8>,
    id: u128,
    res: Result<LoginResult, DashboardAuthServiceError>,
) -> bool {
    &&& res is Ok <==> fresh_refresh(base, raw, id)
    &&& res matches Ok(r) ==> r.refresh_token@ == raw && new.refresh_tokens().last().id == id
}

/// What `login` does with drawn refresh token bytes and id once the credentials
/// and the account pass.
pub open spec fn login_drawn(
    old: Database,
    new: Database,
    cfg: TokenConfig,
    email: Seq<char>,
    password: Seq<char>,
    now: i64,
    raw: Seq<u8>,
    id: u128,
    res: Result<LoginResult, DashboardAuthServiceError>,
) -> bool {
    forall|j: int|
        0 <= j < old.employees().len() && (#[trigger] old.employees()[j]).email@ == email ==> (
        old.employees()[j].is_active && old.employees()[j].email_verified_at is Some
            && bcrypt_verify_outcome(password, old.employees()[j].password_hash@) == Some(true)
            && encode_outcome_ok(now, cfg.access_token_ttl) ==> issue_drawn(
            old.refresh_tokens(),
            new,
            raw,
            id,
            res,
        ))
}

/// What `refresh` does with drawn refresh token bytes and id once the presented
/// token and the account pass.
pub open spec fn refresh_drawn(
    old: Database,
    new: Database,
    cfg: TokenConfig,
    token: Seq<char>,
    now: i64,
    raw: Seq<u8>,
    id: u128,
    res: Result<LoginResult, DashboardAuthServiceError>,
) -> bool {
    is_hex_text(token) ==> forall|i: int|
        0 <= i < old.refresh_tokens().len() && (#[trigger] old.refresh_tokens()[i]).token_hash@
            == presented_hash(token) ==> (old.refresh_tokens()[i].revoked_at is None
            && !(old.refresh_tokens()[i].expires_at < now) ==> forall|j: int|
            0 <= j < old.employees().len() && (#[trigger] old.employees()[j]).id
                == old.refresh_tokens()[i].employee_id ==> (old.employees()[j].is_active
                && encode_outcome_ok(now, cfg.access_token_ttl) ==> issue_drawn(
                old.refresh_tokens(),
                new,
                raw,
                id,
                res,
            )))
}

/// What `login` does for the employee `e` whose e-mail address was given.
pub open spec fn login_case(
    old: Database,
    new: Database,
    cfg: TokenConfig,
    e: Employee,
    password: Seq<char>,
    now: i64,
    res: Result<LoginResult, DashboardAuthServiceError>,
) -> bool {
    if !e.is_active {
        res matches Err(DashboardAuthServiceError::AccountInactive)
    } else if e.email_verified_at is None {
        res matches Err(DashboardAuthServiceError::EmailNotVerified)
    } else {
        match bcrypt_verify_outcome(password, e.password_hash@) {
            None => res matches Err(DashboardAuthServiceError::PasswordHashing(_)),
            Some(false) => res matches Err(DashboardAuthServiceError::InvalidCredentials),
            Some(true) => issued_tokens(old, new, cfg, old.refresh_tokens(), e.id, e.role@, now, res),
        }
    }
}

/// The contract of `login` at the clock reading `now`.
pub open spec fn login_spec(
    old: Database,
    new: Database,
    cfg: TokenConfig,
    email: Seq<char>,
    password: Seq<char>,
    now: i64,
    res: Result<LoginResult, DashboardAuthServiceError>,
) -> bool {
    &&& res is Err ==> same_tables(old, new)
    &&& !has_email(old.employees(), email) ==> (res matches Err(
        DashboardAuthServiceError::InvalidCredentials,
    ))
    &&& forall|i: int|
        0 <= i < old.employees().len() && (#[trigger] old.employees()[i]).email@ == email
            ==> login_case(old, new, cfg, old.employees()[i], password, now, res)
}

/// The state after a successful registration of the owner: one employee with the
/// given e-mail address and a hash of the password, active and unverified, and one
/// new e-mail verification token for them.
pub open spec fn registered_owner(
    old: Database,
    new: Database,
    email: Seq<char>,
    password: Seq<char>,
    cost: u32,
    ttl: u64,
) -> bool {
    &&& new.employees().len() == 1
    &&& new.employees()[0].email@ == email
    &&& new.employees()[0].role@ == "owner"@
    &&& new.employees()[0].is_active
    &&& new.employees()[0].email_verified_at is None
    &&& new.employees()[0].updated_at == new.employees()[0].created_at
    &&& bcrypt_verify_outcome(password, new.employees()[0].password_hash@) == Some(true)
    &&& made_at_cost(new.employees()[0].password_hash@, cost as int)
    &&& new.refresh_tokens() == old.refresh_tokens()
    &&& new.invitations() == old.invitations()
    &&& new.verification_tokens().len() == old.verification_tokens().len() + 1
    &&& new.verification_tokens().drop_last() == old.verification_tokens()
    &&& new.verification_tokens().last().employee_id == new.employees()[0].id
    &&& new.verification_tokens().last().created_at == new.employees()[0].created_at
    &&& new.verification_tokens().last().expires_at == expiry_after(
        new.employees()[0].created_at,
        ttl,
    )
}

/// The contract of `register`.
pub open spec fn register_spec(
    old: Database,
    new: Database,
    cost: u32,
    ttl: u64,
    email: Seq<char>,
    password: Seq<char>,
    res: Result<(), DashboardAuthServiceError>,
) -> bool {
    &&& res is Err ==> same_tables(old, new)
    &&& password.len() < 8 ==> (res matches Err(DashboardAuthServiceError::WeakPassword))
    &&& password.len() >= 8 && old.employees().len() > 0 ==> (res matches Err(
        DashboardAuthServiceError::OwnerAlreadyExists,
    ))
    &&& password.len() >= 8 && old.employees().len() == 0 ==> {
        &&& (cost < 4 || cost > 31) ==> (res matches Err(DashboardAuthServiceError::PasswordHashing(_)))
        &&& (res matches Err(e) ==> e is PasswordHashing)
        &&& res is Ok ==> registered_owner(old, new, email, password, cost, ttl)
    }
}

/// The contract of `verify_all` at the clock reading `now`.
pub open spec fn verify_all_spec(old: Database, new: Database, now: i64) -> bool {
    &&& new.employees() == all_verified(old.employees(), now)
    &&& new.verification_tokens() == Seq::<VerificationTokenRecord>::empty()
    &&& new.refresh_tokens() == old.refresh_tokens()
    &&& new.invitations() == old.invitations()
}

/// The stored hash of a presented hex token: SHA-256 of the decoded bytes, in hex.
pub open spec fn presented_hash(token: Seq<char>) -> Seq<char> {
    token_hash_spec(hex_decode_spec(token))
}

/// The contract of `logout` at the clock reading `now`.
pub open spec fn logout_spec(
    old: Database,
    new: Database,
    token: Seq<char>,
    now: i64,
    res: Result<(), DashboardAuthServiceError>,
) -> bool {
    if !is_hex_text(token) {
        &&& res matches Err(DashboardAuthServiceError::InvalidCredentials)
        &&& same_tables(old, new)
    } else {
        &&& res is Ok
        &&& new.refresh_tokens() == revoke_by_hash(old.refresh_tokens(), presented_hash(token), now)
        &&& new.employees() == old.employees()
        &&& new.verification_tokens() == old.verification_tokens()
        &&& new.invitations() == old.invitations()
    }
}

/// What `refresh` does for the stored refresh token `t` that the presented token
/// hashes to.
pub open spec fn refresh_case(
    old: Database,
    new: Database,
    cfg: TokenConfig,
    t: RefreshTokenRecord,
    now: i64,
    res: Result<LoginResult, DashboardAuthServiceError>,
) -> bool {
    if t.revoked_at is Some {
        res matches Err(DashboardAuthServiceError::InvalidCredentials)
    } else if t.expires_at < now {
        res matches Err(DashboardAuthServiceError::InvalidCredentials)
    } else if !has_employee(old.employees(), t.employee_id) {
        res matches Err(DashboardAuthServiceError::InvalidCredentials)
    } else {
        forall|j: int|
            0 <= j < old.employees().len() && (#[trigger] old.employees()[j]).id == t.employee_id
                ==> if !old.employees()[j].is_active {
                res matches Err(DashboardAuthServiceError::AccountInactive)
            } else {
                issued_tokens(
                    old,
                    new,
                    cfg,
                    revoke_by_hash(old.refresh_tokens(), t.token_hash@, now),
                    t.employee_id,
                    old.employees()[j].role@,
                    now,
                    res,
                )
            }
    }
}

/// The contract of `refresh` at the clock reading `now`.
pub open spec fn refresh_spec(
    old: Database,
    new: Database,
    cfg: TokenConfig,
    token: Seq<char>,
    now: i64,
    res: Result<LoginResult, DashboardAuthServiceError>,
) -> bool {
    &&& res is Err ==> same_tables(old, new)
    &&& !is_hex_text(token) ==> (res matches Err(DashboardAuthServiceError::InvalidCredentials))
    &&& is_hex_text(token) && !refresh_hash_taken(old.refresh_tokens(), presented_hash(token)) ==> (
    res matches Err(DashboardAuthServiceError::InvalidCredentials))
    &&& is_hex_text(token) ==> forall|i: int|
        0 <= i < old.refresh_tokens().len() && (#[trigger] old.refresh_tokens()[i]).token_hash@
            == presented_hash(token) ==> refresh_case(old, new, cfg, old.refresh_tokens()[i], now, res)
}

/// What `verify_email` does for the stored verification token `t` that the
/// presented token hashes to.
pub open spec fn verify_email_case(
    old: Database,
    new: Database,
    t: VerificationTokenRecord,
    now: i64,
    res: Result<(), DashboardAuthServiceError>,
) -> bool {
    if t.expires_at < now {
        res matches Err(DashboardAuthServiceError::InvalidVerificationToken)
    } else if !has_employee(old.employees(), t.employee_id) {
        res matches Err(DashboardAuthServiceError::AccountNotFound)
    } else {
        forall|j: int|
            0 <= j < old.employees().len() && (#[trigger] old.employees()[j]).id == t.employee_id
                ==> if old.employees()[j].email_verified_at is Some {
                res matches Err(DashboardAuthServiceError::EmailAlreadyVerified)
            } else {
                &&& res is Ok
                &&& new.employees() == old.employees().update(
                    j,
                    Employee {
                        email_verified_at: Some(now),
                        updated_at: now,
                        ..old.employees()[j]
                    },
                )
                &&& new.verification_tokens() == tokens_without_employee(
                    old.verification_tokens(),
                    t.employee_id,
                )
                &&& new.refresh_tokens() == old.refresh_tokens()
                &&& new.invitations() == old.invitations()
            }
    }
}

/// The contract of `verify_email` at the clock reading `now`.
pub open spec fn verify_email_spec(
    old: Database,
    new: Database,
    token: Seq<char>,
    now: i64,
    res: Result<(), DashboardAuthServiceError>,
) -> bool {
    &&& res is Err ==> same_tables(old, new)
    &&& !is_hex_text(token) ==> (res matches Err(DashboardAuthServiceError::InvalidVerificationToken))
    &&& is_hex_text(token) && !verification_hash_taken(
        old.verification_tokens(),
        presented_hash(token),
    ) ==> (res matches Err(DashboardAuthServiceError::InvalidVerificationToken))
    &&& is_hex_text(token) ==> forall|i: int|
        0 <= i < old.verification_tokens().len() && (#[trigger] old.verification_tokens()[i]).token_hash@
            == presented_hash(token) ==> verify_email_case(
            old,
            new,
            old.verification_tokens()[i],
            now,
            res,
        )
}

/// A verification token row as issued to `employee_id` for the raw token `raw` at `now`.
pub open spec fn issued_verification_record(
    t: VerificationTokenRecord,
    employee_id: u128,
    raw: Seq<u8>,
    now: i64,
    ttl: u64,
) -> bool {
    &&& t.employee_id == employee_id
    &&& t.token_hash@ == token_hash_spec(raw)
    &&& t.expires_at == expiry_after(now, ttl)
    &&& t.created_at == now
}

/// What `resend_verification_email` does for the employee `e` with the given address.
pub open spec fn resend_case(
    old: Database,
    new: Database,
    ttl: u64,
    e: Employee,
    now: i64,
    res: Result<String, DashboardAuthServiceError>,
) -> bool {
    if e.email_verified_at is Some {
        res matches Err(DashboardAuthServiceError::EmailAlreadyVerified)
    } else {
        let kept = tokens_without_employee(old.verification_tokens(), e.id);
        &&& kept.len() == 0 ==> res is Ok
        &&& (res matches Err(x) ==> x is Database)
        &&& (res matches Ok(token_hex) ==> {
            &&& is_hex_text(token_hex@)
            &&& token_hex@ == hex_encode_spec(hex_decode_spec(token_hex@))
            &&& token_hex@.len() == 64
            &&& new.verification_tokens().len() == kept.len() + 1
            &&& new.verification_tokens().drop_last() == kept
            &&& issued_verification_record(
                new.verification_tokens().last(),
                e.id,
                hex_decode_spec(token_hex@),
                now,
                ttl,
            )
            &&& new.employees() == old.employees()
            &&& new.refresh_tokens() == old.refresh_tokens()
            &&& new.invitations() == old.invitations()
        })
    }
}

/// What `resend_verification_email` does with drawn token bytes and id for an
/// unverified employee: it succeeds exactly when neither the id nor the hash of
/// the bytes is taken by a token of another employee, and then returns the
/// bytes in hex and stores a row with that id.
pub open spec fn resend_drawn(
    old: Database,
    new: Database,
    email: Seq<char>,
    raw: Seq<u8>,
    id: u128,
    res: Result<String, DashboardAuthServiceError>,
) -> bool {
    forall|j: int|
        0 <= j < old.employees().len() && (#[trigger] old.employees()[j]).email@ == email
            && old.employees()[j].email_verified_at is None ==> {
            let kept = tokens_without_employee(old.verification_tokens(), old.employees()[j].id);
            &&& res is Ok <==> !verification_id_taken(kept, id) && !verification_hash_taken(
                kept,
                token_hash_spec(raw),
            )
            &&& res matches Ok(t) ==> hex_decode_spec(t@) == raw
                && new.verification_tokens().last().id == id
        }
}

/// The contract of `resend_verification_email` at the clock reading `now`.
pub open spec fn resend_spec(
    old: Database,
    new: Database,
    ttl: u64,
    email: Seq<char>,
    now: i64,
    res: Result<String, DashboardAuthServiceError>,
) -> bool {
    &&& res is Err ==> same_tables(old, new)
    &&& !has_email(old.employees(), email) ==> (res matches Err(
        DashboardAuthServiceError::AccountNotFound,
    ))
    &&& forall|j: int|
        0 <= j < old.employees().len() && (#[trigger] old.employees()[j]).email@ == email
            ==> resend_case(old, new, ttl, old.employees()[j], now, res)
}

impl DashboardAuthServiceImpl {
    /// The tables are consistent and the TTLs are within range.
    pub open spec fn wf(&self) -> bool {
        &&& self.pool.wf()
        &&& self.email_verification_token_ttl <= MAX_TTL_SECONDS
        &&& self.token_config.access_token_ttl <= MAX_TTL_SECONDS
        &&& self.token_config.refresh_token_ttl <= MAX_TTL_SECONDS
    }

    /// Everything but the tables is the same.
    pub open spec fn same_config(&self, other: &Self) -> bool {
        &&& self.bcrypt_cost == other.bcrypt_cost
        &&& self.email_verification_token_ttl == other.email_verification_token_ttl
        &&& self.token_config == other.token_config
        &&& self.app_name == other.app_name
        &&& self.base_url == other.base_url
    }

    /// Generates an access token (JWT) for the given employee and, from the
    /// drawn bytes and id, the refresh token with the row that stores its hash.
    /// Nothing is written; the row is refused up front when its id or hash is
    /// taken.
    fn prepare_tokens(
        &self,
        employee_id: u128,
        role: &str,
        now: i64,
        raw_refresh_token: [u8; 32],
        refresh_token_id: u128,
    ) -> (res: Result<
        (LoginResult, RefreshTokenRecord),
        DashboardAuthServiceError,
    >)
        requires
            self.wf(),
        ensures
            !encode_outcome_ok(now, self.token_config.access_token_ttl) ==> (res matches Err(
                DashboardAuthServiceError::Jwt(_),
            )),
            encode_outcome_ok(now, self.token_config.access_token_ttl) ==> {
                &&& self.pool.refresh_tokens().len() == 0 ==> res is Ok
                &&& (res matches Err(e) ==> e is Database)
                &&& res is Ok <==> fresh_refresh(
                    self.pool.refresh_tokens(),
                    raw_refresh_token@,
                    refresh_token_id,
                )
            },
            res matches Ok((r, rec)) ==> r.refresh_token@ == raw_refresh_token@ && rec.id
                == refresh_token_id,
            res matches Ok((r, rec)) ==> {
                &&& encode_outcome_ok(now, self.token_config.access_token_ttl)
                &&& r.access_token@.len() > 0
            &&& r.access_token@ == access_token_spec(
                    employee_id,
                    role@,
                    secret_bytes(self.token_config),
                    jwt_expiry(now, self.token_config.access_token_ttl) as usize,
                )
                &&& r.expires_in == self.token_config.access_token_ttl
                &&& r.refresh_token@.len() == 32
                &&& issued_refresh_record(
                    rec,
                    employee_id,
                    r.refresh_token@,
                    now,
                    self.token_config.refresh_token_ttl,
                )
                &&& !refresh_id_taken(self.pool.refresh_tokens(), rec.id)
                &&& !refresh_hash_taken(self.pool.refresh_tokens(), rec.token_hash@)
            },
    {
        let access_token = match jwt::encode_at(
            employee_id,
            role,
            self.token_config.jwt_secret.as_str().as_bytes(),
            self.token_config.access_token_ttl,
            now,
        ) {
            Ok(t) => t,
            Err(e) => {
                return Err(DashboardAuthServiceError::Jwt(e));
            },
        };
        let refresh_token_hash = token::hash(&raw_refresh_token);
        let refresh_expires_at = expiry_at(now, self.token_config.refresh_token_ttl);
        if self.pool.refresh_id_in_use(refresh_token_id) {
            return Err(DashboardAuthServiceError::Database(StoreError::UniqueViolation));
        }
        if self.pool.find_refresh_token_by_hash(refresh_token_hash.as_str()).is_some() {
            return Err(DashboardAuthServiceError::Database(StoreError::UniqueViolation));
        }
        let record = RefreshTokenRecord {
            id: refresh_token_id,
            employee_id,
            token_hash: refresh_token_hash,
            expires_at: refresh_expires_at,
            revoked_at: None,
            created_at: now,
        };
        let result = LoginResult {
            access_token,
            refresh_token: vstd::slice::slice_to_vec(&raw_refresh_token),
            expires_in: self.token_config.access_token_ttl,
        };
        Ok((result, record))
    }

    /// Writes the owner account with a password hash already made, and its
    /// e-mail verification token, at `now`: the employee row with the given id,
    /// and the token row with the given id and hash. Refused with
    /// `OwnerAlreadyExists` when an employee exists.
    pub fn create_owner(
        &mut self,
        email: &str,
        password_hash: String,
        employee_id: u128,
        token_id: u128,
        token_hash: String,
        now: i64,
    ) -> (res: Result<(), DashboardAuthServiceError>)
        requires
            old(self).wf(),
        ensures
            final(self).wf(),
            final(self).same_config(old(self)),
            old(self).pool.employees().len() > 0 ==> (res matches Err(
                DashboardAuthServiceError::OwnerAlreadyExists,
            ) && same_tables(old(self).pool, final(self).pool)),
            old(self).pool.employees().len() == 0 ==> {
                &&& res is Ok
                &&& final(self).pool.employees() == seq![
                    Employee {
                        id: employee_id,
                        email: final(self).pool.employees()[0].email,
                        password_hash,
                        role: final(self).pool.employees()[0].role,
                        is_active: true,
                        email_verified_at: None,
                        created_at: now,
                        updated_at: now,
                    },
                ]
                &&& final(self).pool.employees()[0].email@ == email@
                &&& final(self).pool.employees()[0].role@ == "owner"@
                &&& final(self).pool.verification_tokens() == seq![
                    VerificationTokenRecord {
                        id: token_id,
                        employee_id,
                        token_hash,
                        expires_at: expiry_after(now, old(self).email_verification_token_ttl),
                        created_at: now,
                    },
                ]
                &&& final(self).pool.refresh_tokens() == old(self).pool.refresh_tokens()
                &&& final(self).pool.invitations() == old(self).pool.invitations()
            },
    {
        if self.pool.count_employees() > 0 {
            return Err(DashboardAuthServiceError::OwnerAlreadyExists);
        }
        let employee = Employee {
            id: employee_id,
            email: owned(email),
            password_hash,
            role: owned("owner"),
            is_active: true,
            email_verified_at: None,
            created_at: now,
            updated_at: now,
        };
        let ghost pool0 = self.pool;
        assert(!has_employee(pool0.employees(), employee_id));
        assert(!has_email(pool0.employees(), email@));
        match self.pool.insert_employee(employee) {
            Ok(()) => {},
            Err(e) => {
                assert(false);
                return Err(DashboardAuthServiceError::Database(e));
            },
        }
        let expires_at = expiry_at(now, self.email_verification_token_ttl);
        let record = VerificationTokenRecord {
            id: token_id,
            employee_id,
            token_hash,
            expires_at,
            created_at: now,
        };
        assert(self.pool.employees()[0].id == employee_id);
        assert(pool0.verification_tokens().len() == 0) by {
            if pool0.verification_tokens().len() > 0 {
                assert(has_employee(pool0.employees(), pool0.verification_tokens()[0].employee_id));
            }
        }
        assert(has_employee(self.pool.employees(), employee_id));
        match self.pool.insert_verification_token(record) {
            Ok(()) => {},
            Err(e) => {
                assert(false);
                return Err(DashboardAuthServiceError::Database(e));
            },
        }
        assert(self.pool.employees() =~= seq![self.pool.employees()[0]]);
        assert(self.pool.verification_tokens() =~= seq![self.pool.verification_tokens()[0]]);
        Ok(())
    }

    /// Registers the first owner account.
    ///
    /// Fails with `WeakPassword` if the password is shorter than 8 characters, or
    /// `OwnerAlreadyExists` if an employee already exists.
    pub fn register(&mut self, email: &str, password: &str) -> (res: Result<
        (),
        DashboardAuthServiceError,
    >)
        requires
            old(self).wf(),
        ensures
            final(self).wf(),
            final(self).same_config(old(self)),
            register_spec(
                old(self).pool,
                final(self).pool,
                old(self).bcrypt_cost,
                old(self).email_verification_token_ttl,
                email@,
                password@,
                res,
            ),
    {
        let password_chars = to_chars(password);
        if password_chars.len() < 8 {
            return Err(DashboardAuthServiceError::WeakPassword);
        }
        let count = self.pool.count_employees();
        if count > 0 {
            return Err(DashboardAuthServiceError::OwnerAlreadyExists);
        }
        let password_hash = match password::hash(password, self.bcrypt_cost) {
            Ok(h) => h,
            Err(e) => {
                return Err(DashboardAuthServiceError::PasswordHashing(e));
            },
        };
        let employee_id = clock::new_id();
        let now = clock::now_micros();
        let token_id = clock::new_id();
        let (_, token_hash) = token::generate();
        let ghost pool0 = self.pool;
        assert(pool0.verification_tokens().len() == 0) by {
            if pool0.verification_tokens().len() > 0 {
                assert(has_employee(pool0.employees(), pool0.verification_tokens()[0].employee_id));
            }
        }
        let res = self.create_owner(email, password_hash, employee_id, token_id, token_hash, now);
        assert(self.pool.verification_tokens().drop_last() =~= pool0.verification_tokens());
        res
    }

    /// Authenticates an employee as of the clock reading `now` and returns
    /// access + refresh tokens.
    pub fn login_at(&mut self, email: &str, password: &str, now: i64) -> (res: Result<
        LoginResult,
        DashboardAuthServiceError,
    >)
        requires
            old(self).wf(),
        ensures
            final(self).wf(),
            final(self).same_config(old(self)),
            login_spec(
                old(self).pool,
                final(self).pool,
                old(self).token_config,
                email@,
                password@,
                now,
                res,
            ),
    {
        let (raw_refresh_token, _) = token::generate();
        let refresh_token_id = clock::new_id();
        self.login_with(email, password, now, raw_refresh_token, refresh_token_id)
    }

    /// Authenticates an employee as of the clock reading `now` and returns
    /// access + refresh tokens, the refresh token being the given bytes and its
    /// row the given id: it succeeds exactly when neither is taken (once the
    /// credentials and the account pass).
    pub fn login_with(
        &mut self,
        email: &str,
        password: &str,
        now: i64,
        raw_refresh_token: [u8; 32],
        refresh_token_id: u128,
    ) -> (res: Result<LoginResult, DashboardAuthServiceError>)
        requires
            old(self).wf(),
        ensures
            final(self).wf(),
            final(self).same_config(old(self)),
            login_spec(
                old(self).pool,
                final(self).pool,
                old(self).token_config,
                email@,
                password@,
                now,
                res,
            ),
            login_drawn(
                old(self).pool,
                final(self).pool,
                old(self).token_config,
                email@,
                password@,
                now,
                raw_refresh_token@,
                refresh_token_id,
                res,
            ),
    {
        let i = match self.pool.find_employee_by_email(email) {
            Some(i) => i,
            None => {
                return Err(DashboardAuthServiceError::InvalidCredentials);
            },
        };
        let ghost e = self.pool.employees()[i as int];
        assert forall|k: int|
            0 <= k < self.pool.employees().len() && (#[trigger] self.pool.employees()[k]).email@
                == email@ implies k == i by {}
        let employee = self.pool.employee(i).duplicate();
        if !employee.is_active {
            return Err(DashboardAuthServiceError::AccountInactive);
        }
        if employee.email_verified_at.is_none() {
            return Err(DashboardAuthServiceError::EmailNotVerified);
        }
        let password_valid = match password::verify(password, employee.password_hash.as_str()) {
            Ok(b) => b,
            Err(e) => {
                return Err(DashboardAuthServiceError::PasswordHashing(e));
            },
        };
        if !password_valid {
            return Err(DashboardAuthServiceError::InvalidCredentials);
        }
        let (result, record) = match self.prepare_tokens(
            employee.id,
            employee.role.as_str(),
            now,
            raw_refresh_token,
            refresh_token_id,
        ) {
            Ok(p) => p,
            Err(e) => {
                return Err(e);
            },
        };
        let ghost pool0 = self.pool;
        match self.pool.insert_refresh_token(record) {
            Ok(()) => {},
            Err(e) => {
                assert(false);
                return Err(DashboardAuthServiceError::Database(e));
            },
        }
        assert(self.pool.refresh_tokens().drop_last() =~= pool0.refresh_tokens());
        Ok(result)
    }

    /// Authenticates an employee and returns access + refresh tokens.
    ///
    /// Fails with `InvalidCredentials` if the email or password is wrong,
    /// `EmailNotVerified` if the email has not been verified, or
    /// `AccountInactive` if the account is deactivated.
    pub fn login(&mut self, email: &str, password: &str) -> (res: Result<
        LoginResult,
        DashboardAuthServiceError,
    >)
        requires
            old(self).wf(),
        ensures
            final(self).wf(),
            final(self).same_config(old(self)),
            exists|now: i64|
                login_spec(
                    old(self).pool,
                    final(self).pool,
                    old(self).token_config,
                    email@,
                    password@,
                    now,
                    res,
                ),
    {
        let now = clock::now_micros();
        self.login_at(email, password, now)
    }
    /// Revokes a refresh token, as of the clock reading `now`, so it can no longer
    /// be used. A token that is not hex text is refused; any other token is
    /// accepted, whether or not it is known or already revoked.
    pub fn logout_at(&mut self, token: &str, now: i64) -> (res: Result<(), DashboardAuthServiceError>)
        requires
            old(self).wf(),
        ensures
            final(self).wf(),
            final(self).same_config(old(self)),
            logout_spec(old(self).pool, final(self).pool, token@, now, res),
    {
        let raw = match token::hex_decode(token) {
            Some(raw) => raw,
            None => {
                return Err(DashboardAuthServiceError::InvalidCredentials);
            },
        };
        let token_hash = token::hash(raw.as_slice());
        self.pool.revoke_refresh_token(token_hash.as_str(), now);
        Ok(())
    }

    /// Revokes a refresh token so it can no longer be used.
    pub fn logout(&mut self, token: &str) -> (res: Result<(), DashboardAuthServiceError>)
        requires
            old(self).wf(),
        ensures
            final(self).wf(),
            final(self).same_config(old(self)),
            exists|now: i64| logout_spec(old(self).pool, final(self).pool, token@, now, res),
    {
        let now = clock::now_micros();
        self.logout_at(token, now)
    }

    /// Exchanges a valid refresh token for a new access + refresh token pair as
    /// of the clock reading `now`; the old refresh token is revoked.
    pub fn refresh_at(&mut self, token: &str, now: i64) -> (res: Result<
        LoginResult,
        DashboardAuthServiceError,
    >)
        requires
            old(self).wf(),
        ensures
            final(self).wf(),
            final(self).same_config(old(self)),
            refresh_spec(old(self).pool, final(self).pool, old(self).token_config, token@, now, res),
    {
        let (raw_refresh_token, _) = token::generate();
        let refresh_token_id = clock::new_id();
        self.refresh_with(token, now, raw_refresh_token, refresh_token_id)
    }

    /// Exchanges a valid refresh token for a new pair as of the clock reading
    /// `now`, the new refresh token being the given bytes and its row the given
    /// id: the presented token is revoked, and the exchange succeeds exactly when
    /// neither the bytes' hash nor the id is taken (once the presented token and
    /// the account pass).
    pub fn refresh_with(
        &mut self,
        token: &str,
        now: i64,
        raw_refresh_token: [u8; 32],
        refresh_token_id: u128,
    ) -> (res: Result<LoginResult, DashboardAuthServiceError>)
        requires
            old(self).wf(),
        ensures
            final(self).wf(),
            final(self).same_config(old(self)),
            refresh_spec(old(self).pool, final(self).pool, old(self).token_config, token@, now, res),
            refresh_drawn(
                old(self).pool,
                final(self).pool,
                old(self).token_config,
                token@,
                now,
                raw_refresh_token@,
                refresh_token_id,
                res,
            ),
    {
        let raw = match token::hex_decode(token) {
            Some(raw) => raw,
            None => {
                return Err(DashboardAuthServiceError::InvalidCredentials);
            },
        };
        let token_hash = token::hash(raw.as_slice());
        let i = match self.pool.find_refresh_token_by_hash(token_hash.as_str()) {
            Some(i) => i,
            None => {
                return Err(DashboardAuthServiceError::InvalidCredentials);
            },
        };
        let ghost pool0 = self.pool;
        assert forall|k: int|
            0 <= k < pool0.refresh_tokens().len() && (#[trigger] pool0.refresh_tokens()[k]).token_hash@
                == token_hash@ implies k == i by {}
        let stored = self.pool.refresh_token(i).duplicate();
        if stored.revoked_at.is_some() {
            return Err(DashboardAuthServiceError::InvalidCredentials);
        }
        if stored.expires_at < now {
            return Err(DashboardAuthServiceError::InvalidCredentials);
        }
        let j = match self.pool.find_employee_by_id(stored.employee_id) {
            Some(j) => j,
            None => {
                return Err(DashboardAuthServiceError::InvalidCredentials);
            },
        };
        assert forall|k: int|
            0 <= k < pool0.employees().len() && (#[trigger] pool0.employees()[k]).id
                == stored.employee_id implies k == j by {}
        let employee = self.pool.employee(j).duplicate();
        if !employee.is_active {
            return Err(DashboardAuthServiceError::AccountInactive);
        }
        let (result, record) = match self.prepare_tokens(
            employee.id,
            employee.role.as_str(),
            now,
            raw_refresh_token,
            refresh_token_id,
        ) {
            Ok(p) => p,
            Err(e) => {
                return Err(e);
            },
        };
        self.pool.revoke_refresh_token(token_hash.as_str(), now);
        let ghost pool1 = self.pool;
        proof {
            lemma_revoke_keeps_keys(pool0.refresh_tokens(), token_hash@, now, record.id, record.token_hash@);
        }
        match self.pool.insert_refresh_token(record) {
            Ok(()) => {},
            Err(e) => {
                assert(false);
                return Err(DashboardAuthServiceError::Database(e));
            },
        }
        assert(self.pool.refresh_tokens().drop_last() =~= pool1.refresh_tokens());
        Ok(result)
    }

    /// Exchanges a valid refresh token for a new access + refresh token pair.
    ///
    /// The old refresh token is revoked (token rotation). Fails with
    /// `InvalidCredentials` if the token is invalid, expired, or already revoked,
    /// or `AccountInactive` if the employee account has been deactivated.
    pub fn refresh(&mut self, token: &str) -> (res: Result<LoginResult, DashboardAuthServiceError>)
        requires
            old(self).wf(),
        ensures
            final(self).wf(),
            final(self).same_config(old(self)),
            exists|now: i64|
                refresh_spec(old(self).pool, final(self).pool, old(self).token_config, token@, now, res),
    {
        let now = clock::now_micros();
        self.refresh_at(token, now)
    }

    /// Marks all employees as e-mail-verified at `now` and deletes all
    /// verification tokens.
    pub fn verify_all_at(&mut self, now: i64) -> (res: Result<(), DashboardAuthServiceError>)
        requires
            old(self).wf(),
        ensures
            final(self).wf(),
            final(self).same_config(old(self)),
            res is Ok,
            verify_all_spec(old(self).pool, final(self).pool, now),
    {
        self.pool.update_all_email_verified_at(now);
        self.pool.delete_all_verification_tokens();
        Ok(())
    }

    /// Marks all employees as email-verified and deletes all verification tokens.
    ///
    /// Intended for testing only.
    pub fn verify_all(&mut self) -> (res: Result<(), DashboardAuthServiceError>)
        requires
            old(self).wf(),
        ensures
            final(self).wf(),
            final(self).same_config(old(self)),
            res is Ok,
            exists|now: i64| verify_all_spec(old(self).pool, final(self).pool, now),
            forall|i: int|
                0 <= i < final(self).pool.employees().len() ==> (#[trigger] final(self).pool.employees()[i]).email_verified_at is Some,
    {
        let now = clock::now_micros();
        self.verify_all_at(now)
    }

    /// Verifies an email, as of the clock reading `now`, using the hex token from
    /// the verification link.
    pub fn verify_email_at(&mut self, token: &str, now: i64) -> (res: Result<
        (),
        DashboardAuthServiceError,
    >)
        requires
            old(self).wf(),
        ensures
            final(self).wf(),
            final(self).same_config(old(self)),
            verify_email_spec(old(self).pool, final(self).pool, token@, now, res),
    {
        let raw = match token::hex_decode(token) {
            Some(raw) => raw,
            None => {
                return Err(DashboardAuthServiceError::InvalidVerificationToken);
            },
        };
        let token_hash = token::hash(raw.as_slice());
        let i = match self.pool.find_verification_token_by_hash(token_hash.as_str()) {
            Some(i) => i,
            None => {
                return Err(DashboardAuthServiceError::InvalidVerificationToken);
            },
        };
        let ghost pool0 = self.pool;
        assert forall|k: int|
            0 <= k < pool0.verification_tokens().len() && (
            #[trigger] pool0.verification_tokens()[k]).token_hash@ == token_hash@ implies k == i by {}
        let expires_at = self.pool.verification_token(i).expires_at;
        let employee_id = self.pool.verification_token(i).employee_id;
        if expires_at < now {
            return Err(DashboardAuthServiceError::InvalidVerificationToken);
        }
        let j = match self.pool.find_employee_by_id(employee_id) {
            Some(j) => j,
            None => {
                return Err(DashboardAuthServiceError::AccountNotFound);
            },
        };
        assert forall|k: int|
            0 <= k < pool0.employees().len() && (#[trigger] pool0.employees()[k]).id == employee_id
                implies k == j by {}
        if self.pool.employee(j).email_verified_at.is_some() {
            return Err(DashboardAuthServiceError::EmailAlreadyVerified);
        }
        self.pool.set_email_verified(j, now);
        self.pool.delete_verification_tokens_for(employee_id);
        Ok(())
    }

    /// Verifies an email using the hex token from the verification link.
    ///
    /// Fails with `InvalidVerificationToken` if the token is not found or
    /// expired, `EmailAlreadyVerified` if the email was already verified, or
    /// `AccountNotFound` if the employee no longer exists.
    pub fn verify_email(&mut self, token: &str) -> (res: Result<(), DashboardAuthServiceError>)
        requires
            old(self).wf(),
        ensures
            final(self).wf(),
            final(self).same_config(old(self)),
            exists|now: i64| verify_email_spec(old(self).pool, final(self).pool, token@, now, res),
    {
        let now = clock::now_micros();
        self.verify_email_at(token, now)
    }

    /// Generates a new verification email token as of the clock reading `now`,
    /// deleting any existing ones, and returns it in hex.
    pub fn resend_verification_email_at(&mut self, email: &str, now: i64) -> (res: Result<
        String,
        DashboardAuthServiceError,
    >)
        requires
            old(self).wf(),
        ensures
            final(self).wf(),
            final(self).same_config(old(self)),
            resend_spec(
                old(self).pool,
                final(self).pool,
                old(self).email_verification_token_ttl,
                email@,
                now,
                res,
            ),
    {
        let (raw, _) = token::generate();
        let token_id = clock::new_id();
        self.resend_with(email, now, raw, token_id)
    }

    /// Replaces the verification tokens of the employee with the given address
    /// by one made from the given bytes, under the given row id, as of `now`,
    /// and returns the bytes in hex: for an unverified employee it succeeds
    /// exactly when neither the id nor the hash of the bytes is taken by another
    /// employee's token.
    pub fn resend_with(&mut self, email: &str, now: i64, raw: [u8; 32], token_id: u128) -> (res:
        Result<String, DashboardAuthServiceError>)
        requires
            old(self).wf(),
        ensures
            final(self).wf(),
            final(self).same_config(old(self)),
            resend_spec(
                old(self).pool,
                final(self).pool,
                old(self).email_verification_token_ttl,
                email@,
                now,
                res,
            ),
            resend_drawn(old(self).pool, final(self).pool, email@, raw@, token_id, res),
    {
        let j = match self.pool.find_employee_by_email(email) {
            Some(j) => j,
            None => {
                return Err(DashboardAuthServiceError::AccountNotFound);
            },
        };
        let ghost pool0 = self.pool;
        assert forall|k: int|
            0 <= k < pool0.employees().len() && (#[trigger] pool0.employees()[k]).email@ == email@
                implies k == j by {}
        if self.pool.employee(j).email_verified_at.is_some() {
            return Err(DashboardAuthServiceError::EmailAlreadyVerified);
        }
        let employee_id = self.pool.employee(j).id;
        let token_hash = token::hash(&raw);
        let expires_at = expiry_at(now, self.email_verification_token_ttl);
        proof {
            lemma_tokens_without_employee(pool0.verification_tokens(), employee_id, token_id, token_hash@);
        }
        match self.pool.find_verification_token_by_id(token_id) {
            Some(k) => {
                if self.pool.verification_token(k).employee_id != employee_id {
                    return Err(DashboardAuthServiceError::Database(StoreError::UniqueViolation));
                }
            },
            None => {},
        }
        match self.pool.find_verification_token_by_hash(token_hash.as_str()) {
            Some(k) => {
                if self.pool.verification_token(k).employee_id != employee_id {
                    return Err(DashboardAuthServiceError::Database(StoreError::UniqueViolation));
                }
            },
            None => {},
        }
        proof {
            let s = pool0.verification_tokens();
            assert forall|k: int|
                0 <= k < s.len() && (#[trigger] s[k]).id == token_id implies s[k].employee_id
                    == employee_id by {
                assert(s[k].id == pool0.verification_tokens()[k].id);
            }
            assert forall|k: int|
                0 <= k < s.len() && (#[trigger] s[k]).token_hash@ == token_hash@ implies s[k].employee_id
                    == employee_id by {}
        }
        self.pool.delete_verification_tokens_for(employee_id);
        let record = VerificationTokenRecord {
            id: token_id,
            employee_id,
            token_hash,
            expires_at,
            created_at: now,
        };
        let ghost pool1 = self.pool;
        match self.pool.insert_verification_token(record) {
            Ok(()) => {},
            Err(e) => {
                assert(false);
                return Err(DashboardAuthServiceError::Database(e));
            },
        }
        assert(self.pool.verification_tokens().drop_last() =~= pool1.verification_tokens());
        let token_hex = token::hex_encode(&raw);
        proof {
            token::lemma_hex_roundtrip(raw@);
        }
        Ok(token_hex)
    }

    /// Generates a new verification email token, deleting any existing ones.
    ///
    /// Returns `token_hex` so the caller can send the email asynchronously.
    /// Fails with `AccountNotFound` if the email is not registered, or
    /// `EmailAlreadyVerified` if the email is already verified.
    pub fn resend_verification_email(&mut self, email: &str) -> (res: Result<
        String,
        DashboardAuthServiceError,
    >)
        requires
            old(self).wf(),
        ensures
            final(self).wf(),
            final(self).same_config(old(self)),
            exists|now: i64|
                resend_spec(
                    old(self).pool,
                    final(self).pool,
                    old(self).email_verification_token_ttl,
                    email@,
                    now,
                    res,
                ),
    {
        let now = clock::now_micros();
        self.resend_verification_email_at(email, now)
    }
}

} // verus!
