use vstd::prelude::*;
use vstd::utf8::encode_utf8;

use super::service::{
    shows_profile, shows_user, AuthResponse, AuthServiceError, MeResponse, RefreshResponse,
    RegisterResponse, ResendVerificationResponse, UserResponse, VerificationEmail,
    VerifyEmailResponse,
};
use super::store::{
    refresh_hash_in, tokens_not_of_user, user_email_taken, user_id_taken, verification_hash_in,
    EmailVerificationTokenRow, RefreshTokenRow, UserRow, UserTables,
};
use crate::auth::jwt::{self, encode_outcome_ok, jwt_expiry, jwt_hs256};
use crate::auth::password::{self, bcrypt_verify_outcome, made_at_cost};
use crate::auth::token::{self, token_hash_spec};
use crate::clock;
use crate::config::Config;
use crate::features::dashboard_auth::service_impl::{expiry_after, expiry_at, MAX_TTL_SECONDS};
use crate::repositories::StoreError;
use crate::text::{concat, decimal_spec, decimal_text, owned};

verus! {

/// The stored hash of a token's text: SHA-256 of its UTF-8 bytes, in hex.
pub open spec fn text_hash(token: Seq<char>) -> Seq<char> {
    token_hash_spec(encode_utf8(token))
}

/// Hashes a token's text with SHA-256 and returns the hex digest.
pub fn hash_token(token: &str) -> (res: String)
    ensures
        res@ == text_hash(token@),
{
    token::hash(token.as_bytes())
}

/// The link in the customer verification e-mail.
pub open spec fn verify_link(base_url: Seq<char>, token: Seq<char>) -> Seq<char> {
    base_url + "/api/v1/auth/verify-email?token="@ + token
}

/// The reply to every request for a new verification e-mail.
pub open spec fn resend_message() -> Seq<char> {
    "If an account with that email exists and is not yet verified, we've sent a verification email."@
}

/// The access token issued to a user at `now`: a JWT whose subject is the
/// user's id in decimal.
pub open spec fn user_access_token(cfg: Config, u: UserRow, now: i64) -> Seq<char> {
    jwt_hs256(
        decimal_spec(u.id as int),
        u.role@,
        jwt_expiry(now, cfg.access_token_ttl) as usize,
        encode_utf8(cfg.jwt_secret@),
    )
}

/// The tables and their key counters are the same.
pub open spec fn unchanged(a: UserTables, b: UserTables) -> bool {
    &&& a.users() == b.users()
    &&& a.refresh_tokens() == b.refresh_tokens()
    &&& a.verification_tokens() == b.verification_tokens()
    &&& a.last_user_id() == b.last_user_id()
    &&& a.last_refresh_token_id() == b.last_refresh_token_id()
    &&& a.last_verification_token_id() == b.last_verification_token_id()
}

/// Only the refresh tokens (and their key counter) may differ.
pub open spec fn only_refresh_tokens_differ(a: UserTables, b: UserTables) -> bool {
    &&& a.users() == b.users()
    &&& a.verification_tokens() == b.verification_tokens()
    &&& a.last_user_id() == b.last_user_id()
    &&& a.last_verification_token_id() == b.last_verification_token_id()
}

/// A refresh token row as issued to `user_id` for the token text `token` at `now`.
pub open spec fn refresh_row_issued(t: RefreshTokenRow, id: int, user_id: i32, token: Seq<char>, now: i64, ttl: u64) -> bool {
    &&& t.id == id
    &&& t.user_id == user_id
    &&& t.token_hash@ == text_hash(token)
    &&& t.expires_at == expiry_after(now, ttl)
    &&& t.revoked_at is None
    &&& t.created_at == now
}

/// A verification token row as issued to `user_id` for the token text `token` at `now`.
pub open spec fn verification_row_issued(
    t: EmailVerificationTokenRow,
    id: int,
    user_id: i32,
    token: Seq<char>,
    now: i64,
    ttl: u64,
) -> bool {
    &&& t.id == id
    &&& t.user_id == user_id
    &&& t.token_hash@ == text_hash(token)
    &&& t.expires_at == expiry_after(now, ttl)
    &&& t.created_at == now
}

/// The e-mail that carries a verification token to `email`.
pub open spec fn mail_for(mail: VerificationEmail, email: Seq<char>, base_url: Seq<char>) -> bool {
    &&& mail.to@ == email
    &&& mail.link@ == verify_link(base_url, mail.token@)
}

/// The state after a registration with the password hash `hash`: one more
/// user, active and unverified, with that hash, and one more verification token
/// for them, carried by the e-mail.
pub open spec fn registered_with(
    old: UserTables,
    new: UserTables,
    cfg: Config,
    email: Seq<char>,
    hash: Seq<char>,
    role: Seq<char>,
    now: i64,
    mail: VerificationEmail,
) -> bool {
    let u = new.users().last();
    &&& new.users().len() == old.users().len() + 1
    &&& new.users().drop_last() == old.users()
    &&& u.id == old.last_user_id() + 1
    &&& u.email@ == email
    &&& u.role@ == role
    &&& u.is_active
    &&& u.email_verified_at is None
    &&& u.created_at == now
    &&& u.updated_at == now
    &&& u.password_hash@ == hash
    &&& new.last_user_id() == u.id
    &&& new.verification_tokens().len() == old.verification_tokens().len() + 1
    &&& new.verification_tokens().drop_last() == old.verification_tokens()
    &&& verification_row_issued(
        new.verification_tokens().last(),
        old.last_verification_token_id() + 1,
        u.id,
        mail.token@,
        now,
        cfg.email_verification_token_ttl,
    )
    &&& new.last_verification_token_id() == old.last_verification_token_id() + 1
    &&& new.refresh_tokens() == old.refresh_tokens()
    &&& new.last_refresh_token_id() == old.last_refresh_token_id()
    &&& mail_for(mail, email, cfg.base_url@)
}

/// The state after a successful registration: as `registered_with`, with a hash
/// of the password that bcrypt made at its default cost, 12.
pub open spec fn registered(
    old: UserTables,
    new: UserTables,
    cfg: Config,
    email: Seq<char>,
    password: Seq<char>,
    role: Seq<char>,
    now: i64,
    mail: VerificationEmail,
) -> bool {
    let h = new.users().last().password_hash@;
    &&& registered_with(old, new, cfg, email, h, role, now, mail)
    &&& bcrypt_verify_outcome(password, h) == Some(true)
    &&& made_at_cost(h, 12)
}

/// The contract of `register_hashed`: registration with the password hash
/// `hash` and the verification token text `raw` already made.
pub open spec fn register_hashed_spec(
    old: UserTables,
    new: UserTables,
    cfg: Config,
    email: Seq<char>,
    hash: Seq<char>,
    role: Seq<char>,
    raw: Seq<char>,
    now: i64,
    res: Result<(RegisterResponse, VerificationEmail), AuthServiceError>,
) -> bool {
    &&& res is Err ==> unchanged(old, new)
    &&& user_email_taken(old.users(), email) ==> (res matches Err(AuthServiceError::Conflict(m))
        && m@ == "Email already registered"@)
    &&& !user_email_taken(old.users(), email) ==> {
        &&& res is Ok <==> (old.last_user_id() < i32::MAX && old.last_verification_token_id()
            < i32::MAX && !verification_hash_in(old.verification_tokens(), text_hash(raw)))
        &&& (res matches Err(e) ==> e is Database)
        &&& (res matches Ok((r, mail)) ==> {
            &&& r.message@ == "Please check your email to verify your account."@
            &&& mail.token@ == raw
            &&& registered_with(old, new, cfg, email, hash, role, now, mail)
        })
    }
}

/// The contract of `register` at the clock reading `now`.
pub open spec fn register_spec(
    old: UserTables,
    new: UserTables,
    cfg: Config,
    email: Seq<char>,
    password: Seq<char>,
    role: Seq<char>,
    now: i64,
    res: Result<(RegisterResponse, VerificationEmail), AuthServiceError>,
) -> bool {
    &&& res is Err ==> unchanged(old, new)
    &&& user_email_taken(old.users(), email) ==> (res matches Err(AuthServiceError::Conflict(m))
        && m@ == "Email already registered"@)
    &&& !user_email_taken(old.users(), email) ==> {
        &&& (res matches Err(e) ==> (e matches AuthServiceError::Internal(m) && m@
            == "password hashing failed"@) || e is Database)
        &&& old.last_user_id() == i32::MAX || old.last_verification_token_id() == i32::MAX
            ==> res is Err
        &&& old.last_user_id() < i32::MAX && old.last_verification_token_id() < i32::MAX
            && old.verification_tokens().len() == 0 ==> !(res matches Err(
            AuthServiceError::Database(_),
        ))
        &&& (res matches Ok((r, mail)) ==> {
            &&& r.message@ == "Please check your email to verify your account."@
            &&& registered(old, new, cfg, email, password, role, now, mail)
        })
        &&& !(res matches Err(AuthServiceError::Internal(_))) ==> exists|h: Seq<char>, raw: Seq<char>|
            bcrypt_verify_outcome(password, h) == Some(true) && made_at_cost(h, 12)
                && #[trigger] register_hashed_spec(old, new, cfg, email, h, role, raw, now, res)
    }
}

/// What `login` does for the user `u` whose e-mail address was given.
pub open spec fn login_case(
    old: UserTables,
    new: UserTables,
    cfg: Config,
    u: UserRow,
    password: Seq<char>,
    now: i64,
    res: Result<AuthResponse, AuthServiceError>,
) -> bool {
    if bcrypt_verify_outcome(password, u.password_hash@) != Some(true) {
        res matches Err(AuthServiceError::Unauthorized(m)) && m@ == "Invalid email or password"@
    } else if u.email_verified_at is None {
        res matches Err(AuthServiceError::NotVerified(m)) && m@
            == "Email not verified. Please check your email."@
    } else if !u.is_active {
        res matches Err(AuthServiceError::Unauthorized(m)) && m@ == "Account is deactivated"@
    } else if !encode_outcome_ok(now, cfg.access_token_ttl) {
        res matches Err(AuthServiceError::Internal(m)) && m@ == "token generation failed"@
    } else {
        &&& (res matches Err(e) ==> e matches AuthServiceError::Database(d) && (d is UniqueViolation
            || old.last_refresh_token_id() == i32::MAX))
        &&& old.last_refresh_token_id() == i32::MAX ==> res is Err
        &&& old.last_refresh_token_id() < i32::MAX && old.refresh_tokens().len() == 0 ==> res is Ok
        &&& (res matches Ok(r) ==> {
            &&& shows_user(r.user, u)
            &&& r.access_token@.len() > 0
            &&& r.access_token@ == user_access_token(cfg, u, now)
            &&& only_refresh_tokens_differ(old, new)
            &&& new.refresh_tokens().len() == old.refresh_tokens().len() + 1
            &&& new.refresh_tokens().drop_last() == old.refresh_tokens()
            &&& refresh_row_issued(
                new.refresh_tokens().last(),
                old.last_refresh_token_id() + 1,
                u.id,
                r.refresh_token@,
                now,
                cfg.refresh_token_ttl,
            )
            &&& new.last_refresh_token_id() == old.last_refresh_token_id() + 1
        })
    }
}

/// The contract of `login` at the clock reading `now`.
pub open spec fn login_spec(
    old: UserTables,
    new: UserTables,
    cfg: Config,
    email: Seq<char>,
    password: Seq<char>,
    now: i64,
    res: Result<AuthResponse, AuthServiceError>,
) -> bool {
    &&& res is Err ==> unchanged(old, new)
    &&& !user_email_taken(old.users(), email) ==> (res matches Err(AuthServiceError::NotFound(m))
        && m@ == "Invalid email or password"@)
    &&& forall|j: int|
        0 <= j < old.users().len() && (#[trigger] old.users()[j]).email@ == email ==> login_case(
            old,
            new,
            cfg,
            old.users()[j],
            password,
            now,
            res,
        )
}

/// What `verify_email` does for the stored token at position `i`.
pub open spec fn verify_email_case(
    old: UserTables,
    new: UserTables,
    i: int,
    now: i64,
    res: Result<VerifyEmailResponse, AuthServiceError>,
) -> bool {
    let t = old.verification_tokens()[i];
    if t.expires_at < now {
        res matches Err(AuthServiceError::NotFound(m)) && m@
            == "Verification token expired. Please request a new one."@
    } else if !user_id_taken(old.users(), t.user_id) {
        res matches Err(AuthServiceError::NotFound(m)) && m@ == "User not found"@
    } else {
        forall|j: int|
            0 <= j < old.users().len() && (#[trigger] old.users()[j]).id == t.user_id ==> {
                &&& res matches Ok(r) && r.message@
                    == "Email verified successfully. You can now log in."@
                &&& new.users() == old.users().update(
                    j,
                    UserRow { email_verified_at: Some(now), ..old.users()[j] },
                )
                &&& new.verification_tokens() == old.verification_tokens().remove(i)
                &&& new.refresh_tokens() == old.refresh_tokens()
                &&& new.last_user_id() == old.last_user_id()
                &&& new.last_refresh_token_id() == old.last_refresh_token_id()
                &&& new.last_verification_token_id() == old.last_verification_token_id()
            }
    }
}

/// The contract of `verify_email` at the clock reading `now`.
pub open spec fn verify_email_spec(
    old: UserTables,
    new: UserTables,
    token: Seq<char>,
    now: i64,
    res: Result<VerifyEmailResponse, AuthServiceError>,
) -> bool {
    &&& res is Err ==> unchanged(old, new)
    &&& !verification_hash_in(old.verification_tokens(), text_hash(token)) ==> (res matches Err(
        AuthServiceError::NotFound(m),
    ) && m@ == "Invalid verification token"@)
    &&& forall|i: int|
        0 <= i < old.verification_tokens().len() && (#[trigger] old.verification_tokens()[i]).token_hash@
            == text_hash(token) ==> verify_email_case(old, new, i, now, res)
}

/// What `resend_verification` does for the user `u` with the given address.
pub open spec fn resend_case(
    old: UserTables,
    new: UserTables,
    cfg: Config,
    u: UserRow,
    now: i64,
    res: Result<(ResendVerificationResponse, Option<VerificationEmail>), AuthServiceError>,
) -> bool {
    if u.email_verified_at is Some {
        &&& res matches Ok((r, None)) && r.message@ == resend_message()
        &&& unchanged(old, new)
    } else {
        let kept = tokens_not_of_user(old.verification_tokens(), u.id);
        &&& new.users() == old.users()
        &&& new.refresh_tokens() == old.refresh_tokens()
        &&& new.last_user_id() == old.last_user_id()
        &&& new.last_refresh_token_id() == old.last_refresh_token_id()
        &&& old.last_verification_token_id() == i32::MAX ==> res is Err
        &&& old.last_verification_token_id() < i32::MAX && kept.len() == 0 ==> res is Ok
        &&& (res matches Err(e) ==> {
            &&& e is Database
            &&& new.verification_tokens() == kept
            &&& new.last_verification_token_id() == old.last_verification_token_id()
        })
        &&& (res matches Ok((r, m)) ==> {
            &&& r.message@ == resend_message()
            &&& m matches Some(mail)
            &&& mail_for(mail, u.email@, cfg.base_url@)
            &&& new.verification_tokens().len() == kept.len() + 1
            &&& new.verification_tokens().drop_last() == kept
            &&& verification_row_issued(
                new.verification_tokens().last(),
                old.last_verification_token_id() + 1,
                u.id,
                mail.token@,
                now,
                cfg.email_verification_token_ttl,
            )
            &&& new.last_verification_token_id() == old.last_verification_token_id() + 1
        })
    }
}

/// The contract of `resend_verification` at the clock reading `now`.
pub open spec fn resend_spec(
    old: UserTables,
    new: UserTables,
    cfg: Config,
    email: Seq<char>,
    now: i64,
    res: Result<(ResendVerificationResponse, Option<VerificationEmail>), AuthServiceError>,
) -> bool {
    &&& !user_email_taken(old.users(), email) ==> {
        &&& res matches Ok((r, None)) && r.message@ == resend_message()
        &&& unchanged(old, new)
    }
    &&& forall|j: int|
        0 <= j < old.users().len() && (#[trigger] old.users()[j]).email@ == email ==> resend_case(
            old,
            new,
            cfg,
            old.users()[j],
            now,
            res,
        )
}

/// The refresh tokens after the row at `i` is revoked at `now`.
pub open spec fn revoked_at(s: Seq<RefreshTokenRow>, i: int, now: i64) -> Seq<RefreshTokenRow> {
    s.update(i, RefreshTokenRow { revoked_at: Some(now), ..s[i] })
}

/// What `refresh` does once the presented token at position `i` has been revoked,
/// for the user `u` it belongs to.
pub open spec fn refresh_issue(
    old: UserTables,
    new: UserTables,
    cfg: Config,
    i: int,
    u: UserRow,
    now: i64,
    res: Result<RefreshResponse, AuthServiceError>,
) -> bool {
    let mid = revoked_at(old.refresh_tokens(), i, now);
    if !u.is_active {
        &&& res matches Err(AuthServiceError::Unauthorized(m)) && m@ == "Account is deactivated"@
        &&& new.refresh_tokens() == mid
        &&& new.last_refresh_token_id() == old.last_refresh_token_id()
    } else if !encode_outcome_ok(now, cfg.access_token_ttl) {
        &&& res matches Err(AuthServiceError::Internal(m)) && m@ == "token generation failed"@
        &&& new.refresh_tokens() == mid
        &&& new.last_refresh_token_id() == old.last_refresh_token_id()
    } else {
        &&& old.last_refresh_token_id() == i32::MAX ==> res is Err
        &&& (res matches Err(e) ==> {
            &&& e matches AuthServiceError::Database(d) && (d is UniqueViolation
                || old.last_refresh_token_id() == i32::MAX)
            &&& new.refresh_tokens() == mid
            &&& new.last_refresh_token_id() == old.last_refresh_token_id()
        })
        &&& (res matches Ok(r) ==> {
            &&& r.access_token@.len() > 0
            &&& r.access_token@ == user_access_token(cfg, u, now)
            &&& new.refresh_tokens().len() == mid.len() + 1
            &&& new.refresh_tokens().drop_last() == mid
            &&& refresh_row_issued(
                new.refresh_tokens().last(),
                old.last_refresh_token_id() + 1,
                u.id,
                r.refresh_token@,
                now,
                cfg.refresh_token_ttl,
            )
            &&& new.last_refresh_token_id() == old.last_refresh_token_id() + 1
        })
    }
}

/// What `refresh` does for the stored token at position `i`.
pub open spec fn refresh_case(
    old: UserTables,
    new: UserTables,
    cfg: Config,
    i: int,
    now: i64,
    res: Result<RefreshResponse, AuthServiceError>,
) -> bool {
    let t = old.refresh_tokens()[i];
    if t.revoked_at is Some {
        &&& res matches Err(AuthServiceError::Unauthorized(m)) && m@ == "Refresh token revoked"@
        &&& unchanged(old, new)
    } else if t.expires_at < now {
        &&& res matches Err(AuthServiceError::Unauthorized(m)) && m@ == "Refresh token expired"@
        &&& unchanged(old, new)
    } else {
        &&& only_refresh_tokens_differ(old, new)
        &&& !user_id_taken(old.users(), t.user_id) ==> {
            &&& res matches Err(AuthServiceError::NotFound(m)) && m@ == "User not found"@
            &&& new.refresh_tokens() == revoked_at(old.refresh_tokens(), i, now)
            &&& new.last_refresh_token_id() == old.last_refresh_token_id()
        }
        &&& forall|j: int|
            0 <= j < old.users().len() && (#[trigger] old.users()[j]).id == t.user_id
                ==> refresh_issue(old, new, cfg, i, old.users()[j], now, res)
    }
}

/// The contract of `refresh` at the clock reading `now`.
pub open spec fn refresh_spec(
    old: UserTables,
    new: UserTables,
    cfg: Config,
    token: Seq<char>,
    now: i64,
    res: Result<RefreshResponse, AuthServiceError>,
) -> bool {
    &&& !refresh_hash_in(old.refresh_tokens(), text_hash(token)) ==> {
        &&& res matches Err(AuthServiceError::Unauthorized(m)) && m@ == "Invalid refresh token"@
        &&& unchanged(old, new)
    }
    &&& forall|i: int|
        0 <= i < old.refresh_tokens().len() && (#[trigger] old.refresh_tokens()[i]).token_hash@
            == text_hash(token) ==> refresh_case(old, new, cfg, i, now, res)
}

/// A refresh key is left and the hash of the token text is not stored.
pub open spec fn fresh_refresh_text(db: UserTables, token: Seq<char>) -> bool {
    db.last_refresh_token_id() < i32::MAX && !refresh_hash_in(db.refresh_tokens(), text_hash(token))
}

/// What `login` does with a drawn refresh token text once the credentials and
/// the account pass: it succeeds exactly when the text is fresh, and then
/// returns it.
pub open spec fn login_drawn(
    old: UserTables,
    cfg: Config,
    email: Seq<char>,
    password: Seq<char>,
    now: i64,
    token: Seq<char>,
    res: Result<AuthResponse, AuthServiceError>,
) -> bool {
    forall|j: int|
        0 <= j < old.users().len() && (#[trigger] old.users()[j]).email@ == email
            && bcrypt_verify_outcome(password, old.users()[j].password_hash@) == Some(true)
            && old.users()[j].email_verified_at is Some && old.users()[j].is_active
            && encode_outcome_ok(now, cfg.access_token_ttl) ==> {
            &&& res is Ok <==> fresh_refresh_text(old, token)
            &&& res matches Ok(r) ==> r.refresh_token@ == token
        }
}

/// What `refresh` does with a drawn refresh token text once the presented
/// token and the account pass: it succeeds exactly when the text is fresh, and
/// then returns it.
pub open spec fn refresh_drawn(
    old: UserTables,
    cfg: Config,
    token: Seq<char>,
    now: i64,
    new_token: Seq<char>,
    res: Result<RefreshResponse, AuthServiceError>,
) -> bool {
    forall|i: int, j: int|
        0 <= i < old.refresh_tokens().len() && (#[trigger] old.refresh_tokens()[i]).token_hash@
            == text_hash(token) && old.refresh_tokens()[i].revoked_at is None
            && !(old.refresh_tokens()[i].expires_at < now) && 0 <= j < old.users().len()
            && (#[trigger] old.users()[j]).id == old.refresh_tokens()[i].user_id
            && old.users()[j].is_active && encode_outcome_ok(now, cfg.access_token_ttl) ==> {
            &&& res is Ok <==> fresh_refresh_text(old, new_token)
            &&& res matches Ok(r) ==> r.refresh_token@ == new_token
        }
}

/// What `resend_verification` does with a drawn token text for an unverified
/// user: it succeeds exactly when a key is left and the hash of the text is not
/// held by a token of another user, and then mails that text.
pub open spec fn resend_drawn(
    old: UserTables,
    email: Seq<char>,
    raw: Seq<char>,
    res: Result<(ResendVerificationResponse, Option<VerificationEmail>), AuthServiceError>,
) -> bool {
    forall|j: int|
        0 <= j < old.users().len() && (#[trigger] old.users()[j]).email@ == email
            && old.users()[j].email_verified_at is None ==> {
            &&& res is Ok <==> old.last_verification_token_id() < i32::MAX && !verification_hash_in(
                tokens_not_of_user(old.verification_tokens(), old.users()[j].id),
                text_hash(raw),
            )
            &&& res matches Ok((_, Some(mail))) ==> mail.token@ == raw
        }
}

/// Revoking a row leaves the stored hashes as they were.
pub proof fn lemma_revoked_keeps_hashes(s: Seq<RefreshTokenRow>, i: int, now: i64, h: Seq<char>)
    requires
        0 <= i < s.len(),
    ensures
        refresh_hash_in(revoked_at(s, i, now), h) == refresh_hash_in(s, h),
{
    let r = revoked_at(s, i, now);
    if refresh_hash_in(s, h) {
        let k = choose|k: int| 0 <= k < s.len() && #[trigger] s[k].token_hash@ == h;
        assert(r[k].token_hash@ == h);
    }
    if refresh_hash_in(r, h) {
        let k = choose|k: int| 0 <= k < r.len() && #[trigger] r[k].token_hash@ == h;
        assert(s[k].token_hash@ == h);
    }
}

/// The contract of `logout` at the clock reading `now`.
pub open spec fn logout_spec(
    old: UserTables,
    new: UserTables,
    token: Seq<char>,
    now: i64,
    res: Result<(), AuthServiceError>,
) -> bool {
    &&& !refresh_hash_in(old.refresh_tokens(), text_hash(token)) ==> {
        &&& res matches Err(AuthServiceError::Unauthorized(m)) && m@ == "Invalid refresh token"@
        &&& unchanged(old, new)
    }
    &&& forall|i: int|
        0 <= i < old.refresh_tokens().len() && (#[trigger] old.refresh_tokens()[i]).token_hash@
            == text_hash(token) ==> {
            &&& res is Ok
            &&& old.refresh_tokens()[i].revoked_at is Some ==> unchanged(old, new)
            &&& old.refresh_tokens()[i].revoked_at is None ==> {
                &&& only_refresh_tokens_differ(old, new)
                &&& new.refresh_tokens() == revoked_at(old.refresh_tokens(), i, now)
                &&& new.last_refresh_token_id() == old.last_refresh_token_id()
            }
        }
}

/// Implementation of the customer authentication service over the `user` tables.
pub struct AuthServiceImpl {
    /// The customer-side tables.
    pub db: UserTables,
    /// Application configuration.
    pub config: Config,
}

impl AuthServiceImpl {
    /// The tables are consistent and the TTLs are within range.
    pub open spec fn wf(&self) -> bool {
        &&& self.db.wf()
        &&& self.config.email_verification_token_ttl <= MAX_TTL_SECONDS
        &&& self.config.refresh_token_ttl <= MAX_TTL_SECONDS
    }

    /// The service over empty tables.
    pub fn new(config: Config) -> (res: AuthServiceImpl)
        requires
            config.email_verification_token_ttl <= MAX_TTL_SECONDS,
            config.refresh_token_ttl <= MAX_TTL_SECONDS,
        ensures
            res.wf(),
            res.config == config,
            res.db.users().len() == 0,
            res.db.refresh_tokens().len() == 0,
            res.db.verification_tokens().len() == 0,
            res.db.last_user_id() == 0,
            res.db.last_refresh_token_id() == 0,
            res.db.last_verification_token_id() == 0,
    {
        AuthServiceImpl { db: UserTables::new(), config }
    }

    /// The verification e-mail for a token: its link is the base URL followed by
    /// the verification path and the token.
    fn verification_email(&self, email: &str, token: String) -> (res: VerificationEmail)
        ensures
            res.token@ == token@,
            mail_for(res, email@, self.config.base_url@),
    {
        let prefix = concat(self.config.base_url.as_str(), "/api/v1/auth/verify-email?token=");
        let link = concat(prefix.as_str(), token.as_str());
        VerificationEmail { to: owned(email), token, link }
    }

    /// Issues an access token (JWT) and a refresh token to a user, storing the
    /// refresh token's hash.
    fn issue_tokens(&mut self, user: &UserRow, now: i64, refresh_token: String) -> (res: Result<
        (String, String),
        AuthServiceError,
    >)
        requires
            old(self).wf(),
        ensures
            final(self).wf(),
            final(self).config == old(self).config,
            only_refresh_tokens_differ(old(self).db, final(self).db),
            !encode_outcome_ok(now, old(self).config.access_token_ttl) ==> (res matches Err(
                AuthServiceError::Internal(m),
            ) && m@ == "token generation failed"@),
            res is Err ==> unchanged(old(self).db, final(self).db),
            encode_outcome_ok(now, old(self).config.access_token_ttl) ==> {
                &&& (res matches Err(e) ==> e matches AuthServiceError::Database(d) && (d is UniqueViolation
                    || old(self).db.last_refresh_token_id() == i32::MAX))
                &&& old(self).db.last_refresh_token_id() == i32::MAX ==> res is Err
                &&& old(self).db.last_refresh_token_id() < i32::MAX
                    && old(self).db.refresh_tokens().len() == 0 ==> res is Ok
                &&& res is Ok <==> fresh_refresh_text(old(self).db, refresh_token@)
            },
            res matches Ok((_, refresh)) ==> refresh@ == refresh_token@,
            res matches Ok((access, refresh)) ==> {
                &&& access@.len() > 0
                &&& access@ == user_access_token(old(self).config, *user, now)
                &&& final(self).db.refresh_tokens().len() == old(self).db.refresh_tokens().len() + 1
                &&& final(self).db.refresh_tokens().drop_last() == old(self).db.refresh_tokens()
                &&& refresh_row_issued(
                    final(self).db.refresh_tokens().last(),
                    old(self).db.last_refresh_token_id() + 1,
                    user.id,
                    refresh@,
                    now,
                    old(self).config.refresh_token_ttl,
                )
                &&& final(self).db.last_refresh_token_id() == old(self).db.last_refresh_token_id() + 1
            },
    {
        let sub = decimal_text(user.id);
        let access_token = match jwt::encode_subject_at(
            sub.as_str(),
            user.role.as_str(),
            self.config.jwt_secret.as_str().as_bytes(),
            self.config.access_token_ttl,
            now,
        ) {
            Ok(t) => t,
            Err(_) => {
                return Err(AuthServiceError::Internal("token generation failed".to_owned()));
            },
        };
        let token_hash = hash_token(refresh_token.as_str());
        let expires_at = expiry_at(now, self.config.refresh_token_ttl);
        let ghost db0 = self.db;
        match self.db.insert_refresh_token(user.id, token_hash, expires_at, now) {
            Ok(_) => {},
            Err(e) => {
                return Err(AuthServiceError::Database(e));
            },
        }
        assert(self.db.refresh_tokens().drop_last() =~= db0.refresh_tokens());
        Ok((access_token, refresh_token))
    }

    /// Registers a user as of the clock reading `now`, with a verification token
    /// and the e-mail that carries it.
    pub fn register_at(&mut self, email: &str, password: &str, role: &str, now: i64) -> (res: Result<
        (RegisterResponse, VerificationEmail),
        AuthServiceError,
    >)
        requires
            old(self).wf(),
        ensures
            final(self).wf(),
            final(self).config == old(self).config,
            register_spec(old(self).db, final(self).db, old(self).config, email@, password@, role@, now, res),
    {
        if self.db.find_user_by_email(email).is_some() {
            return Err(AuthServiceError::Conflict("Email already registered".to_owned()));
        }
        let cost = password::default_cost();
        let password_hash = match password::hash(password, cost) {
            Ok(h) => h,
            Err(_) => {
                return Err(AuthServiceError::Internal("password hashing failed".to_owned()));
            },
        };
        let raw_token = clock::new_random_text();
        let ghost h = password_hash@;
        let ghost raw = raw_token@;
        let res = self.register_hashed(email, password_hash, role, raw_token, now);
        assert(register_hashed_spec(old(self).db, self.db, self.config, email@, h, role@, raw, now, res));
        res
    }

    /// Registers a user with a password hash and a verification token text
    /// already made, as of the clock reading `now`, and returns the e-mail that
    /// carries the token.
    pub fn register_hashed(
        &mut self,
        email: &str,
        password_hash: String,
        role: &str,
        raw_token: String,
        now: i64,
    ) -> (res: Result<(RegisterResponse, VerificationEmail), AuthServiceError>)
        requires
            old(self).wf(),
        ensures
            final(self).wf(),
            final(self).config == old(self).config,
            register_hashed_spec(
                old(self).db,
                final(self).db,
                old(self).config,
                email@,
                password_hash@,
                role@,
                raw_token@,
                now,
                res,
            ),
    {
        if self.db.find_user_by_email(email).is_some() {
            return Err(AuthServiceError::Conflict("Email already registered".to_owned()));
        }
        let (last_user, _, last_token) = self.db.last_ids();
        if last_user == i32::MAX || last_token == i32::MAX {
            return Err(AuthServiceError::Database(StoreError::KeyExhausted));
        }
        let token_hash = hash_token(raw_token.as_str());
        if self.db.find_verification_token_by_hash(token_hash.as_str()).is_some() {
            return Err(AuthServiceError::Database(StoreError::UniqueViolation));
        }
        let expires_at = expiry_at(now, self.config.email_verification_token_ttl);
        let ghost db0 = self.db;
        let ghost h = password_hash@;
        let user_id = match self.db.insert_user(owned(email), password_hash, owned(role), true, now) {
            Ok(id) => id,
            Err(e) => {
                assert(false);
                return Err(AuthServiceError::Database(e));
            },
        };
        let ghost db1 = self.db;
        match self.db.insert_verification_token(user_id, token_hash, expires_at, now) {
            Ok(_) => {},
            Err(e) => {
                assert(false);
                return Err(AuthServiceError::Database(e));
            },
        }
        assert(self.db.users().drop_last() =~= db0.users());
        assert(self.db.verification_tokens().drop_last() =~= db1.verification_tokens());
        let mail = self.verification_email(email, raw_token);
        Ok((RegisterResponse { message: "Please check your email to verify your account.".to_owned() }, mail))
    }

    /// Registers a user with a verification token, and returns the e-mail that
    /// carries it.
    ///
    /// Fails with `Conflict` if the e-mail address is already registered.
    pub fn register(&mut self, email: &str, password: &str, role: &str) -> (res: Result<
        (RegisterResponse, VerificationEmail),
        AuthServiceError,
    >)
        requires
            old(self).wf(),
        ensures
            final(self).wf(),
            final(self).config == old(self).config,
            exists|now: i64|
                register_spec(old(self).db, final(self).db, old(self).config, email@, password@, role@, now, res),
    {
        let now = clock::now_micros();
        self.register_at(email, password, role, now)
    }

    /// Authenticates a user by e-mail address and password as of the clock
    /// reading `now`, and issues an access token and a refresh token.
    pub fn login_at(&mut self, email: &str, password: &str, now: i64) -> (res: Result<AuthResponse, AuthServiceError>)
        requires
            old(self).wf(),
        ensures
            final(self).wf(),
            final(self).config == old(self).config,
            login_spec(old(self).db, final(self).db, old(self).config, email@, password@, now, res),
    {
        let refresh_token = clock::new_random_text();
        self.login_with(email, password, now, refresh_token)
    }

    /// Authenticates a user as `login_at` does, the refresh token being the given
    /// text: once the credentials and the account pass, it succeeds exactly when
    /// a refresh key is left and the hash of the text is not stored.
    pub fn login_with(&mut self, email: &str, password: &str, now: i64, refresh_token: String) -> (res:
        Result<AuthResponse, AuthServiceError>)
        requires
            old(self).wf(),
        ensures
            final(self).wf(),
            final(self).config == old(self).config,
            login_spec(old(self).db, final(self).db, old(self).config, email@, password@, now, res),
            login_drawn(old(self).db, old(self).config, email@, password@, now, refresh_token@, res),
    {
        let j = match self.db.find_user_by_email(email) {
            Some(j) => j,
            None => {
                return Err(AuthServiceError::NotFound("Invalid email or password".to_owned()));
            },
        };
        let ghost db0 = self.db;
        assert forall|k: int|
            0 <= k < db0.users().len() && (#[trigger] db0.users()[k]).email@ == email@ implies k == j by {}
        let user = self.db.user(j).duplicate();
        let valid = match password::verify(password, user.password_hash.as_str()) {
            Ok(b) => b,
            Err(_) => {
                return Err(AuthServiceError::Unauthorized("Invalid email or password".to_owned()));
            },
        };
        if !valid {
            return Err(AuthServiceError::Unauthorized("Invalid email or password".to_owned()));
        }
        if user.email_verified_at.is_none() {
            return Err(
                AuthServiceError::NotVerified("Email not verified. Please check your email.".to_owned()),
            );
        }
        if !user.is_active {
            return Err(AuthServiceError::Unauthorized("Account is deactivated".to_owned()));
        }
        let (access_token, refresh_token) = match self.issue_tokens(&user, now, refresh_token) {
            Ok(p) => p,
            Err(e) => {
                return Err(e);
            },
        };
        Ok(AuthResponse { user: UserResponse::from_row(&user), access_token, refresh_token })
    }

    /// Authenticates a user by e-mail address and password, and issues an access
    /// token and a refresh token.
    ///
    /// Fails with `NotFound` for an unknown address, `Unauthorized` for a wrong
    /// password or a deactivated account, or `NotVerified` when the address has
    /// not been verified.
    pub fn login(&mut self, email: &str, password: &str) -> (res: Result<AuthResponse, AuthServiceError>)
        requires
            old(self).wf(),
        ensures
            final(self).wf(),
            final(self).config == old(self).config,
            exists|now: i64| login_spec(old(self).db, final(self).db, old(self).config, email@, password@, now, res),
    {
        let now = clock::now_micros();
        self.login_at(email, password, now)
    }

    /// Verifies a user's e-mail address with the token from the link, as of the
    /// clock reading `now`; the token is used up.
    pub fn verify_email_at(&mut self, raw_token: &str, now: i64) -> (res: Result<VerifyEmailResponse, AuthServiceError>)
        requires
            old(self).wf(),
        ensures
            final(self).wf(),
            final(self).config == old(self).config,
            verify_email_spec(old(self).db, final(self).db, raw_token@, now, res),
    {
        let token_hash = hash_token(raw_token);
        let i = match self.db.find_verification_token_by_hash(token_hash.as_str()) {
            Some(i) => i,
            None => {
                return Err(AuthServiceError::NotFound("Invalid verification token".to_owned()));
            },
        };
        let ghost db0 = self.db;
        assert forall|k: int|
            0 <= k < db0.verification_tokens().len() && (#[trigger] db0.verification_tokens()[k]).token_hash@
                == token_hash@ implies k == i by {}
        let expires_at = self.db.verification_token(i).expires_at;
        let user_id = self.db.verification_token(i).user_id;
        if expires_at < now {
            return Err(
                AuthServiceError::NotFound(
                    "Verification token expired. Please request a new one.".to_owned(),
                ),
            );
        }
        let j = match self.db.find_user_by_id(user_id) {
            Some(j) => j,
            None => {
                return Err(AuthServiceError::NotFound("User not found".to_owned()));
            },
        };
        assert forall|k: int|
            0 <= k < db0.users().len() && (#[trigger] db0.users()[k]).id == user_id implies k == j by {}
        self.db.set_user_verified(j, now);
        self.db.delete_verification_token_at(i);
        Ok(VerifyEmailResponse { message: "Email verified successfully. You can now log in.".to_owned() })
    }

    /// Verifies a user's e-mail address with the token from the link.
    ///
    /// Fails with `NotFound` if the token is unknown or expired, or its user no
    /// longer exists.
    pub fn verify_email(&mut self, raw_token: &str) -> (res: Result<VerifyEmailResponse, AuthServiceError>)
        requires
            old(self).wf(),
        ensures
            final(self).wf(),
            final(self).config == old(self).config,
            exists|now: i64| verify_email_spec(old(self).db, final(self).db, raw_token@, now, res),
    {
        let now = clock::now_micros();
        self.verify_email_at(raw_token, now)
    }

    /// Replaces an unverified user's verification tokens with a new one as of
    /// the clock reading `now`, and returns the e-mail that carries it. The reply
    /// is the same whether or not such a user exists.
    pub fn resend_verification_at(&mut self, email: &str, now: i64) -> (res: Result<
        (ResendVerificationResponse, Option<VerificationEmail>),
        AuthServiceError,
    >)
        requires
            old(self).wf(),
        ensures
            final(self).wf(),
            final(self).config == old(self).config,
            resend_spec(old(self).db, final(self).db, old(self).config, email@, now, res),
    {
        let raw_token = clock::new_random_text();
        self.resend_with(email, now, raw_token)
    }

    /// Replaces an unverified user's verification tokens as `resend_verification_at`
    /// does, the new token being the given text: for an unverified user it
    /// succeeds exactly when a key is left and the hash of the text is not held
    /// by a token of another user.
    pub fn resend_with(&mut self, email: &str, now: i64, raw_token: String) -> (res: Result<
        (ResendVerificationResponse, Option<VerificationEmail>),
        AuthServiceError,
    >)
        requires
            old(self).wf(),
        ensures
            final(self).wf(),
            final(self).config == old(self).config,
            resend_spec(old(self).db, final(self).db, old(self).config, email@, now, res),
            resend_drawn(old(self).db, email@, raw_token@, res),
    {
        let generic =
            "If an account with that email exists and is not yet verified, we've sent a verification email.";
        let j = match self.db.find_user_by_email(email) {
            Some(j) => j,
            None => {
                return Ok((ResendVerificationResponse { message: generic.to_owned() }, None));
            },
        };
        let ghost db0 = self.db;
        assert forall|k: int|
            0 <= k < db0.users().len() && (#[trigger] db0.users()[k]).email@ == email@ implies k == j by {}
        if self.db.user(j).email_verified_at.is_some() {
            return Ok((ResendVerificationResponse { message: generic.to_owned() }, None));
        }
        let user_id = self.db.user(j).id;
        self.db.delete_verification_tokens_of_user(user_id);
        let token_hash = hash_token(raw_token.as_str());
        let expires_at = expiry_at(now, self.config.email_verification_token_ttl);
        let ghost db1 = self.db;
        match self.db.insert_verification_token(user_id, token_hash, expires_at, now) {
            Ok(_) => {},
            Err(e) => {
                return Err(AuthServiceError::Database(e));
            },
        }
        assert(self.db.verification_tokens().drop_last() =~= db1.verification_tokens());
        let mail = self.verification_email(email, raw_token);
        Ok((ResendVerificationResponse { message: generic.to_owned() }, Some(mail)))
    }

    /// Replaces an unverified user's verification tokens with a new one, and
    /// returns the e-mail that carries it. The reply is the same whether or not
    /// such a user exists.
    pub fn resend_verification(&mut self, email: &str) -> (res: Result<
        (ResendVerificationResponse, Option<VerificationEmail>),
        AuthServiceError,
    >)
        requires
            old(self).wf(),
        ensures
            final(self).wf(),
            final(self).config == old(self).config,
            exists|now: i64| resend_spec(old(self).db, final(self).db, old(self).config, email@, now, res),
    {
        let now = clock::now_micros();
        self.resend_verification_at(email, now)
    }

    /// Exchanges a refresh token for a new access and refresh token as of the
    /// clock reading `now`; the presented token is revoked.
    pub fn refresh_at(&mut self, token: &str, now: i64) -> (res: Result<RefreshResponse, AuthServiceError>)
        requires
            old(self).wf(),
        ensures
            final(self).wf(),
            final(self).config == old(self).config,
            refresh_spec(old(self).db, final(self).db, old(self).config, token@, now, res),
    {
        let new_token = clock::new_random_text();
        self.refresh_with(token, now, new_token)
    }

    /// Exchanges a refresh token as `refresh_at` does, the new refresh token
    /// being the given text: once the presented token and the account pass, it
    /// succeeds exactly when a refresh key is left and the hash of the text is
    /// not stored.
    pub fn refresh_with(&mut self, token: &str, now: i64, new_token: String) -> (res: Result<
        RefreshResponse,
        AuthServiceError,
    >)
        requires
            old(self).wf(),
        ensures
            final(self).wf(),
            final(self).config == old(self).config,
            refresh_spec(old(self).db, final(self).db, old(self).config, token@, now, res),
            refresh_drawn(old(self).db, old(self).config, token@, now, new_token@, res),
    {
        let token_hash = hash_token(token);
        let i = match self.db.find_refresh_token_by_hash(token_hash.as_str()) {
            Some(i) => i,
            None => {
                return Err(AuthServiceError::Unauthorized("Invalid refresh token".to_owned()));
            },
        };
        let ghost db0 = self.db;
        assert forall|k: int|
            0 <= k < db0.refresh_tokens().len() && (#[trigger] db0.refresh_tokens()[k]).token_hash@
                == token_hash@ implies k == i by {}
        let stored = self.db.refresh_token(i).duplicate();
        if stored.revoked_at.is_some() {
            return Err(AuthServiceError::Unauthorized("Refresh token revoked".to_owned()));
        }
        if stored.expires_at < now {
            return Err(AuthServiceError::Unauthorized("Refresh token expired".to_owned()));
        }
        self.db.revoke_refresh_token_at(i, now);
        let j = match self.db.find_user_by_id(stored.user_id) {
            Some(j) => j,
            None => {
                return Err(AuthServiceError::NotFound("User not found".to_owned()));
            },
        };
        assert forall|k: int|
            0 <= k < db0.users().len() && (#[trigger] db0.users()[k]).id == stored.user_id implies k
                == j by {}
        let user = self.db.user(j).duplicate();
        if !user.is_active {
            return Err(AuthServiceError::Unauthorized("Account is deactivated".to_owned()));
        }
        proof {
            lemma_revoked_keeps_hashes(db0.refresh_tokens(), i as int, now, text_hash(new_token@));
        }
        let (access_token, refresh_token) = match self.issue_tokens(&user, now, new_token) {
            Ok(p) => p,
            Err(e) => {
                return Err(e);
            },
        };
        Ok(RefreshResponse { access_token, refresh_token })
    }

    /// Exchanges a refresh token for a new access and refresh token; the
    /// presented token is revoked.
    ///
    /// Fails with `Unauthorized` if the token is unknown, revoked or expired, or
    /// the account is deactivated, and `NotFound` if its user no longer exists.
    pub fn refresh(&mut self, token: &str) -> (res: Result<RefreshResponse, AuthServiceError>)
        requires
            old(self).wf(),
        ensures
            final(self).wf(),
            final(self).config == old(self).config,
            exists|now: i64| refresh_spec(old(self).db, final(self).db, old(self).config, token@, now, res),
    {
        let now = clock::now_micros();
        self.refresh_at(token, now)
    }

    /// Revokes a refresh token as of the clock reading `now`. A token that is
    /// already revoked is accepted as it is.
    pub fn logout_at(&mut self, token: &str, now: i64) -> (res: Result<(), AuthServiceError>)
        requires
            old(self).wf(),
        ensures
            final(self).wf(),
            final(self).config == old(self).config,
            logout_spec(old(self).db, final(self).db, token@, now, res),
    {
        let token_hash = hash_token(token);
        let i = match self.db.find_refresh_token_by_hash(token_hash.as_str()) {
            Some(i) => i,
            None => {
                return Err(AuthServiceError::Unauthorized("Invalid refresh token".to_owned()));
            },
        };
        let ghost db0 = self.db;
        assert forall|k: int|
            0 <= k < db0.refresh_tokens().len() && (#[trigger] db0.refresh_tokens()[k]).token_hash@
                == token_hash@ implies k == i by {}
        if self.db.refresh_token(i).revoked_at.is_some() {
            return Ok(());
        }
        self.db.revoke_refresh_token_at(i, now);
        Ok(())
    }

    /// Revokes a refresh token.
    ///
    /// Fails with `Unauthorized` if the token is unknown.
    pub fn logout(&mut self, token: &str) -> (res: Result<(), AuthServiceError>)
        requires
            old(self).wf(),
        ensures
            final(self).wf(),
            final(self).config == old(self).config,
            exists|now: i64| logout_spec(old(self).db, final(self).db, token@, now, res),
    {
        let now = clock::now_micros();
        self.logout_at(token, now)
    }

    /// The profile of the user with the given id.
    ///
    /// Fails with `Unauthorized` if no user has the id.
    pub fn get_me(&self, user_id: i32) -> (res: Result<MeResponse, AuthServiceError>)
        requires
            self.wf(),
        ensures
            !user_id_taken(self.db.users(), user_id) ==> (res matches Err(
                AuthServiceError::Unauthorized(m),
            ) && m@ == "User not found"@),
            forall|j: int|
                0 <= j < self.db.users().len() && (#[trigger] self.db.users()[j]).id == user_id
                    ==> (res matches Ok(r) && shows_profile(r, self.db.users()[j])),
    {
        match self.db.find_user_by_id(user_id) {
            Some(j) => {
                assert forall|k: int|
                    0 <= k < self.db.users().len() && (#[trigger] self.db.users()[k]).id == user_id
                        implies k == j by {}
                Ok(MeResponse::from_row(self.db.user(j)))
            },
            None => Err(AuthServiceError::Unauthorized("User not found".to_owned())),
        }
    }
}

} // verus!
