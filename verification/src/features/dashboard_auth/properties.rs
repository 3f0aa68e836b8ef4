//! Properties of the dashboard authentication service that span several calls.

use vstd::prelude::*;

use super::service::{DashboardAuthServiceError, LoginResult};
use super::service_impl::{
    expiry_after, fresh_refresh, login_case, login_spec, logout_spec, presented_hash, refresh_case,
    refresh_drawn, refresh_spec,
    register_spec, resend_case, resend_spec, same_tables, secret_bytes, verify_all_spec,
    verify_email_case, verify_email_spec, TokenConfig,
};
use crate::auth::jwt::{access_token_spec, encode_outcome_ok, jwt_expiry, token_carries, Claims};
use crate::auth::token::{hex_encode_spec, is_hex_text, lemma_hex_roundtrip};
use crate::repositories::{
    has_email, has_employee, refresh_hash_taken, revoke_by_hash, revoked, verification_hash_taken,
    Database, Employee,
};

verus! {

/// Only one owner can ever register: once a registration has succeeded, every
/// later registration with a long enough password is refused with
/// `OwnerAlreadyExists` and changes nothing.
pub proof fn lemma_owner_registers_once(
    p0: Database,
    p1: Database,
    p2: Database,
    cost: u32,
    ttl: u64,
    email1: Seq<char>,
    password1: Seq<char>,
    email2: Seq<char>,
    password2: Seq<char>,
    r2: Result<(), DashboardAuthServiceError>,
)
    requires
        register_spec(p0, p1, cost, ttl, email1, password1, Ok(())),
        register_spec(p1, p2, cost, ttl, email2, password2, r2),
        password2.len() >= 8,
    ensures
        r2 matches Err(DashboardAuthServiceError::OwnerAlreadyExists),
        same_tables(p1, p2),
{
}

/// A freshly registered owner cannot log in before the address is verified,
/// whatever the password.
pub proof fn lemma_login_requires_verification(
    p0: Database,
    p1: Database,
    p2: Database,
    cost: u32,
    ttl: u64,
    cfg: TokenConfig,
    email: Seq<char>,
    password: Seq<char>,
    attempt: Seq<char>,
    now: i64,
    r2: Result<LoginResult, DashboardAuthServiceError>,
)
    requires
        register_spec(p0, p1, cost, ttl, email, password, Ok(())),
        login_spec(p1, p2, cfg, email, attempt, now, r2),
    ensures
        r2 matches Err(DashboardAuthServiceError::EmailNotVerified),
        same_tables(p1, p2),
{
    assert(p1.employees()[0].email@ == email);
}

/// After registration and verification the owner logs in with the registered
/// password: the login succeeds (at any clock reading for which the access token
/// can be encoded) and stores exactly one refresh token.
pub proof fn lemma_login_after_verification(
    p0: Database,
    p1: Database,
    p2: Database,
    p3: Database,
    cost: u32,
    ttl: u64,
    cfg: TokenConfig,
    email: Seq<char>,
    password: Seq<char>,
    now1: i64,
    now2: i64,
    r3: Result<LoginResult, DashboardAuthServiceError>,
)
    requires
        p0.wf(),
        register_spec(p0, p1, cost, ttl, email, password, Ok(())),
        verify_all_spec(p1, p2, now1),
        login_spec(p2, p3, cfg, email, password, now2, r3),
        encode_outcome_ok(now2, cfg.access_token_ttl),
    ensures
        r3 is Ok,
        p3.refresh_tokens().len() == 1,
        p3.refresh_tokens()[0].employee_id == p1.employees()[0].id,
{
    assert(p0.refresh_tokens().len() == 0) by {
        if p0.refresh_tokens().len() > 0 {
            assert(has_employee(p0.employees(), p0.refresh_tokens()[0].employee_id));
        }
    }
    assert(p2.employees()[0].email@ == email);
    assert(p2.employees()[0] == Employee { email_verified_at: Some(now1), ..p1.employees()[0] });
}

/// A refresh token can be exchanged only once: after a successful refresh, the
/// same token is refused with `InvalidCredentials` and nothing changes.
pub proof fn lemma_refresh_token_single_use(
    p0: Database,
    p1: Database,
    p2: Database,
    cfg: TokenConfig,
    token: Seq<char>,
    now1: i64,
    now2: i64,
    r1: Result<LoginResult, DashboardAuthServiceError>,
    r2: Result<LoginResult, DashboardAuthServiceError>,
)
    requires
        refresh_spec(p0, p1, cfg, token, now1, r1),
        r1 is Ok,
        refresh_spec(p1, p2, cfg, token, now2, r2),
    ensures
        r2 matches Err(DashboardAuthServiceError::InvalidCredentials),
        same_tables(p1, p2),
{
    let h = presented_hash(token);
    assert(is_hex_text(token));
    assert(refresh_hash_taken(p0.refresh_tokens(), h));
    let i = choose|i: int| 0 <= i < p0.refresh_tokens().len() && #[trigger] p0.refresh_tokens()[i].token_hash@ == h;
    let t = p0.refresh_tokens()[i];
    assert(refresh_case(p0, p1, cfg, t, now1, r1));
    let j = choose|j: int| 0 <= j < p0.employees().len() && #[trigger] p0.employees()[j].id == t.employee_id;
    assert(p0.employees()[j].id == t.employee_id);
    let base = revoke_by_hash(p0.refresh_tokens(), t.token_hash@, now1);
    assert(p1.refresh_tokens().drop_last() == base);
    assert(p1.refresh_tokens()[i] == base[i]);
    assert(p1.refresh_tokens()[i].token_hash@ == h);
    assert(p1.refresh_tokens()[i].revoked_at is Some);
}

/// After a logout, the logged-out refresh token is refused with
/// `InvalidCredentials`.
pub proof fn lemma_logout_revokes(
    p0: Database,
    p1: Database,
    p2: Database,
    cfg: TokenConfig,
    token: Seq<char>,
    now1: i64,
    now2: i64,
    r2: Result<LoginResult, DashboardAuthServiceError>,
)
    requires
        logout_spec(p0, p1, token, now1, Ok(())),
        refresh_spec(p1, p2, cfg, token, now2, r2),
    ensures
        r2 matches Err(DashboardAuthServiceError::InvalidCredentials),
        same_tables(p1, p2),
{
    let h = presented_hash(token);
    if refresh_hash_taken(p1.refresh_tokens(), h) {
        let i = choose|i: int| 0 <= i < p1.refresh_tokens().len() && #[trigger] p1.refresh_tokens()[i].token_hash@ == h;
        assert(p1.refresh_tokens()[i] == revoked(p0.refresh_tokens()[i], now1));
        assert(p1.refresh_tokens()[i].revoked_at is Some);
    }
}

/// Logging out twice with the same token is the same as logging out once: both
/// calls succeed and the second changes nothing.
pub proof fn lemma_logout_idempotent(
    p0: Database,
    p1: Database,
    p2: Database,
    token: Seq<char>,
    now1: i64,
    now2: i64,
    r2: Result<(), DashboardAuthServiceError>,
)
    requires
        logout_spec(p0, p1, token, now1, Ok(())),
        logout_spec(p1, p2, token, now2, r2),
    ensures
        r2 is Ok,
        same_tables(p1, p2),
{
    let h = presented_hash(token);
    let s1 = p1.refresh_tokens();
    assert(revoke_by_hash(s1, h, now2) =~= s1) by {
        assert forall|k: int| 0 <= k < s1.len() implies #[trigger] revoke_by_hash(s1, h, now2)[k]
            == s1[k] by {
            if s1[k].token_hash@ == h {
                assert(s1[k] == revoked(p0.refresh_tokens()[k], now1));
            }
        }
    }
}

/// The refresh token that a login hands out is accepted by `refresh` until it
/// expires: the exchange succeeds unless the fresh token's id or hash collides
/// with a stored one.
pub proof fn lemma_login_token_refreshes(
    p0: Database,
    p1: Database,
    p2: Database,
    cfg: TokenConfig,
    email: Seq<char>,
    password: Seq<char>,
    now1: i64,
    now2: i64,
    login: LoginResult,
    r2: Result<LoginResult, DashboardAuthServiceError>,
)
    requires
        p1.wf(),
        login_spec(p0, p1, cfg, email, password, now1, Ok(login)),
        refresh_spec(p1, p2, cfg, hex_encode_spec(login.refresh_token@), now2, r2),
        now2 <= expiry_after(now1, cfg.refresh_token_ttl),
        encode_outcome_ok(now2, cfg.access_token_ttl),
    ensures
        r2 is Ok || r2 matches Err(DashboardAuthServiceError::Database(_)),
{
    let text = hex_encode_spec(login.refresh_token@);
    lemma_hex_roundtrip(login.refresh_token@);
    assert(has_email(p0.employees(), email));
    let i = choose|i: int| 0 <= i < p0.employees().len() && #[trigger] p0.employees()[i].email@ == email;
    let e = p0.employees()[i];
    assert(login_case(p0, p1, cfg, e, password, now1, Ok(login)));
    let n = p1.refresh_tokens().len() - 1;
    let t = p1.refresh_tokens()[n];
    assert(t == p1.refresh_tokens().last());
    assert(t.token_hash@ == presented_hash(text));
    assert(refresh_hash_taken(p1.refresh_tokens(), presented_hash(text)));
    assert(p1.employees()[i] == e);
    assert(has_employee(p1.employees(), t.employee_id));
    assert(refresh_case(p1, p2, cfg, t, now2, r2));
}

/// The refresh token that a login hands out is exchanged by `refresh_with` until
/// it expires, whatever other refresh tokens are stored: the exchange succeeds
/// exactly when the drawn bytes and id are fresh, and then hands out those bytes.
pub proof fn lemma_login_token_refreshes_with(
    p0: Database,
    p1: Database,
    p2: Database,
    cfg: TokenConfig,
    email: Seq<char>,
    password: Seq<char>,
    now1: i64,
    now2: i64,
    login: LoginResult,
    raw: Seq<u8>,
    id: u128,
    r2: Result<LoginResult, DashboardAuthServiceError>,
)
    requires
        p1.wf(),
        login_spec(p0, p1, cfg, email, password, now1, Ok(login)),
        refresh_drawn(p1, p2, cfg, hex_encode_spec(login.refresh_token@), now2, raw, id, r2),
        now2 <= expiry_after(now1, cfg.refresh_token_ttl),
        encode_outcome_ok(now2, cfg.access_token_ttl),
    ensures
        r2 is Ok <==> fresh_refresh(p1.refresh_tokens(), raw, id),
        r2 matches Ok(r) ==> r.refresh_token@ == raw,
{
    let text = hex_encode_spec(login.refresh_token@);
    lemma_hex_roundtrip(login.refresh_token@);
    assert(has_email(p0.employees(), email));
    let i = choose|i: int| 0 <= i < p0.employees().len() && #[trigger] p0.employees()[i].email@ == email;
    let e = p0.employees()[i];
    assert(login_case(p0, p1, cfg, e, password, now1, Ok(login)));
    let n = p1.refresh_tokens().len() - 1;
    let t = p1.refresh_tokens()[n];
    assert(t == p1.refresh_tokens().last());
    assert(t.token_hash@ == presented_hash(text));
    assert(p1.employees()[i] == e);
    assert(p1.employees()[i].id == t.employee_id);
    assert forall|j: int|
        0 <= j < p1.employees().len() && (#[trigger] p1.employees()[j]).id == t.employee_id implies j
            == i by {}
}

/// The token that `resend_verification_email` returns verifies the address until
/// it expires: `verify_email` with it succeeds and marks the employee verified.
pub proof fn lemma_resent_token_verifies(
    p0: Database,
    p1: Database,
    p2: Database,
    ttl: u64,
    email: Seq<char>,
    now1: i64,
    now2: i64,
    token_hex: String,
    r2: Result<(), DashboardAuthServiceError>,
)
    requires
        p1.wf(),
        resend_spec(p0, p1, ttl, email, now1, Ok(token_hex)),
        verify_email_spec(p1, p2, token_hex@, now2, r2),
        now2 <= expiry_after(now1, ttl),
    ensures
        r2 is Ok,
        exists|j: int|
            0 <= j < p2.employees().len() && (#[trigger] p2.employees()[j]).email@ == email
                && p2.employees()[j].email_verified_at == Some(now2),
{
    assert(has_email(p0.employees(), email));
    let j = choose|j: int| 0 <= j < p0.employees().len() && #[trigger] p0.employees()[j].email@ == email;
    let e = p0.employees()[j];
    assert(resend_case(p0, p1, ttl, e, now1, Ok(token_hex)));
    let n = p1.verification_tokens().len() - 1;
    let t = p1.verification_tokens()[n];
    assert(t == p1.verification_tokens().last());
    assert(verification_hash_taken(p1.verification_tokens(), presented_hash(token_hex@)));
    assert(p1.employees()[j] == e);
    assert(verify_email_case(p1, p2, t, now2, r2));
    assert(p2.employees()[j].email@ == email);
}

/// The access token that a login returns carries the employee: decoded with the
/// configured secret, its subject is the employee's id, its role the employee's
/// role, and its expiry the login time plus the access token TTL.
pub proof fn lemma_login_access_token_decodes(
    p0: Database,
    p1: Database,
    cfg: TokenConfig,
    email: Seq<char>,
    password: Seq<char>,
    now: i64,
    r: LoginResult,
    c: Claims,
)
    requires
        login_spec(p0, p1, cfg, email, password, now, Ok(r)),
        token_carries(r.access_token@, secret_bytes(cfg), c),
    ensures
        has_email(p0.employees(), email),
        forall|j: int|
            0 <= j < p0.employees().len() && (#[trigger] p0.employees()[j]).email@ == email ==> {
                &&& c.sub == p0.employees()[j].id
                &&& c.role@ == p0.employees()[j].role@
                &&& c.exp == jwt_expiry(now, cfg.access_token_ttl) as usize
            },
{
    assert forall|j: int|
        0 <= j < p0.employees().len() && (#[trigger] p0.employees()[j]).email@ == email implies {
            &&& c.sub == p0.employees()[j].id
            &&& c.role@ == p0.employees()[j].role@
            &&& c.exp == jwt_expiry(now, cfg.access_token_ttl) as usize
        } by {
        let e = p0.employees()[j];
        assert(login_case(p0, p1, cfg, e, password, now, Ok(r)));
        assert(r.access_token@ == access_token_spec(
            e.id,
            e.role@,
            secret_bytes(cfg),
            jwt_expiry(now, cfg.access_token_ttl) as usize,
        ));
    }
}

} // verus!
