//! Properties of the customer authentication service that span several calls.

use vstd::prelude::*;

use super::service::{
    AuthResponse, AuthServiceError, RefreshResponse, RegisterResponse, ResendVerificationResponse,
    VerificationEmail, VerifyEmailResponse,
};
use super::service_impl::{
    fresh_refresh_text, login_case, login_spec, logout_spec, refresh_case, refresh_drawn,
    refresh_issue, refresh_spec,
    register_spec, resend_case, resend_message, resend_spec, revoked_at, text_hash, unchanged,
    verify_email_case, verify_email_spec,
};
use super::store::{
    refresh_hash_in, user_email_taken, user_id_taken, verification_hash_in, UserRow, UserTables,
};
use crate::auth::jwt::encode_outcome_ok;
use crate::auth::password::bcrypt_verify_outcome;
use crate::config::Config;
use crate::repositories::StoreError;
use crate::features::dashboard_auth::service_impl::expiry_after;

verus! {

/// An e-mail address registers once: after a successful registration, every
/// later registration with the same address is refused with `Conflict` and
/// changes nothing.
pub proof fn lemma_email_registers_once(
    t0: UserTables,
    t1: UserTables,
    t2: UserTables,
    cfg: Config,
    email: Seq<char>,
    password1: Seq<char>,
    role1: Seq<char>,
    now1: i64,
    r1: (RegisterResponse, VerificationEmail),
    password2: Seq<char>,
    role2: Seq<char>,
    now2: i64,
    r2: Result<(RegisterResponse, VerificationEmail), AuthServiceError>,
)
    requires
        register_spec(t0, t1, cfg, email, password1, role1, now1, Ok(r1)),
        register_spec(t1, t2, cfg, email, password2, role2, now2, r2),
    ensures
        r2 matches Err(AuthServiceError::Conflict(m)) && m@ == "Email already registered"@,
        unchanged(t1, t2),
{
    let k = t1.users().len() - 1;
    assert(t1.users()[k].email@ == email);
    assert(user_email_taken(t1.users(), email));
}

/// A freshly registered user cannot log in before the address is verified: with
/// the registered password the login is refused with `NotVerified`, with any
/// other it is refused too, and nothing changes.
pub proof fn lemma_login_requires_verification(
    t0: UserTables,
    t1: UserTables,
    t2: UserTables,
    cfg: Config,
    email: Seq<char>,
    password: Seq<char>,
    role: Seq<char>,
    now1: i64,
    r1: (RegisterResponse, VerificationEmail),
    attempt: Seq<char>,
    now2: i64,
    r2: Result<AuthResponse, AuthServiceError>,
)
    requires
        t1.wf(),
        register_spec(t0, t1, cfg, email, password, role, now1, Ok(r1)),
        login_spec(t1, t2, cfg, email, attempt, now2, r2),
    ensures
        r2 is Err,
        unchanged(t1, t2),
        attempt == password ==> (r2 matches Err(AuthServiceError::NotVerified(_))),
{
    let k = t1.users().len() - 1;
    assert(t1.users()[k].email@ == email);
    assert(login_case(t1, t2, cfg, t1.users()[k], attempt, now2, r2));
}

/// The link of the registration e-mail verifies the address: presented before
/// it expires, the token is accepted and the new user is marked as verified.
pub proof fn lemma_registration_token_verifies(
    t0: UserTables,
    t1: UserTables,
    t2: UserTables,
    cfg: Config,
    email: Seq<char>,
    password: Seq<char>,
    role: Seq<char>,
    now1: i64,
    r1: (RegisterResponse, VerificationEmail),
    now2: i64,
    r2: Result<VerifyEmailResponse, AuthServiceError>,
)
    requires
        t1.wf(),
        register_spec(t0, t1, cfg, email, password, role, now1, Ok(r1)),
        verify_email_spec(t1, t2, r1.1.token@, now2, r2),
        now2 <= expiry_after(now1, cfg.email_verification_token_ttl),
    ensures
        r2 is Ok,
        t2.users().len() == t1.users().len(),
        t2.users().last().email@ == email,
        t2.users().last().email_verified_at == Some(now2),
{
    let i = t1.verification_tokens().len() - 1;
    let j = t1.users().len() - 1;
    let t = t1.verification_tokens()[i];
    assert(t.token_hash@ == text_hash(r1.1.token@));
    assert(verify_email_case(t1, t2, i, now2, r2));
    assert(t1.users()[j].id == t.user_id);
    assert(user_id_taken(t1.users(), t.user_id));
}

/// A verification token is used up: once it has verified an address, the same
/// token is refused as unknown and nothing changes.
pub proof fn lemma_verification_token_single_use(
    t0: UserTables,
    t1: UserTables,
    t2: UserTables,
    token: Seq<char>,
    now1: i64,
    now2: i64,
    r1: VerifyEmailResponse,
    r2: Result<VerifyEmailResponse, AuthServiceError>,
)
    requires
        t0.wf(),
        verify_email_spec(t0, t1, token, now1, Ok(r1)),
        verify_email_spec(t1, t2, token, now2, r2),
    ensures
        r2 matches Err(AuthServiceError::NotFound(m)) && m@ == "Invalid verification token"@,
        unchanged(t1, t2),
{
    let h = text_hash(token);
    let s = t0.verification_tokens();
    assert(verification_hash_in(s, h));
    let i = choose|i: int| 0 <= i < s.len() && #[trigger] s[i].token_hash@ == h;
    assert(verify_email_case(t0, t1, i, now1, Ok(r1)));
    let j = choose|j: int| 0 <= j < t0.users().len() && #[trigger] t0.users()[j].id == s[i].user_id;
    assert(t0.users()[j].id == s[i].user_id);
    assert(t1.verification_tokens() == s.remove(i));
    if verification_hash_in(t1.verification_tokens(), h) {
        let k = choose|k: int|
            0 <= k < t1.verification_tokens().len() && #[trigger] t1.verification_tokens()[k].token_hash@ == h;
        let k0 = if k < i { k } else { k + 1 };
        assert(t1.verification_tokens()[k] == s[k0]);
        assert(s[k0].token_hash@ == s[i].token_hash@);
    }
}

/// The reply to a request for a new verification e-mail is the same generic
/// message whether or not an unverified account has the address.
pub proof fn lemma_resend_reply_uniform(
    t0: UserTables,
    t1: UserTables,
    cfg: Config,
    email: Seq<char>,
    now: i64,
    r: (ResendVerificationResponse, Option<VerificationEmail>),
)
    requires
        resend_spec(t0, t1, cfg, email, now, Ok(r)),
    ensures
        r.0.message@ == resend_message(),
{
    if user_email_taken(t0.users(), email) {
        let j = choose|j: int| 0 <= j < t0.users().len() && #[trigger] t0.users()[j].email@ == email;
        assert(resend_case(t0, t1, cfg, t0.users()[j], now, Ok(r)));
    }
}

/// After a new verification e-mail is sent, its token is the user's only
/// verification token: every earlier one is gone.
pub proof fn lemma_resend_replaces_tokens(
    t0: UserTables,
    t1: UserTables,
    cfg: Config,
    email: Seq<char>,
    now: i64,
    r: ResendVerificationResponse,
    mail: VerificationEmail,
)
    requires
        resend_spec(t0, t1, cfg, email, now, Ok((r, Some(mail)))),
    ensures
        t1.verification_tokens().len() >= 1,
        t1.verification_tokens().last().token_hash@ == text_hash(mail.token@),
        forall|k: int|
            0 <= k < t1.verification_tokens().len() && (#[trigger] t1.verification_tokens()[k]).user_id
                == t1.verification_tokens().last().user_id ==> k == t1.verification_tokens().len() - 1,
{
    broadcast use vstd::seq_lib::group_filter_ensures;

    assert(user_email_taken(t0.users(), email));
    let j = choose|j: int| 0 <= j < t0.users().len() && #[trigger] t0.users()[j].email@ == email;
    let u = t0.users()[j];
    assert(resend_case(t0, t1, cfg, u, now, Ok((r, Some(mail)))));
    let s = t1.verification_tokens();
    assert forall|k: int| 0 <= k < s.len() && (#[trigger] s[k]).user_id == s.last().user_id implies k
        == s.len() - 1 by {
        if k < s.len() - 1 {
            assert(s[k] == s.drop_last()[k]);
        }
    }
}

/// A refresh token can be exchanged only once: after a successful refresh, the
/// same token is refused as revoked and nothing changes.
pub proof fn lemma_refresh_token_single_use(
    t0: UserTables,
    t1: UserTables,
    t2: UserTables,
    cfg: Config,
    token: Seq<char>,
    now1: i64,
    now2: i64,
    r1: RefreshResponse,
    r2: Result<RefreshResponse, AuthServiceError>,
)
    requires
        t0.wf(),
        t1.wf(),
        refresh_spec(t0, t1, cfg, token, now1, Ok(r1)),
        refresh_spec(t1, t2, cfg, token, now2, r2),
    ensures
        r2 matches Err(AuthServiceError::Unauthorized(m)) && m@ == "Refresh token revoked"@,
        unchanged(t1, t2),
{
    let h = text_hash(token);
    let s = t0.refresh_tokens();
    assert(refresh_hash_in(s, h));
    let i = choose|i: int| 0 <= i < s.len() && #[trigger] s[i].token_hash@ == h;
    assert(refresh_case(t0, t1, cfg, i, now1, Ok(r1)));
    let j = choose|j: int| 0 <= j < t0.users().len() && #[trigger] t0.users()[j].id == s[i].user_id;
    assert(t0.users()[j].id == s[i].user_id);
    assert(refresh_issue(t0, t1, cfg, i, t0.users()[j], now1, Ok(r1)));
    let mid = revoked_at(s, i, now1);
    let s1 = t1.refresh_tokens();
    assert(s1[i] == mid[i]);
    assert(s1[i].token_hash@ == h);
    assert(refresh_hash_in(s1, h));
    assert forall|k: int| 0 <= k < s1.len() && (#[trigger] s1[k]).token_hash@ == h implies k == i by {}
    assert(refresh_case(t1, t2, cfg, i, now2, r2));
}

/// Logging out revokes the refresh token: a later refresh with it is refused as
/// revoked and changes nothing.
pub proof fn lemma_logout_revokes(
    t0: UserTables,
    t1: UserTables,
    t2: UserTables,
    cfg: Config,
    token: Seq<char>,
    now1: i64,
    now2: i64,
    r2: Result<RefreshResponse, AuthServiceError>,
)
    requires
        t0.wf(),
        logout_spec(t0, t1, token, now1, Ok(())),
        refresh_spec(t1, t2, cfg, token, now2, r2),
    ensures
        r2 matches Err(AuthServiceError::Unauthorized(m)) && m@ == "Refresh token revoked"@,
        unchanged(t1, t2),
{
    let h = text_hash(token);
    let s = t0.refresh_tokens();
    assert(refresh_hash_in(s, h));
    let i = choose|i: int| 0 <= i < s.len() && #[trigger] s[i].token_hash@ == h;
    let s1 = t1.refresh_tokens();
    assert(s1[i].token_hash@ == h);
    assert(refresh_hash_in(s1, h));
    assert forall|k: int| 0 <= k < s1.len() && (#[trigger] s1[k]).token_hash@ == h implies k == i by {
        assert(s1[k].token_hash@ == s[k].token_hash@);
    }
    assert(refresh_case(t1, t2, cfg, i, now2, r2));
}

/// Logging out twice with the same token succeeds both times; the second call
/// changes nothing.
pub proof fn lemma_logout_idempotent(
    t0: UserTables,
    t1: UserTables,
    t2: UserTables,
    token: Seq<char>,
    now1: i64,
    now2: i64,
    r2: Result<(), AuthServiceError>,
)
    requires
        t0.wf(),
        logout_spec(t0, t1, token, now1, Ok(())),
        logout_spec(t1, t2, token, now2, r2),
    ensures
        r2 is Ok,
        unchanged(t1, t2),
{
    let h = text_hash(token);
    let s = t0.refresh_tokens();
    assert(refresh_hash_in(s, h));
    let i = choose|i: int| 0 <= i < s.len() && #[trigger] s[i].token_hash@ == h;
    let s1 = t1.refresh_tokens();
    assert(s1[i].token_hash@ == h);
    assert(s1[i].revoked_at is Some);
    assert(refresh_hash_in(s1, h));
}

/// The refresh token that a login returns can be exchanged: presented before it
/// expires, while the account is still active, the refresh is not refused: it
/// succeeds unless the store rejects the new row, which (while ids remain) only
/// a clash of the fresh token's hash with a stored one can cause.
pub proof fn lemma_login_token_refreshes(
    t0: UserTables,
    t1: UserTables,
    t2: UserTables,
    cfg: Config,
    email: Seq<char>,
    password: Seq<char>,
    now1: i64,
    now2: i64,
    r1: AuthResponse,
    r2: Result<RefreshResponse, AuthServiceError>,
)
    requires
        t1.wf(),
        login_spec(t0, t1, cfg, email, password, now1, Ok(r1)),
        refresh_spec(t1, t2, cfg, r1.refresh_token@, now2, r2),
        now2 <= expiry_after(now1, cfg.refresh_token_ttl),
        encode_outcome_ok(now2, cfg.access_token_ttl),
    ensures
        r2 is Ok || r2 matches Err(AuthServiceError::Database(_)),
        t1.last_refresh_token_id() < i32::MAX ==> (r2 is Ok || r2 matches Err(
            AuthServiceError::Database(StoreError::UniqueViolation),
        )),
{
    assert(user_email_taken(t0.users(), email));
    let j = choose|j: int| 0 <= j < t0.users().len() && #[trigger] t0.users()[j].email@ == email;
    let u = t0.users()[j];
    assert(login_case(t0, t1, cfg, u, password, now1, Ok(r1)));
    let s1 = t1.refresh_tokens();
    let i = s1.len() - 1;
    let h = text_hash(r1.refresh_token@);
    assert(s1[i].token_hash@ == h);
    assert(refresh_case(t1, t2, cfg, i, now2, r2));
    assert(t1.users() == t0.users());
    assert(t1.users()[j].id == s1[i].user_id);
    assert(user_id_taken(t1.users(), s1[i].user_id));
    assert forall|k: int| 0 <= k < t1.users().len() && (#[trigger] t1.users()[k]).id == s1[i].user_id implies k
        == j by {}
    assert(refresh_issue(t1, t2, cfg, i, t1.users()[j], now2, r2));
}

/// The refresh token that a login returns is exchanged by `refresh_with` until
/// it expires, while the account is still active, whatever other refresh tokens
/// are stored: the exchange succeeds exactly when a refresh key is left and the
/// drawn text's hash is not stored, and then hands out that text.
pub proof fn lemma_login_token_refreshes_with(
    t0: UserTables,
    t1: UserTables,
    t2: UserTables,
    cfg: Config,
    email: Seq<char>,
    password: Seq<char>,
    now1: i64,
    now2: i64,
    r1: AuthResponse,
    new_token: Seq<char>,
    r2: Result<RefreshResponse, AuthServiceError>,
)
    requires
        t1.wf(),
        login_spec(t0, t1, cfg, email, password, now1, Ok(r1)),
        refresh_drawn(t1, cfg, r1.refresh_token@, now2, new_token, r2),
        now2 <= expiry_after(now1, cfg.refresh_token_ttl),
        encode_outcome_ok(now2, cfg.access_token_ttl),
    ensures
        r2 is Ok <==> fresh_refresh_text(t1, new_token),
        r2 matches Ok(r) ==> r.refresh_token@ == new_token,
{
    assert(user_email_taken(t0.users(), email));
    let j = choose|j: int| 0 <= j < t0.users().len() && #[trigger] t0.users()[j].email@ == email;
    let u = t0.users()[j];
    assert(login_case(t0, t1, cfg, u, password, now1, Ok(r1)));
    let s1 = t1.refresh_tokens();
    let i = s1.len() - 1;
    assert(s1[i].token_hash@ == text_hash(r1.refresh_token@));
    assert(t1.users() == t0.users());
    assert(t1.users()[j].id == s1[i].user_id);
    assert(t1.users()[j].is_active);
}

} // verus!
