use vstd::prelude::*;

use super::service::DashboardInvitationServiceError;
use crate::auth::token::{self, hex_decode_spec, hex_encode_spec, is_hex_text, token_hash_spec};
use crate::clock;
use crate::features::dashboard_auth::service_impl::{expiry_after, expiry_at, same_tables, MAX_TTL_SECONDS};
use crate::repositories::{
    has_email, invitation_hash_taken, invitation_id_taken, invitations_without_pending,
    keeps_invitation, lemma_invitations_without_pending, Database, Invitation, StoreError,
};
use crate::text::{owned, str_equal};

verus! {

/// Implementation of the invitation service over the employee-side tables.
pub struct DashboardInvitationServiceImpl {
    /// Invitation token TTL in seconds.
    pub invitation_token_ttl: u64,
    /// Application name for email subjects.
    pub app_name: String,
    /// Base URL for invitation links.
    pub base_url: String,
}

/// An invitation row as issued for the raw token `raw` at `now`.
pub open spec fn issued_invitation(
    v: Invitation,
    email: Seq<char>,
    role: Seq<char>,
    invited_by: u128,
    raw: Seq<u8>,
    now: i64,
    ttl: u64,
) -> bool {
    &&& v.email@ == email
    &&& v.role@ == role
    &&& v.invited_by == invited_by
    &&& v.token_hash@ == token_hash_spec(raw)
    &&& v.expires_at == expiry_after(now, ttl)
    &&& v.accepted_at is None
    &&& v.created_at == now
}

/// The contract of `invite` at the clock reading `now`.
pub open spec fn invite_spec(
    old: Database,
    new: Database,
    ttl: u64,
    email: Seq<char>,
    role: Seq<char>,
    invited_by: u128,
    now: i64,
    res: Result<String, DashboardInvitationServiceError>,
) -> bool {
    &&& res is Err ==> same_tables(old, new)
    &&& role == "owner"@ ==> (res matches Err(DashboardInvitationServiceError::OwnerRoleForbidden))
    &&& role != "owner"@ && has_email(old.employees(), email) ==> (res matches Err(
        DashboardInvitationServiceError::EmailAlreadyEmployee,
    ))
    &&& role != "owner"@ && !has_email(old.employees(), email) ==> {
        let kept = invitations_without_pending(old.invitations(), email);
        &&& kept.len() == 0 ==> res is Ok
        &&& (res matches Err(e) ==> e is Database)
        &&& (res matches Ok(token_hex) ==> {
            &&& is_hex_text(token_hex@)
            &&& token_hex@ == hex_encode_spec(hex_decode_spec(token_hex@))
            &&& token_hex@.len() == 64
            &&& new.invitations().len() == kept.len() + 1
            &&& new.invitations().drop_last() == kept
            &&& issued_invitation(
                new.invitations().last(),
                email,
                role,
                invited_by,
                hex_decode_spec(token_hex@),
                now,
                ttl,
            )
            &&& new.employees() == old.employees()
            &&& new.refresh_tokens() == old.refresh_tokens()
            &&& new.verification_tokens() == old.verification_tokens()
        })
    }
}

/// What `invite` does with drawn token bytes and id once the role and the
/// address pass: it succeeds exactly when neither the id nor the hash of the
/// bytes is taken by an invitation that stays, and then returns the bytes in
/// hex and stores a row with that id.
pub open spec fn invite_drawn(
    old: Database,
    new: Database,
    email: Seq<char>,
    role: Seq<char>,
    raw: Seq<u8>,
    id: u128,
    res: Result<String, DashboardInvitationServiceError>,
) -> bool {
    role != "owner"@ && !has_email(old.employees(), email) ==> {
        let kept = invitations_without_pending(old.invitations(), email);
        &&& res is Ok <==> !invitation_id_taken(kept, id) && !invitation_hash_taken(
            kept,
            token_hash_spec(raw),
        )
        &&& res matches Ok(t) ==> hex_decode_spec(t@) == raw && new.invitations().last().id == id
    }
}

impl DashboardInvitationServiceImpl {
    /// The TTL is within range.
    pub open spec fn wf(&self) -> bool {
        self.invitation_token_ttl <= MAX_TTL_SECONDS
    }

    /// Creates an invitation, as of the clock reading `now`, for the given email
    /// with the specified role, replacing a pending one for the same address.
    /// Returns the hex-encoded invitation token.
    pub fn invite_at(
        &self,
        pool: &mut Database,
        email: &str,
        role: &str,
        invited_by: u128,
        now: i64,
    ) -> (res: Result<String, DashboardInvitationServiceError>)
        requires
            self.wf(),
            old(pool).wf(),
        ensures
            final(pool).wf(),
            invite_spec(*old(pool), *final(pool), self.invitation_token_ttl, email@, role@, invited_by, now, res),
    {
        let (raw, _) = token::generate();
        let invitation_id = clock::new_id();
        self.invite_with(pool, email, role, invited_by, now, raw, invitation_id)
    }

    /// Creates an invitation as `invite_at` does, its token being the given
    /// bytes and its row the given id: once the role and the address pass, it
    /// succeeds exactly when neither the id nor the hash of the bytes is taken
    /// by an invitation that is not pending for the same address.
    pub fn invite_with(
        &self,
        pool: &mut Database,
        email: &str,
        role: &str,
        invited_by: u128,
        now: i64,
        raw: [u8; 32],
        invitation_id: u128,
    ) -> (res: Result<String, DashboardInvitationServiceError>)
        requires
            self.wf(),
            old(pool).wf(),
        ensures
            final(pool).wf(),
            invite_spec(*old(pool), *final(pool), self.invitation_token_ttl, email@, role@, invited_by, now, res),
            invite_drawn(*old(pool), *final(pool), email@, role@, raw@, invitation_id, res),
    {
        if str_equal(role, "owner") {
            return Err(DashboardInvitationServiceError::OwnerRoleForbidden);
        }
        if pool.find_employee_by_email(email).is_some() {
            return Err(DashboardInvitationServiceError::EmailAlreadyEmployee);
        }
        let ghost pool0 = *pool;
        let token_hash = token::hash(&raw);
        let expires_at = expiry_at(now, self.invitation_token_ttl);
        let invitation = Invitation {
            id: invitation_id,
            email: owned(email),
            role: owned(role),
            token_hash,
            invited_by,
            expires_at,
            accepted_at: None,
            created_at: now,
        };
        proof {
            lemma_invitations_without_pending(pool0.invitations(), email@, invitation.id, invitation.token_hash@);
        }
        match pool.find_invitation_by_id(invitation.id) {
            Some(k) => {
                let pending_here = pool.invitation(k).accepted_at.is_none() && str_equal(
                    pool.invitation(k).email.as_str(),
                    email,
                );
                if !pending_here {
                    return Err(DashboardInvitationServiceError::Database(StoreError::UniqueViolation));
                }
            },
            None => {},
        }
        match pool.find_invitation_by_hash(invitation.token_hash.as_str()) {
            Some(k) => {
                let pending_here = pool.invitation(k).accepted_at.is_none() && str_equal(
                    pool.invitation(k).email.as_str(),
                    email,
                );
                if !pending_here {
                    return Err(DashboardInvitationServiceError::Database(StoreError::UniqueViolation));
                }
            },
            None => {},
        }
        proof {
            let s = pool0.invitations();
            assert forall|k: int|
                0 <= k < s.len() && (#[trigger] s[k]).id == invitation.id implies (s[k].email@ == email@
                    && s[k].accepted_at is None) by {}
            assert forall|k: int|
                0 <= k < s.len() && (#[trigger] s[k]).token_hash@ == invitation.token_hash@ implies (
                s[k].email@ == email@ && s[k].accepted_at is None) by {}
        }
        if pool.find_pending_invitation_by_email(email).is_some() {
            pool.delete_pending_invitations_by_email(email);
        } else {
            proof {
                let s = pool0.invitations();
                let pred = keeps_invitation(email@);
                assert(s.filter(pred) =~= s) by {
                    lemma_filter_all(s, pred);
                }
            }
        }
        let ghost pool1 = *pool;
        match pool.insert_invitation(invitation) {
            Ok(()) => {},
            Err(e) => {
                assert(false);
                return Err(DashboardInvitationServiceError::Database(e));
            },
        }
        proof {
            assert(pool.invitations().drop_last() =~= pool1.invitations());
            token::lemma_hex_roundtrip(raw@);
        }
        Ok(token::hex_encode(&raw))
    }

    /// Creates an invitation for the given email with the specified role.
    ///
    /// If a pending invitation already exists for the email it is replaced.
    /// Returns the hex-encoded invitation token on success. Fails with
    /// `OwnerRoleForbidden` if the role is `"owner"`, or `EmailAlreadyEmployee`
    /// if the email is already registered as an employee.
    pub fn invite(&self, pool: &mut Database, email: &str, role: &str, invited_by: u128) -> (res: Result<
        String,
        DashboardInvitationServiceError,
    >)
        requires
            self.wf(),
            old(pool).wf(),
        ensures
            final(pool).wf(),
            exists|now: i64|
                invite_spec(*old(pool), *final(pool), self.invitation_token_ttl, email@, role@, invited_by, now, res),
    {
        let now = clock::now_micros();
        self.invite_at(pool, email, role, invited_by, now)
    }
}

/// Inviting replaces: after a successful invitation the address has exactly one
/// pending invitation, the new one.
pub proof fn lemma_invite_leaves_one_pending(
    p0: Database,
    p1: Database,
    ttl: u64,
    email: Seq<char>,
    role: Seq<char>,
    invited_by: u128,
    now: i64,
    token_hex: String,
)
    requires
        invite_spec(p0, p1, ttl, email, role, invited_by, now, Ok(token_hex)),
    ensures
        p1.invitations().len() >= 1,
        p1.invitations().last().email@ == email,
        p1.invitations().last().accepted_at is None,
        forall|k: int|
            0 <= k < p1.invitations().len() - 1 ==> !((#[trigger] p1.invitations()[k]).email@ == email
                && p1.invitations()[k].accepted_at is None),
{
    broadcast use vstd::seq_lib::group_filter_ensures;
    let kept = invitations_without_pending(p0.invitations(), email);
    assert forall|k: int| 0 <= k < p1.invitations().len() - 1 implies !((
    #[trigger] p1.invitations()[k]).email@ == email && p1.invitations()[k].accepted_at is None) by {
        assert(p1.invitations()[k] == p1.invitations().drop_last()[k]);
        assert(keeps_invitation(email)(kept[k]));
    }
}

/// Filtering with a predicate that holds of every element keeps the sequence.
proof fn lemma_filter_all(s: Seq<Invitation>, pred: spec_fn(Invitation) -> bool)
    requires
        forall|i: int| 0 <= i < s.len() ==> pred(#[trigger] s[i]),
    ensures
        s.filter(pred) == s,
    decreases s.len(),
{
    reveal(Seq::filter);
    if s.len() > 0 {
        lemma_filter_all(s.drop_last(), pred);
        assert(s.drop_last().push(s.last()) =~= s);
    }
}

} // verus!
