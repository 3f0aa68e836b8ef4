//! Composition of the e-mails that the service sends: subject, plain-text body
//! and HTML body, from templates with `{{placeholder}}` markers.

pub mod sender;

use vstd::prelude::*;

use crate::text::{
    concat, lemma_replace_every_occurrence, replace_all, replace_spec, trim_end_char, trim_end_spec,
};

verus! {

/// Plain-text template of the address verification e-mail.
pub const VERIFY_EMAIL_TEXT: &'static str = "Welcome!\n\nPlease confirm your email address by opening the link below:\n\n{{verification_url}}\n\nThe link expires after a while. If you did not create an account, you can ignore this email.\n";

/// HTML template of the address verification e-mail.
pub const VERIFY_EMAIL_HTML: &'static str = "<!DOCTYPE html>\n<html>\n<body>\n<p>Welcome!</p>\n<p>Please confirm your email address by opening the link below:</p>\n<p><a href=\"{{verification_url}}\">{{verification_url}}</a></p>\n<p>The link expires after a while. If you did not create an account, you can ignore this email.</p>\n</body>\n</html>\n";

/// Plain-text template of the invitation e-mail.
pub const INVITE_EMPLOYEE_TEXT: &'static str = "Hello,\n\n{{inviter_email}} has invited you to join {{app_name}} as {{role}}.\n\nAccept the invitation by opening the link below:\n\n{{invitation_url}}\n\nIf you were not expecting this invitation, you can ignore this email.\n";

/// HTML template of the invitation e-mail.
pub const INVITE_EMPLOYEE_HTML: &'static str = "<!DOCTYPE html>\n<html>\n<body>\n<p>Hello,</p>\n<p>{{inviter_email}} has invited you to join {{app_name}} as {{role}}.</p>\n<p><a href=\"{{invitation_url}}\">Accept the invitation</a></p>\n<p>If you were not expecting this invitation, you can ignore this email.</p>\n</body>\n</html>\n";

/// The link in the verification e-mail.
pub open spec fn verification_url(base_url: Seq<char>, token_hex: Seq<char>) -> Seq<char> {
    trim_end_spec(base_url, '/') + "/api/v1/dashboard/auth/email/verification?token="@ + token_hex
}

/// The link in the invitation e-mail.
pub open spec fn invitation_url(base_url: Seq<char>, token_hex: Seq<char>) -> Seq<char> {
    trim_end_spec(base_url, '/') + "/accept-invitation?token="@ + token_hex
}

/// A template with the invitation placeholders filled in, in the order the
/// replacements are made.
pub open spec fn fill_invitation(
    template: Seq<char>,
    app_name: Seq<char>,
    inviter_email: Seq<char>,
    role: Seq<char>,
    url: Seq<char>,
) -> Seq<char> {
    replace_spec(
        replace_spec(
            replace_spec(replace_spec(template, "{{app_name}}"@, app_name), "{{inviter_email}}"@, inviter_email),
            "{{role}}"@,
            role,
        ),
        "{{invitation_url}}"@,
        url,
    )
}

/// Builds the verification e-mail: (subject, text body, HTML body).
pub fn build_verification_email(app_name: &str, base_url: &str, token_hex: &str) -> (res: (
    String,
    String,
    String,
))
    ensures
        res.0@ == "Verify your email — "@ + app_name@,
        res.1@ == replace_spec(
            VERIFY_EMAIL_TEXT@,
            "{{verification_url}}"@,
            verification_url(base_url@, token_hex@),
        ),
        res.2@ == replace_spec(
            VERIFY_EMAIL_HTML@,
            "{{verification_url}}"@,
            verification_url(base_url@, token_hex@),
        ),
        res.2@ == "<!DOCTYPE html>\n<html>\n<body>\n<p>Welcome!</p>\n<p>Please confirm your email address by opening the link below:</p>\n<p><a href=\""@
            + verification_url(base_url@, token_hex@) + "\">"@ + verification_url(base_url@, token_hex@)
            + "</a></p>\n<p>The link expires after a while. If you did not create an account, you can ignore this email.</p>\n</body>\n</html>\n"@,
{
    proof {
        reveal_strlit("{{verification_url}}");
        lemma_verification_html_shows_link(verification_url(base_url@, token_hex@));
    }
    let base_url = trim_end_char(base_url, '/');
    let prefix = concat(base_url.as_str(), "/api/v1/dashboard/auth/email/verification?token=");
    let verification_url = concat(prefix.as_str(), token_hex);
    let subject = concat("Verify your email — ", app_name);
    let text_body = replace_all(VERIFY_EMAIL_TEXT, "{{verification_url}}", verification_url.as_str());
    let html_body = replace_all(VERIFY_EMAIL_HTML, "{{verification_url}}", verification_url.as_str());
    (subject, text_body, html_body)
}

/// Builds the invitation e-mail: (subject, text body, HTML body).
pub fn build_invitation_email(
    app_name: &str,
    base_url: &str,
    inviter_email: &str,
    role: &str,
    token_hex: &str,
) -> (res: (String, String, String))
    ensures
        res.0@ == "You've been invited to join "@ + app_name@,
        res.1@ == fill_invitation(
            INVITE_EMPLOYEE_TEXT@,
            app_name@,
            inviter_email@,
            role@,
            invitation_url(base_url@, token_hex@),
        ),
        res.2@ == fill_invitation(
            INVITE_EMPLOYEE_HTML@,
            app_name@,
            inviter_email@,
            role@,
            invitation_url(base_url@, token_hex@),
        ),
{
    proof {
        reveal_strlit("{{app_name}}");
        reveal_strlit("{{inviter_email}}");
        reveal_strlit("{{role}}");
        reveal_strlit("{{invitation_url}}");
    }
    let base_url = trim_end_char(base_url, '/');
    let prefix = concat(base_url.as_str(), "/accept-invitation?token=");
    let invitation_url = concat(prefix.as_str(), token_hex);
    let subject = concat("You've been invited to join ", app_name);
    let t1 = replace_all(INVITE_EMPLOYEE_TEXT, "{{app_name}}", app_name);
    let t2 = replace_all(t1.as_str(), "{{inviter_email}}", inviter_email);
    let t3 = replace_all(t2.as_str(), "{{role}}", role);
    let text_body = replace_all(t3.as_str(), "{{invitation_url}}", invitation_url.as_str());
    let h1 = replace_all(INVITE_EMPLOYEE_HTML, "{{app_name}}", app_name);
    let h2 = replace_all(h1.as_str(), "{{inviter_email}}", inviter_email);
    let h3 = replace_all(h2.as_str(), "{{role}}", role);
    let html_body = replace_all(h3.as_str(), "{{invitation_url}}", invitation_url.as_str());
    (subject, text_body, html_body)
}

/// The HTML verification e-mail shows the link twice, as the target and as the
/// text of the anchor, with no placeholder left: its body is the template's
/// text before, between and after the two placeholders, around two copies of
/// the link.
pub proof fn lemma_verification_html_shows_link(url: Seq<char>)
    ensures
        replace_spec(VERIFY_EMAIL_HTML@, "{{verification_url}}"@, url) == "<!DOCTYPE html>\n<html>\n<body>\n<p>Welcome!</p>\n<p>Please confirm your email address by opening the link below:</p>\n<p><a href=\""@
            + url + "\">"@ + url
            + "</a></p>\n<p>The link expires after a while. If you did not create an account, you can ignore this email.</p>\n</body>\n</html>\n"@,
{
    reveal_strlit("{{verification_url}}");
    reveal_strlit("<!DOCTYPE html>\n<html>\n<body>\n<p>Welcome!</p>\n<p>Please confirm your email address by opening the link below:</p>\n<p><a href=\"");
    reveal_strlit("\">");
    reveal_strlit("</a></p>\n<p>The link expires after a while. If you did not create an account, you can ignore this email.</p>\n</body>\n</html>\n");
    reveal_strlit("<!DOCTYPE html>\n<html>\n<body>\n<p>Welcome!</p>\n<p>Please confirm your email address by opening the link below:</p>\n<p><a href=\"{{verification_url}}\">{{verification_url}}</a></p>\n<p>The link expires after a while. If you did not create an account, you can ignore this email.</p>\n</body>\n</html>\n");
    let a = "<!DOCTYPE html>\n<html>\n<body>\n<p>Welcome!</p>\n<p>Please confirm your email address by opening the link below:</p>\n<p><a href=\""@;
    let b = "\">"@;
    let c = "</a></p>\n<p>The link expires after a while. If you did not create an account, you can ignore this email.</p>\n</body>\n</html>\n"@;
    let p = "{{verification_url}}"@;
    assert(VERIFY_EMAIL_HTML@ =~= a + p + b + p + c);
    assert(forall|i: int| 0 <= i < a.len() ==> #[trigger] a[i] != p[0]);
    assert(forall|i: int| 0 <= i < b.len() ==> #[trigger] b[i] != p[0]);
    assert(forall|i: int| 0 <= i < c.len() ==> #[trigger] c[i] != p[0]);
    lemma_replace_every_occurrence(a, b, c, p, url);
}

/// `k` slashes.
pub open spec fn slashes(k: nat) -> Seq<char> {
    Seq::new(k, |i: int| '/')
}

/// Any number of trailing slashes on the base URL changes neither e-mail's link,
/// and so (their contracts being written over the links) neither e-mail's
/// bodies.
pub proof fn lemma_trailing_slash_irrelevant(base_url: Seq<char>, k: nat, token_hex: Seq<char>)
    ensures
        verification_url(base_url + slashes(k), token_hex) == verification_url(base_url, token_hex),
        invitation_url(base_url + slashes(k), token_hex) == invitation_url(base_url, token_hex),
    decreases k,
{
    if k > 0 {
        let j = (k - 1) as nat;
        assert((base_url + slashes(k)).drop_last() =~= base_url + slashes(j));
        assert((base_url + slashes(k)).last() == '/');
        lemma_trailing_slash_irrelevant(base_url, j, token_hex);
    } else {
        assert(base_url + slashes(0) =~= base_url);
    }
}

} // verus!
