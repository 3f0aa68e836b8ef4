//! Reading the bearer token of a request.

use vstd::prelude::*;

use crate::app::error::AppError;
use crate::text::{from_chars, to_chars};

verus! {

/// The token of an `Authorization` header value of the form `Bearer <token>`
/// with a non-empty token.
pub open spec fn bearer_token(header: Seq<char>) -> Option<Seq<char>> {
    if header.len() > 7 && header.subrange(0, 7) == "Bearer "@ {
        Some(header.subrange(7, header.len() as int))
    } else {
        None
    }
}

/// A header value made of `Bearer ` and a non-empty token gives that token,
/// whatever its length, and a value without that prefix, or with nothing after
/// it, gives none.
pub proof fn lemma_bearer_token_meaning(t: Seq<char>, header: Seq<char>)
    ensures
        t.len() > 0 ==> bearer_token("Bearer "@ + t) == Some(t),
        bearer_token(header) is Some <==> header.len() > 7 && header.take(7) == "Bearer "@,
        bearer_token(header) matches Some(x) ==> "Bearer "@ + x == header && x.len() > 0,
{
    reveal_strlit("Bearer ");
    let h = "Bearer "@ + t;
    assert(h.subrange(0, 7) =~= "Bearer "@);
    assert(h.subrange(7, h.len() as int) =~= t);
    assert(header.take(7) =~= header.subrange(0, 7));
    if header.len() > 7 && header.subrange(0, 7) == "Bearer "@ {
        assert("Bearer "@ + header.subrange(7, header.len() as int) =~= header);
    }
}

/// Extracts the Bearer token from the `Authorization` header value; `None`
/// stands for a missing header or one that is not visible ASCII.
pub fn extract_bearer_token(header: Option<&str>) -> (res: Result<String, AppError>)
    ensures
        header is None ==> res matches Err(AppError::Unauthorized),
        forall|t: Seq<char>|
            #![trigger "Bearer "@ + t]
            (header matches Some(h) && h@ == "Bearer "@ + t) && t.len() > 0 ==> (res matches Ok(
                token) && token@ == t),
        header matches Some(h) ==> match bearer_token(h@) {
            Some(t) => res matches Ok(token) && token@ == t,
            None => res matches Err(AppError::Unauthorized),
        },
{
    proof {
        reveal_strlit("Bearer ");
        assert forall|t: Seq<char>| #![trigger "Bearer "@ + t] t.len() > 0 implies bearer_token(
            "Bearer "@ + t,
        ) == Some(t) by {
            lemma_bearer_token_meaning(t, "Bearer "@ + t);
        }
    }
    let h = match header {
        Some(h) => h,
        None => {
            return Err(AppError::Unauthorized);
        },
    };
    let text = to_chars(h);
    let prefix = to_chars("Bearer ");
    assert(prefix@.len() == 7);
    if text.len() <= 7 {
        return Err(AppError::Unauthorized);
    }
    let mut i: usize = 0;
    while i < 7
        invariant
            i <= 7,
            prefix@ == "Bearer "@,
            prefix@.len() == 7,
            text@.len() > 7,
            text@ == h@,
            header == Some(h),
            forall|k: int| 0 <= k < i ==> text@[k] == prefix@[k],
        decreases 7 - i,
    {
        if text[i] != prefix[i] {
            assert(text@.subrange(0, 7)[i as int] != "Bearer "@[i as int]);
            assert(text@.subrange(0, 7) != "Bearer "@);
            return Err(AppError::Unauthorized);
        }
        i = i + 1;
    }
    assert(text@.subrange(0, 7) =~= "Bearer "@);
    Ok(from_chars(vstd::slice::slice_subrange(text.as_slice(), 7, text.len())))
}

} // verus!
