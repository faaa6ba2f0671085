//! Reading the bearer token out of an `Authorization` header.

use vstd::prelude::*;
use crate::error::{AppError, ErrorKind};
use crate::text::same_text;

verus! {

/// What an `Authorization` header value (if the request had a readable one)
/// yields: the token after a `Bearer ` or `bearer ` prefix, or the reason
/// the request is unauthorized.
pub open spec fn bearer_outcome(header: Option<Seq<char>>) -> Result<Seq<char>, (ErrorKind, Seq<char>)> {
    match header {
        None => Err((ErrorKind::Unauthorized, "missing authorization header"@)),
        Some(h) => if h.len() >= 7 && (h.subrange(0, 7) == "Bearer "@ || h.subrange(0, 7) == "bearer "@) {
            Ok(h.subrange(7, h.len() as int))
        } else {
            Err((ErrorKind::Unauthorized, "authorization header must be a bearer token"@))
        },
    }
}

/// A header that starts with `Bearer ` or `bearer ` yields the whole rest of
/// the header as its token: the prefix followed by the token is the header,
/// and the token is seven characters shorter.
pub proof fn law_bearer_token_is_the_rest(h: Seq<char>)
    requires
        h.len() >= 7,
        h.subrange(0, 7) == "Bearer "@ || h.subrange(0, 7) == "bearer "@,
    ensures
        bearer_outcome(Some(h)) matches Ok(t) && t.len() == h.len() - 7 && h.subrange(0, 7) + t == h,
{
    let t = h.subrange(7, h.len() as int);
    assert(h.subrange(0, 7) + t =~= h);
}

/// Only such a header yields a token: a missing header, or one without the
/// prefix, is refused as unauthorized.
pub proof fn law_only_bearer_headers_yield_tokens(h: Option<Seq<char>>)
    ensures
        bearer_outcome(h) matches Ok(t) ==> (h matches Some(x) && x.len() >= 7 && (x.subrange(0, 7) == "Bearer "@
            || x.subrange(0, 7) == "bearer "@) && x.subrange(0, 7) + t == x),
        bearer_outcome(h) matches Err((k, _)) ==> k == ErrorKind::Unauthorized,
{
    if let Some(x) = h {
        if x.len() >= 7 {
            assert(x.subrange(0, 7) + x.subrange(7, x.len() as int) =~= x);
        }
    }
}

/// The views of an optional text.
pub open spec fn opt_view(t: Option<&str>) -> Option<Seq<char>> {
    match t {
        Some(s) => Some(s@),
        None => None,
    }
}

/// The token carried by an `Authorization` header value: `header` is `None`
/// when the request has no such header or its value is not visible text.
pub fn bearer_token(header: Option<&str>) -> (r: Result<String, AppError>)
    ensures
        match bearer_outcome(opt_view(header)) {
            Ok(t) => r matches Ok(s) && s@ == t,
            Err((k, m)) => r matches Err(e) && e.is(k, m),
        },
{
    let h = match header {
        Some(h) => h,
        None => return Err(AppError::new(ErrorKind::Unauthorized, "missing authorization header")),
    };
    let n = h.unicode_len();
    if n >= 7 {
        let prefix = h.substring_char(0, 7);
        if same_text(prefix, "Bearer ") || same_text(prefix, "bearer ") {
            return Ok(String::from_str(h.substring_char(7, n)));
        }
    }
    Err(AppError::new(ErrorKind::Unauthorized, "authorization header must be a bearer token"))
}

} // verus!
