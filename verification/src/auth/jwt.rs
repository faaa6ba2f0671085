//! The identity that an access token carries.

use vstd::prelude::*;
use crate::domain::Role;
use crate::time::now;

verus! {

/// How long an access token stays valid, in seconds.
pub const ACCESS_TOKEN_TTL_SECONDS: i64 = 3600;

/// What an access token asserts: who (`sub`), as which role, until when
/// (`exp`, in seconds since the Unix epoch).
#[derive(Debug, Clone, Copy, PartialEq, Eq, Structural)]
pub struct Claims {
    pub sub: u128,
    pub role: Role,
    pub exp: i64,
}

/// The authenticated identity extracted from a validated token.
#[derive(Debug, Clone, Copy, PartialEq, Eq, Structural)]
pub struct AuthIdentity {
    pub id: u128,
    pub role: Role,
}

/// The claims of a token issued at `issued_at` (seconds since the epoch).
pub fn claims_at(id: u128, role: Role, issued_at: i64) -> (c: Claims)
    requires
        issued_at <= i64::MAX - ACCESS_TOKEN_TTL_SECONDS,
    ensures
        c.sub == id,
        c.role == role,
        c.exp == issued_at + ACCESS_TOKEN_TTL_SECONDS,
{
    Claims { sub: id, role, exp: issued_at + ACCESS_TOKEN_TTL_SECONDS }
}

/// The claims of a token issued now for `id` acting as `role`: valid for
/// one hour from now (`claims_at` with the clock's reading, which lies in
/// the range that chrono can represent).
pub fn issue_claims(id: u128, role: Role) -> (c: Claims)
    ensures
        c.sub == id,
        c.role == role,
        -8_400_000_000_000 + ACCESS_TOKEN_TTL_SECONDS <= c.exp <= 8_300_000_000_000 + ACCESS_TOKEN_TTL_SECONDS,
{
    let t = now();
    claims_at(id, role, t.secs)
}

impl AuthIdentity {
    /// The identity that validated claims establish.
    pub fn from_claims(c: &Claims) -> (a: AuthIdentity)
        ensures
            a.id == c.sub,
            a.role == c.role,
    {
        AuthIdentity { id: c.sub, role: c.role }
    }
}

} // verus!
