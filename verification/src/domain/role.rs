use vstd::prelude::*;
use crate::text::same_text;

verus! {

/// Which side of the marketplace an account is on.
#[derive(Debug, Clone, Copy, PartialEq, Eq, Structural)]
pub enum Role {
    Owner,
    Rider,
}

/// The name of a role.
pub open spec fn role_text(r: Role) -> Seq<char> {
    match r {
        Role::Owner => "owner"@,
        Role::Rider => "rider"@,
    }
}

/// The outcome of reading a role from its name: the role, or the text
/// "unknown role: " followed by the name.
pub open spec fn parse_role_outcome(t: Seq<char>) -> Result<Role, Seq<char>> {
    if t == "owner"@ {
        Ok(Role::Owner)
    } else if t == "rider"@ {
        Ok(Role::Rider)
    } else {
        Err("unknown role: "@ + t)
    }
}

impl Role {
    /// The name of this role.
    pub fn as_str(&self) -> (s: &'static str)
        ensures
            s@ == role_text(*self),
    {
        match self {
            Role::Owner => "owner",
            Role::Rider => "rider",
        }
    }

    /// Reads a role from its name.
    pub fn parse(s: &str) -> (r: Result<Role, String>)
        ensures
            match (r, parse_role_outcome(s@)) {
                (Ok(a), Ok(b)) => a == b,
                (Err(m), Err(t)) => m@ == t,
                _ => false,
            },
    {
        if same_text(s, "owner") {
            Ok(Role::Owner)
        } else if same_text(s, "rider") {
            Ok(Role::Rider)
        } else {
            Err(String::from_str("unknown role: ").concat(s))
        }
    }
}

impl std::str::FromStr for Role {
    type Err = String;

    fn from_str(s: &str) -> (r: Result<Self, Self::Err>)
        ensures
            match (r, parse_role_outcome(s@)) {
                (Ok(a), Ok(b)) => a == b,
                (Err(m), Err(t)) => m@ == t,
                _ => false,
            },
    {
        Role::parse(s)
    }
}

/// Reading back the name of a role gives that role.
pub proof fn lemma_role_text_round_trip(r: Role)
    ensures
        parse_role_outcome(role_text(r)) == Ok::<Role, Seq<char>>(r),
{
    reveal_strlit("owner");
    reveal_strlit("rider");
    assert("owner"@[0] != "rider"@[0]);
}

} // verus!
