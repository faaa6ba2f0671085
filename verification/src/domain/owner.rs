use vstd::prelude::*;
use crate::domain::referral::{generate_referral_code, is_referral_code};
use crate::text::copy_opt_text;
use crate::time::{now, Timestamp};
use crate::ids::new_id;

verus! {

/// An account that offers listings.
#[derive(Debug)]
pub struct Owner {
    pub id: u128,
    pub name: String,
    pub email: String,
    pub password_hash: String,
    pub referral_code: String,
    pub referred_by: Option<String>,
    pub created_at: Timestamp,
}

impl Clone for Owner {
    fn clone(&self) -> (r: Self)
        ensures
            r == *self,
    {
        Owner {
            id: self.id,
            name: self.name.clone(),
            email: self.email.clone(),
            password_hash: self.password_hash.clone(),
            referral_code: self.referral_code.clone(),
            referred_by: copy_opt_text(&self.referred_by),
            created_at: self.created_at,
        }
    }
}

impl Owner {
    /// A new owner with a fresh id and a freshly generated referral code.
    pub fn new(name: String, email: String, password_hash: String, referred_by: Option<String>) -> (o: Owner)
        ensures
            o.name == name,
            o.email == email,
            o.password_hash == password_hash,
            o.referred_by == referred_by,
            is_referral_code(o.referral_code@),
    {
        Owner {
            id: new_id(),
            name,
            email,
            password_hash,
            referral_code: generate_referral_code(),
            referred_by,
            created_at: now(),
        }
    }
}

} // verus!
