use vstd::prelude::*;
use crate::auth::password::{bcrypt_hash_ok, bcrypt_verifies};
use crate::domain::referral::is_referral_code;
use crate::domain::Rider;
use crate::error::{agrees, not_found, not_found_text, AppError, ErrorKind};
use crate::repo::in_memory::{found_in, rider_code_is, rider_email_is, InMemoryRiderRepo};
use crate::repo::store::{lookup, upsert};
use crate::service::owner_service::{account_rule_broken, check_account, hash_new_password};

verus! {

/// A new rider record, before it is stored: the name and email are checked
/// and the password is kept only as its bcrypt hash.
pub fn new_rider_record(name: String, email: String, password: String, referred_by: Option<String>) -> (r: Result<
    Rider,
    AppError,
>)
    ensures
        match account_rule_broken(name@, email@) {
            Some(t) => agrees(r, Err((ErrorKind::Validation, t))),
            None => match r {
                Ok(o) => {
                    &&& o.name == name
                    &&& o.email == email
                    &&& o.referred_by == referred_by
                    &&& bcrypt_hash_ok(o.password_hash@)
                    &&& bcrypt_verifies(password@, o.password_hash@)
                    &&& is_referral_code(o.referral_code@)
                },
                Err(e) => e.kind_of() == ErrorKind::Internal && "failed to hash password: "@.is_prefix_of(e.text()),
            },
        },
{
    match check_account(name.as_str(), email.as_str()) {
        Ok(()) => {},
        Err(e) => return Err(e),
    }
    let password_hash = match hash_new_password(password.as_str()) {
        Ok(h) => h,
        Err(e) => return Err(e),
    };
    Ok(Rider::new(name, email, password_hash, referred_by))
}

/// Manages rider accounts.
pub struct RiderService {
    pub repo: InMemoryRiderRepo,
}

impl RiderService {
    pub open spec fn wf(&self) -> bool {
        self.repo.wf()
    }

    pub fn new(repo: InMemoryRiderRepo) -> (s: Self)
        ensures
            s.repo == repo,
    {
        RiderService { repo }
    }

    /// Creates a rider after checking the name and email; the password is
    /// stored only as its bcrypt hash.
    pub fn create_rider(&mut self, name: String, email: String, password: String, referred_by: Option<String>) -> (r:
        Result<Rider, AppError>)
        requires
            old(self).wf(),
        ensures
            final(self).wf(),
            match account_rule_broken(name@, email@) {
                Some(t) => agrees(r, Err((ErrorKind::Validation, t))) && final(self).repo.records() == old(
                    self,
                ).repo.records(),
                None => match r {
                    Ok(o) => {
                        &&& o.name == name
                        &&& o.email == email
                        &&& o.referred_by == referred_by
                        &&& bcrypt_hash_ok(o.password_hash@)
                        &&& bcrypt_verifies(password@, o.password_hash@)
                        &&& is_referral_code(o.referral_code@)
                        &&& final(self).repo.records() == upsert(old(self).repo.records(), o)
                        &&& lookup(final(self).repo.records(), o.id) == Some(o)
                    },
                    Err(e) => {
                        &&& e.kind_of() == ErrorKind::Internal
                        &&& "failed to hash password: "@.is_prefix_of(e.text())
                        &&& final(self).repo.records() == old(self).repo.records()
                    },
                },
            },
    {
        let rider = match new_rider_record(name, email, password, referred_by) {
            Ok(o) => o,
            Err(e) => return Err(e),
        };
        self.repo.create(rider)
    }

    /// A rider with the given email, if any.
    pub fn find_by_email(&self, email: &str) -> (r: Result<Option<Rider>, AppError>)
        requires
            self.wf(),
        ensures
            r matches Ok(o) && found_in(o, self.repo.records(), rider_email_is(email@)),
    {
        self.repo.find_by_email(email)
    }

    /// A rider with the given referral code, if any.
    pub fn find_by_referral_code(&self, code: &str) -> (r: Result<Option<Rider>, AppError>)
        requires
            self.wf(),
        ensures
            r matches Ok(o) && found_in(o, self.repo.records(), rider_code_is(code@)),
    {
        self.repo.find_by_referral_code(code)
    }

    /// The rider with the given id.
    pub fn get_rider(&self, id: u128) -> (r: Result<Rider, AppError>)
        requires
            self.wf(),
        ensures
            match lookup(self.repo.records(), id) {
                Some(o) => r == Ok::<Rider, AppError>(o),
                None => agrees(r, Err((ErrorKind::NotFound, not_found_text("rider"@, id)))),
            },
    {
        match self.repo.get(id) {
            Ok(Some(o)) => Ok(o),
            _ => Err(not_found("rider", id)),
        }
    }
}

} // verus!
