use vstd::prelude::*;
use crate::auth::password::{bcrypt_error_text, bcrypt_hash_ok, bcrypt_verifies, hash_password};
use crate::domain::referral::is_referral_code;
use crate::domain::Owner;
use crate::error::{agrees, not_found, not_found_text, AppError, ErrorKind};
use crate::repo::in_memory::{found_in, owner_code_is, owner_email_is, InMemoryOwnerRepo};
use crate::repo::store::{lookup, upsert};
use crate::text::{all_ws, contains_char, is_blank, is_ws};

verus! {

/// The first rule that a new account breaks: a non-blank name, then an
/// email that is not blank and holds an '@'.
pub open spec fn account_rule_broken(name: Seq<char>, email: Seq<char>) -> Option<Seq<char>> {
    if all_ws(name) {
        Some("name must not be empty"@)
    } else if all_ws(email) || !email.contains('@') {
        Some("email must be a valid address"@)
    } else {
        None
    }
}

/// An account is refused exactly when its name is blank, or its email is
/// blank or holds no '@'; any other name and email are accepted.
pub proof fn law_account_rules(name: Seq<char>, email: Seq<char>)
    ensures
        account_rule_broken(name, email) is None <==> ((exists|i: int| 0 <= i < name.len() && !is_ws(#[trigger] name[i]))
            && (exists|i: int| 0 <= i < email.len() && !is_ws(#[trigger] email[i])) && (exists|i: int|
            0 <= i < email.len() && #[trigger] email[i] == '@')),
{
}

/// Checks the name and email of a new account.
pub fn check_account(name: &str, email: &str) -> (r: Result<(), AppError>)
    ensures
        match account_rule_broken(name@, email@) {
            Some(t) => agrees(r, Err((ErrorKind::Validation, t))),
            None => r is Ok,
        },
{
    if is_blank(name) {
        return Err(AppError::new(ErrorKind::Validation, "name must not be empty"));
    }
    if is_blank(email) || !contains_char(email, '@') {
        return Err(AppError::new(ErrorKind::Validation, "email must be a valid address"));
    }
    Ok(())
}

/// Hashes a new account's password; a failure is an internal error whose
/// text starts "failed to hash password: ".
pub fn hash_new_password(password: &str) -> (r: Result<String, AppError>)
    ensures
        r matches Ok(h) ==> bcrypt_hash_ok(h@) && bcrypt_verifies(password@, h@),
        r matches Err(e) ==> e.kind_of() == ErrorKind::Internal && "failed to hash password: "@.is_prefix_of(e.text()),
{
    match hash_password(password) {
        Ok(h) => Ok(h),
        Err(err) => {
            let m = bcrypt_error_text(&err);
            let e = AppError::joined(ErrorKind::Internal, "failed to hash password: ", m.as_str());
            proof {
                reveal_strlit("failed to hash password: ");
                assert(("failed to hash password: "@ + m@).subrange(0, "failed to hash password: "@.len() as int)
                    =~= "failed to hash password: "@);
            }
            Err(e)
        },
    }
}

/// A new owner record, before it is stored: the name and email are checked
/// and the password is kept only as its bcrypt hash.
pub fn new_owner_record(name: String, email: String, password: String, referred_by: Option<String>) -> (r: Result<
    Owner,
    AppError,
>)
    ensures
        match account_rule_broken(name@, email@) {
            Some(t) => agrees(r, Err((ErrorKind::Validation, t))),
            None => match r {
                Ok(o) => {
                    &&& o.name == name
                    &&& o.email == email
                    &&& o.referred_by == referred_by
                    &&& bcrypt_hash_ok(o.password_hash@)
                    &&& bcrypt_verifies(password@, o.password_hash@)
                    &&& is_referral_code(o.referral_code@)
                },
                Err(e) => e.kind_of() == ErrorKind::Internal && "failed to hash password: "@.is_prefix_of(e.text()),
            },
        },
{
    match check_account(name.as_str(), email.as_str()) {
        Ok(()) => {},
        Err(e) => return Err(e),
    }
    let password_hash = match hash_new_password(password.as_str()) {
        Ok(h) => h,
        Err(e) => return Err(e),
    };
    Ok(Owner::new(name, email, password_hash, referred_by))
}

/// Manages owner accounts.
pub struct OwnerService {
    pub repo: InMemoryOwnerRepo,
}

impl OwnerService {
    pub open spec fn wf(&self) -> bool {
        self.repo.wf()
    }

    pub fn new(repo: InMemoryOwnerRepo) -> (s: Self)
        ensures
            s.repo == repo,
    {
        OwnerService { repo }
    }

    /// Creates an owner after checking the name and email; the password is
    /// stored only as its bcrypt hash.
    pub fn create_owner(&mut self, name: String, email: String, password: String, referred_by: Option<String>) -> (r:
        Result<Owner, AppError>)
        requires
            old(self).wf(),
        ensures
            final(self).wf(),
            match account_rule_broken(name@, email@) {
                Some(t) => agrees(r, Err((ErrorKind::Validation, t))) && final(self).repo.records() == old(
                    self,
                ).repo.records(),
                None => match r {
                    Ok(o) => {
                        &&& o.name == name
                        &&& o.email == email
                        &&& o.referred_by == referred_by
                        &&& bcrypt_hash_ok(o.password_hash@)
                        &&& bcrypt_verifies(password@, o.password_hash@)
                        &&& is_referral_code(o.referral_code@)
                        &&& final(self).repo.records() == upsert(old(self).repo.records(), o)
                        &&& lookup(final(self).repo.records(), o.id) == Some(o)
                    },
                    Err(e) => {
                        &&& e.kind_of() == ErrorKind::Internal
                        &&& "failed to hash password: "@.is_prefix_of(e.text())
                        &&& final(self).repo.records() == old(self).repo.records()
                    },
                },
            },
    {
        let owner = match new_owner_record(name, email, password, referred_by) {
            Ok(o) => o,
            Err(e) => return Err(e),
        };
        self.repo.create(owner)
    }

    /// An owner with the given email, if any.
    pub fn find_by_email(&self, email: &str) -> (r: Result<Option<Owner>, AppError>)
        requires
            self.wf(),
        ensures
            r matches Ok(o) && found_in(o, self.repo.records(), owner_email_is(email@)),
    {
        self.repo.find_by_email(email)
    }

    /// An owner with the given referral code, if any.
    pub fn find_by_referral_code(&self, code: &str) -> (r: Result<Option<Owner>, AppError>)
        requires
            self.wf(),
        ensures
            r matches Ok(o) && found_in(o, self.repo.records(), owner_code_is(code@)),
    {
        self.repo.find_by_referral_code(code)
    }

    /// The owner with the given id.
    pub fn get_owner(&self, id: u128) -> (r: Result<Owner, AppError>)
        requires
            self.wf(),
        ensures
            match lookup(self.repo.records(), id) {
                Some(o) => r == Ok::<Owner, AppError>(o),
                None => agrees(r, Err((ErrorKind::NotFound, not_found_text("owner"@, id)))),
            },
    {
        match self.repo.get(id) {
            Ok(Some(o)) => Ok(o),
            _ => Err(not_found("owner", id)),
        }
    }
}

} // verus!
