//! The whole marketplace kept in memory, and the account flows that span
//! owners and riders.

use vstd::prelude::*;
use crate::auth::password::{bcrypt_error_text, bcrypt_hash_ok, bcrypt_verifies, verify_password};
use crate::domain::referral::is_referral_code;
use crate::domain::role::Role;
use crate::domain::{Owner, Rider};
use crate::error::{agrees, AppError, ErrorKind};
use crate::repo::store::{lookup, upsert};
use crate::payment::MockPaymentGateway;
use crate::repo::in_memory::{
    owner_code_is, owner_email_is, rider_code_is, rider_email_is, InMemoryBookingRepo, InMemoryListingRepo,
    InMemoryOwnerRepo, InMemoryReviewRepo, InMemoryRiderRepo,
};
use crate::service::owner_service::account_rule_broken;
use crate::service::{BookingService, ListingService, OwnerService, ReviewService, RiderService};
use crate::text::{trim, trim_chars};

verus! {

/// Every service of the marketplace.
pub struct AppState {
    pub owner_service: OwnerService,
    pub rider_service: RiderService,
    pub listing_service: ListingService,
    pub booking_service: BookingService,
    pub review_service: ReviewService,
}

/// What an account operation hands back: who, as which role, and the
/// account's own referral code.
#[derive(Debug)]
pub struct Account {
    pub id: u128,
    pub role: Role,
    pub referral_code: String,
}

impl AppState {
    pub open spec fn wf(&self) -> bool {
        &&& self.owner_service.wf()
        &&& self.rider_service.wf()
        &&& self.listing_service.wf()
        &&& self.booking_service.wf()
        &&& self.review_service.wf()
    }
}

/// An empty marketplace backed by the in-memory stores and the in-memory
/// payment gateway.
pub fn build_in_memory_state() -> (s: AppState)
    ensures
        s.wf(),
        s.owner_service.repo.records().len() == 0,
        s.rider_service.repo.records().len() == 0,
        s.listing_service.repo.listing_records().len() == 0,
        s.listing_service.repo.slot_records().len() == 0,
        s.booking_service.booking_repo.records().len() == 0,
        s.review_service.review_repo.records().len() == 0,
{
    AppState {
        owner_service: OwnerService::new(InMemoryOwnerRepo::new()),
        rider_service: RiderService::new(InMemoryRiderRepo::new()),
        listing_service: ListingService::new(InMemoryListingRepo::new()),
        booking_service: BookingService::new(InMemoryBookingRepo::new(), MockPaymentGateway::new()),
        review_service: ReviewService::new(InMemoryReviewRepo::new()),
    }
}

/// The characters of an optional text.
pub open spec fn opt_text(o: Option<String>) -> Option<Seq<char>> {
    match o {
        Some(s) => Some(s@),
        None => None,
    }
}

/// The characters of an optional string slice.
pub open spec fn opt_str(o: Option<&str>) -> Option<Seq<char>> {
    match o {
        Some(s) => Some(s@),
        None => None,
    }
}

/// Whether some owner or rider already uses the referral code `code`.
pub open spec fn code_in_use(s: AppState, code: Seq<char>) -> bool {
    (exists|i: int|
        0 <= i < s.owner_service.repo.records().len() && owner_code_is(code)(
            #[trigger] s.owner_service.repo.records()[i],
        )) || (exists|i: int|
        0 <= i < s.rider_service.repo.records().len() && rider_code_is(code)(
            #[trigger] s.rider_service.repo.records()[i],
        ))
}

/// The referral a sign-up records: the trimmed code when it belongs to an
/// existing owner or rider; nothing for a blank or unknown code.
pub open spec fn referral_outcome(s: AppState, referred_by: Option<Seq<char>>) -> Option<Seq<char>> {
    match referred_by {
        None => None,
        Some(c) => {
            let t = trim_chars(c);
            if t.len() > 0 && code_in_use(s, t) {
                Some(t)
            } else {
                None
            }
        },
    }
}

/// What logging in checks of an account.
pub struct Credential {
    pub id: u128,
    pub email: Seq<char>,
    pub password_hash: Seq<char>,
    pub referral_code: Seq<char>,
}

pub open spec fn owner_credentials(s: Seq<Owner>) -> Seq<Credential> {
    s.map_values(
        |o: Owner|
            Credential { id: o.id, email: o.email@, password_hash: o.password_hash@, referral_code: o.referral_code@ },
    )
}

pub open spec fn rider_credentials(s: Seq<Rider>) -> Seq<Credential> {
    s.map_values(
        |o: Rider|
            Credential { id: o.id, email: o.email@, password_hash: o.password_hash@, referral_code: o.referral_code@ },
    )
}

/// Some account has the email `email`.
pub open spec fn has_email(cs: Seq<Credential>, email: Seq<char>) -> bool {
    exists|i: int| 0 <= i < cs.len() && (#[trigger] cs[i]).email == email
}

/// What logging in as `role` with `password` against the account found by
/// the email (its id, password hash and referral code) gives: an internal
/// error when bcrypt cannot check the hash; that account when bcrypt accepts
/// the password; else "invalid email or password".
pub open spec fn log_in_with(
    id: u128,
    hash: Seq<char>,
    code: Seq<char>,
    password: Seq<char>,
    role: Role,
    r: Result<Account, AppError>,
) -> bool {
    if !bcrypt_hash_ok(hash) {
        r matches Err(e) && e.kind_of() == ErrorKind::Internal && "failed to verify password: "@.is_prefix_of(e.text())
    } else if bcrypt_verifies(password, hash) {
        &&& r matches Ok(a)
        &&& a.id == id
        &&& a.role == role
        &&& a.referral_code@ == code
    } else {
        agrees(r, Err((ErrorKind::Unauthorized, "invalid email or password"@)))
    }
}

/// What logging in with `email` and `password` among the accounts `cs`
/// gives: "invalid email or password" when no account has the email; else
/// the outcome `log_in_with` for an account that has it (which one, where
/// several share an email, is left open).
pub open spec fn log_in_post(
    cs: Seq<Credential>,
    email: Seq<char>,
    password: Seq<char>,
    role: Role,
    r: Result<Account, AppError>,
) -> bool {
    if !has_email(cs, email) {
        agrees(r, Err((ErrorKind::Unauthorized, "invalid email or password"@)))
    } else {
        exists|i: int|
            0 <= i < cs.len() && (#[trigger] cs[i]).email == email && log_in_with(
                cs[i].id,
                cs[i].password_hash,
                cs[i].referral_code,
                password,
                role,
                r,
            )
    }
}

/// Logging in as the only account with a given email, whose hash bcrypt
/// can check, with the password that bcrypt accepts against it, gives that
/// account.
pub proof fn law_right_password_logs_in(
    cs: Seq<Credential>,
    k: int,
    password: Seq<char>,
    role: Role,
    r: Result<Account, AppError>,
)
    requires
        0 <= k < cs.len(),
        forall|i: int| 0 <= i < cs.len() && i != k ==> (#[trigger] cs[i]).email != cs[k].email,
        bcrypt_hash_ok(cs[k].password_hash),
        bcrypt_verifies(password, cs[k].password_hash),
        log_in_post(cs, cs[k].email, password, role, r),
    ensures
        r matches Ok(a) && a.id == cs[k].id && a.role == role && a.referral_code@ == cs[k].referral_code,
{
    assert(has_email(cs, cs[k].email));
}

/// A wrong password is answered as an unknown email is: logging in as the
/// only account with an email, whose hash bcrypt can check, with a password
/// that bcrypt rejects, gives "invalid email or password", the answer to an
/// email that no account has.
pub proof fn law_wrong_password_answers_like_unknown_email(
    cs: Seq<Credential>,
    k: int,
    password: Seq<char>,
    unknown: Seq<char>,
    role: Role,
    r: Result<Account, AppError>,
    r2: Result<Account, AppError>,
)
    requires
        0 <= k < cs.len(),
        forall|i: int| 0 <= i < cs.len() && i != k ==> (#[trigger] cs[i]).email != cs[k].email,
        bcrypt_hash_ok(cs[k].password_hash),
        !bcrypt_verifies(password, cs[k].password_hash),
        !has_email(cs, unknown),
        log_in_post(cs, cs[k].email, password, role, r),
        log_in_post(cs, unknown, password, role, r2),
    ensures
        agrees(r, Err((ErrorKind::Unauthorized, "invalid email or password"@))),
        agrees(r2, Err((ErrorKind::Unauthorized, "invalid email or password"@))),
{
    assert(has_email(cs, cs[k].email));
}

/// An internal error "failed to verify password: ..." for a bcrypt failure.
fn verify_failure(m: &str) -> (e: AppError)
    ensures
        e.kind_of() == ErrorKind::Internal,
        "failed to verify password: "@.is_prefix_of(e.text()),
{
    let e = AppError::joined(ErrorKind::Internal, "failed to verify password: ", m);
    proof {
        reveal_strlit("failed to verify password: ");
        assert(("failed to verify password: "@ + m@).subrange(0, "failed to verify password: "@.len() as int)
            =~= "failed to verify password: "@);
    }
    e
}

/// What logging in as `role` with `password` gives, on the account found by
/// the email (`found`: its id, password hash and referral code), if any.
pub fn log_in_found(found: Option<(u128, String, String)>, password: &str, role: Role) -> (r: Result<Account, AppError>)
    ensures
        match found {
            None => agrees(r, Err((ErrorKind::Unauthorized, "invalid email or password"@))),
            Some((id, hash, code)) => log_in_with(id, hash@, code@, password@, role, r),
        },
{
    let (id, password_hash, referral_code) = match found {
        Some(f) => f,
        None => return Err(AppError::new(ErrorKind::Unauthorized, "invalid email or password")),
    };
    match verify_password(password, password_hash.as_str()) {
        Err(err) => {
            let m = bcrypt_error_text(&err);
            Err(verify_failure(m.as_str()))
        },
        Ok(false) => Err(AppError::new(ErrorKind::Unauthorized, "invalid email or password")),
        Ok(true) => Ok(Account { id, role, referral_code }),
    }
}

/// The referral code that a sign-up asks for: the given text trimmed, or
/// nothing when none or a blank one is given.
pub fn referral_candidate(referred_by: Option<&str>) -> (r: Option<String>)
    ensures
        match referred_by {
            None => r is None,
            Some(c) => if trim_chars(c@).len() > 0 {
                r matches Some(t) && t@ == trim_chars(c@)
            } else {
                r is None
            },
        },
{
    match referred_by {
        None => None,
        Some(c) => {
            let code = trim(c);
            if code.as_str().unicode_len() == 0 {
                None
            } else {
                Some(code)
            }
        },
    }
}

/// The referral that a sign-up records for the asked-for `code`, once the
/// owner and rider stores have answered whether some account uses it: the
/// code where one does, else nothing.
pub fn known_referral(code: String, owner_found: bool, rider_found: bool) -> (r: Option<String>)
    ensures
        owner_found || rider_found ==> r == Some(code),
        !(owner_found || rider_found) ==> r is None,
{
    if owner_found || rider_found {
        Some(code)
    } else {
        None
    }
}

impl AppState {
    /// Resolves a referral code given at sign-up. An unknown or blank code
    /// is not an error: it is ignored.
    pub fn resolve_referral(&self, referred_by: Option<&str>) -> (r: Result<Option<String>, AppError>)
        requires
            self.wf(),
        ensures
            r matches Ok(o) && match (o, referral_outcome(*self, opt_str(referred_by))) {
                (None, None) => true,
                (Some(a), Some(b)) => a@ == b,
                _ => false,
            },
    {
        match referral_candidate(referred_by) {
            None => Ok(None),
            Some(code) => {
                let owner_match = match self.owner_service.find_by_referral_code(code.as_str()) {
                    Ok(o) => o,
                    Err(e) => return Err(e),
                };
                let owner_found = owner_match.is_some();
                proof {
                    if owner_found {
                        let x = owner_match->Some_0;
                        let i = choose|i: int| 0 <= i < self.owner_service.repo.records().len() && self.owner_service.repo.records()[i] == x;
                        assert(owner_code_is(code@)(self.owner_service.repo.records()[i]));
                    }
                }
                let rider_found = if owner_found {
                    false
                } else {
                    let rider_match = match self.rider_service.find_by_referral_code(code.as_str()) {
                        Ok(o) => o,
                        Err(e) => return Err(e),
                    };
                    proof {
                        if rider_match.is_some() {
                            let x = rider_match->Some_0;
                            let i = choose|i: int| 0 <= i < self.rider_service.repo.records().len() && self.rider_service.repo.records()[i] == x;
                            assert(rider_code_is(code@)(self.rider_service.repo.records()[i]));
                        }
                    }
                    rider_match.is_some()
                };
                Ok(known_referral(code, owner_found, rider_found))
            },
        }
    }

    /// Creates an owner or rider account, recording a valid referral.
    pub fn sign_up(
        &mut self,
        name: String,
        email: String,
        password: String,
        role: Role,
        referred_by: Option<String>,
    ) -> (r: Result<Account, AppError>)
        requires
            old(self).wf(),
        ensures
            final(self).wf(),
            final(self).listing_service == old(self).listing_service,
            final(self).booking_service == old(self).booking_service,
            final(self).review_service == old(self).review_service,
            match account_rule_broken(name@, email@) {
                Some(t) => {
                    &&& agrees(r, Err((ErrorKind::Validation, t)))
                    &&& final(self).owner_service.repo.records() == old(self).owner_service.repo.records()
                    &&& final(self).rider_service.repo.records() == old(self).rider_service.repo.records()
                },
                None => match r {
                    Ok(a) => {
                        &&& a.role == role
                        &&& is_referral_code(a.referral_code@)
                        &&& match role {
                            Role::Owner => {
                                &&& final(self).rider_service.repo.records() == old(self).rider_service.repo.records()
                                &&& match lookup(final(self).owner_service.repo.records(), a.id) {
                                    Some(o) => {
                                        &&& o.name == name
                                        &&& o.email == email
                                        &&& o.referral_code == a.referral_code
                                        &&& bcrypt_hash_ok(o.password_hash@)
                                        &&& bcrypt_verifies(password@, o.password_hash@)
                                        &&& opt_text(o.referred_by) == referral_outcome(*old(self), opt_text(referred_by))
                                        &&& final(self).owner_service.repo.records() == upsert(
                                            old(self).owner_service.repo.records(),
                                            o,
                                        )
                                    },
                                    None => false,
                                }
                            },
                            Role::Rider => {
                                &&& final(self).owner_service.repo.records() == old(self).owner_service.repo.records()
                                &&& match lookup(final(self).rider_service.repo.records(), a.id) {
                                    Some(v) => {
                                        &&& v.name == name
                                        &&& v.email == email
                                        &&& v.referral_code == a.referral_code
                                        &&& bcrypt_hash_ok(v.password_hash@)
                                        &&& bcrypt_verifies(password@, v.password_hash@)
                                        &&& opt_text(v.referred_by) == referral_outcome(*old(self), opt_text(referred_by))
                                        &&& final(self).rider_service.repo.records() == upsert(
                                            old(self).rider_service.repo.records(),
                                            v,
                                        )
                                    },
                                    None => false,
                                }
                            },
                        }
                    },
                    Err(e) => {
                        &&& e.kind_of() == ErrorKind::Internal
                        &&& "failed to hash password: "@.is_prefix_of(e.text())
                        &&& final(self).owner_service.repo.records() == old(self).owner_service.repo.records()
                        &&& final(self).rider_service.repo.records() == old(self).rider_service.repo.records()
                    },
                },
            },
    {
        let referral = match &referred_by {
            Some(c) => self.resolve_referral(Some(c.as_str())),
            None => self.resolve_referral(None),
        };
        let referral = match referral {
            Ok(x) => x,
            Err(e) => return Err(e),
        };
        match role {
            Role::Owner => {
                match self.owner_service.create_owner(name, email, password, referral) {
                    Ok(o) => Ok(Account { id: o.id, role: Role::Owner, referral_code: o.referral_code }),
                    Err(e) => Err(e),
                }
            },
            Role::Rider => {
                match self.rider_service.create_rider(name, email, password, referral) {
                    Ok(v) => Ok(Account { id: v.id, role: Role::Rider, referral_code: v.referral_code }),
                    Err(e) => Err(e),
                }
            },
        }
    }
    /// Logs in with an email and password as an owner or a rider.
    pub fn log_in(&self, email: &str, password: &str, role: Role) -> (r: Result<Account, AppError>)
        requires
            self.wf(),
        ensures
            match role {
                Role::Owner => log_in_post(owner_credentials(self.owner_service.repo.records()), email@, password@, role, r),
                Role::Rider => log_in_post(rider_credentials(self.rider_service.repo.records()), email@, password@, role, r),
            },
    {
        let found = match role {
            Role::Owner => match self.owner_service.find_by_email(email) {
                Ok(Some(o)) => {
                    proof {
                        let cs = owner_credentials(self.owner_service.repo.records());
                        let i = choose|i: int| 0 <= i < self.owner_service.repo.records().len() && self.owner_service.repo.records()[i] == o;
                        assert(cs[i].email == email@);
                    }
                    (o.id, o.password_hash, o.referral_code)
                },
                Ok(None) => {
                    proof {
                        let cs = owner_credentials(self.owner_service.repo.records());
                        assert forall|i: int| 0 <= i < cs.len() implies (#[trigger] cs[i]).email != email@ by {
                            assert(!owner_email_is(email@)(self.owner_service.repo.records()[i]));
                        }
                    }
                    return Err(AppError::new(ErrorKind::Unauthorized, "invalid email or password"));
                },
                Err(e) => return Err(e),
            },
            Role::Rider => match self.rider_service.find_by_email(email) {
                Ok(Some(o)) => {
                    proof {
                        let cs = rider_credentials(self.rider_service.repo.records());
                        let i = choose|i: int| 0 <= i < self.rider_service.repo.records().len() && self.rider_service.repo.records()[i] == o;
                        assert(cs[i].email == email@);
                    }
                    (o.id, o.password_hash, o.referral_code)
                },
                Ok(None) => {
                    proof {
                        let cs = rider_credentials(self.rider_service.repo.records());
                        assert forall|i: int| 0 <= i < cs.len() implies (#[trigger] cs[i]).email != email@ by {
                            assert(!rider_email_is(email@)(self.rider_service.repo.records()[i]));
                        }
                    }
                    return Err(AppError::new(ErrorKind::Unauthorized, "invalid email or password"));
                },
                Err(e) => return Err(e),
            },
        };
        let (id, password_hash, referral_code) = found;
        let ghost cs = match role {
            Role::Owner => owner_credentials(self.owner_service.repo.records()),
            Role::Rider => rider_credentials(self.rider_service.repo.records()),
        };
        assert(exists|i: int| 0 <= i < cs.len() && (#[trigger] cs[i]).email == email@ && cs[i].id == id
            && cs[i].password_hash == password_hash@ && cs[i].referral_code == referral_code@);
        log_in_found(Some((id, password_hash, referral_code)), password, role)
    }
}

} // verus!
