//! What an authenticated identity may do: the role and ownership checks in
//! front of the marketplace's operations.

use vstd::prelude::*;
use crate::auth::jwt::AuthIdentity;
use crate::domain::{AnimalKind, Booking, Listing, Role, TimeSlot};
use crate::error::{agrees, not_found_text, AppError, ErrorKind};
use crate::repo::in_memory::booking_of_rider;
use crate::repo::store::lookup;
use crate::service::booking_service::{
    booking_of_owner, cancel_post, complete_post, confirm_post, decline_post, request_post, request_total_fits,
};
use crate::service::booking_steps::total_fits;
use crate::service::listing_service::{add_time_slot_post, create_listing_post};
use crate::state::AppState;
use crate::time::Timestamp;

verus! {

/// Refuses, as Forbidden with the text `t`, an identity whose role is not
/// `role`.
pub fn require_role(who: &AuthIdentity, role: Role, t: &str) -> (r: Result<(), AppError>)
    ensures
        who.role == role ==> r is Ok,
        who.role != role ==> agrees(r, Err((ErrorKind::Forbidden, t@))),
{
    if who.role != role {
        return Err(AppError::new(ErrorKind::Forbidden, t));
    }
    Ok(())
}

/// Only the account itself may read its booking history.
pub fn require_self(who: &AuthIdentity, id: u128) -> (r: Result<(), AppError>)
    ensures
        who.id == id ==> r is Ok,
        who.id != id ==> agrees(r, Err((ErrorKind::Forbidden, "you can only view your own booking history"@))),
{
    if who.id != id {
        return Err(AppError::new(ErrorKind::Forbidden, "you can only view your own booking history"));
    }
    Ok(())
}

/// Only the owner of a listing may add slots to it: refuses an identity
/// that does not own the listing found (`listing`, if one was found).
pub fn require_listing_owner(who: &AuthIdentity, listing: Option<&Listing>) -> (r: Result<(), AppError>)
    ensures
        match listing {
            Some(l) => if l.owner_id != who.id {
                agrees(r, Err((ErrorKind::Forbidden, "only the listing owner can add time slots to this listing"@)))
            } else {
                r is Ok
            },
            None => r is Ok,
        },
{
    match listing {
        Some(l) => if l.owner_id != who.id {
            Err(AppError::new(ErrorKind::Forbidden, "only the listing owner can add time slots to this listing"))
        } else {
            Ok(())
        },
        None => Ok(()),
    }
}

} // verus!

verus! {

impl AppState {
    /// An owner creates a listing of their own; anyone else is refused.
    pub fn create_listing_as(
        &mut self,
        who: &AuthIdentity,
        kind: AnimalKind,
        name: String,
        description: String,
        photo_url: String,
        hourly_price_cents: i64,
        lat_bits: u64,
        lng_bits: u64,
    ) -> (r: Result<Listing, AppError>)
        requires
            old(self).wf(),
        ensures
            final(self).wf(),
            final(self).booking_service == old(self).booking_service,
            final(self).listing_service.repo.slot_records() == old(self).listing_service.repo.slot_records(),
            who.role != Role::Owner ==> {
                &&& agrees(r, Err((ErrorKind::Forbidden, "only owners can create listings"@)))
                &&& final(self).listing_service.repo.listing_records() == old(self).listing_service.repo.listing_records()
            },
            who.role == Role::Owner ==> create_listing_post(
                old(self).listing_service.repo.listing_records(),
                final(self).listing_service.repo.listing_records(),
                who.id,
                kind,
                name,
                description,
                photo_url,
                hourly_price_cents,
                lat_bits,
                lng_bits,
                r,
            ),
    {
        match require_role(who, Role::Owner, "only owners can create listings") {
            Ok(()) => {},
            Err(e) => return Err(e),
        }
        self.listing_service.create_listing(
            who.id,
            kind,
            name,
            description,
            photo_url,
            hourly_price_cents,
            lat_bits,
            lng_bits,
        )
    }

    /// The owner of a listing adds a time slot to it; other owners and
    /// riders are refused.
    pub fn add_time_slot_as(&mut self, who: &AuthIdentity, listing_id: u128, start_at: Timestamp, end_at: Timestamp) -> (r:
        Result<TimeSlot, AppError>)
        requires
            old(self).wf(),
        ensures
            final(self).wf(),
            final(self).booking_service == old(self).booking_service,
            final(self).listing_service.repo.listing_records() == old(self).listing_service.repo.listing_records(),
            ({
                let listings = old(self).listing_service.repo.listing_records();
                let before = old(self).listing_service.repo.slot_records();
                let after = final(self).listing_service.repo.slot_records();
                if who.role != Role::Owner {
                    agrees(r, Err((ErrorKind::Forbidden, "only owners can add time slots"@))) && after == before
                } else {
                    match lookup(listings, listing_id) {
                        None => agrees(r, Err((ErrorKind::NotFound, not_found_text("listing"@, listing_id))))
                            && after == before,
                        Some(l) => if l.owner_id != who.id {
                            agrees(
                                r,
                                Err((ErrorKind::Forbidden, "only the listing owner can add time slots to this listing"@)),
                            ) && after == before
                        } else {
                            add_time_slot_post(listings, before, after, listing_id, start_at, end_at, r)
                        },
                    }
                }
            }),
    {
        match require_role(who, Role::Owner, "only owners can add time slots") {
            Ok(()) => {},
            Err(e) => return Err(e),
        }
        let listing = match self.listing_service.get_listing(listing_id) {
            Ok(l) => l,
            Err(e) => return Err(e),
        };
        match require_listing_owner(who, Some(&listing)) {
            Ok(()) => {},
            Err(e) => return Err(e),
        }
        self.listing_service.add_time_slot(listing_id, start_at, end_at)
    }

    /// Whether a request for the slot `time_slot_id` of the listing
    /// `listing_id` has a total that fits in `i64` where it reaches the
    /// payment step (the condition that `request_booking_as` asks of a
    /// rider's request).
    pub fn booking_total_fits(&self, listing_id: u128, time_slot_id: u128) -> (r: bool)
        requires
            self.wf(),
        ensures
            r == request_total_fits(self.booking_service.world(&self.listing_service.repo), listing_id, time_slot_id),
    {
        let listing = match self.listing_service.repo.get(listing_id) {
            Ok(l) => l,
            Err(_) => None,
        };
        let slot = match self.listing_service.repo.get_time_slot(time_slot_id) {
            Ok(s) => s,
            Err(_) => None,
        };
        total_fits(listing_id, &listing, &slot)
    }

    /// A rider requests a booking for themself; owners are refused.
    pub fn request_booking_as(
        &mut self,
        who: &AuthIdentity,
        listing_id: u128,
        time_slot_id: u128,
        message_from_rider: Option<String>,
    ) -> (r: Result<Booking, AppError>)
        requires
            old(self).wf(),
            who.role == Role::Rider ==> request_total_fits(
                old(self).booking_service.world(&old(self).listing_service.repo),
                listing_id,
                time_slot_id,
            ),
        ensures
            final(self).wf(),
            final(self).listing_service == old(self).listing_service,
            who.role != Role::Rider ==> {
                &&& agrees(r, Err((ErrorKind::Forbidden, "only riders can request bookings"@)))
                &&& final(self).booking_service == old(self).booking_service
            },
            who.role == Role::Rider ==> request_post(
                old(self).booking_service.world(&old(self).listing_service.repo),
                final(self).booking_service.world(&final(self).listing_service.repo),
                listing_id,
                who.id,
                time_slot_id,
                message_from_rider,
                r,
            ),
    {
        match require_role(who, Role::Rider, "only riders can request bookings") {
            Ok(()) => {},
            Err(e) => return Err(e),
        }
        self.booking_service.request_booking(
            &self.listing_service.repo,
            listing_id,
            who.id,
            time_slot_id,
            message_from_rider,
        )
    }

    /// A listing owner confirms a booking; riders are refused.
    pub fn confirm_booking_as(&mut self, who: &AuthIdentity, booking_id: u128) -> (r: Result<Booking, AppError>)
        requires
            old(self).wf(),
        ensures
            final(self).wf(),
            who.role != Role::Owner ==> {
                &&& agrees(r, Err((ErrorKind::Forbidden, "only owners can confirm bookings"@)))
                &&& final(self).booking_service == old(self).booking_service
                &&& final(self).listing_service == old(self).listing_service
            },
            who.role == Role::Owner ==> confirm_post(
                old(self).booking_service.world(&old(self).listing_service.repo),
                final(self).booking_service.world(&final(self).listing_service.repo),
                booking_id,
                who.id,
                r,
            ),
    {
        match require_role(who, Role::Owner, "only owners can confirm bookings") {
            Ok(()) => {},
            Err(e) => return Err(e),
        }
        self.booking_service.confirm_booking(&mut self.listing_service.repo, booking_id, who.id)
    }

    /// A listing owner declines a booking; riders are refused.
    pub fn decline_booking_as(&mut self, who: &AuthIdentity, booking_id: u128) -> (r: Result<Booking, AppError>)
        requires
            old(self).wf(),
        ensures
            final(self).wf(),
            final(self).listing_service == old(self).listing_service,
            who.role != Role::Owner ==> {
                &&& agrees(r, Err((ErrorKind::Forbidden, "only owners can decline bookings"@)))
                &&& final(self).booking_service == old(self).booking_service
            },
            who.role == Role::Owner ==> decline_post(
                old(self).booking_service.world(&old(self).listing_service.repo),
                final(self).booking_service.world(&final(self).listing_service.repo),
                booking_id,
                who.id,
                r,
            ),
    {
        match require_role(who, Role::Owner, "only owners can decline bookings") {
            Ok(()) => {},
            Err(e) => return Err(e),
        }
        self.booking_service.decline_booking(&self.listing_service.repo, booking_id, who.id)
    }

    /// The rider or the listing owner cancels a booking.
    pub fn cancel_booking_as(&mut self, who: &AuthIdentity, booking_id: u128) -> (r: Result<Booking, AppError>)
        requires
            old(self).wf(),
        ensures
            final(self).wf(),
            cancel_post(
                old(self).booking_service.world(&old(self).listing_service.repo),
                final(self).booking_service.world(&final(self).listing_service.repo),
                booking_id,
                who.id,
                r,
            ),
    {
        self.booking_service.cancel_booking(&mut self.listing_service.repo, booking_id, who.id)
    }

    /// A listing owner marks a booking completed; riders are refused.
    pub fn complete_booking_as(&mut self, who: &AuthIdentity, booking_id: u128) -> (r: Result<Booking, AppError>)
        requires
            old(self).wf(),
        ensures
            final(self).wf(),
            final(self).listing_service == old(self).listing_service,
            who.role != Role::Owner ==> {
                &&& agrees(r, Err((ErrorKind::Forbidden, "only owners can complete bookings"@)))
                &&& final(self).booking_service == old(self).booking_service
            },
            who.role == Role::Owner ==> complete_post(
                old(self).booking_service.world(&old(self).listing_service.repo),
                final(self).booking_service.world(&final(self).listing_service.repo),
                booking_id,
                who.id,
                r,
            ),
    {
        match require_role(who, Role::Owner, "only owners can complete bookings") {
            Ok(()) => {},
            Err(e) => return Err(e),
        }
        self.booking_service.complete_booking(&self.listing_service.repo, booking_id, who.id)
    }

    /// A rider reads their own booking history, oldest first.
    pub fn rider_bookings_as(&self, who: &AuthIdentity, rider_id: u128) -> (r: Result<Vec<Booking>, AppError>)
        requires
            self.wf(),
        ensures
            who.id != rider_id ==> agrees(r, Err((ErrorKind::Forbidden, "you can only view your own booking history"@))),
            who.id == rider_id ==> (r matches Ok(v) && v@ == self.booking_service.booking_repo.records().filter(
                booking_of_rider(rider_id),
            )),
    {
        match require_self(who, rider_id) {
            Ok(()) => {},
            Err(e) => return Err(e),
        }
        self.booking_service.list_by_rider(rider_id)
    }

    /// An owner reads the bookings of their own listings, oldest first.
    pub fn owner_bookings_as(&self, who: &AuthIdentity, owner_id: u128) -> (r: Result<Vec<Booking>, AppError>)
        requires
            self.wf(),
        ensures
            who.id != owner_id ==> agrees(r, Err((ErrorKind::Forbidden, "you can only view your own booking history"@))),
            who.id == owner_id ==> (r matches Ok(v) && v@ == self.booking_service.booking_repo.records().filter(
                booking_of_owner(self.listing_service.repo.listing_records(), owner_id),
            )),
    {
        match require_self(who, owner_id) {
            Ok(()) => {},
            Err(e) => return Err(e),
        }
        self.booking_service.list_by_owner(&self.listing_service.repo, owner_id)
    }
}

} // verus!
