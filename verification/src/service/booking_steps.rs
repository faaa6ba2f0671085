//! The decisions of the booking operations, one step at a time, on what the
//! stores hold and on what the payment processor answered. The in-memory
//! [`BookingService`](crate::service::BookingService) runs them; so can a
//! caller whose stores or payment processor live elsewhere.

use vstd::prelude::*;
use crate::domain::booking::legal_transition;
use crate::domain::{Booking, BookingStatus, Listing, TimeSlot};
use crate::error::{agrees, not_found, not_found_text, AppError, ErrorKind};
use crate::service::booking_service::{
    booking_total, forbidden_text, no_hold_text, status_debug_name, transition_text, with_booked, with_status,
};
use crate::time::Timestamp;

verus! {

/// The checks in front of an owner or rider action on a booking, on the
/// booking stored under `booking_id` (`found`) and the listing stored under
/// that booking's listing id (`listing`), in order: the booking exists, its
/// listing exists, the actor is the listing's owner (or the booking's rider,
/// where `rider_may`), and the booking's status may move to `target`.
pub open spec fn checks_on(
    booking_id: u128,
    found: Option<Booking>,
    listing: Option<Listing>,
    actor_id: u128,
    target: BookingStatus,
    rider_may: bool,
    verb: Seq<char>,
) -> Result<Booking, (ErrorKind, Seq<char>)> {
    match found {
        None => Err((ErrorKind::NotFound, not_found_text("booking"@, booking_id))),
        Some(b) => match listing {
            None => Err((ErrorKind::NotFound, not_found_text("listing"@, b.listing_id))),
            Some(l) => if !(actor_id == l.owner_id || (rider_may && actor_id == b.rider_id)) {
                Err((ErrorKind::Forbidden, forbidden_text(verb, rider_may)))
            } else if !legal_transition(b.status, target) {
                Err((ErrorKind::Conflict, transition_text(b.status, target)))
            } else {
                Ok(b)
            },
        },
    }
}

/// Runs the checks in front of an action: `found` is the booking stored
/// under `booking_id`, `listing` the listing stored under its listing id.
pub fn check_action(
    booking_id: u128,
    found: Option<Booking>,
    listing: Option<Listing>,
    actor_id: u128,
    target: BookingStatus,
    rider_may: bool,
    verb: &str,
) -> (r: Result<Booking, AppError>)
    ensures
        agrees(r, checks_on(booking_id, found, listing, actor_id, target, rider_may, verb@)),
{
    let booking = match found {
        Some(b) => b,
        None => return Err(not_found("booking", booking_id)),
    };
    let owner_id = match listing {
        Some(l) => l.owner_id,
        None => return Err(not_found("listing", booking.listing_id)),
    };
    if !(actor_id == owner_id || (rider_may && actor_id == booking.rider_id)) {
        let m = if rider_may {
            String::from_str("only the rider or the listing owner can ")
        } else {
            String::from_str("only the listing owner can ")
        };
        let mut m = m;
        m.append(verb);
        m.append(" this booking");
        return Err(AppError::new(ErrorKind::Forbidden, m.as_str()));
    }
    if !booking.status.can_transition_to(target) {
        let mut m = String::from_str("booking cannot transition from ");
        m.append(status_debug_name(booking.status));
        m.append(" to ");
        m.append(status_debug_name(target));
        return Err(AppError::new(ErrorKind::Conflict, m.as_str()));
    }
    Ok(booking)
}

/// `b` moved to status `s` at time `t`.
pub fn moved(b: Booking, s: BookingStatus, t: Timestamp) -> (r: Booking)
    ensures
        r == with_status(b, s, t),
{
    let mut b = b;
    b.status = s;
    b.updated_at = t;
    b
}

/// What a request checks, on the listing stored under `listing_id` and the
/// slot stored under `time_slot_id`: both exist, the slot belongs to the
/// listing and is free. Passing gives the total to authorize.
pub open spec fn request_checks_on(
    listing_id: u128,
    time_slot_id: u128,
    listing: Option<Listing>,
    slot: Option<TimeSlot>,
) -> Result<int, (ErrorKind, Seq<char>)> {
    match listing {
        None => Err((ErrorKind::NotFound, not_found_text("listing"@, listing_id))),
        Some(l) => match slot {
            None => Err((ErrorKind::NotFound, not_found_text("time slot"@, time_slot_id))),
            Some(s) => if s.listing_id != listing_id {
                Err((ErrorKind::Validation, "time slot does not belong to the given listing"@))
            } else if s.is_booked {
                Err((ErrorKind::Conflict, "time slot is already booked"@))
            } else {
                Ok(booking_total(l, s))
            },
        },
    }
}

/// Where a request would reach the payment step, its total fits in `i64`.
pub open spec fn total_fits_on(listing: Option<Listing>, slot: Option<TimeSlot>, listing_id: u128) -> bool {
    match (listing, slot) {
        (Some(l), Some(s)) => s.listing_id == listing_id && !s.is_booked ==> i64::MIN <= booking_total(l, s)
            <= i64::MAX,
        _ => true,
    }
}

/// Whether a request on the listing and slot stored under `listing_id`
/// and the requested slot id (`listing`, `slot`) has a total that fits in
/// `i64` wherever it reaches the payment step: the test to make before
/// [`check_request`].
pub fn total_fits(listing_id: u128, listing: &Option<Listing>, slot: &Option<TimeSlot>) -> (r: bool)
    ensures
        r == total_fits_on(*listing, *slot, listing_id),
{
    match (listing, slot) {
        (Some(l), Some(s)) => if s.listing_id == listing_id && !s.is_booked {
            l.hourly_price_cents.checked_mul(s.duration_hours_ceil()).is_some()
        } else {
            true
        },
        _ => true,
    }
}

/// Runs the checks of a request; gives the total (the hourly price times
/// the slot's billed hours) to authorize.
pub fn check_request(listing_id: u128, time_slot_id: u128, listing: Option<Listing>, slot: Option<TimeSlot>) -> (r: Result<
    i64,
    AppError,
>)
    requires
        total_fits_on(listing, slot, listing_id),
    ensures
        match request_checks_on(listing_id, time_slot_id, listing, slot) {
            Ok(t) => r matches Ok(x) && x == t,
            Err((k, m)) => r matches Err(e) && e.is(k, m),
        },
{
    let listing = match listing {
        Some(l) => l,
        None => return Err(not_found("listing", listing_id)),
    };
    let slot = match slot {
        Some(s) => s,
        None => return Err(not_found("time slot", time_slot_id)),
    };
    if slot.listing_id != listing_id {
        return Err(AppError::new(ErrorKind::Validation, "time slot does not belong to the given listing"));
    }
    if slot.is_booked {
        return Err(AppError::new(ErrorKind::Conflict, "time slot is already booked"));
    }
    let hours = slot.duration_hours_ceil();
    Ok(listing.hourly_price_cents * hours)
}

/// The booking a request stores once the payment processor answered the
/// authorization of `total_price_cents` with `authorized`: a failure is
/// passed on; a hold gives a new Requested booking that holds it.
pub fn booking_from_hold(
    listing_id: u128,
    rider_id: u128,
    time_slot_id: u128,
    total_price_cents: i64,
    message_from_rider: Option<String>,
    authorized: Result<String, AppError>,
) -> (r: Result<Booking, AppError>)
    ensures
        match authorized {
            Err(e) => r == Err::<Booking, AppError>(e),
            Ok(h) => {
                &&& r matches Ok(b)
                &&& b.listing_id == listing_id
                &&& b.rider_id == rider_id
                &&& b.time_slot_id == time_slot_id
                &&& b.status == BookingStatus::Requested
                &&& b.total_price_cents == total_price_cents
                &&& b.message_from_rider == message_from_rider
                &&& b.created_at == b.updated_at
                &&& b.payment_hold_id == Some(h)
            },
        },
{
    let hold_id = match authorized {
        Ok(h) => h,
        Err(e) => return Err(e),
    };
    let mut booking = Booking::new(listing_id, rider_id, time_slot_id, total_price_cents, message_from_rider);
    booking.payment_hold_id = Some(hold_id);
    Ok(booking)
}

/// The hold that confirming the booking `b` (stored under `booking_id`)
/// captures; a booking without one is an internal error.
pub fn hold_to_capture(booking_id: u128, b: &Booking) -> (r: Result<String, AppError>)
    ensures
        match b.payment_hold_id {
            Some(h) => r == Ok::<String, AppError>(h),
            None => agrees(r, Err((ErrorKind::Internal, no_hold_text(booking_id)))),
        },
{
    match &b.payment_hold_id {
        Some(h) => Ok(h.clone()),
        None => {
            let mut m = String::from_str("booking ");
            let idt = crate::text::id_text(booking_id);
            m.append(idt.as_str());
            m.append(" has no payment hold to capture");
            Err(AppError::new(ErrorKind::Internal, m.as_str()))
        },
    }
}

/// What confirming `b` writes once the payment processor answered the
/// capture with `captured`, on the slot stored under the booking's slot id
/// (`slot`): a failed capture is passed on; a missing or already booked slot
/// is refused; else the booking, Confirmed at `t`, and its slot, booked.
pub fn confirm_after_capture(b: Booking, captured: Result<(), AppError>, slot: Option<TimeSlot>, t: Timestamp) -> (r:
    Result<(Booking, TimeSlot), AppError>)
    ensures
        match captured {
            Err(e) => r == Err::<(Booking, TimeSlot), AppError>(e),
            Ok(_) => match slot {
                None => agrees(r, Err((ErrorKind::NotFound, not_found_text("time slot"@, b.time_slot_id)))),
                Some(s) => if s.is_booked {
                    agrees(r, Err((ErrorKind::Conflict, "time slot is already booked"@)))
                } else {
                    r == Ok::<(Booking, TimeSlot), AppError>(
                        (with_status(b, BookingStatus::Confirmed, t), with_booked(s, true)),
                    )
                },
            },
        },
{
    match captured {
        Ok(()) => {},
        Err(e) => return Err(e),
    }
    let slot = match slot {
        Some(s) => s,
        None => return Err(not_found("time slot", b.time_slot_id)),
    };
    if slot.is_booked {
        return Err(AppError::new(ErrorKind::Conflict, "time slot is already booked"));
    }
    let mut slot = slot;
    slot.is_booked = true;
    Ok((moved(b, BookingStatus::Confirmed, t), slot))
}

/// What declining `b` writes once its hold's release was answered with
/// `released` (`Ok` where the booking holds nothing): a failed release is
/// passed on; else the booking, Declined at `t`.
pub fn decline_after_release(b: Booking, released: Result<(), AppError>, t: Timestamp) -> (r: Result<Booking, AppError>)
    ensures
        match released {
            Err(e) => r == Err::<Booking, AppError>(e),
            Ok(_) => r == Ok::<Booking, AppError>(with_status(b, BookingStatus::Declined, t)),
        },
{
    match released {
        Ok(()) => Ok(moved(b, BookingStatus::Declined, t)),
        Err(e) => Err(e),
    }
}

/// What a cancellation writes to the slots once the hold's release was
/// answered with `released` (`Ok` where the booking holds nothing): `was` is
/// the status before the cancellation and `slot` the booking's slot as
/// stored. A failed release is passed on; a booking that was Confirmed
/// frees its slot, if the slot still exists; else no slot changes.
pub fn slot_after_release(was: BookingStatus, released: Result<(), AppError>, slot: Option<TimeSlot>) -> (r: Result<
    Option<TimeSlot>,
    AppError,
>)
    ensures
        match released {
            Err(e) => r == Err::<Option<TimeSlot>, AppError>(e),
            Ok(_) => r == Ok::<Option<TimeSlot>, AppError>(
                if was == BookingStatus::Confirmed {
                    match slot {
                        Some(s) => Some(with_booked(s, false)),
                        None => None,
                    }
                } else {
                    None
                },
            ),
        },
{
    match released {
        Ok(()) => {},
        Err(e) => return Err(e),
    }
    if was == BookingStatus::Confirmed {
        match slot {
            Some(s) => {
                let mut s = s;
                s.is_booked = false;
                Ok(Some(s))
            },
            None => Ok(None),
        }
    } else {
        Ok(None)
    }
}

} // verus!
