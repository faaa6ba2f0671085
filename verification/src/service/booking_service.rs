use vstd::prelude::*;
use crate::domain::booking::legal_transition;
use crate::domain::listing::billed_hours;
use crate::domain::{Booking, BookingStatus, Listing, TimeSlot};
use crate::error::{agrees, not_found, not_found_text, AppError, ErrorKind};
use crate::payment::mock::{capture_outcome, release_outcome, CallRecord, HoldState, MockPaymentGateway};
use crate::repo::in_memory::{booking_of_rider, listing_of_owner, InMemoryBookingRepo, InMemoryListingRepo};
use crate::repo::store::{lemma_filter_step, lemma_take_all};
use crate::repo::store::{lookup, upsert};
use crate::service::booking_steps::{
    booking_from_hold, check_action, check_request, confirm_after_capture, decline_after_release, hold_to_capture, moved,
    slot_after_release,
};
use crate::time::{now, Timestamp};

verus! {

/// Everything that the booking operations read and write: the bookings,
/// the listings and their slots, and the payment holds and calls.
pub struct BookingWorld {
    pub bookings: Seq<Booking>,
    pub listings: Seq<Listing>,
    pub slots: Seq<TimeSlot>,
    pub holds: Map<Seq<char>, HoldState>,
    pub calls: Seq<CallRecord>,
}

/// The state of the hold `k` in `w`, if there is one.
pub open spec fn hold_in(w: BookingWorld, k: Seq<char>) -> Option<HoldState> {
    if w.holds.contains_key(k) {
        Some(w.holds[k])
    } else {
        None
    }
}

/// `b` moved to status `s` at time `t`.
pub open spec fn with_status(b: Booking, s: BookingStatus, t: Timestamp) -> Booking {
    Booking { status: s, updated_at: t, ..b }
}

/// `s` marked booked or free.
pub open spec fn with_booked(s: TimeSlot, booked: bool) -> TimeSlot {
    TimeSlot { is_booked: booked, ..s }
}

/// The name of a status as its `Debug` form writes it.
pub open spec fn status_name(s: BookingStatus) -> Seq<char> {
    match s {
        BookingStatus::Requested => "Requested"@,
        BookingStatus::Confirmed => "Confirmed"@,
        BookingStatus::Declined => "Declined"@,
        BookingStatus::Cancelled => "Cancelled"@,
        BookingStatus::Completed => "Completed"@,
    }
}

/// The name of a status as its `Debug` form writes it.
pub fn status_debug_name(s: BookingStatus) -> (r: &'static str)
    ensures
        r@ == status_name(s),
{
    match s {
        BookingStatus::Requested => "Requested",
        BookingStatus::Confirmed => "Confirmed",
        BookingStatus::Declined => "Declined",
        BookingStatus::Cancelled => "Cancelled",
        BookingStatus::Completed => "Completed",
    }
}

/// "booking cannot transition from `<from>` to `<to>`".
pub open spec fn transition_text(from: BookingStatus, to: BookingStatus) -> Seq<char> {
    "booking cannot transition from "@ + status_name(from) + " to "@ + status_name(to)
}

/// Who may act, and on what: "only the listing owner can `<verb>` this
/// booking", or "only the rider or the listing owner can ..." where the
/// rider may act too.
pub open spec fn forbidden_text(verb: Seq<char>, rider_may: bool) -> Seq<char> {
    if rider_may {
        "only the rider or the listing owner can "@ + verb + " this booking"@
    } else {
        "only the listing owner can "@ + verb + " this booking"@
    }
}

/// "booking `<id>` has no payment hold to capture".
pub open spec fn no_hold_text(id: u128) -> Seq<char> {
    "booking "@ + crate::text::uuid_text(id) + " has no payment hold to capture"@
}

/// The checks in front of every owner or rider action on a booking, in
/// order: the booking exists, its listing exists, the actor is the listing's
/// owner (or the booking's rider, where `rider_may`), and the booking's
/// status may move to `target`. Passing gives the booking.
pub open spec fn action_checks(
    w: BookingWorld,
    booking_id: u128,
    actor_id: u128,
    target: BookingStatus,
    rider_may: bool,
    verb: Seq<char>,
) -> Result<Booking, (ErrorKind, Seq<char>)> {
    match lookup(w.bookings, booking_id) {
        None => Err((ErrorKind::NotFound, not_found_text("booking"@, booking_id))),
        Some(b) => match lookup(w.listings, b.listing_id) {
            None => Err((ErrorKind::NotFound, not_found_text("listing"@, b.listing_id))),
            Some(l) => if !(actor_id == l.owner_id || (rider_may && actor_id == b.rider_id)) {
                Err((ErrorKind::Forbidden, forbidden_text(verb, rider_may)))
            } else if !legal_transition(b.status, target) {
                Err((ErrorKind::Conflict, transition_text(b.status, target)))
            } else {
                Ok(b)
            },
        },
    }
}

/// The effect of confirming a booking: after the checks, capture the booking's
/// payment hold, then mark its slot booked and the booking Confirmed. A
/// failed capture changes nothing but the call log; a missing or already
/// booked slot after a good capture leaves the hold captured.
pub open spec fn confirm_post(
    w0: BookingWorld,
    w1: BookingWorld,
    booking_id: u128,
    actor_id: u128,
    r: Result<Booking, AppError>,
) -> bool {
    match action_checks(w0, booking_id, actor_id, BookingStatus::Confirmed, false, "confirm"@) {
        Err(x) => agrees(r, Err(x)) && w1 == w0,
        Ok(b) => match b.payment_hold_id {
            None => agrees(r, Err((ErrorKind::Internal, no_hold_text(booking_id)))) && w1 == w0,
            Some(h) => {
                &&& w1.calls == w0.calls.push(CallRecord::Capture { hold_id: h@ })
                &&& w1.listings == w0.listings
                &&& match capture_outcome(hold_in(w0, h@), h@) {
                    Err(x) => {
                        &&& agrees(r, Err(x))
                        &&& w1.holds == w0.holds
                        &&& w1.bookings == w0.bookings
                        &&& w1.slots == w0.slots
                    },
                    Ok(_) => {
                        &&& w1.holds == w0.holds.insert(h@, HoldState::Captured)
                        &&& match lookup(w0.slots, b.time_slot_id) {
                            None => {
                                &&& agrees(r, Err((ErrorKind::NotFound, not_found_text("time slot"@, b.time_slot_id))))
                                &&& w1.bookings == w0.bookings
                                &&& w1.slots == w0.slots
                            },
                            Some(s) => if s.is_booked {
                                &&& agrees(r, Err((ErrorKind::Conflict, "time slot is already booked"@)))
                                &&& w1.bookings == w0.bookings
                                &&& w1.slots == w0.slots
                            } else {
                                &&& r matches Ok(b1)
                                &&& b1 == with_status(b, BookingStatus::Confirmed, b1.updated_at)
                                &&& w1.bookings == upsert(w0.bookings, b1)
                                &&& w1.slots == upsert(w0.slots, with_booked(s, true))
                            },
                        }
                    },
                }
            },
        },
    }
}

/// The total that booking `s` of listing `l` costs: the hourly price times
/// the billed hours.
pub open spec fn booking_total(l: Listing, s: TimeSlot) -> int {
    l.hourly_price_cents * billed_hours(s.start_at, s.end_at)
}

/// Where a request would reach the payment step, its total fits in `i64`.
pub open spec fn request_total_fits(w: BookingWorld, listing_id: u128, time_slot_id: u128) -> bool {
    match (lookup(w.listings, listing_id), lookup(w.slots, time_slot_id)) {
        (Some(l), Some(s)) => s.listing_id == listing_id && !s.is_booked ==> i64::MIN <= booking_total(l, s)
            <= i64::MAX,
        _ => true,
    }
}

/// The effect of requesting a booking: the listing and the slot must exist, the
/// slot must belong to the listing and be free; then the total is
/// authorized against the rider and a Requested booking holding the new
/// hold is stored.
pub open spec fn request_post(
    w0: BookingWorld,
    w1: BookingWorld,
    listing_id: u128,
    rider_id: u128,
    time_slot_id: u128,
    message_from_rider: Option<String>,
    r: Result<Booking, AppError>,
) -> bool {
    match lookup(w0.listings, listing_id) {
        None => agrees(r, Err((ErrorKind::NotFound, not_found_text("listing"@, listing_id)))) && w1 == w0,
        Some(l) => match lookup(w0.slots, time_slot_id) {
            None => agrees(r, Err((ErrorKind::NotFound, not_found_text("time slot"@, time_slot_id)))) && w1 == w0,
            Some(s) => if s.listing_id != listing_id {
                agrees(r, Err((ErrorKind::Validation, "time slot does not belong to the given listing"@))) && w1 == w0
            } else if s.is_booked {
                agrees(r, Err((ErrorKind::Conflict, "time slot is already booked"@))) && w1 == w0
            } else {
                &&& w1.calls == w0.calls.push(
                    CallRecord::Authorize { amount_cents: booking_total(l, s) as i64, rider_id },
                )
                &&& w1.listings == w0.listings
                &&& w1.slots == w0.slots
                &&& r matches Ok(b)
                &&& b.listing_id == listing_id
                &&& b.rider_id == rider_id
                &&& b.time_slot_id == time_slot_id
                &&& b.status == BookingStatus::Requested
                &&& b.total_price_cents == booking_total(l, s)
                &&& b.message_from_rider == message_from_rider
                &&& b.created_at == b.updated_at
                &&& b.payment_hold_id matches Some(h)
                &&& w1.holds == w0.holds.insert(h@, HoldState::Authorized)
                &&& w1.bookings == upsert(w0.bookings, b)
            },
        },
    }
}

/// The effect of declining a booking: after the checks, release the booking's
/// payment hold if it has one; a failed release changes nothing but the
/// call log. Then the booking becomes Declined.
pub open spec fn decline_post(
    w0: BookingWorld,
    w1: BookingWorld,
    booking_id: u128,
    actor_id: u128,
    r: Result<Booking, AppError>,
) -> bool {
    match action_checks(w0, booking_id, actor_id, BookingStatus::Declined, false, "decline"@) {
        Err(x) => agrees(r, Err(x)) && w1 == w0,
        Ok(b) => {
            &&& w1.listings == w0.listings
            &&& w1.slots == w0.slots
            &&& match b.payment_hold_id {
                Some(h) => {
                    &&& w1.calls == w0.calls.push(CallRecord::Release { hold_id: h@ })
                    &&& match release_outcome(hold_in(w0, h@), h@) {
                        Err(x) => agrees(r, Err(x)) && w1.holds == w0.holds && w1.bookings == w0.bookings,
                        Ok(_) => {
                            &&& w1.holds == w0.holds.insert(h@, HoldState::Released)
                            &&& r matches Ok(b1)
                            &&& b1 == with_status(b, BookingStatus::Declined, b1.updated_at)
                            &&& w1.bookings == upsert(w0.bookings, b1)
                        },
                    }
                },
                None => {
                    &&& w1.calls == w0.calls
                    &&& w1.holds == w0.holds
                    &&& r matches Ok(b1)
                    &&& b1 == with_status(b, BookingStatus::Declined, b1.updated_at)
                    &&& w1.bookings == upsert(w0.bookings, b1)
                },
            }
        },
    }
}

/// After a cancellation has been stored: the slot of a booking that was
/// Confirmed is freed (if it still exists); other slots stay as they are.
pub open spec fn slot_after_cancel(w0: BookingWorld, w1: BookingWorld, b: Booking) -> bool {
    if b.status == BookingStatus::Confirmed {
        match lookup(w0.slots, b.time_slot_id) {
            Some(s) => w1.slots == upsert(w0.slots, with_booked(s, false)),
            None => w1.slots == w0.slots,
        }
    } else {
        w1.slots == w0.slots
    }
}

/// The effect of cancelling a booking: after the checks (the rider may cancel
/// too), the booking is stored as Cancelled; then its payment hold, if any,
/// is released, and a failed release is reported with the booking left
/// Cancelled and its slot as it was; otherwise a Confirmed booking's slot is
/// freed.
pub open spec fn cancel_post(
    w0: BookingWorld,
    w1: BookingWorld,
    booking_id: u128,
    actor_id: u128,
    r: Result<Booking, AppError>,
) -> bool {
    match action_checks(w0, booking_id, actor_id, BookingStatus::Cancelled, true, "cancel"@) {
        Err(x) => agrees(r, Err(x)) && w1 == w0,
        Ok(b) => {
            let b1 = with_status(b, BookingStatus::Cancelled, lookup(w1.bookings, booking_id)->Some_0.updated_at);
            &&& w1.listings == w0.listings
            &&& w1.bookings == upsert(w0.bookings, b1)
            &&& match b.payment_hold_id {
                Some(h) => {
                    &&& w1.calls == w0.calls.push(CallRecord::Release { hold_id: h@ })
                    &&& match release_outcome(hold_in(w0, h@), h@) {
                        Err(x) => agrees(r, Err(x)) && w1.holds == w0.holds && w1.slots == w0.slots,
                        Ok(_) => {
                            &&& w1.holds == w0.holds.insert(h@, HoldState::Released)
                            &&& r == Ok::<Booking, AppError>(b1)
                            &&& slot_after_cancel(w0, w1, b)
                        },
                    }
                },
                None => {
                    &&& w1.calls == w0.calls
                    &&& w1.holds == w0.holds
                    &&& r == Ok::<Booking, AppError>(b1)
                    &&& slot_after_cancel(w0, w1, b)
                },
            }
        },
    }
}

/// The effect of completing a booking: after the checks, the booking becomes
/// Completed; nothing else changes.
pub open spec fn complete_post(
    w0: BookingWorld,
    w1: BookingWorld,
    booking_id: u128,
    actor_id: u128,
    r: Result<Booking, AppError>,
) -> bool {
    match action_checks(w0, booking_id, actor_id, BookingStatus::Completed, false, "complete"@) {
        Err(x) => agrees(r, Err(x)) && w1 == w0,
        Ok(b) => {
            &&& r matches Ok(b1)
            &&& b1 == with_status(b, BookingStatus::Completed, b1.updated_at)
            &&& w1 == BookingWorld { bookings: upsert(w0.bookings, b1), ..w0 }
        },
    }
}

/// A booking made on a listing of the owner `owner_id`, active or not.
pub open spec fn booking_of_owner(listings: Seq<Listing>, owner_id: u128) -> spec_fn(Booking) -> bool {
    |b: Booking|
        exists|i: int|
            0 <= i < listings.len() && (#[trigger] listings[i]).owner_id == owner_id && listings[i].id == b.listing_id
}

/// Whether `x` occurs in `ids`.
fn contains_id(ids: &Vec<u128>, x: u128) -> (r: bool)
    ensures
        r == ids@.contains(x),
{
    let mut i: usize = 0;
    while i < ids.len()
        invariant
            i <= ids@.len(),
            forall|j: int| 0 <= j < i ==> ids@[j] != x,
        decreases ids@.len() - i,
    {
        if ids[i] == x {
            assert(ids@[i as int] == x);
            return true;
        }
        i = i + 1;
    }
    false
}

/// Handles bookings: requests, the owner's and rider's decisions, and the
/// payment holds behind them. Listings and their slots live in an
/// [`InMemoryListingRepo`] that each operation is handed.
pub struct BookingService {
    pub booking_repo: InMemoryBookingRepo,
    pub payment_gateway: MockPaymentGateway,
}

impl BookingService {
    pub open spec fn wf(&self) -> bool {
        self.booking_repo.wf() && self.payment_gateway.wf()
    }

    /// What the operations see, with the listings kept in `listings`.
    pub open spec fn world(&self, listings: &InMemoryListingRepo) -> BookingWorld {
        BookingWorld {
            bookings: self.booking_repo.records(),
            listings: listings.listing_records(),
            slots: listings.slot_records(),
            holds: self.payment_gateway.holds(),
            calls: self.payment_gateway.call_log(),
        }
    }

    pub fn new(booking_repo: InMemoryBookingRepo, payment_gateway: MockPaymentGateway) -> (s: Self)
        ensures
            s.booking_repo == booking_repo,
            s.payment_gateway == payment_gateway,
    {
        BookingService { booking_repo, payment_gateway }
    }

    /// The booking with the given id.
    pub fn get_booking(&self, id: u128) -> (r: Result<Booking, AppError>)
        requires
            self.wf(),
        ensures
            match lookup(self.booking_repo.records(), id) {
                Some(b) => r == Ok::<Booking, AppError>(b),
                None => agrees(r, Err((ErrorKind::NotFound, not_found_text("booking"@, id)))),
            },
    {
        match self.booking_repo.get(id) {
            Ok(Some(b)) => Ok(b),
            _ => Err(not_found("booking", id)),
        }
    }

    /// Runs the checks in front of an action on a booking, on the booking
    /// and its listing as stored.
    fn run_action_checks(
        &self,
        listings: &InMemoryListingRepo,
        booking_id: u128,
        actor_id: u128,
        target: BookingStatus,
        rider_may: bool,
        verb: &str,
    ) -> (r: Result<Booking, AppError>)
        requires
            self.wf(),
            listings.wf(),
        ensures
            agrees(r, action_checks(self.world(listings), booking_id, actor_id, target, rider_may, verb@)),
    {
        let found = match self.booking_repo.get(booking_id) {
            Ok(f) => f,
            Err(e) => return Err(e),
        };
        let listing = match &found {
            Some(b) => match listings.get(b.listing_id) {
                Ok(l) => l,
                Err(e) => return Err(e),
            },
            None => None,
        };
        check_action(booking_id, found, listing, actor_id, target, rider_may, verb)
    }

    /// The owner confirms a requested booking: the payment hold is captured,
    /// the slot is marked booked and the booking becomes Confirmed.
    pub fn confirm_booking(
        &mut self,
        listings: &mut InMemoryListingRepo,
        booking_id: u128,
        actor_id: u128,
    ) -> (r: Result<Booking, AppError>)
        requires
            old(self).wf(),
            old(listings).wf(),
        ensures
            final(self).wf(),
            final(listings).wf(),
            confirm_post(old(self).world(old(listings)), final(self).world(final(listings)), booking_id, actor_id, r),
    {
        let booking = match self.run_action_checks(listings, booking_id, actor_id, BookingStatus::Confirmed, false, "confirm") {
            Ok(b) => b,
            Err(e) => return Err(e),
        };
        let hold_id = match hold_to_capture(booking_id, &booking) {
            Ok(h) => h,
            Err(e) => return Err(e),
        };
        let captured = self.payment_gateway.capture(hold_id.as_str());
        let slot = match listings.get_time_slot(booking.time_slot_id) {
            Ok(s) => s,
            Err(e) => return Err(e),
        };
        let (booking, slot) = match confirm_after_capture(booking, captured, slot, now()) {
            Ok(x) => x,
            Err(e) => return Err(e),
        };
        let _ = listings.update_time_slot(slot);
        self.booking_repo.update(booking)
    }

    /// A rider asks to book a free slot of a listing: the total (hourly
    /// price times the slot's billed hours) is authorized against the rider,
    /// and a Requested booking holding the payment hold is stored.
    pub fn request_booking(
        &mut self,
        listings: &InMemoryListingRepo,
        listing_id: u128,
        rider_id: u128,
        time_slot_id: u128,
        message_from_rider: Option<String>,
    ) -> (r: Result<Booking, AppError>)
        requires
            old(self).wf(),
            listings.wf(),
            request_total_fits(old(self).world(listings), listing_id, time_slot_id),
        ensures
            final(self).wf(),
            request_post(
                old(self).world(listings),
                final(self).world(listings),
                listing_id,
                rider_id,
                time_slot_id,
                message_from_rider,
                r,
            ),
    {
        let listing = match listings.get(listing_id) {
            Ok(l) => l,
            Err(e) => return Err(e),
        };
        let slot = match listings.get_time_slot(time_slot_id) {
            Ok(s) => s,
            Err(e) => return Err(e),
        };
        let total_price_cents = match check_request(listing_id, time_slot_id, listing, slot) {
            Ok(t) => t,
            Err(e) => return Err(e),
        };
        let authorized = self.payment_gateway.authorize(total_price_cents, rider_id);
        let booking = match booking_from_hold(
            listing_id,
            rider_id,
            time_slot_id,
            total_price_cents,
            message_from_rider,
            authorized,
        ) {
            Ok(b) => b,
            Err(e) => return Err(e),
        };
        self.booking_repo.create(booking)
    }

    /// The owner declines a requested booking; its payment hold, if any, is
    /// released first.
    pub fn decline_booking(
        &mut self,
        listings: &InMemoryListingRepo,
        booking_id: u128,
        actor_id: u128,
    ) -> (r: Result<Booking, AppError>)
        requires
            old(self).wf(),
            listings.wf(),
        ensures
            final(self).wf(),
            decline_post(old(self).world(listings), final(self).world(listings), booking_id, actor_id, r),
    {
        let booking = match self.run_action_checks(listings, booking_id, actor_id, BookingStatus::Declined, false, "decline") {
            Ok(b) => b,
            Err(e) => return Err(e),
        };
        let released = match &booking.payment_hold_id {
            Some(h) => self.payment_gateway.release(h.as_str()),
            None => Ok(()),
        };
        let booking = match decline_after_release(booking, released, now()) {
            Ok(b) => b,
            Err(e) => return Err(e),
        };
        self.booking_repo.update(booking)
    }

    /// The rider or the listing owner cancels a requested or confirmed
    /// booking. The booking is stored as Cancelled before its payment hold
    /// is released; a confirmed booking's slot is then freed.
    pub fn cancel_booking(
        &mut self,
        listings: &mut InMemoryListingRepo,
        booking_id: u128,
        actor_id: u128,
    ) -> (r: Result<Booking, AppError>)
        requires
            old(self).wf(),
            old(listings).wf(),
        ensures
            final(self).wf(),
            final(listings).wf(),
            cancel_post(old(self).world(old(listings)), final(self).world(final(listings)), booking_id, actor_id, r),
    {
        let booking = match self.run_action_checks(listings, booking_id, actor_id, BookingStatus::Cancelled, true, "cancel") {
            Ok(b) => b,
            Err(e) => return Err(e),
        };
        let was = booking.status;
        let hold_id = crate::text::copy_opt_text(&booking.payment_hold_id);
        let updated = match self.booking_repo.update(moved(booking, BookingStatus::Cancelled, now())) {
            Ok(b) => b,
            Err(e) => return Err(e),
        };
        let released = match &hold_id {
            Some(h) => self.payment_gateway.release(h.as_str()),
            None => Ok(()),
        };
        let slot = match listings.get_time_slot(updated.time_slot_id) {
            Ok(s) => s,
            Err(e) => return Err(e),
        };
        match slot_after_release(was, released, slot) {
            Ok(Some(s)) => {
                let _ = listings.update_time_slot(s);
            },
            Ok(None) => {},
            Err(e) => return Err(e),
        }
        Ok(updated)
    }

    /// The owner marks a confirmed booking Completed.
    pub fn complete_booking(
        &mut self,
        listings: &InMemoryListingRepo,
        booking_id: u128,
        actor_id: u128,
    ) -> (r: Result<Booking, AppError>)
        requires
            old(self).wf(),
            listings.wf(),
        ensures
            final(self).wf(),
            complete_post(old(self).world(listings), final(self).world(listings), booking_id, actor_id, r),
    {
        let booking = match self.run_action_checks(listings, booking_id, actor_id, BookingStatus::Completed, false, "complete") {
            Ok(b) => b,
            Err(e) => return Err(e),
        };
        self.booking_repo.update(moved(booking, BookingStatus::Completed, now()))
    }
    /// The bookings made by a rider, oldest first.
    pub fn list_by_rider(&self, rider_id: u128) -> (r: Result<Vec<Booking>, AppError>)
        requires
            self.wf(),
        ensures
            r matches Ok(v) && v@ == self.booking_repo.records().filter(booking_of_rider(rider_id)),
    {
        self.booking_repo.list_by_rider(rider_id)
    }

    /// List all bookings for listings belonging to the given owner, oldest
    /// first. Ownership is resolved through the listings, which are the
    /// source of truth for it.
    pub fn list_by_owner(&self, listings: &InMemoryListingRepo, owner_id: u128) -> (r: Result<Vec<Booking>, AppError>)
        requires
            self.wf(),
            listings.wf(),
        ensures
            r matches Ok(v) && v@ == self.booking_repo.records().filter(
                booking_of_owner(listings.listing_records(), owner_id),
            ),
    {
        let ghost all = listings.listing_records();
        let owned = match listings.list_by_owner(owner_id) {
            Ok(v) => v,
            Err(e) => return Err(e),
        };
        let mut ids: Vec<u128> = Vec::new();
        let mut i: usize = 0;
        while i < owned.len()
            invariant
                owned@ == all.filter(listing_of_owner(owner_id)),
                i <= owned@.len(),
                ids@ == owned@.take(i as int).map_values(|l: Listing| l.id),
            decreases owned@.len() - i,
        {
            ids.push(owned[i].id);
            i = i + 1;
            assert(ids@ =~= owned@.take(i as int).map_values(|l: Listing| l.id));
        }
        let ghost pred = booking_of_owner(all, owner_id);
        proof {
            assert(owned@.take(owned@.len() as int) =~= owned@);
            assert forall|x: u128| #[trigger] ids@.contains(x) <==> exists|k: int|
                0 <= k < all.len() && (#[trigger] all[k]).owner_id == owner_id && all[k].id == x by {
                if ids@.contains(x) {
                    let j = choose|j: int| 0 <= j < ids@.len() && ids@[j] == x;
                    assert(owned@[j].id == x);
                    all.lemma_filter_pred(listing_of_owner(owner_id), j);
                    assert(all.filter(listing_of_owner(owner_id)).contains(owned@[j]));
                    all.lemma_filter_contains_rev(listing_of_owner(owner_id), owned@[j]);
                    let k = choose|k: int| 0 <= k < all.len() && all[k] == owned@[j];
                    assert(all[k].owner_id == owner_id && all[k].id == x);
                }
                if exists|k: int| 0 <= k < all.len() && (#[trigger] all[k]).owner_id == owner_id && all[k].id == x {
                    let k = choose|k: int| 0 <= k < all.len() && (#[trigger] all[k]).owner_id == owner_id && all[k].id == x;
                    all.lemma_filter_contains(listing_of_owner(owner_id), k);
                    let j = choose|j: int| 0 <= j < owned@.len() && owned@[j] == all[k];
                    assert(ids@[j] == x);
                }
            }
        }
        let candidate = match self.booking_repo.list_by_owner(owner_id) {
            Ok(v) => v,
            Err(e) => return Err(e),
        };
        let ghost s = candidate@;
        let mut out: Vec<Booking> = Vec::new();
        let mut i: usize = 0;
        while i < candidate.len()
            invariant
                s == candidate@,
                i <= s.len(),
                out@ == s.take(i as int).filter(pred),
                pred == booking_of_owner(all, owner_id),
                forall|x: u128| #[trigger] ids@.contains(x) <==> exists|k: int|
                    0 <= k < all.len() && (#[trigger] all[k]).owner_id == owner_id && all[k].id == x,
            decreases s.len() - i,
        {
            proof {
                lemma_filter_step(s, i as int, pred);
            }
            let b = &candidate[i];
            if contains_id(&ids, b.listing_id) {
                out.push(b.clone());
            }
            i = i + 1;
        }
        proof {
            lemma_take_all(s);
        }
        Ok(out)
    }
}

} // verus!
