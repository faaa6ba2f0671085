//! What every booking operation keeps: statuses only move along the life
//! cycle, a booking that is past its request makes no payment call when
//! confirmed or declined again, and no slot is ever held by two confirmed
//! bookings.

use vstd::prelude::*;
use crate::domain::booking::legal_transition;
use crate::domain::listing::law_billed_hours_round_seconds_up;
use crate::domain::{Booking, BookingStatus, Listing, TimeSlot};
use crate::time::whole_seconds_between;
use crate::error::AppError;
use crate::repo::store::{index_of, keys_unique, lemma_index_of_unique, lemma_upsert, lookup, upsert, has_key};
use crate::service::booking_service::{
    cancel_post, complete_post, confirm_post, decline_post, action_checks, request_post, with_booked, with_status,
    BookingWorld,
};

verus! {

/// Every booking either kept its record or moved its status along a legal
/// transition.
pub open spec fn statuses_move_legally(before: Seq<Booking>, after: Seq<Booking>) -> bool {
    forall|k: u128|
        #[trigger] lookup(after, k) != lookup(before, k) ==> {
            &&& lookup(before, k) is Some
            &&& lookup(after, k) is Some
            &&& legal_transition(lookup(before, k)->Some_0.status, lookup(after, k)->Some_0.status)
        }
}

/// Storing `b1`, a legal move of the booking `b0` stored under the same id,
/// moves statuses legally.
proof fn lemma_store_legal_move(before: Seq<Booking>, b0: Booking, b1: Booking)
    requires
        keys_unique(before),
        lookup(before, b0.id) == Some(b0),
        b1.id == b0.id,
        legal_transition(b0.status, b1.status),
    ensures
        statuses_move_legally(before, upsert(before, b1)),
{
    lemma_upsert(before, b1);
}

/// Confirming, declining, cancelling or completing a booking changes at most
/// that booking, and only along a legal transition of its status.
pub proof fn law_actions_move_statuses_legally(
    w0: BookingWorld,
    w1: BookingWorld,
    booking_id: u128,
    actor_id: u128,
    r: Result<Booking, AppError>,
)
    requires
        keys_unique(w0.bookings),
        confirm_post(w0, w1, booking_id, actor_id, r) || decline_post(w0, w1, booking_id, actor_id, r)
            || cancel_post(w0, w1, booking_id, actor_id, r) || complete_post(w0, w1, booking_id, actor_id, r),
    ensures
        statuses_move_legally(w0.bookings, w1.bookings),
{
    if w1.bookings != w0.bookings {
        let b = lookup(w0.bookings, booking_id)->Some_0;
        lemma_index_of_unique(w0.bookings, index_of(w0.bookings, booking_id));
        if confirm_post(w0, w1, booking_id, actor_id, r) || decline_post(w0, w1, booking_id, actor_id, r)
            || complete_post(w0, w1, booking_id, actor_id, r) {
            lemma_store_legal_move(w0.bookings, b, r->Ok_0);
        } else {
            let t = lookup(w1.bookings, booking_id)->Some_0.updated_at;
            lemma_store_legal_move(w0.bookings, b, with_status(b, BookingStatus::Cancelled, t));
        }
    }
}

/// A request changes no booking but the new one, which is Requested.
pub proof fn law_request_adds_a_requested_booking(
    w0: BookingWorld,
    w1: BookingWorld,
    listing_id: u128,
    rider_id: u128,
    time_slot_id: u128,
    message_from_rider: Option<String>,
    r: Result<Booking, AppError>,
)
    requires
        keys_unique(w0.bookings),
        request_post(w0, w1, listing_id, rider_id, time_slot_id, message_from_rider, r),
    ensures
        r matches Ok(b) ==> {
            &&& lookup(w1.bookings, b.id) == Some(b)
            &&& b.status == BookingStatus::Requested
            &&& forall|k: u128| k != b.id ==> #[trigger] lookup(w1.bookings, k) == lookup(w0.bookings, k)
        },
        r is Err ==> w1.bookings == w0.bookings,
{
    if let Ok(b) = r {
        lemma_upsert(w0.bookings, b);
    }
}

/// Confirming or declining a booking that is no longer Requested is
/// refused before any payment call and changes nothing: a hold is never
/// captured, nor released by a decline, twice.
pub proof fn law_no_second_payment_call(
    w0: BookingWorld,
    w1: BookingWorld,
    booking_id: u128,
    actor_id: u128,
    r: Result<Booking, AppError>,
)
    requires
        lookup(w0.bookings, booking_id) matches Some(b) && b.status != BookingStatus::Requested,
        confirm_post(w0, w1, booking_id, actor_id, r) || decline_post(w0, w1, booking_id, actor_id, r),
    ensures
        r is Err,
        w1 == w0,
{
}

/// No slot is double-booked: every Confirmed booking's slot exists and is
/// marked booked, and no two Confirmed bookings share a slot.
pub open spec fn slots_consistent(bookings: Seq<Booking>, slots: Seq<TimeSlot>) -> bool {
    &&& forall|i: int|
        0 <= i < bookings.len() && (#[trigger] bookings[i]).status == BookingStatus::Confirmed ==> slot_booked(slots, bookings[i].time_slot_id)
    &&& forall|i: int, j: int|
        0 <= i < j < bookings.len() && (#[trigger] bookings[i]).status == BookingStatus::Confirmed
            && (#[trigger] bookings[j]).status == BookingStatus::Confirmed ==> bookings[i].time_slot_id
            != bookings[j].time_slot_id
}

/// Whether the slot `tid` exists and is marked booked.
pub open spec fn slot_booked(slots: Seq<TimeSlot>, tid: u128) -> bool {
    match lookup(slots, tid) {
        Some(s) => s.is_booked,
        None => false,
    }
}

/// What a lookup finds carries the key it was found by.
proof fn lemma_lookup_key<T: crate::repo::store::Record>(s: Seq<T>, k: u128)
    ensures
        lookup(s, k) matches Some(x) ==> x.key_of() == k,
{
}

/// Storing a booking that is not Confirmed, slots untouched, keeps slots
/// consistent.
proof fn lemma_store_unconfirmed(bookings: Seq<Booking>, slots: Seq<TimeSlot>, x: Booking)
    requires
        slots_consistent(bookings, slots),
        x.status != BookingStatus::Confirmed,
    ensures
        slots_consistent(upsert(bookings, x), slots),
{
    let b1 = upsert(bookings, x);
    if has_key(bookings, x.id) {
        let p = index_of(bookings, x.id);
        assert forall|i: int| 0 <= i < b1.len() && (#[trigger] b1[i]).status == BookingStatus::Confirmed implies slot_booked(slots, b1[i].time_slot_id) by {
            assert(i != p);
            assert(b1[i] == bookings[i]);
        }
        assert forall|i: int, j: int|
            0 <= i < j < b1.len() && (#[trigger] b1[i]).status == BookingStatus::Confirmed
                && (#[trigger] b1[j]).status == BookingStatus::Confirmed implies b1[i].time_slot_id
            != b1[j].time_slot_id by {
            assert(b1[i] == bookings[i] && b1[j] == bookings[j]);
        }
    } else {
        let n = bookings.len() as int;
        assert forall|i: int| 0 <= i < b1.len() && (#[trigger] b1[i]).status == BookingStatus::Confirmed implies slot_booked(slots, b1[i].time_slot_id) by {
            assert(i != n);
            assert(b1[i] == bookings[i]);
        }
        assert forall|i: int, j: int|
            0 <= i < j < b1.len() && (#[trigger] b1[i]).status == BookingStatus::Confirmed
                && (#[trigger] b1[j]).status == BookingStatus::Confirmed implies b1[i].time_slot_id
            != b1[j].time_slot_id by {
            assert(b1[i] == bookings[i] && b1[j] == bookings[j]);
        }
    }
}

/// A request leaves no slot double-booked.
pub proof fn law_request_keeps_slots_consistent(
    w0: BookingWorld,
    w1: BookingWorld,
    listing_id: u128,
    rider_id: u128,
    time_slot_id: u128,
    message_from_rider: Option<String>,
    r: Result<Booking, AppError>,
)
    requires
        slots_consistent(w0.bookings, w0.slots),
        request_post(w0, w1, listing_id, rider_id, time_slot_id, message_from_rider, r),
    ensures
        slots_consistent(w1.bookings, w1.slots),
{
    if let Ok(b) = r {
        lemma_store_unconfirmed(w0.bookings, w0.slots, b);
    }
}

/// Declining or completing a booking leaves no slot double-booked.
pub proof fn law_decline_and_complete_keep_slots_consistent(
    w0: BookingWorld,
    w1: BookingWorld,
    booking_id: u128,
    actor_id: u128,
    r: Result<Booking, AppError>,
)
    requires
        slots_consistent(w0.bookings, w0.slots),
        decline_post(w0, w1, booking_id, actor_id, r) || complete_post(w0, w1, booking_id, actor_id, r),
    ensures
        slots_consistent(w1.bookings, w1.slots),
{
    if let Ok(b1) = r {
        if w1.bookings != w0.bookings {
            lemma_store_unconfirmed(w0.bookings, w0.slots, b1);
        }
    }
}

/// Confirming a booking leaves no slot double-booked: it books only a
/// slot that was free, which no Confirmed booking held.
pub proof fn law_confirm_keeps_slots_consistent(
    w0: BookingWorld,
    w1: BookingWorld,
    booking_id: u128,
    actor_id: u128,
    r: Result<Booking, AppError>,
)
    requires
        keys_unique(w0.bookings),
        keys_unique(w0.slots),
        slots_consistent(w0.bookings, w0.slots),
        confirm_post(w0, w1, booking_id, actor_id, r),
    ensures
        slots_consistent(w1.bookings, w1.slots),
{
    if w1.bookings != w0.bookings || w1.slots != w0.slots {
        let b = lookup(w0.bookings, booking_id)->Some_0;
        let p = index_of(w0.bookings, booking_id);
        lemma_index_of_unique(w0.bookings, p);
        let b1 = r->Ok_0;
        let tid = b.time_slot_id;
        let s = lookup(w0.slots, tid)->Some_0;
        lemma_lookup_key(w0.slots, tid);
        assert(!s.is_booked);
        let s1 = with_booked(s, true);
        lemma_upsert(w0.slots, s1);
        let bs = w1.bookings;
        assert(bs == w0.bookings.update(p, b1));
        assert forall|i: int| 0 <= i < bs.len() && (#[trigger] bs[i]).status == BookingStatus::Confirmed implies slot_booked(w1.slots, bs[i].time_slot_id) by {
            if i != p {
                assert(bs[i] == w0.bookings[i]);
                assert(w0.bookings[i].time_slot_id != tid);
            }
        }
        assert forall|i: int, j: int|
            0 <= i < j < bs.len() && (#[trigger] bs[i]).status == BookingStatus::Confirmed
                && (#[trigger] bs[j]).status == BookingStatus::Confirmed implies bs[i].time_slot_id
            != bs[j].time_slot_id by {
            if i == p {
                assert(bs[j] == w0.bookings[j]);
            } else if j == p {
                assert(bs[i] == w0.bookings[i]);
            } else {
                assert(bs[i] == w0.bookings[i] && bs[j] == w0.bookings[j]);
            }
        }
    }
}

/// Cancelling a booking leaves no slot double-booked: the slot it frees was
/// held by no other Confirmed booking.
pub proof fn law_cancel_keeps_slots_consistent(
    w0: BookingWorld,
    w1: BookingWorld,
    booking_id: u128,
    actor_id: u128,
    r: Result<Booking, AppError>,
)
    requires
        keys_unique(w0.bookings),
        keys_unique(w0.slots),
        slots_consistent(w0.bookings, w0.slots),
        cancel_post(w0, w1, booking_id, actor_id, r),
    ensures
        slots_consistent(w1.bookings, w1.slots),
{
    if let Ok(b) = action_checks(w0, booking_id, actor_id, BookingStatus::Cancelled, true, "cancel"@) {
        let p = index_of(w0.bookings, booking_id);
        lemma_index_of_unique(w0.bookings, p);
        let b1 = with_status(b, BookingStatus::Cancelled, lookup(w1.bookings, booking_id)->Some_0.updated_at);
        lemma_store_unconfirmed(w0.bookings, w0.slots, b1);
        if w1.slots != w0.slots {
            let tid = b.time_slot_id;
            let s = lookup(w0.slots, tid)->Some_0;
            lemma_lookup_key(w0.slots, tid);
            lemma_upsert(w0.slots, with_booked(s, false));
            let bs = w1.bookings;
            assert(bs == w0.bookings.update(p, b1));
            assert forall|i: int| 0 <= i < bs.len() && (#[trigger] bs[i]).status == BookingStatus::Confirmed implies slot_booked(w1.slots, bs[i].time_slot_id) by {
                assert(i != p);
                assert(bs[i] == w0.bookings[i]);
                if i < p {
                    assert(w0.bookings[i].time_slot_id != w0.bookings[p].time_slot_id);
                } else {
                    assert(w0.bookings[p].time_slot_id != w0.bookings[i].time_slot_id);
                }
            }
        }
    }
}

/// Adding a free slot under an id not yet in use leaves no slot
/// double-booked.
pub proof fn law_new_slot_keeps_slots_consistent(bookings: Seq<Booking>, slots: Seq<TimeSlot>, s: TimeSlot)
    requires
        keys_unique(slots),
        !has_key(slots, s.id),
        slots_consistent(bookings, slots),
    ensures
        slots_consistent(bookings, upsert(slots, s)),
{
    lemma_upsert(slots, s);
    assert forall|i: int| 0 <= i < bookings.len() && (#[trigger] bookings[i]).status == BookingStatus::Confirmed implies slot_booked(
        upsert(slots, s),
        bookings[i].time_slot_id,
    ) by {
        let tid = bookings[i].time_slot_id;
        assert(slot_booked(slots, tid));
        if tid == s.id {
            assert(has_key(slots, tid));
        }
    }
}

/// A granted request charges the listing's hourly price for every hour the
/// slot begins: the authorized amount and the booking's total are the price
/// times the hours `h` that round the slot's whole seconds `s` up
/// (`h * 3600 >= s > (h - 1) * 3600`, one hour for an empty slot).
pub proof fn law_request_charges_every_hour_begun(
    w0: BookingWorld,
    w1: BookingWorld,
    listing_id: u128,
    rider_id: u128,
    time_slot_id: u128,
    message_from_rider: Option<String>,
    r: Result<Booking, AppError>,
    l: Listing,
    slot: TimeSlot,
)
    requires
        request_post(w0, w1, listing_id, rider_id, time_slot_id, message_from_rider, r),
        lookup(w0.listings, listing_id) == Some(l),
        lookup(w0.slots, time_slot_id) == Some(slot),
        r is Ok,
    ensures
        exists|h: int|
            #![trigger l.hourly_price_cents * h]
            {
                let sec = whole_seconds_between(slot.start_at, slot.end_at);
                &&& r->Ok_0.total_price_cents == l.hourly_price_cents * h
                &&& h >= 1
                &&& sec > 0 ==> h * 3600 >= sec && (h - 1) * 3600 < sec
                &&& sec <= 0 ==> h == 1
            },
{
    law_billed_hours_round_seconds_up(slot.start_at, slot.end_at);
    let h = crate::domain::listing::billed_hours(slot.start_at, slot.end_at);
    assert(r->Ok_0.total_price_cents == l.hourly_price_cents * h);
}

} // verus!
