use vstd::prelude::*;
use crate::text::{copy_opt_text, same_text};
use crate::time::{now, Timestamp};
use crate::ids::new_id;

verus! {

/// Where a booking stands in its life cycle.
#[derive(Debug, Clone, Copy, PartialEq, Eq, Structural)]
pub enum BookingStatus {
    Requested,
    Confirmed,
    Declined,
    Cancelled,
    Completed,
}

/// The legal moves of the booking life cycle:
/// Requested -> {Confirmed, Declined, Cancelled},
/// Confirmed -> {Completed, Cancelled};
/// every other state is terminal.
pub open spec fn legal_transition(from: BookingStatus, to: BookingStatus) -> bool {
    match (from, to) {
        (BookingStatus::Requested, BookingStatus::Confirmed) => true,
        (BookingStatus::Requested, BookingStatus::Declined) => true,
        (BookingStatus::Requested, BookingStatus::Cancelled) => true,
        (BookingStatus::Confirmed, BookingStatus::Completed) => true,
        (BookingStatus::Confirmed, BookingStatus::Cancelled) => true,
        _ => false,
    }
}

/// A state with no outgoing move.
pub open spec fn is_terminal(s: BookingStatus) -> bool {
    s == BookingStatus::Declined || s == BookingStatus::Cancelled || s == BookingStatus::Completed
}

impl BookingStatus {
    /// Whether the life cycle allows moving from `self` to `next`.
    pub fn can_transition_to(&self, next: BookingStatus) -> (r: bool)
        ensures
            r == legal_transition(*self, next),
    {
        match (self, next) {
            (BookingStatus::Requested, BookingStatus::Confirmed) => true,
            (BookingStatus::Requested, BookingStatus::Declined) => true,
            (BookingStatus::Requested, BookingStatus::Cancelled) => true,
            (BookingStatus::Confirmed, BookingStatus::Completed) => true,
            (BookingStatus::Confirmed, BookingStatus::Cancelled) => true,
            _ => false,
        }
    }
}

/// Terminal states (Declined, Cancelled, Completed) have no outgoing
/// transition, and no state moves to itself or back to Requested.
pub proof fn lemma_terminal_states_are_final(from: BookingStatus, to: BookingStatus)
    ensures
        is_terminal(from) ==> !legal_transition(from, to),
        !legal_transition(from, from),
        !legal_transition(from, BookingStatus::Requested),
{
}

/// The stored name of a status.
pub open spec fn status_text(s: BookingStatus) -> Seq<char> {
    match s {
        BookingStatus::Requested => "requested"@,
        BookingStatus::Confirmed => "confirmed"@,
        BookingStatus::Declined => "declined"@,
        BookingStatus::Cancelled => "cancelled"@,
        BookingStatus::Completed => "completed"@,
    }
}

/// The status a stored name stands for; an unknown name reads as Requested.
pub open spec fn status_from_text(t: Seq<char>) -> BookingStatus {
    if t == "confirmed"@ {
        BookingStatus::Confirmed
    } else if t == "declined"@ {
        BookingStatus::Declined
    } else if t == "cancelled"@ {
        BookingStatus::Cancelled
    } else if t == "completed"@ {
        BookingStatus::Completed
    } else {
        BookingStatus::Requested
    }
}

/// The name under which a status is stored.
pub fn status_to_str(status: BookingStatus) -> (r: &'static str)
    ensures
        r@ == status_text(status),
{
    match status {
        BookingStatus::Requested => "requested",
        BookingStatus::Confirmed => "confirmed",
        BookingStatus::Declined => "declined",
        BookingStatus::Cancelled => "cancelled",
        BookingStatus::Completed => "completed",
    }
}

/// The status a stored name stands for (Requested for any other name).
pub fn str_to_status(s: &str) -> (r: BookingStatus)
    ensures
        r == status_from_text(s@),
{
    if same_text(s, "confirmed") {
        BookingStatus::Confirmed
    } else if same_text(s, "declined") {
        BookingStatus::Declined
    } else if same_text(s, "cancelled") {
        BookingStatus::Cancelled
    } else if same_text(s, "completed") {
        BookingStatus::Completed
    } else {
        BookingStatus::Requested
    }
}

/// Reading back the stored name of a status gives that status.
pub proof fn lemma_status_text_round_trip(s: BookingStatus)
    ensures
        status_from_text(status_text(s)) == s,
{
    reveal_strlit("requested");
    reveal_strlit("confirmed");
    reveal_strlit("declined");
    reveal_strlit("cancelled");
    reveal_strlit("completed");
    assert("requested"@[0] != "confirmed"@[0]);
    assert("requested"@[0] != "cancelled"@[0]);
    assert("requested"@[0] != "completed"@[0]);
    assert("confirmed"@[1] != "cancelled"@[1]);
    assert("confirmed"@[2] != "completed"@[2]);
    assert("cancelled"@[1] != "completed"@[1]);
    assert("declined"@.len() != "requested"@.len());
}

/// A rider's request to book a time slot of a listing.
#[derive(Debug)]
pub struct Booking {
    pub id: u128,
    pub listing_id: u128,
    pub rider_id: u128,
    pub time_slot_id: u128,
    pub status: BookingStatus,
    pub total_price_cents: i64,
    pub message_from_rider: Option<String>,
    pub payment_hold_id: Option<String>,
    pub created_at: Timestamp,
    pub updated_at: Timestamp,
}

impl Clone for Booking {
    fn clone(&self) -> (r: Self)
        ensures
            r == *self,
    {
        Booking {
            id: self.id,
            listing_id: self.listing_id,
            rider_id: self.rider_id,
            time_slot_id: self.time_slot_id,
            status: self.status,
            total_price_cents: self.total_price_cents,
            message_from_rider: copy_opt_text(&self.message_from_rider),
            payment_hold_id: copy_opt_text(&self.payment_hold_id),
            created_at: self.created_at,
            updated_at: self.updated_at,
        }
    }
}

impl Booking {
    /// A new booking request: fresh id, status Requested, no payment hold
    /// yet, created and updated now.
    pub fn new(
        listing_id: u128,
        rider_id: u128,
        time_slot_id: u128,
        total_price_cents: i64,
        message_from_rider: Option<String>,
    ) -> (b: Booking)
        ensures
            b.listing_id == listing_id,
            b.rider_id == rider_id,
            b.time_slot_id == time_slot_id,
            b.status == BookingStatus::Requested,
            b.total_price_cents == total_price_cents,
            b.message_from_rider == message_from_rider,
            b.payment_hold_id is None,
            b.created_at == b.updated_at,
    {
        let t = now();
        Booking {
            id: new_id(),
            listing_id,
            rider_id,
            time_slot_id,
            status: BookingStatus::Requested,
            total_price_cents,
            message_from_rider,
            payment_hold_id: None,
            created_at: t,
            updated_at: t,
        }
    }
}

} // verus!
