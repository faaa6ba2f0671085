//! In-memory stores for every kind of record.

use vstd::prelude::*;
use crate::domain::{Booking, Listing, Owner, Review, Rider, TimeSlot};
use crate::error::AppError;
use crate::repo::store::{keys_unique, lemma_filter_step, lemma_take_all, lookup, upsert, Record, Store};

verus! {

impl Record for Owner {
    open spec fn key_of(&self) -> u128 {
        self.id
    }

    fn key(&self) -> (k: u128) {
        self.id
    }

    fn duplicate(&self) -> (r: Self) {
        self.clone()
    }
}

impl Record for Rider {
    open spec fn key_of(&self) -> u128 {
        self.id
    }

    fn key(&self) -> (k: u128) {
        self.id
    }

    fn duplicate(&self) -> (r: Self) {
        self.clone()
    }
}

impl Record for Listing {
    open spec fn key_of(&self) -> u128 {
        self.id
    }

    fn key(&self) -> (k: u128) {
        self.id
    }

    fn duplicate(&self) -> (r: Self) {
        self.clone()
    }
}

impl Record for TimeSlot {
    open spec fn key_of(&self) -> u128 {
        self.id
    }

    fn key(&self) -> (k: u128) {
        self.id
    }

    fn duplicate(&self) -> (r: Self) {
        *self
    }
}

impl Record for Booking {
    open spec fn key_of(&self) -> u128 {
        self.id
    }

    fn key(&self) -> (k: u128) {
        self.id
    }

    fn duplicate(&self) -> (r: Self) {
        self.clone()
    }
}

impl Record for Review {
    open spec fn key_of(&self) -> u128 {
        self.id
    }

    fn key(&self) -> (k: u128) {
        self.id
    }

    fn duplicate(&self) -> (r: Self) {
        self.clone()
    }
}

/// Whether a search for one record found one that satisfies `p`, or
/// reported correctly that none does.
pub open spec fn found_in<T>(r: Option<T>, s: Seq<T>, p: spec_fn(T) -> bool) -> bool {
    match r {
        Some(x) => s.contains(x) && p(x),
        None => forall|i: int| 0 <= i < s.len() ==> !p(#[trigger] s[i]),
    }
}

pub open spec fn owner_email_is(email: Seq<char>) -> spec_fn(Owner) -> bool {
    |o: Owner| o.email@ == email
}

pub open spec fn owner_code_is(code: Seq<char>) -> spec_fn(Owner) -> bool {
    |o: Owner| o.referral_code@ == code
}

pub open spec fn rider_email_is(email: Seq<char>) -> spec_fn(Rider) -> bool {
    |r: Rider| r.email@ == email
}

pub open spec fn rider_code_is(code: Seq<char>) -> spec_fn(Rider) -> bool {
    |r: Rider| r.referral_code@ == code
}

pub open spec fn listing_is_active() -> spec_fn(Listing) -> bool {
    |l: Listing| l.active
}

/// Whether a listing belongs to the owner `owner_id`.
pub open spec fn listing_of_owner(owner_id: u128) -> spec_fn(Listing) -> bool {
    |l: Listing| l.owner_id == owner_id
}

pub open spec fn slot_of_listing(listing_id: u128) -> spec_fn(TimeSlot) -> bool {
    |s: TimeSlot| s.listing_id == listing_id
}

pub open spec fn booking_of_rider(rider_id: u128) -> spec_fn(Booking) -> bool {
    |b: Booking| b.rider_id == rider_id
}

pub open spec fn review_of_booking(booking_id: u128) -> spec_fn(Review) -> bool {
    |r: Review| r.booking_id == booking_id
}

pub open spec fn review_of_listing(listing_id: u128) -> spec_fn(Review) -> bool {
    |r: Review| r.listing_id == listing_id
}

/// Owners, by id.
pub struct InMemoryOwnerRepo {
    data: Store<Owner>,
}

impl InMemoryOwnerRepo {
    /// The stored owners, oldest first.
    pub closed spec fn records(&self) -> Seq<Owner> {
        self.data.contents()
    }

    pub closed spec fn wf(&self) -> bool {
        self.data.wf()
    }

    /// A well-formed store holds no id twice.
    pub proof fn lemma_ids_unique(&self)
        requires
            self.wf(),
        ensures
            keys_unique(self.records()),
    {
    }

    pub fn new() -> (r: Self)
        ensures
            r.wf(),
            r.records() == Seq::<Owner>::empty(),
    {
        InMemoryOwnerRepo { data: Store::new() }
    }

    /// Stores the owner under its id, replacing any owner with that id.
    pub fn create(&mut self, owner: Owner) -> (r: Result<Owner, AppError>)
        requires
            old(self).wf(),
        ensures
            final(self).wf(),
            final(self).records() == upsert(old(self).records(), owner),
            lookup(final(self).records(), owner.id) == Some(owner),
            forall|k: u128| k != owner.id ==> #[trigger] lookup(final(self).records(), k) == lookup(old(self).records(), k),
            r == Ok::<Owner, AppError>(owner),
    {
        self.data.put(owner.clone());
        Ok(owner)
    }

    /// The owner with the given id, if any.
    pub fn get(&self, id: u128) -> (r: Result<Option<Owner>, AppError>)
        requires
            self.wf(),
        ensures
            r == Ok::<Option<Owner>, AppError>(lookup(self.records(), id)),
    {
        Ok(self.data.get(id))
    }

    /// An owner with the given email, if any.
    pub fn find_by_email(&self, email: &str) -> (r: Result<Option<Owner>, AppError>)
        requires
            self.wf(),
        ensures
            r matches Ok(o) && found_in(o, self.records(), owner_email_is(email@)),
    {
        let mut i: usize = 0;
        while i < self.data.len()
            invariant
                i <= self.data.contents().len(),
                forall|j: int| 0 <= j < i ==> !owner_email_is(email@)(#[trigger] self.data.contents()[j]),
            decreases self.data.contents().len() - i,
        {
            let o = self.data.at(i);
            if crate::text::same_text(o.email.as_str(), email) {
                return Ok(Some(o.clone()));
            }
            i = i + 1;
        }
        Ok(None)
    }

    /// An owner with the given referral code, if any.
    pub fn find_by_referral_code(&self, code: &str) -> (r: Result<Option<Owner>, AppError>)
        requires
            self.wf(),
        ensures
            r matches Ok(o) && found_in(o, self.records(), owner_code_is(code@)),
    {
        let mut i: usize = 0;
        while i < self.data.len()
            invariant
                i <= self.data.contents().len(),
                forall|j: int| 0 <= j < i ==> !owner_code_is(code@)(#[trigger] self.data.contents()[j]),
            decreases self.data.contents().len() - i,
        {
            let o = self.data.at(i);
            if crate::text::same_text(o.referral_code.as_str(), code) {
                return Ok(Some(o.clone()));
            }
            i = i + 1;
        }
        Ok(None)
    }
}

impl Default for InMemoryOwnerRepo {
    fn default() -> (r: Self)
        ensures
            r.wf(),
            r.records() == Seq::<Owner>::empty(),
    {
        InMemoryOwnerRepo::new()
    }
}

/// Riders, by id.
pub struct InMemoryRiderRepo {
    data: Store<Rider>,
}

impl InMemoryRiderRepo {
    /// The stored riders, oldest first.
    pub closed spec fn records(&self) -> Seq<Rider> {
        self.data.contents()
    }

    pub closed spec fn wf(&self) -> bool {
        self.data.wf()
    }

    /// A well-formed store holds no id twice.
    pub proof fn lemma_ids_unique(&self)
        requires
            self.wf(),
        ensures
            keys_unique(self.records()),
    {
    }

    pub fn new() -> (r: Self)
        ensures
            r.wf(),
            r.records() == Seq::<Rider>::empty(),
    {
        InMemoryRiderRepo { data: Store::new() }
    }

    /// Stores the rider under its id, replacing any rider with that id.
    pub fn create(&mut self, rider: Rider) -> (r: Result<Rider, AppError>)
        requires
            old(self).wf(),
        ensures
            final(self).wf(),
            final(self).records() == upsert(old(self).records(), rider),
            lookup(final(self).records(), rider.id) == Some(rider),
            forall|k: u128| k != rider.id ==> #[trigger] lookup(final(self).records(), k) == lookup(old(self).records(), k),
            r == Ok::<Rider, AppError>(rider),
    {
        self.data.put(rider.clone());
        Ok(rider)
    }

    /// The rider with the given id, if any.
    pub fn get(&self, id: u128) -> (r: Result<Option<Rider>, AppError>)
        requires
            self.wf(),
        ensures
            r == Ok::<Option<Rider>, AppError>(lookup(self.records(), id)),
    {
        Ok(self.data.get(id))
    }

    /// A rider with the given email, if any.
    pub fn find_by_email(&self, email: &str) -> (r: Result<Option<Rider>, AppError>)
        requires
            self.wf(),
        ensures
            r matches Ok(o) && found_in(o, self.records(), rider_email_is(email@)),
    {
        let mut i: usize = 0;
        while i < self.data.len()
            invariant
                i <= self.data.contents().len(),
                forall|j: int| 0 <= j < i ==> !rider_email_is(email@)(#[trigger] self.data.contents()[j]),
            decreases self.data.contents().len() - i,
        {
            let o = self.data.at(i);
            if crate::text::same_text(o.email.as_str(), email) {
                return Ok(Some(o.clone()));
            }
            i = i + 1;
        }
        Ok(None)
    }

    /// A rider with the given referral code, if any.
    pub fn find_by_referral_code(&self, code: &str) -> (r: Result<Option<Rider>, AppError>)
        requires
            self.wf(),
        ensures
            r matches Ok(o) && found_in(o, self.records(), rider_code_is(code@)),
    {
        let mut i: usize = 0;
        while i < self.data.len()
            invariant
                i <= self.data.contents().len(),
                forall|j: int| 0 <= j < i ==> !rider_code_is(code@)(#[trigger] self.data.contents()[j]),
            decreases self.data.contents().len() - i,
        {
            let o = self.data.at(i);
            if crate::text::same_text(o.referral_code.as_str(), code) {
                return Ok(Some(o.clone()));
            }
            i = i + 1;
        }
        Ok(None)
    }
}

impl Default for InMemoryRiderRepo {
    fn default() -> (r: Self)
        ensures
            r.wf(),
            r.records() == Seq::<Rider>::empty(),
    {
        InMemoryRiderRepo::new()
    }
}

/// Listings and their time slots, by id.
pub struct InMemoryListingRepo {
    listings: Store<Listing>,
    slots: Store<TimeSlot>,
}

impl InMemoryListingRepo {
    /// The stored listings, oldest first.
    pub closed spec fn listing_records(&self) -> Seq<Listing> {
        self.listings.contents()
    }

    /// The stored time slots, oldest first.
    pub closed spec fn slot_records(&self) -> Seq<TimeSlot> {
        self.slots.contents()
    }

    pub closed spec fn wf(&self) -> bool {
        self.listings.wf() && self.slots.wf()
    }

    /// A well-formed store holds no listing id, and no slot id, twice.
    pub proof fn lemma_ids_unique(&self)
        requires
            self.wf(),
        ensures
            keys_unique(self.listing_records()),
            keys_unique(self.slot_records()),
    {
    }

    pub fn new() -> (r: Self)
        ensures
            r.wf(),
            r.listing_records() == Seq::<Listing>::empty(),
            r.slot_records() == Seq::<TimeSlot>::empty(),
    {
        InMemoryListingRepo { listings: Store::new(), slots: Store::new() }
    }

    /// Stores the listing under its id, replacing any listing with that id.
    pub fn create(&mut self, listing: Listing) -> (r: Result<Listing, AppError>)
        requires
            old(self).wf(),
        ensures
            final(self).wf(),
            final(self).listing_records() == upsert(old(self).listing_records(), listing),
            lookup(final(self).listing_records(), listing.id) == Some(listing),
            forall|k: u128| k != listing.id ==> #[trigger] lookup(final(self).listing_records(), k) == lookup(old(self).listing_records(), k),
            final(self).slot_records() == old(self).slot_records(),
            r == Ok::<Listing, AppError>(listing),
    {
        self.listings.put(listing.clone());
        Ok(listing)
    }

    /// The listing with the given id, if any.
    pub fn get(&self, id: u128) -> (r: Result<Option<Listing>, AppError>)
        requires
            self.wf(),
        ensures
            r == Ok::<Option<Listing>, AppError>(lookup(self.listing_records(), id)),
    {
        Ok(self.listings.get(id))
    }

    /// The active listings, oldest first.
    pub fn list_active(&self) -> (r: Result<Vec<Listing>, AppError>)
        requires
            self.wf(),
        ensures
            r matches Ok(v) && v@ == self.listing_records().filter(listing_is_active()),
    {
        let ghost s = self.listings.contents();
        let mut out: Vec<Listing> = Vec::new();
        let mut i: usize = 0;
        while i < self.listings.len()
            invariant
                s == self.listings.contents(),
                i <= s.len(),
                out@ == s.take(i as int).filter(listing_is_active()),
            decreases s.len() - i,
        {
            let l = self.listings.at(i);
            proof {
                lemma_filter_step(s, i as int, listing_is_active());
            }
            if l.active {
                out.push(l.clone());
            }
            i = i + 1;
        }
        proof {
            lemma_take_all(s);
        }
        Ok(out)
    }

    /// The listings of the owner `owner_id`, active or not, oldest first.
    pub fn list_by_owner(&self, owner_id: u128) -> (r: Result<Vec<Listing>, AppError>)
        requires
            self.wf(),
        ensures
            r matches Ok(v) && v@ == self.listing_records().filter(listing_of_owner(owner_id)),
    {
        let ghost s = self.listings.contents();
        let mut out: Vec<Listing> = Vec::new();
        let mut i: usize = 0;
        while i < self.listings.len()
            invariant
                s == self.listings.contents(),
                i <= s.len(),
                out@ == s.take(i as int).filter(listing_of_owner(owner_id)),
            decreases s.len() - i,
        {
            let l = self.listings.at(i);
            proof {
                lemma_filter_step(s, i as int, listing_of_owner(owner_id));
            }
            if l.owner_id == owner_id {
                out.push(l.clone());
            }
            i = i + 1;
        }
        proof {
            lemma_take_all(s);
        }
        Ok(out)
    }

    /// Stores the slot under its id, replacing any slot with that id.
    pub fn add_time_slot(&mut self, slot: TimeSlot) -> (r: Result<TimeSlot, AppError>)
        requires
            old(self).wf(),
        ensures
            final(self).wf(),
            final(self).slot_records() == upsert(old(self).slot_records(), slot),
            lookup(final(self).slot_records(), slot.id) == Some(slot),
            forall|k: u128| k != slot.id ==> #[trigger] lookup(final(self).slot_records(), k) == lookup(old(self).slot_records(), k),
            final(self).listing_records() == old(self).listing_records(),
            r == Ok::<TimeSlot, AppError>(slot),
    {
        self.slots.put(slot);
        Ok(slot)
    }

    /// The slot with the given id, if any.
    pub fn get_time_slot(&self, id: u128) -> (r: Result<Option<TimeSlot>, AppError>)
        requires
            self.wf(),
        ensures
            r == Ok::<Option<TimeSlot>, AppError>(lookup(self.slot_records(), id)),
    {
        Ok(self.slots.get(id))
    }

    /// The slots of a listing, oldest first.
    pub fn list_time_slots(&self, listing_id: u128) -> (r: Result<Vec<TimeSlot>, AppError>)
        requires
            self.wf(),
        ensures
            r matches Ok(v) && v@ == self.slot_records().filter(slot_of_listing(listing_id)),
    {
        let ghost s = self.slots.contents();
        let mut out: Vec<TimeSlot> = Vec::new();
        let mut i: usize = 0;
        while i < self.slots.len()
            invariant
                s == self.slots.contents(),
                i <= s.len(),
                out@ == s.take(i as int).filter(slot_of_listing(listing_id)),
            decreases s.len() - i,
        {
            let t = self.slots.at(i);
            proof {
                lemma_filter_step(s, i as int, slot_of_listing(listing_id));
            }
            if t.listing_id == listing_id {
                out.push(*t);
            }
            i = i + 1;
        }
        proof {
            lemma_take_all(s);
        }
        Ok(out)
    }

    /// Stores the slot under its id (the new state of an existing slot).
    pub fn update_time_slot(&mut self, slot: TimeSlot) -> (r: Result<TimeSlot, AppError>)
        requires
            old(self).wf(),
        ensures
            final(self).wf(),
            final(self).slot_records() == upsert(old(self).slot_records(), slot),
            lookup(final(self).slot_records(), slot.id) == Some(slot),
            forall|k: u128| k != slot.id ==> #[trigger] lookup(final(self).slot_records(), k) == lookup(old(self).slot_records(), k),
            final(self).listing_records() == old(self).listing_records(),
            r == Ok::<TimeSlot, AppError>(slot),
    {
        self.slots.put(slot);
        Ok(slot)
    }
}

impl Default for InMemoryListingRepo {
    fn default() -> (r: Self)
        ensures
            r.wf(),
            r.listing_records() == Seq::<Listing>::empty(),
            r.slot_records() == Seq::<TimeSlot>::empty(),
    {
        InMemoryListingRepo::new()
    }
}

/// Bookings, by id.
pub struct InMemoryBookingRepo {
    data: Store<Booking>,
}

impl InMemoryBookingRepo {
    /// The stored bookings, oldest first.
    pub closed spec fn records(&self) -> Seq<Booking> {
        self.data.contents()
    }

    pub closed spec fn wf(&self) -> bool {
        self.data.wf()
    }

    /// A well-formed store holds no id twice.
    pub proof fn lemma_ids_unique(&self)
        requires
            self.wf(),
        ensures
            keys_unique(self.records()),
    {
    }

    pub fn new() -> (r: Self)
        ensures
            r.wf(),
            r.records() == Seq::<Booking>::empty(),
    {
        InMemoryBookingRepo { data: Store::new() }
    }

    /// Stores the booking under its id, replacing any booking with that id.
    pub fn create(&mut self, booking: Booking) -> (r: Result<Booking, AppError>)
        requires
            old(self).wf(),
        ensures
            final(self).wf(),
            final(self).records() == upsert(old(self).records(), booking),
            lookup(final(self).records(), booking.id) == Some(booking),
            forall|k: u128| k != booking.id ==> #[trigger] lookup(final(self).records(), k) == lookup(old(self).records(), k),
            r == Ok::<Booking, AppError>(booking),
    {
        self.data.put(booking.clone());
        Ok(booking)
    }

    /// The booking with the given id, if any.
    pub fn get(&self, id: u128) -> (r: Result<Option<Booking>, AppError>)
        requires
            self.wf(),
        ensures
            r == Ok::<Option<Booking>, AppError>(lookup(self.records(), id)),
    {
        Ok(self.data.get(id))
    }

    /// Stores the new state of a booking under its id.
    pub fn update(&mut self, booking: Booking) -> (r: Result<Booking, AppError>)
        requires
            old(self).wf(),
        ensures
            final(self).wf(),
            final(self).records() == upsert(old(self).records(), booking),
            lookup(final(self).records(), booking.id) == Some(booking),
            forall|k: u128| k != booking.id ==> #[trigger] lookup(final(self).records(), k) == lookup(old(self).records(), k),
            r == Ok::<Booking, AppError>(booking),
    {
        self.data.put(booking.clone());
        Ok(booking)
    }

    /// The bookings made by a rider, oldest first.
    pub fn list_by_rider(&self, rider_id: u128) -> (r: Result<Vec<Booking>, AppError>)
        requires
            self.wf(),
        ensures
            r matches Ok(v) && v@ == self.records().filter(booking_of_rider(rider_id)),
    {
        let ghost s = self.data.contents();
        let mut out: Vec<Booking> = Vec::new();
        let mut i: usize = 0;
        while i < self.data.len()
            invariant
                s == self.data.contents(),
                i <= s.len(),
                out@ == s.take(i as int).filter(booking_of_rider(rider_id)),
            decreases s.len() - i,
        {
            let b = self.data.at(i);
            proof {
                lemma_filter_step(s, i as int, booking_of_rider(rider_id));
            }
            if b.rider_id == rider_id {
                out.push(b.clone());
            }
            i = i + 1;
        }
        proof {
            lemma_take_all(s);
        }
        Ok(out)
    }

    /// Bookings do not record their owner, so this store hands back every
    /// booking and leaves the owner filter to its caller.
    pub fn list_by_owner(&self, owner_id: u128) -> (r: Result<Vec<Booking>, AppError>)
        requires
            self.wf(),
        ensures
            r matches Ok(v) && v@ == self.records(),
    {
        let ghost s = self.data.contents();
        let mut out: Vec<Booking> = Vec::new();
        let mut i: usize = 0;
        while i < self.data.len()
            invariant
                s == self.data.contents(),
                i <= s.len(),
                out@ == s.take(i as int),
            decreases s.len() - i,
        {
            out.push(self.data.at(i).clone());
            i = i + 1;
            assert(out@ =~= s.take(i as int));
        }
        proof {
            lemma_take_all(s);
        }
        Ok(out)
    }
}

impl Default for InMemoryBookingRepo {
    fn default() -> (r: Self)
        ensures
            r.wf(),
            r.records() == Seq::<Booking>::empty(),
    {
        InMemoryBookingRepo::new()
    }
}

/// Reviews, by id.
pub struct InMemoryReviewRepo {
    data: Store<Review>,
}

impl InMemoryReviewRepo {
    /// The stored reviews, oldest first.
    pub closed spec fn records(&self) -> Seq<Review> {
        self.data.contents()
    }

    pub closed spec fn wf(&self) -> bool {
        self.data.wf()
    }

    /// A well-formed store holds no id twice.
    pub proof fn lemma_ids_unique(&self)
        requires
            self.wf(),
        ensures
            keys_unique(self.records()),
    {
    }

    pub fn new() -> (r: Self)
        ensures
            r.wf(),
            r.records() == Seq::<Review>::empty(),
    {
        InMemoryReviewRepo { data: Store::new() }
    }

    /// Stores the review under its id, replacing any review with that id.
    pub fn create(&mut self, review: Review) -> (r: Result<Review, AppError>)
        requires
            old(self).wf(),
        ensures
            final(self).wf(),
            final(self).records() == upsert(old(self).records(), review),
            lookup(final(self).records(), review.id) == Some(review),
            forall|k: u128| k != review.id ==> #[trigger] lookup(final(self).records(), k) == lookup(old(self).records(), k),
            r == Ok::<Review, AppError>(review),
    {
        self.data.put(review.clone());
        Ok(review)
    }

    /// A review of the given booking, if any.
    pub fn get_by_booking(&self, booking_id: u128) -> (r: Result<Option<Review>, AppError>)
        requires
            self.wf(),
        ensures
            r matches Ok(o) && found_in(o, self.records(), review_of_booking(booking_id)),
    {
        let mut i: usize = 0;
        while i < self.data.len()
            invariant
                i <= self.data.contents().len(),
                forall|j: int| 0 <= j < i ==> !review_of_booking(booking_id)(#[trigger] self.data.contents()[j]),
            decreases self.data.contents().len() - i,
        {
            let v = self.data.at(i);
            if v.booking_id == booking_id {
                return Ok(Some(v.clone()));
            }
            i = i + 1;
        }
        Ok(None)
    }

    /// The reviews of a listing, oldest first.
    pub fn list_for_listing(&self, listing_id: u128) -> (r: Result<Vec<Review>, AppError>)
        requires
            self.wf(),
        ensures
            r matches Ok(v) && v@ == self.records().filter(review_of_listing(listing_id)),
    {
        let ghost s = self.data.contents();
        let mut out: Vec<Review> = Vec::new();
        let mut i: usize = 0;
        while i < self.data.len()
            invariant
                s == self.data.contents(),
                i <= s.len(),
                out@ == s.take(i as int).filter(review_of_listing(listing_id)),
            decreases s.len() - i,
        {
            let v = self.data.at(i);
            proof {
                lemma_filter_step(s, i as int, review_of_listing(listing_id));
            }
            if v.listing_id == listing_id {
                out.push(v.clone());
            }
            i = i + 1;
        }
        proof {
            lemma_take_all(s);
        }
        Ok(out)
    }
}

impl Default for InMemoryReviewRepo {
    fn default() -> (r: Self)
        ensures
            r.wf(),
            r.records() == Seq::<Review>::empty(),
    {
        InMemoryReviewRepo::new()
    }
}

} // verus!
