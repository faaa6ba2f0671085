use vstd::prelude::*;
use crate::domain::listing::{coordinate_within, within_limit, LAT_LIMIT_BITS, LNG_LIMIT_BITS};
use crate::domain::{AnimalKind, Listing, TimeSlot};
use crate::error::{agrees, not_found, not_found_text, AppError, ErrorKind};
use crate::repo::in_memory::{slot_of_listing, InMemoryListingRepo};
use crate::repo::store::{lookup, upsert};
use crate::text::{all_ws, is_blank, is_ws};
use crate::time::{at_or_before, Timestamp};

verus! {

/// The first rule that a new listing breaks, in the order they are checked:
/// a non-blank name, a positive hourly price, a latitude within ±90 degrees
/// and a longitude within ±180 degrees.
pub open spec fn listing_rule_broken(name: Seq<char>, hourly_price_cents: i64, lat_bits: u64, lng_bits: u64) -> Option<
    Seq<char>,
> {
    if all_ws(name) {
        Some("name must not be empty"@)
    } else if hourly_price_cents <= 0 {
        Some("hourly_price_cents must be positive"@)
    } else if !within_limit(lat_bits, LAT_LIMIT_BITS) {
        Some("lat out of range"@)
    } else if !within_limit(lng_bits, LNG_LIMIT_BITS) {
        Some("lng out of range"@)
    } else {
        None
    }
}

/// The effect of creating a listing: refused with the first broken rule,
/// else a new active listing of `owner_id` with the given fields is stored.
pub open spec fn create_listing_post(
    before: Seq<Listing>,
    after: Seq<Listing>,
    owner_id: u128,
    kind: AnimalKind,
    name: String,
    description: String,
    photo_url: String,
    hourly_price_cents: i64,
    lat_bits: u64,
    lng_bits: u64,
    r: Result<Listing, AppError>,
) -> bool {
    match listing_rule_broken(name@, hourly_price_cents, lat_bits, lng_bits) {
        Some(t) => {
            &&& agrees(r, Err((ErrorKind::Validation, t)))
            &&& after == before
        },
        None => {
            &&& r matches Ok(l)
            &&& l.owner_id == owner_id
            &&& l.kind == kind
            &&& l.name == name
            &&& l.description == description
            &&& l.photo_url == photo_url
            &&& l.hourly_price_cents == hourly_price_cents
            &&& l.lat_bits == lat_bits
            &&& l.lng_bits == lng_bits
            &&& l.active
            &&& after == upsert(before, l)
        },
    }
}

/// A listing is refused exactly when its name is blank, its hourly price
/// is not positive, or its latitude lies outside ±90 or its longitude
/// outside ±180 degrees (the magnitude bits of the binary64 encodings of
/// 90.0 and 180.0): every positive price is accepted.
pub proof fn law_listing_rules(name: Seq<char>, hourly_price_cents: i64, lat_bits: u64, lng_bits: u64)
    ensures
        listing_rule_broken(name, hourly_price_cents, lat_bits, lng_bits) is None <==> ((exists|i: int|
            0 <= i < name.len() && !is_ws(#[trigger] name[i])) && hourly_price_cents > 0 && (lat_bits as int)
            % 0x8000_0000_0000_0000 <= 0x4056_8000_0000_0000 && (lng_bits as int) % 0x8000_0000_0000_0000
            <= 0x4066_8000_0000_0000),
{
}

/// Creating a listing with a non-blank name, a positive hourly price and
/// coordinates within ±90 and ±180 degrees succeeds, with that owner and
/// price, active.
pub proof fn law_valid_listing_is_created(
    before: Seq<Listing>,
    after: Seq<Listing>,
    owner_id: u128,
    kind: AnimalKind,
    name: String,
    description: String,
    photo_url: String,
    hourly_price_cents: i64,
    lat_bits: u64,
    lng_bits: u64,
    r: Result<Listing, AppError>,
)
    requires
        create_listing_post(
            before,
            after,
            owner_id,
            kind,
            name,
            description,
            photo_url,
            hourly_price_cents,
            lat_bits,
            lng_bits,
            r,
        ),
        exists|i: int| 0 <= i < name@.len() && !is_ws(#[trigger] name@[i]),
        hourly_price_cents > 0,
        (lat_bits as int) % 0x8000_0000_0000_0000 <= 0x4056_8000_0000_0000,
        (lng_bits as int) % 0x8000_0000_0000_0000 <= 0x4066_8000_0000_0000,
    ensures
        r matches Ok(l) && l.owner_id == owner_id && l.hourly_price_cents == hourly_price_cents && l.active,
{
    law_listing_rules(name@, hourly_price_cents, lat_bits, lng_bits);
}

/// The effect of adding a time slot: the listing must exist and the slot
/// must end after it starts; then a free slot is stored.
pub open spec fn add_time_slot_post(
    listings: Seq<Listing>,
    before: Seq<TimeSlot>,
    after: Seq<TimeSlot>,
    listing_id: u128,
    start_at: Timestamp,
    end_at: Timestamp,
    r: Result<TimeSlot, AppError>,
) -> bool {
    if lookup(listings, listing_id) is None {
        &&& agrees(r, Err((ErrorKind::NotFound, not_found_text("listing"@, listing_id))))
        &&& after == before
    } else if at_or_before(end_at, start_at) {
        &&& agrees(r, Err((ErrorKind::Validation, "end_at must be after start_at"@)))
        &&& after == before
    } else {
        &&& r matches Ok(s)
        &&& s.listing_id == listing_id
        &&& s.start_at == start_at
        &&& s.end_at == end_at
        &&& !s.is_booked
        &&& after == upsert(before, s)
    }
}

/// Checks a new listing's name, price and coordinates (binary64 encodings
/// of degrees), reporting the first broken rule.
pub fn check_new_listing(name: &str, hourly_price_cents: i64, lat_bits: u64, lng_bits: u64) -> (r: Result<(), AppError>)
    ensures
        match listing_rule_broken(name@, hourly_price_cents, lat_bits, lng_bits) {
            Some(t) => agrees(r, Err((ErrorKind::Validation, t))),
            None => r is Ok,
        },
{
    if is_blank(name) {
        return Err(AppError::new(ErrorKind::Validation, "name must not be empty"));
    }
    if hourly_price_cents <= 0 {
        return Err(AppError::new(ErrorKind::Validation, "hourly_price_cents must be positive"));
    }
    if !coordinate_within(lat_bits, LAT_LIMIT_BITS) {
        return Err(AppError::new(ErrorKind::Validation, "lat out of range"));
    }
    if !coordinate_within(lng_bits, LNG_LIMIT_BITS) {
        return Err(AppError::new(ErrorKind::Validation, "lng out of range"));
    }
    Ok(())
}

/// Checks a new slot of the listing `listing_id`, on the listing stored
/// under that id (`listing`): the listing exists and the slot ends after it
/// starts.
pub fn check_new_slot(listing_id: u128, listing: Option<Listing>, start_at: Timestamp, end_at: Timestamp) -> (r: Result<
    (),
    AppError,
>)
    ensures
        match listing {
            None => agrees(r, Err((ErrorKind::NotFound, not_found_text("listing"@, listing_id)))),
            Some(_) => if at_or_before(end_at, start_at) {
                agrees(r, Err((ErrorKind::Validation, "end_at must be after start_at"@)))
            } else {
                r is Ok
            },
        },
{
    if listing.is_none() {
        return Err(not_found("listing", listing_id));
    }
    if end_at.is_at_or_before(&start_at) {
        return Err(AppError::new(ErrorKind::Validation, "end_at must be after start_at"));
    }
    Ok(())
}

/// Manages listings and their time slots.
pub struct ListingService {
    pub repo: InMemoryListingRepo,
}

impl ListingService {
    pub open spec fn wf(&self) -> bool {
        self.repo.wf()
    }

    pub fn new(repo: InMemoryListingRepo) -> (s: Self)
        ensures
            s.repo == repo,
    {
        ListingService { repo }
    }

    /// Creates an active listing for `owner_id` after checking its name,
    /// price and coordinates (binary64 encodings of degrees).
    pub fn create_listing(
        &mut self,
        owner_id: u128,
        kind: AnimalKind,
        name: String,
        description: String,
        photo_url: String,
        hourly_price_cents: i64,
        lat_bits: u64,
        lng_bits: u64,
    ) -> (r: Result<Listing, AppError>)
        requires
            old(self).wf(),
        ensures
            final(self).wf(),
            final(self).repo.slot_records() == old(self).repo.slot_records(),
            create_listing_post(
                old(self).repo.listing_records(),
                final(self).repo.listing_records(),
                owner_id,
                kind,
                name,
                description,
                photo_url,
                hourly_price_cents,
                lat_bits,
                lng_bits,
                r,
            ),
    {
        match check_new_listing(name.as_str(), hourly_price_cents, lat_bits, lng_bits) {
            Ok(()) => {},
            Err(e) => return Err(e),
        }
        let listing = Listing::new(owner_id, kind, name, description, photo_url, hourly_price_cents, lat_bits, lng_bits);
        self.repo.create(listing)
    }

    /// The listing with the given id.
    pub fn get_listing(&self, id: u128) -> (r: Result<Listing, AppError>)
        requires
            self.wf(),
        ensures
            match lookup(self.repo.listing_records(), id) {
                Some(l) => r == Ok::<Listing, AppError>(l),
                None => agrees(r, Err((ErrorKind::NotFound, not_found_text("listing"@, id)))),
            },
    {
        match self.repo.get(id) {
            Ok(Some(l)) => Ok(l),
            _ => Err(not_found("listing", id)),
        }
    }

    /// Adds a free slot to an existing listing; the slot must end after it
    /// starts.
    pub fn add_time_slot(&mut self, listing_id: u128, start_at: Timestamp, end_at: Timestamp) -> (r: Result<
        TimeSlot,
        AppError,
    >)
        requires
            old(self).wf(),
        ensures
            final(self).wf(),
            final(self).repo.listing_records() == old(self).repo.listing_records(),
            add_time_slot_post(
                old(self).repo.listing_records(),
                old(self).repo.slot_records(),
                final(self).repo.slot_records(),
                listing_id,
                start_at,
                end_at,
                r,
            ),
    {
        let listing = match self.repo.get(listing_id) {
            Ok(l) => l,
            Err(e) => return Err(e),
        };
        match check_new_slot(listing_id, listing, start_at, end_at) {
            Ok(()) => {},
            Err(e) => return Err(e),
        }
        let slot = TimeSlot::new(listing_id, start_at, end_at);
        self.repo.add_time_slot(slot)
    }

    /// The slots of a listing, oldest first.
    pub fn list_time_slots(&self, listing_id: u128) -> (r: Result<Vec<TimeSlot>, AppError>)
        requires
            self.wf(),
        ensures
            r matches Ok(v) && v@ == self.repo.slot_records().filter(slot_of_listing(listing_id)),
    {
        self.repo.list_time_slots(listing_id)
    }

    /// The slot with the given id.
    pub fn get_time_slot(&self, id: u128) -> (r: Result<TimeSlot, AppError>)
        requires
            self.wf(),
        ensures
            match lookup(self.repo.slot_records(), id) {
                Some(s) => r == Ok::<TimeSlot, AppError>(s),
                None => agrees(r, Err((ErrorKind::NotFound, not_found_text("time slot"@, id)))),
            },
    {
        match self.repo.get_time_slot(id) {
            Ok(Some(s)) => Ok(s),
            _ => Err(not_found("time slot", id)),
        }
    }
}

} // verus!
