use vstd::prelude::*;
use crate::text::same_text;
use crate::time::{now, whole_seconds_between, Timestamp};
use crate::ids::new_id;

verus! {

/// What a listing offers.
#[derive(Debug, Clone, Copy, PartialEq, Eq, Structural)]
pub enum AnimalKind {
    Horse,
    Carriage,
}

/// The stored name of a kind.
pub open spec fn kind_text(k: AnimalKind) -> Seq<char> {
    match k {
        AnimalKind::Horse => "horse"@,
        AnimalKind::Carriage => "carriage"@,
    }
}

/// The kind a stored name stands for; any name but "carriage" reads as Horse.
pub open spec fn kind_from_text(t: Seq<char>) -> AnimalKind {
    if t == "carriage"@ {
        AnimalKind::Carriage
    } else {
        AnimalKind::Horse
    }
}

/// The name under which a kind is stored.
pub fn kind_to_str(kind: AnimalKind) -> (r: &'static str)
    ensures
        r@ == kind_text(kind),
{
    match kind {
        AnimalKind::Horse => "horse",
        AnimalKind::Carriage => "carriage",
    }
}

/// The kind a stored name stands for (Horse for any other name).
pub fn str_to_kind(s: &str) -> (r: AnimalKind)
    ensures
        r == kind_from_text(s@),
{
    if same_text(s, "carriage") {
        AnimalKind::Carriage
    } else {
        AnimalKind::Horse
    }
}

/// Reading back the stored name of a kind gives that kind.
pub proof fn lemma_kind_text_round_trip(k: AnimalKind)
    ensures
        kind_from_text(kind_text(k)) == k,
{
    reveal_strlit("horse");
    reveal_strlit("carriage");
    assert("horse"@.len() != "carriage"@.len());
}

/// The IEEE-754 binary64 encoding of 90.0.
pub const LAT_LIMIT_BITS: u64 = 0x4056_8000_0000_0000;

/// The IEEE-754 binary64 encoding of 180.0.
pub const LNG_LIMIT_BITS: u64 = 0x4066_8000_0000_0000;

/// A coordinate in degrees, held as the bits of its IEEE-754 binary64
/// encoding, lies within `[-limit, limit]` exactly when its magnitude bits
/// (all but the sign bit) do not exceed those of `limit`: positive doubles
/// order as their encodings do, and NaNs encode above every finite value.
pub open spec fn within_limit(bits: u64, limit_bits: u64) -> bool {
    (bits as int) % 0x8000_0000_0000_0000 <= limit_bits
}

/// Whether the encoded coordinate lies within `[-limit, limit]`.
pub fn coordinate_within(bits: u64, limit_bits: u64) -> (r: bool)
    ensures
        r == within_limit(bits, limit_bits),
{
    bits % 0x8000_0000_0000_0000 <= limit_bits
}

/// A horse or carriage offered by an owner. `lat_bits` and `lng_bits` are
/// the binary64 encodings of the latitude and longitude in degrees.
#[derive(Debug)]
pub struct Listing {
    pub id: u128,
    pub owner_id: u128,
    pub kind: AnimalKind,
    pub name: String,
    pub description: String,
    pub photo_url: String,
    pub hourly_price_cents: i64,
    pub lat_bits: u64,
    pub lng_bits: u64,
    pub active: bool,
    pub created_at: Timestamp,
}

impl Clone for Listing {
    fn clone(&self) -> (r: Self)
        ensures
            r == *self,
    {
        Listing {
            id: self.id,
            owner_id: self.owner_id,
            kind: self.kind,
            name: self.name.clone(),
            description: self.description.clone(),
            photo_url: self.photo_url.clone(),
            hourly_price_cents: self.hourly_price_cents,
            lat_bits: self.lat_bits,
            lng_bits: self.lng_bits,
            active: self.active,
            created_at: self.created_at,
        }
    }
}

impl Listing {
    /// A new, active listing with a fresh id, created now.
    pub fn new(
        owner_id: u128,
        kind: AnimalKind,
        name: String,
        description: String,
        photo_url: String,
        hourly_price_cents: i64,
        lat_bits: u64,
        lng_bits: u64,
    ) -> (l: Listing)
        ensures
            l.owner_id == owner_id,
            l.kind == kind,
            l.name == name,
            l.description == description,
            l.photo_url == photo_url,
            l.hourly_price_cents == hourly_price_cents,
            l.lat_bits == lat_bits,
            l.lng_bits == lng_bits,
            l.active,
    {
        Listing {
            id: new_id(),
            owner_id,
            kind,
            name,
            description,
            photo_url,
            hourly_price_cents,
            lat_bits,
            lng_bits,
            active: true,
            created_at: now(),
        }
    }
}

/// A bookable period of a listing.
#[derive(Debug, Clone, Copy, PartialEq, Eq, Structural)]
pub struct TimeSlot {
    pub id: u128,
    pub listing_id: u128,
    pub start_at: Timestamp,
    pub end_at: Timestamp,
    pub is_booked: bool,
}

/// The billed length of a period in hours: its whole seconds rounded up to
/// whole hours, and at least one hour.
pub open spec fn billed_hours(start: Timestamp, end: Timestamp) -> int {
    let s = whole_seconds_between(start, end);
    let h = (s + 3599) / 3600;
    if h < 1 {
        1
    } else {
        h
    }
}

/// Hours are billed by rounding the slot's whole seconds up: for a slot of
/// `s > 0` whole seconds the billed hours `h` cover it (`h * 3600 >= s`)
/// and one hour fewer would not (`(h - 1) * 3600 < s`), however long the
/// slot; an empty or reversed slot is billed one hour.
pub proof fn law_billed_hours_round_seconds_up(start: Timestamp, end: Timestamp)
    ensures
        ({
            let s = whole_seconds_between(start, end);
            let h = billed_hours(start, end);
            &&& h >= 1
            &&& s > 0 ==> h * 3600 >= s && (h - 1) * 3600 < s
            &&& s <= 0 ==> h == 1
        }),
{
    let s = whole_seconds_between(start, end);
    let q = (s + 3599) / 3600;
    if s > 0 {
        assert(q * 3600 <= s + 3599 && s + 3599 < q * 3600 + 3600) by (nonlinear_arith)
            requires
                q == (s + 3599) / 3600,
                s > 0,
        ;
    }
}

impl TimeSlot {
    /// A new, unbooked slot with a fresh id.
    pub fn new(listing_id: u128, start_at: Timestamp, end_at: Timestamp) -> (t: TimeSlot)
        ensures
            t.listing_id == listing_id,
            t.start_at == start_at,
            t.end_at == end_at,
            !t.is_booked,
    {
        TimeSlot { id: new_id(), listing_id, start_at, end_at, is_booked: false }
    }

    /// Duration of the slot in hours, rounded up (ceil), minimum 1 hour.
    pub fn duration_hours_ceil(&self) -> (h: i64)
        ensures
            h == billed_hours(self.start_at, self.end_at),
            h >= 1,
    {
        let ds: i128 = self.end_at.secs as i128 - self.start_at.secs as i128;
        let dn: i128 = self.end_at.nanos as i128 - self.start_at.nanos as i128;
        let total: i128 = ds * 1_000_000_000 + dn;
        let secs: i128 = if total > 0 {
            total / 1_000_000_000
        } else {
            0
        };
        assert(secs <= 0x2_0000_0000_0000_0000);
        let hours: i128 = (secs + 3599) / 3600;
        if hours < 1 {
            1
        } else {
            hours as i64
        }
    }
}

} // verus!
