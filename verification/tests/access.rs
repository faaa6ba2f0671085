use uber_for_horses::auth::jwt::AuthIdentity;
use uber_for_horses::domain::{AnimalKind, BookingStatus, Role};
use uber_for_horses::error::ErrorKind;
use uber_for_horses::state::{build_in_memory_state, AppState};
use uber_for_horses::time::Timestamp;

fn at(hours: i64) -> Timestamp {
    Timestamp { secs: 1_900_000_000 + hours * 3_600, nanos: 0 }
}

fn owner(state: &mut AppState, email: &str) -> AuthIdentity {
    let o = state.owner_service.create_owner("Olga".into(), email.into(), "pw-owner".into(), None).unwrap();
    AuthIdentity { id: o.id, role: Role::Owner }
}

fn rider(state: &mut AppState, email: &str) -> AuthIdentity {
    let r = state.rider_service.create_rider("Rafe".into(), email.into(), "pw-rider".into(), None).unwrap();
    AuthIdentity { id: r.id, role: Role::Rider }
}

fn listing_as(state: &mut AppState, who: &AuthIdentity) -> Result<uber_for_horses::domain::Listing, uber_for_horses::error::AppError> {
    state.create_listing_as(
        who,
        AnimalKind::Horse,
        "Pip".into(),
        "small and calm".into(),
        "https://example.com/pip.png".into(),
        2500,
        51.5f64.to_bits(),
        (-0.12f64).to_bits(),
    )
}

#[test]
fn only_owners_create_listings_and_the_owner_is_the_caller() {
    let mut state = build_in_memory_state();
    let o = owner(&mut state, "o@example.com");
    let r = rider(&mut state, "r@example.com");

    let refused = listing_as(&mut state, &r).unwrap_err();
    assert_eq!(refused.kind(), ErrorKind::Forbidden);
    assert_eq!(refused.message(), "only owners can create listings");

    let listing = listing_as(&mut state, &o).unwrap();
    assert_eq!(listing.owner_id, o.id);
    assert!(listing.active);
}

#[test]
fn only_the_listing_owner_adds_time_slots() {
    let mut state = build_in_memory_state();
    let o = owner(&mut state, "o@example.com");
    let other = owner(&mut state, "other@example.com");
    let r = rider(&mut state, "r@example.com");
    let listing = listing_as(&mut state, &o).unwrap();

    let e = state.add_time_slot_as(&r, listing.id, at(1), at(3)).unwrap_err();
    assert_eq!(e.kind(), ErrorKind::Forbidden);
    assert_eq!(e.message(), "only owners can add time slots");

    let e = state.add_time_slot_as(&other, listing.id, at(1), at(3)).unwrap_err();
    assert_eq!(e.kind(), ErrorKind::Forbidden);
    assert_eq!(e.message(), "only the listing owner can add time slots to this listing");

    let e = state.add_time_slot_as(&o, listing.id + 1, at(1), at(3)).unwrap_err();
    assert_eq!(e.kind(), ErrorKind::NotFound);

    let slot = state.add_time_slot_as(&o, listing.id, at(1), at(3)).unwrap();
    assert_eq!(slot.listing_id, listing.id);
    assert!(!slot.is_booked);
}

#[test]
fn role_checks_come_before_the_booking_rules() {
    let mut state = build_in_memory_state();
    let o = owner(&mut state, "o@example.com");
    let r = rider(&mut state, "r@example.com");
    let listing = listing_as(&mut state, &o).unwrap();
    let slot = state.add_time_slot_as(&o, listing.id, at(1), at(3)).unwrap();

    let e = state.request_booking_as(&o, listing.id, slot.id, None).unwrap_err();
    assert_eq!(e.kind(), ErrorKind::Forbidden);
    assert_eq!(e.message(), "only riders can request bookings");

    let booking = state.request_booking_as(&r, listing.id, slot.id, Some("hello".into())).unwrap();
    assert_eq!(booking.rider_id, r.id);
    assert_eq!(booking.status, BookingStatus::Requested);
    assert_eq!(booking.total_price_cents, 5000);

    for (res, text) in [
        (state.confirm_booking_as(&r, booking.id), "only owners can confirm bookings"),
        (state.decline_booking_as(&r, booking.id), "only owners can decline bookings"),
        (state.complete_booking_as(&r, booking.id), "only owners can complete bookings"),
    ] {
        let e = res.unwrap_err();
        assert_eq!(e.kind(), ErrorKind::Forbidden);
        assert_eq!(e.message(), text);
    }

    let confirmed = state.confirm_booking_as(&o, booking.id).unwrap();
    assert_eq!(confirmed.status, BookingStatus::Confirmed);
    let cancelled = state.cancel_booking_as(&r, booking.id).unwrap();
    assert_eq!(cancelled.status, BookingStatus::Cancelled);
}

#[test]
fn booking_histories_are_private() {
    let mut state = build_in_memory_state();
    let o = owner(&mut state, "o@example.com");
    let r = rider(&mut state, "r@example.com");
    let listing = listing_as(&mut state, &o).unwrap();
    let slot = state.add_time_slot_as(&o, listing.id, at(1), at(2)).unwrap();
    let booking = state.request_booking_as(&r, listing.id, slot.id, None).unwrap();

    let e = state.rider_bookings_as(&o, r.id).unwrap_err();
    assert_eq!(e.kind(), ErrorKind::Forbidden);
    assert_eq!(e.message(), "you can only view your own booking history");
    let e = state.owner_bookings_as(&r, o.id).unwrap_err();
    assert_eq!(e.kind(), ErrorKind::Forbidden);

    let mine = state.rider_bookings_as(&r, r.id).unwrap();
    assert_eq!(mine.len(), 1);
    assert_eq!(mine[0].id, booking.id);
    let theirs = state.owner_bookings_as(&o, o.id).unwrap();
    assert_eq!(theirs.len(), 1);
    assert_eq!(theirs[0].id, booking.id);
}
