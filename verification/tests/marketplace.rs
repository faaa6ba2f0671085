use uber_for_horses::domain::{AnimalKind, BookingStatus, Role};
use uber_for_horses::error::{AppError, ErrorKind};
use uber_for_horses::service::{nearest_first, NearbyListing};
use uber_for_horses::state::{build_in_memory_state, AppState};
use uber_for_horses::time::Timestamp;

fn now_plus(days: i64, hours: i64) -> Timestamp {
    let secs = chrono::Utc::now().timestamp() + days * 86_400 + hours * 3_600;
    Timestamp { secs, nanos: 0 }
}

fn new_owner(state: &mut AppState, name: &str, email: &str) -> u128 {
    state
        .owner_service
        .create_owner(name.into(), email.into(), "correct horse".into(), None)
        .unwrap()
        .id
}

fn new_rider(state: &mut AppState, name: &str, email: &str) -> u128 {
    state
        .rider_service
        .create_rider(name.into(), email.into(), "battery staple".into(), None)
        .unwrap()
        .id
}

fn new_listing(state: &mut AppState, owner_id: u128, kind: AnimalKind, name: &str, price: i64, lat: f64, lng: f64) -> u128 {
    let listing = state
        .listing_service
        .create_listing(
            owner_id,
            kind,
            name.into(),
            "desc".into(),
            "https://example.com/x.png".into(),
            price,
            lat.to_bits(),
            lng.to_bits(),
        )
        .unwrap();
    assert!(listing.active);
    listing.id
}

/// The great-circle distance that the server measures a search by.
fn haversine_km(lat1: f64, lng1: f64, lat2: f64, lng2: f64) -> f64 {
    let (p1, p2) = (lat1.to_radians(), lat2.to_radians());
    let dlat = (lat2 - lat1).to_radians();
    let dlng = (lng2 - lng1).to_radians();
    let a = (dlat / 2.0).sin().powi(2) + p1.cos() * p2.cos() * (dlng / 2.0).sin().powi(2);
    6371.0 * 2.0 * a.sqrt().asin()
}

/// A nearby search as the server runs it: the active listings, measured and
/// kept within the radius, then ordered by the library.
fn search(state: &AppState, lat: f64, lng: f64, radius_km: f64) -> Vec<NearbyListing> {
    let found: Vec<NearbyListing> = state
        .listing_service
        .repo
        .list_active()
        .unwrap()
        .into_iter()
        .filter_map(|listing| {
            let d = haversine_km(lat, lng, f64::from_bits(listing.lat_bits), f64::from_bits(listing.lng_bits));
            (d <= radius_km).then_some(NearbyListing { listing, distance_bits: d.to_bits() })
        })
        .collect();
    nearest_first(found)
}

fn request(state: &mut AppState, listing_id: u128, rider_id: u128, slot_id: u128, msg: Option<&str>) -> Result<uber_for_horses::domain::Booking, AppError> {
    let AppState { listing_service, booking_service, .. } = state;
    booking_service.request_booking(&listing_service.repo, listing_id, rider_id, slot_id, msg.map(|m| m.to_string()))
}

fn confirm(state: &mut AppState, booking_id: u128, actor: u128) -> Result<uber_for_horses::domain::Booking, AppError> {
    let AppState { listing_service, booking_service, .. } = state;
    booking_service.confirm_booking(&mut listing_service.repo, booking_id, actor)
}

fn cancel(state: &mut AppState, booking_id: u128, actor: u128) -> Result<uber_for_horses::domain::Booking, AppError> {
    let AppState { listing_service, booking_service, .. } = state;
    booking_service.cancel_booking(&mut listing_service.repo, booking_id, actor)
}

fn complete(state: &mut AppState, booking_id: u128, actor: u128) -> Result<uber_for_horses::domain::Booking, AppError> {
    let AppState { listing_service, booking_service, .. } = state;
    booking_service.complete_booking(&listing_service.repo, booking_id, actor)
}

#[test]
fn happy_path_full_booking_lifecycle() {
    let mut state = build_in_memory_state();

    // 1. Create owner
    let owner_id = new_owner(&mut state, "Alice Owner", "alice@example.com");

    // 2. Create listing (San Francisco coordinates)
    let listing_id = new_listing(&mut state, owner_id, AnimalKind::Horse, "Majestic Steed", 5000, 37.7749, -122.4194);

    // 3. Add a time slot (2 hours)
    let start_at = now_plus(1, 0);
    let end_at = now_plus(1, 2);
    let slot = state.listing_service.add_time_slot(listing_id, start_at, end_at).unwrap();
    assert!(!slot.is_booked);

    // 4. Create rider
    let rider_id = new_rider(&mut state, "Bob Rider", "bob@example.com");

    // 5. Search near Oakland: 25 km finds the listing, 1 km does not.
    let near = search(&state, 37.8044, -122.2712, 25.0);
    assert_eq!(near.len(), 1);
    assert_eq!(near[0].listing.id, listing_id);
    assert!(f64::from_bits(near[0].distance_bits) > 0.0);
    assert!(search(&state, 37.8044, -122.2712, 1.0).is_empty());

    // 6. Rider creates booking -> status Requested
    let booking = request(&mut state, listing_id, rider_id, slot.id, Some("Excited for the ride!")).unwrap();
    assert_eq!(booking.status, BookingStatus::Requested);
    // 2 hours * 5000 cents/hr = 10000 cents
    assert_eq!(booking.total_price_cents, 10000);

    // Slot should still be unbooked at this point.
    let slots = state.listing_service.list_time_slots(listing_id).unwrap();
    assert!(!slots[0].is_booked);

    // 7. Owner confirms booking -> Confirmed, slot becomes booked
    let booking = confirm(&mut state, booking.id, owner_id).unwrap();
    assert_eq!(booking.status, BookingStatus::Confirmed);
    let slots = state.listing_service.list_time_slots(listing_id).unwrap();
    assert!(slots[0].is_booked);

    // 8. Owner completes booking -> Completed
    let booking = complete(&mut state, booking.id, owner_id).unwrap();
    assert_eq!(booking.status, BookingStatus::Completed);

    // Sanity check: the stored booking reflects the same state.
    let stored = state.booking_service.get_booking(booking.id).unwrap();
    assert_eq!(stored.status, BookingStatus::Completed);

    // Rider's booking history includes this booking.
    assert_eq!(state.booking_service.list_by_rider(rider_id).unwrap().len(), 1);

    // Owner's booking history includes this booking.
    assert_eq!(state.booking_service.list_by_owner(&state.listing_service.repo, owner_id).unwrap().len(), 1);
}

#[test]
fn booking_an_already_booked_slot_returns_conflict() {
    let mut state = build_in_memory_state();
    let owner_id = new_owner(&mut state, "Owner1", "owner1@example.com");
    let listing_id = new_listing(&mut state, owner_id, AnimalKind::Carriage, "Fancy Carriage", 8000, 40.0, -73.0);
    let slot = state.listing_service.add_time_slot(listing_id, now_plus(2, 0), now_plus(2, 1)).unwrap();
    let rider1_id = new_rider(&mut state, "Rider1", "rider1@example.com");
    let rider2_id = new_rider(&mut state, "Rider2", "rider2@example.com");

    // Rider1 books and owner confirms -> slot becomes booked.
    let booking1 = request(&mut state, listing_id, rider1_id, slot.id, None).unwrap();
    confirm(&mut state, booking1.id, owner_id).unwrap();

    // Rider2 tries to book the now-confirmed (booked) slot -> Conflict.
    let err = request(&mut state, listing_id, rider2_id, slot.id, None).unwrap_err();
    assert_eq!(err.kind(), ErrorKind::Conflict);

    // Confirming as the wrong owner returns Forbidden.
    let random_actor = uuid::Uuid::new_v4().as_u128();
    let slot2 = state.listing_service.add_time_slot(listing_id, now_plus(3, 0), now_plus(3, 1)).unwrap();
    let booking2 = request(&mut state, listing_id, rider2_id, slot2.id, None).unwrap();
    let err = confirm(&mut state, booking2.id, random_actor).unwrap_err();
    assert_eq!(err.kind(), ErrorKind::Forbidden);
}

#[test]
fn cancel_confirmed_booking_frees_the_slot() {
    let mut state = build_in_memory_state();
    let owner_id = new_owner(&mut state, "Owner2", "owner2@example.com");
    let listing_id = new_listing(&mut state, owner_id, AnimalKind::Horse, "Trusty Horse", 3000, 10.0, 10.0);
    let slot = state.listing_service.add_time_slot(listing_id, now_plus(1, 0), now_plus(1, 3)).unwrap();
    let rider_id = new_rider(&mut state, "Rider3", "rider3@example.com");
    let booking = request(&mut state, listing_id, rider_id, slot.id, None).unwrap();

    // Confirm it.
    confirm(&mut state, booking.id, owner_id).unwrap();

    // Rider cancels the confirmed booking.
    let booking = cancel(&mut state, booking.id, rider_id).unwrap();
    assert_eq!(booking.status, BookingStatus::Cancelled);

    // Slot should be freed again.
    let slots = state.listing_service.list_time_slots(listing_id).unwrap();
    assert!(!slots[0].is_booked);

    // Completing an already-cancelled booking should fail with Conflict.
    let err = complete(&mut state, booking.id, owner_id).unwrap_err();
    assert_eq!(err.kind(), ErrorKind::Conflict);
}

#[test]
fn getting_missing_resources_returns_404() {
    let state = build_in_memory_state();
    let missing_id = uuid::Uuid::new_v4().as_u128();
    assert_eq!(state.owner_service.get_owner(missing_id).unwrap_err().kind(), ErrorKind::NotFound);
    assert_eq!(state.booking_service.get_booking(missing_id).unwrap_err().kind(), ErrorKind::NotFound);
}

#[test]
fn listing_rules_are_checked_in_order() {
    let mut state = build_in_memory_state();
    let ls = &mut state.listing_service;
    let mut make = |name: &str, price: i64, lat: f64, lng: f64| {
        ls.create_listing(1, AnimalKind::Horse, name.into(), "d".into(), "p".into(), price, lat.to_bits(), lng.to_bits())
    };
    assert_eq!(make(" \t", 0, 100.0, 200.0).unwrap_err().message(), "name must not be empty");
    assert_eq!(make("Ok", 0, 100.0, 200.0).unwrap_err().message(), "hourly_price_cents must be positive");
    assert_eq!(make("Ok", 1, 100.0, 200.0).unwrap_err().message(), "lat out of range");
    assert_eq!(make("Ok", 1, f64::NAN, 0.0).unwrap_err().message(), "lat out of range");
    assert_eq!(make("Ok", 1, -90.0, 200.0).unwrap_err().message(), "lng out of range");
    assert!(make("Ok", 1, -90.0, 180.0).is_ok());
    assert_eq!(state.listing_service.repo.list_active().unwrap().len(), 1);
}

#[test]
fn time_slots_must_end_after_they_start_and_belong_to_a_listing() {
    let mut state = build_in_memory_state();
    let missing = uuid::Uuid::new_v4();
    let err = state.listing_service.add_time_slot(missing.as_u128(), now_plus(0, 0), now_plus(0, 1)).unwrap_err();
    assert_eq!(err.message(), format!("listing {missing} not found"));
    let owner_id = new_owner(&mut state, "O", "o@example.com");
    let listing_id = new_listing(&mut state, owner_id, AnimalKind::Horse, "H", 100, 0.0, 0.0);
    let t = now_plus(0, 0);
    let err = state.listing_service.add_time_slot(listing_id, t, t).unwrap_err();
    assert!(matches!(err, AppError::Validation(_)));
    assert_eq!(err.message(), "end_at must be after start_at");
    let slot = state.listing_service.add_time_slot(listing_id, t, Timestamp { secs: t.secs, nanos: 1 }).unwrap();
    assert_eq!(state.listing_service.get_time_slot(slot.id).unwrap(), slot);
    assert_eq!(state.listing_service.get_listing(listing_id).unwrap().id, listing_id);
}

#[test]
fn accounts_need_a_name_and_an_address() {
    let mut state = build_in_memory_state();
    let err = state.owner_service.create_owner("   ".into(), "a@b".into(), "pw".into(), None).unwrap_err();
    assert_eq!(err.message(), "name must not be empty");
    let err = state.rider_service.create_rider("Ann".into(), "no-at-sign".into(), "pw".into(), None).unwrap_err();
    assert_eq!(err.message(), "email must be a valid address");
    let err = state.rider_service.create_rider("Ann".into(), " ".into(), "pw".into(), None).unwrap_err();
    assert!(matches!(err, AppError::Validation(_)));
}

#[test]
fn sign_up_then_log_in() {
    let mut state = build_in_memory_state();
    let owner = state
        .sign_up("Olga".into(), "olga@example.com".into(), "s3cret".into(), Role::Owner, None)
        .unwrap();
    assert_eq!(owner.role, Role::Owner);
    let back = state.log_in("olga@example.com", "s3cret", Role::Owner).unwrap();
    assert_eq!(back.id, owner.id);
    assert_eq!(back.referral_code, owner.referral_code);

    let wrong = state.log_in("olga@example.com", "nope", Role::Owner).unwrap_err();
    assert_eq!(wrong.kind(), ErrorKind::Unauthorized);
    assert_eq!(wrong.message(), "invalid email or password");
    let unknown = state.log_in("olga@example.com", "s3cret", Role::Rider).unwrap_err();
    assert_eq!(unknown.message(), "invalid email or password");

    // A rider referred by the owner's code, given with surrounding spaces.
    let code = format!("  {}\n", owner.referral_code);
    let rider = state
        .sign_up("Rita".into(), "rita@example.com".into(), "pw".into(), Role::Rider, Some(code))
        .unwrap();
    let stored = state.rider_service.get_rider(rider.id).unwrap();
    assert_eq!(stored.referred_by.as_deref(), Some(owner.referral_code.as_str()));
    assert!(state.rider_service.find_by_referral_code(&rider.referral_code).unwrap().is_some());

    // An unknown code is ignored, not an error.
    let other = state
        .sign_up("Ron".into(), "ron@example.com".into(), "pw".into(), Role::Rider, Some("NOPE2345".into()))
        .unwrap();
    assert!(state.rider_service.get_rider(other.id).unwrap().referred_by.is_none());
    assert_eq!(state.resolve_referral(Some("   ")).unwrap(), None);
    assert_eq!(
        state.resolve_referral(Some(&rider.referral_code)).unwrap().as_deref(),
        Some(rider.referral_code.as_str())
    );
}

#[test]
fn reviews_only_for_own_completed_bookings_once() {
    let mut state = build_in_memory_state();
    let owner_id = new_owner(&mut state, "O", "o@example.com");
    let listing_id = new_listing(&mut state, owner_id, AnimalKind::Horse, "H", 100, 0.0, 0.0);
    let slot = state.listing_service.add_time_slot(listing_id, now_plus(1, 0), now_plus(1, 1)).unwrap();
    let rider_id = new_rider(&mut state, "R", "r@example.com");
    let booking = request(&mut state, listing_id, rider_id, slot.id, None).unwrap();

    let AppState { booking_service, review_service, .. } = &mut state;
    let err = review_service.create_review(&booking_service.booking_repo, booking.id, rider_id, 5, None).unwrap_err();
    assert_eq!(err.message(), "only completed bookings can be reviewed");
    let err = review_service.create_review(&booking_service.booking_repo, booking.id, 999, 5, None).unwrap_err();
    assert!(matches!(err, AppError::Forbidden(_)));

    confirm(&mut state, booking.id, owner_id).unwrap();
    complete(&mut state, booking.id, owner_id).unwrap();

    let AppState { booking_service, review_service, .. } = &mut state;
    let err = review_service.create_review(&booking_service.booking_repo, booking.id, rider_id, 0, None).unwrap_err();
    assert_eq!(err.kind(), ErrorKind::Validation);
    let review = review_service
        .create_review(&booking_service.booking_repo, booking.id, rider_id, 4, Some("lovely".into()))
        .unwrap();
    assert_eq!(review.listing_id, listing_id);
    let err = review_service.create_review(&booking_service.booking_repo, booking.id, rider_id, 5, None).unwrap_err();
    assert_eq!(err.message(), "this booking has already been reviewed");

    assert_eq!(review_service.list_for_listing(listing_id).unwrap().len(), 1);
    assert_eq!(review_service.rating_totals_for_listing(listing_id).unwrap(), (4, 1));
    assert_eq!(review_service.rating_totals_for_listing(12).unwrap(), (0, 0));
}

#[test]
fn a_stored_hash_that_bcrypt_cannot_check_is_an_internal_error() {
    let mut state = build_in_memory_state();
    let o = uber_for_horses::domain::Owner::new(
        "Odd".into(),
        "odd@example.com".into(),
        "not-a-bcrypt-hash".into(),
        None,
    );
    state.owner_service.repo.create(o).unwrap();
    let e = state.log_in("odd@example.com", "whatever", Role::Owner).unwrap_err();
    assert_eq!(e.kind(), ErrorKind::Internal);
    assert!(e.message().starts_with("failed to verify password: "));
    let e = state.log_in("nobody@example.com", "whatever", Role::Owner).unwrap_err();
    assert_eq!(e.kind(), ErrorKind::Unauthorized);
}

#[test]
fn owner_history_covers_inactive_listings_too() {
    let mut state = build_in_memory_state();
    let owner_id = new_owner(&mut state, "Ivy", "ivy@example.com");
    let rider_id = new_rider(&mut state, "Rex", "rex@example.com");
    let listing_id = new_listing(&mut state, owner_id, AnimalKind::Carriage, "Old Coach", 4000, 51.5, -0.1);
    let slot = state.listing_service.add_time_slot(listing_id, now_plus(2, 0), now_plus(2, 1)).unwrap();
    let booking = request(&mut state, listing_id, rider_id, slot.id, None).unwrap();

    let mut listing = state.listing_service.get_listing(listing_id).unwrap();
    listing.active = false;
    state.listing_service.repo.create(listing).unwrap();
    assert!(state.listing_service.repo.list_active().unwrap().is_empty());

    let AppState { listing_service, booking_service, .. } = &state;
    let history = booking_service.list_by_owner(&listing_service.repo, owner_id).unwrap();
    assert_eq!(history.len(), 1);
    assert_eq!(history[0].id, booking.id);
    assert!(booking_service.list_by_owner(&listing_service.repo, rider_id).unwrap().is_empty());
}
