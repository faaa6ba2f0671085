use uber_for_horses::domain::{AnimalKind, BookingStatus, Listing, Owner, Rider, TimeSlot};
use uber_for_horses::error::{AppError, ErrorKind};
use uber_for_horses::payment::{MockPaymentGateway, PaymentCall};
use uber_for_horses::repo::in_memory::{InMemoryBookingRepo, InMemoryListingRepo};
use uber_for_horses::service::BookingService;
use uber_for_horses::time::Timestamp;

struct Fixture {
    service: BookingService,
    listings: InMemoryListingRepo,
    listing_id: u128,
    time_slot_id: u128,
    rider_id: u128,
    owner_id: u128,
    hourly_price_cents: i64,
}

fn setup() -> Fixture {
    let mut listings = InMemoryListingRepo::default();
    let gateway = MockPaymentGateway::new();

    let owner = Owner::new("Jane Owner".into(), "jane@example.com".into(), "hash".into(), None);
    let owner_id = owner.id;

    let rider = Rider::new("Rick Rider".into(), "rick@example.com".into(), "hash".into(), None);
    let rider_id = rider.id;

    let hourly_price_cents = 2_000;
    let listing = Listing::new(
        owner_id,
        AnimalKind::Horse,
        "Trusty".into(),
        "A good horse".into(),
        "http://example.com/trusty.jpg".into(),
        hourly_price_cents,
        0.0f64.to_bits(),
        0.0f64.to_bits(),
    );
    let listing_id = listing.id;
    listings.create(listing).unwrap();

    let now = chrono::Utc::now().timestamp();
    let start = Timestamp { secs: now, nanos: 0 };
    let end = Timestamp { secs: now + 2 * 3600, nanos: 0 };
    let slot = TimeSlot::new(listing_id, start, end);
    let time_slot_id = slot.id;
    listings.add_time_slot(slot).unwrap();

    let service = BookingService::new(InMemoryBookingRepo::default(), gateway);

    Fixture { service, listings, listing_id, time_slot_id, rider_id, owner_id, hourly_price_cents }
}

fn count(calls: &[PaymentCall], capture: bool) -> usize {
    calls
        .iter()
        .filter(|c| if capture { matches!(c, PaymentCall::Capture { .. }) } else { matches!(c, PaymentCall::Release { .. }) })
        .count()
}

#[test]
fn request_booking_authorizes_correct_amount_and_stores_hold_id() {
    let mut f = setup();
    let booking = f.service.request_booking(&f.listings, f.listing_id, f.rider_id, f.time_slot_id, None).unwrap();

    // 2 hour slot at 2000 cents/hr = 4000 cents.
    let expected_amount = f.hourly_price_cents * 2;
    assert_eq!(booking.total_price_cents, expected_amount);
    assert!(booking.payment_hold_id.is_some());

    let calls = f.service.payment_gateway.calls();
    assert_eq!(calls, vec![PaymentCall::Authorize { amount_cents: expected_amount, rider_id: f.rider_id }]);
}

#[test]
fn confirm_booking_captures_hold_exactly_once_and_transitions_to_confirmed() {
    let mut f = setup();
    let booking = f.service.request_booking(&f.listings, f.listing_id, f.rider_id, f.time_slot_id, None).unwrap();
    let hold_id = booking.payment_hold_id.clone().unwrap();

    let confirmed = f.service.confirm_booking(&mut f.listings, booking.id, f.owner_id).unwrap();

    assert_eq!(confirmed.status, BookingStatus::Confirmed);

    assert_eq!(count(&f.service.payment_gateway.calls(), true), 1);
    assert!(f.service.payment_gateway.calls().contains(&PaymentCall::Capture { hold_id }));
}

#[test]
fn confirm_booking_does_not_transition_when_capture_fails() {
    let mut f = setup();
    let booking = f.service.request_booking(&f.listings, f.listing_id, f.rider_id, f.time_slot_id, None).unwrap();
    let hold_id = booking.payment_hold_id.clone().unwrap();

    // Pre-capture the hold out-of-band so the service's capture call fails
    // (simulating a declined charge) and confirm_booking should surface the
    // error without transitioning the booking to Confirmed.
    f.service.payment_gateway.capture(&hold_id).unwrap();

    let err = f.service.confirm_booking(&mut f.listings, booking.id, f.owner_id);
    assert!(err.is_err());

    let still_requested = f.service.get_booking(booking.id).unwrap();
    assert_eq!(still_requested.status, BookingStatus::Requested);
}

#[test]
fn decline_booking_releases_the_hold() {
    let mut f = setup();
    let booking = f.service.request_booking(&f.listings, f.listing_id, f.rider_id, f.time_slot_id, None).unwrap();
    let hold_id = booking.payment_hold_id.clone().unwrap();

    let declined = f.service.decline_booking(&f.listings, booking.id, f.owner_id).unwrap();
    assert_eq!(declined.status, BookingStatus::Declined);

    assert!(f.service.payment_gateway.calls().contains(&PaymentCall::Release { hold_id: hold_id.clone() }));
    assert_eq!(count(&f.service.payment_gateway.calls(), false), 1);
}

#[test]
fn cancel_confirmed_booking_releases_the_captured_hold_refund_path() {
    let mut f = setup();
    let booking = f.service.request_booking(&f.listings, f.listing_id, f.rider_id, f.time_slot_id, None).unwrap();
    let hold_id = booking.payment_hold_id.clone().unwrap();

    f.service.confirm_booking(&mut f.listings, booking.id, f.owner_id).unwrap();

    let cancelled = f.service.cancel_booking(&mut f.listings, booking.id, f.owner_id).unwrap();
    assert_eq!(cancelled.status, BookingStatus::Cancelled);

    assert!(f.service.payment_gateway.calls().contains(&PaymentCall::Release { hold_id }));
}

#[test]
fn capture_is_never_called_twice_on_the_same_hold() {
    let mut f = setup();
    let booking = f.service.request_booking(&f.listings, f.listing_id, f.rider_id, f.time_slot_id, None).unwrap();

    f.service.confirm_booking(&mut f.listings, booking.id, f.owner_id).unwrap();

    // A second confirm attempt is rejected by the state machine before it
    // ever reaches the gateway (Confirmed -> Confirmed is not a legal
    // transition), so capture must still only have been called once.
    let second = f.service.confirm_booking(&mut f.listings, booking.id, f.owner_id);
    assert!(second.is_err());

    assert_eq!(count(&f.service.payment_gateway.calls(), true), 1);
}

#[test]
fn release_is_never_called_twice_on_the_same_hold() {
    let mut f = setup();
    let booking = f.service.request_booking(&f.listings, f.listing_id, f.rider_id, f.time_slot_id, None).unwrap();

    f.service.decline_booking(&f.listings, booking.id, f.owner_id).unwrap();

    // A second decline attempt is rejected by the state machine before it
    // ever reaches the gateway (Declined -> Declined is not a legal
    // transition), so release must still only have been called once.
    let second = f.service.decline_booking(&f.listings, booking.id, f.owner_id);
    assert!(second.is_err());

    assert_eq!(count(&f.service.payment_gateway.calls(), false), 1);
}

#[test]
fn confirm_marks_the_slot_booked_and_a_second_request_conflicts() {
    let mut f = setup();
    let booking = f.service.request_booking(&f.listings, f.listing_id, f.rider_id, f.time_slot_id, None).unwrap();
    let other = f.service.request_booking(&f.listings, f.listing_id, 42, f.time_slot_id, None).unwrap();
    f.service.confirm_booking(&mut f.listings, booking.id, f.owner_id).unwrap();
    assert!(f.listings.get_time_slot(f.time_slot_id).unwrap().unwrap().is_booked);

    let err = f.service.request_booking(&f.listings, f.listing_id, 43, f.time_slot_id, None).unwrap_err();
    assert!(matches!(err, AppError::Conflict(_)));
    assert_eq!(err.message(), "time slot is already booked");

    // The other request on the same slot cannot be confirmed any more; its
    // hold was captured before the slot was found taken.
    let err = f.service.confirm_booking(&mut f.listings, other.id, f.owner_id).unwrap_err();
    assert_eq!(err.message(), "time slot is already booked");
    assert_eq!(f.service.get_booking(other.id).unwrap().status, BookingStatus::Requested);
    assert_eq!(count(&f.service.payment_gateway.calls(), true), 2);
}

#[test]
fn rider_cancel_frees_a_confirmed_slot() {
    let mut f = setup();
    let booking = f.service.request_booking(&f.listings, f.listing_id, f.rider_id, f.time_slot_id, None).unwrap();
    f.service.confirm_booking(&mut f.listings, booking.id, f.owner_id).unwrap();
    let cancelled = f.service.cancel_booking(&mut f.listings, booking.id, f.rider_id).unwrap();
    assert_eq!(cancelled.status, BookingStatus::Cancelled);
    assert!(!f.listings.get_time_slot(f.time_slot_id).unwrap().unwrap().is_booked);
    let err = f.service.complete_booking(&f.listings, booking.id, f.owner_id).unwrap_err();
    assert!(matches!(err, AppError::Conflict(_)));
    assert_eq!(err.message(), "booking cannot transition from Cancelled to Completed");
}

#[test]
fn only_the_owner_may_confirm_decline_or_complete() {
    let mut f = setup();
    let booking = f.service.request_booking(&f.listings, f.listing_id, f.rider_id, f.time_slot_id, None).unwrap();
    let err = f.service.confirm_booking(&mut f.listings, booking.id, f.rider_id).unwrap_err();
    assert!(matches!(err, AppError::Forbidden(_)));
    assert_eq!(err.message(), "only the listing owner can confirm this booking");
    let err = f.service.decline_booking(&f.listings, booking.id, 77).unwrap_err();
    assert_eq!(err.message(), "only the listing owner can decline this booking");
    let err = f.service.cancel_booking(&mut f.listings, booking.id, 77).unwrap_err();
    assert_eq!(err.message(), "only the rider or the listing owner can cancel this booking");
    let err = f.service.complete_booking(&f.listings, booking.id, f.owner_id).unwrap_err();
    assert_eq!(err.message(), "booking cannot transition from Requested to Completed");
    // Nothing reached the gateway besides the authorization.
    assert_eq!(f.service.payment_gateway.calls().len(), 1);
}

#[test]
fn complete_after_confirm() {
    let mut f = setup();
    let booking = f.service.request_booking(&f.listings, f.listing_id, f.rider_id, f.time_slot_id, Some("hi".into())).unwrap();
    assert_eq!(booking.message_from_rider.as_deref(), Some("hi"));
    f.service.confirm_booking(&mut f.listings, booking.id, f.owner_id).unwrap();
    let done = f.service.complete_booking(&f.listings, booking.id, f.owner_id).unwrap();
    assert_eq!(done.status, BookingStatus::Completed);
    assert_eq!(f.service.get_booking(booking.id).unwrap().status, BookingStatus::Completed);
}

#[test]
fn missing_records_are_reported_with_their_ids() {
    let mut f = setup();
    let missing = uuid::Uuid::new_v4();
    let err = f.service.get_booking(missing.as_u128()).unwrap_err();
    assert_eq!(err.kind(), ErrorKind::NotFound);
    assert_eq!(err.message(), format!("booking {missing} not found"));
    let err = f.service.request_booking(&f.listings, missing.as_u128(), f.rider_id, f.time_slot_id, None).unwrap_err();
    assert_eq!(err.message(), format!("listing {missing} not found"));
    let err = f.service.request_booking(&f.listings, f.listing_id, f.rider_id, missing.as_u128(), None).unwrap_err();
    assert_eq!(err.message(), format!("time slot {missing} not found"));
    let err = f.service.confirm_booking(&mut f.listings, missing.as_u128(), f.owner_id).unwrap_err();
    assert!(matches!(err, AppError::NotFound(_)));
}

#[test]
fn slot_of_another_listing_is_rejected() {
    let mut f = setup();
    let other = Listing::new(f.owner_id, AnimalKind::Carriage, "C".into(), "d".into(), "p".into(), 100, 0, 0);
    let other_id = other.id;
    f.listings.create(other).unwrap();
    let err = f.service.request_booking(&f.listings, other_id, f.rider_id, f.time_slot_id, None).unwrap_err();
    assert!(matches!(err, AppError::Validation(_)));
    assert_eq!(err.message(), "time slot does not belong to the given listing");
}

#[test]
fn histories_by_rider_and_by_owner() {
    let mut f = setup();
    let b1 = f.service.request_booking(&f.listings, f.listing_id, f.rider_id, f.time_slot_id, None).unwrap();
    let b2 = f.service.request_booking(&f.listings, f.listing_id, 5, f.time_slot_id, None).unwrap();
    let mine = f.service.list_by_rider(f.rider_id).unwrap();
    assert_eq!(mine.len(), 1);
    assert_eq!(mine[0].id, b1.id);
    let owned = f.service.list_by_owner(&f.listings, f.owner_id).unwrap();
    assert_eq!(owned.iter().map(|b| b.id).collect::<Vec<_>>(), vec![b1.id, b2.id]);
    assert!(f.service.list_by_owner(&f.listings, 12345).unwrap().is_empty());
}
