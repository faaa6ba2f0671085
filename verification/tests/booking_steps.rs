use uber_for_horses::domain::{AnimalKind, Booking, BookingStatus, Listing, TimeSlot};
use uber_for_horses::error::{AppError, ErrorKind};
use uber_for_horses::service::booking_steps::{
    booking_from_hold, check_action, check_request, confirm_after_capture, decline_after_release, hold_to_capture,
    moved, slot_after_release,
};
use uber_for_horses::service::listing_service::{check_new_listing, check_new_slot};
use uber_for_horses::time::Timestamp;

fn at(h: i64) -> Timestamp {
    Timestamp { secs: 1_900_000_000 + h * 3_600, nanos: 0 }
}

fn listing(owner: u128) -> Listing {
    Listing::new(owner, AnimalKind::Horse, "Bay".into(), "d".into(), "p".into(), 2500, 0, 0)
}

#[test]
fn action_checks_run_in_order_on_what_the_stores_hold() {
    let l = listing(7);
    let slot = TimeSlot::new(l.id, at(0), at(2));
    let b = Booking::new(l.id, 9, slot.id, 5000, None);

    let e = check_action(1, None, None, 7, BookingStatus::Confirmed, false, "confirm").unwrap_err();
    assert_eq!(e.kind(), ErrorKind::NotFound);
    let e = check_action(b.id, Some(b.clone()), None, 7, BookingStatus::Confirmed, false, "confirm").unwrap_err();
    assert_eq!(e.kind(), ErrorKind::NotFound);
    let e = check_action(b.id, Some(b.clone()), Some(l.clone()), 9, BookingStatus::Confirmed, false, "confirm")
        .unwrap_err();
    assert_eq!(e.message(), "only the listing owner can confirm this booking");
    let ok = check_action(b.id, Some(b.clone()), Some(l.clone()), 9, BookingStatus::Cancelled, true, "cancel").unwrap();
    assert_eq!(ok.id, b.id);
    let e = check_action(b.id, Some(b.clone()), Some(l.clone()), 7, BookingStatus::Completed, false, "complete")
        .unwrap_err();
    assert_eq!(e.kind(), ErrorKind::Conflict);
    assert_eq!(e.message(), "booking cannot transition from Requested to Completed");
}

#[test]
fn request_steps_price_the_slot_and_keep_the_hold() {
    let l = listing(7);
    let slot = TimeSlot::new(l.id, at(0), at(2));
    assert_eq!(check_request(l.id, slot.id, Some(l.clone()), Some(slot.clone())).unwrap(), 5000);
    let e = check_request(l.id + 1, slot.id, Some(l.clone()), Some(slot.clone())).unwrap_err();
    assert_eq!(e.message(), "time slot does not belong to the given listing");
    assert_eq!(check_request(l.id, slot.id, None, Some(slot.clone())).unwrap_err().kind(), ErrorKind::NotFound);

    let b = booking_from_hold(l.id, 9, slot.id, 5000, Some("hi".into()), Ok("hold_x".into())).unwrap();
    assert_eq!(b.status, BookingStatus::Requested);
    assert_eq!(b.payment_hold_id.as_deref(), Some("hold_x"));
    let refused = AppError::new(ErrorKind::Internal, "card declined");
    let e = booking_from_hold(l.id, 9, slot.id, 5000, None, Err(refused)).unwrap_err();
    assert_eq!(e.message(), "card declined");
}

#[test]
fn payment_answers_decide_what_is_written() {
    let l = listing(7);
    let slot = TimeSlot::new(l.id, at(0), at(2));
    let mut b = Booking::new(l.id, 9, slot.id, 5000, None);
    assert_eq!(hold_to_capture(b.id, &b).unwrap_err().kind(), ErrorKind::Internal);
    b.payment_hold_id = Some("hold_y".into());
    assert_eq!(hold_to_capture(b.id, &b).unwrap(), "hold_y");

    let (c, s) = confirm_after_capture(b.clone(), Ok(()), Some(slot.clone()), at(5)).unwrap();
    assert_eq!(c.status, BookingStatus::Confirmed);
    assert_eq!(c.updated_at, at(5));
    assert!(s.is_booked);
    let failed = AppError::new(ErrorKind::Conflict, "payment hold hold_y was already captured");
    assert_eq!(confirm_after_capture(b.clone(), Err(failed), Some(slot.clone()), at(5)).unwrap_err().kind(), ErrorKind::Conflict);
    let e = confirm_after_capture(b.clone(), Ok(()), Some(s.clone()), at(5)).unwrap_err();
    assert_eq!(e.message(), "time slot is already booked");

    assert_eq!(decline_after_release(b.clone(), Ok(()), at(6)).unwrap().status, BookingStatus::Declined);
    let freed = slot_after_release(BookingStatus::Confirmed, Ok(()), Some(s.clone())).unwrap().unwrap();
    assert!(!freed.is_booked);
    assert!(slot_after_release(BookingStatus::Requested, Ok(()), Some(s.clone())).unwrap().is_none());
    assert!(slot_after_release(BookingStatus::Confirmed, Err(AppError::new(ErrorKind::NotFound, "x")), Some(s)).is_err());
    assert_eq!(moved(b, BookingStatus::Completed, at(7)).status, BookingStatus::Completed);
}

#[test]
fn listing_and_slot_checks() {
    assert_eq!(check_new_listing("  ", 1, 0, 0).unwrap_err().message(), "name must not be empty");
    assert_eq!(check_new_listing("x", 0, 0, 0).unwrap_err().message(), "hourly_price_cents must be positive");
    assert_eq!(check_new_listing("x", 1, 91.0f64.to_bits(), 0).unwrap_err().message(), "lat out of range");
    assert!(check_new_listing("x", 1, 45.0f64.to_bits(), (-120.0f64).to_bits()).is_ok());
    let l = listing(7);
    assert_eq!(check_new_slot(l.id, None, at(0), at(1)).unwrap_err().kind(), ErrorKind::NotFound);
    assert_eq!(check_new_slot(l.id, Some(l.clone()), at(1), at(1)).unwrap_err().message(), "end_at must be after start_at");
    assert!(check_new_slot(l.id, Some(l), at(0), at(1)).is_ok());
}
