use uber_for_horses::domain::booking::{status_to_str, str_to_status};
use uber_for_horses::domain::listing::{
    coordinate_within, kind_to_str, str_to_kind, LAT_LIMIT_BITS, LNG_LIMIT_BITS,
};
use uber_for_horses::domain::referral::{code_from_draws, ALPHABET, CODE_LEN};
use uber_for_horses::domain::{
    generate_referral_code, AnimalKind, Booking, BookingStatus, Listing, Owner, Review, Rider, Role, TimeSlot,
};
use uber_for_horses::error::{AppError, ErrorKind};
use uber_for_horses::time::Timestamp;

const ALL: [BookingStatus; 5] = [
    BookingStatus::Requested,
    BookingStatus::Confirmed,
    BookingStatus::Declined,
    BookingStatus::Cancelled,
    BookingStatus::Completed,
];

#[test]
fn requested_can_go_to_confirmed_declined_cancelled() {
    assert!(BookingStatus::Requested.can_transition_to(BookingStatus::Confirmed));
    assert!(BookingStatus::Requested.can_transition_to(BookingStatus::Declined));
    assert!(BookingStatus::Requested.can_transition_to(BookingStatus::Cancelled));
    assert!(!BookingStatus::Requested.can_transition_to(BookingStatus::Completed));
    assert!(!BookingStatus::Requested.can_transition_to(BookingStatus::Requested));
}

#[test]
fn confirmed_can_go_to_completed_cancelled() {
    assert!(BookingStatus::Confirmed.can_transition_to(BookingStatus::Completed));
    assert!(BookingStatus::Confirmed.can_transition_to(BookingStatus::Cancelled));
    assert!(!BookingStatus::Confirmed.can_transition_to(BookingStatus::Requested));
    assert!(!BookingStatus::Confirmed.can_transition_to(BookingStatus::Declined));
}

#[test]
fn terminal_states_have_no_outgoing_transitions() {
    let terminal = [BookingStatus::Declined, BookingStatus::Cancelled, BookingStatus::Completed];
    for t in terminal {
        for next in ALL {
            assert!(!t.can_transition_to(next), "{:?} should not transition to {:?}", t, next);
        }
    }
}

#[test]
fn no_status_moves_to_itself_or_back_to_requested() {
    for s in ALL {
        assert!(!s.can_transition_to(s));
        assert!(!s.can_transition_to(BookingStatus::Requested));
    }
}

#[test]
fn status_names_read_back() {
    for s in ALL {
        assert_eq!(str_to_status(status_to_str(s)), s);
    }
    assert_eq!(status_to_str(BookingStatus::Cancelled), "cancelled");
    assert_eq!(str_to_status("garbage"), BookingStatus::Requested);
    assert_eq!(str_to_status("Confirmed"), BookingStatus::Requested);
}

#[test]
fn kind_names_read_back() {
    for k in [AnimalKind::Horse, AnimalKind::Carriage] {
        assert_eq!(str_to_kind(kind_to_str(k)), k);
    }
    assert_eq!(kind_to_str(AnimalKind::Carriage), "carriage");
    assert_eq!(str_to_kind("pony"), AnimalKind::Horse);
}

#[test]
fn role_names_read_back() {
    for r in [Role::Owner, Role::Rider] {
        assert_eq!(Role::parse(r.as_str()).unwrap(), r);
        assert_eq!(r.as_str().parse::<Role>().unwrap(), r);
    }
    assert_eq!(Role::parse("admin").unwrap_err(), "unknown role: admin");
    assert_eq!("Owner".parse::<Role>().unwrap_err(), "unknown role: Owner");
}

#[test]
fn generates_code_of_expected_length_and_alphabet() {
    let code = generate_referral_code();
    assert_eq!(code.len(), CODE_LEN);
    assert!(code.chars().all(|c| ALPHABET.as_bytes().contains(&(c as u8))));
}

#[test]
fn generates_different_codes_across_calls() {
    let a = generate_referral_code();
    let b = generate_referral_code();
    // Not a uniqueness guarantee, just a sanity check that we're not
    // returning a constant.
    assert_ne!(a, b);
}

#[test]
fn rating_within_1_to_5_is_accepted() {
    let booking_id = uuid::Uuid::new_v4().as_u128();
    let rider_id = uuid::Uuid::new_v4().as_u128();
    let listing_id = uuid::Uuid::new_v4().as_u128();
    for rating in 1..=5 {
        assert!(Review::new(booking_id, rider_id, listing_id, rating, None).is_ok());
    }
}

#[test]
fn rating_out_of_range_is_rejected() {
    let booking_id = uuid::Uuid::new_v4().as_u128();
    let rider_id = uuid::Uuid::new_v4().as_u128();
    let listing_id = uuid::Uuid::new_v4().as_u128();
    assert!(Review::new(booking_id, rider_id, listing_id, 0, None).is_err());
    assert!(Review::new(booking_id, rider_id, listing_id, 6, None).is_err());
    assert!(Review::new(booking_id, rider_id, listing_id, -1, None).is_err());
}

#[test]
fn rejected_rating_is_a_validation_error() {
    let e = Review::new(1, 2, 3, 9, Some("great".to_string())).unwrap_err();
    assert!(matches!(e, AppError::Validation(_)));
    assert_eq!(e.kind(), ErrorKind::Validation);
    assert_eq!(e.message(), "rating must be between 1 and 5");
    let v = Review::new(1, 2, 3, 4, Some("great".to_string())).unwrap();
    assert_eq!((v.booking_id, v.rider_id, v.listing_id, v.rating), (1, 2, 3, 4));
    assert_eq!(v.comment.as_deref(), Some("great"));
}

fn ts(secs: i64, nanos: u32) -> Timestamp {
    Timestamp { secs, nanos }
}

#[test]
fn slot_duration_rounds_up_to_whole_hours_with_one_hour_minimum() {
    let start = ts(1_700_000_000, 0);
    let two_hours = TimeSlot::new(1, start, ts(1_700_007_200, 0));
    assert_eq!(two_hours.duration_hours_ceil(), 2);
    let just_over = TimeSlot::new(1, start, ts(1_700_007_201, 0));
    assert_eq!(just_over.duration_hours_ceil(), 3);
    let short = TimeSlot::new(1, start, ts(1_700_000_600, 0));
    assert_eq!(short.duration_hours_ceil(), 1);
    let backwards = TimeSlot::new(1, start, ts(1_699_990_000, 0));
    assert_eq!(backwards.duration_hours_ceil(), 1);
    let fraction = TimeSlot::new(1, ts(10, 900_000_000), ts(3_610, 800_000_000));
    // 3599.9 s: 3599 whole seconds, rounded up to one hour.
    assert_eq!(fraction.duration_hours_ceil(), 1);
    let fraction_over = TimeSlot::new(1, ts(10, 0), ts(3_611, 500_000_000));
    assert_eq!(fraction_over.duration_hours_ceil(), 2);
    assert!(!two_hours.is_booked);
    assert_eq!(two_hours.listing_id, 1);
}

#[test]
fn coordinate_limits_match_degrees() {
    assert_eq!(LAT_LIMIT_BITS, 90f64.to_bits());
    assert_eq!(LNG_LIMIT_BITS, 180f64.to_bits());
    for v in [0.0f64, -0.0, 37.7749, -122.4194, 90.0, -90.0, 89.999, 180.0, -180.0, 1e-300] {
        assert_eq!(coordinate_within(v.to_bits(), LAT_LIMIT_BITS), (-90.0..=90.0).contains(&v), "{v}");
        assert_eq!(coordinate_within(v.to_bits(), LNG_LIMIT_BITS), (-180.0..=180.0).contains(&v), "{v}");
    }
    for v in [f64::NAN, f64::INFINITY, f64::NEG_INFINITY, 90.000001, -180.5, 1e300] {
        assert_eq!(coordinate_within(v.to_bits(), LAT_LIMIT_BITS), (-90.0..=90.0).contains(&v), "{v}");
        assert_eq!(coordinate_within(v.to_bits(), LNG_LIMIT_BITS), (-180.0..=180.0).contains(&v), "{v}");
    }
}

#[test]
fn new_records_start_as_documented() {
    let b = Booking::new(1, 2, 3, 4000, Some("hi".into()));
    assert_eq!(b.status, BookingStatus::Requested);
    assert_eq!((b.listing_id, b.rider_id, b.time_slot_id, b.total_price_cents), (1, 2, 3, 4000));
    assert!(b.payment_hold_id.is_none());
    assert_eq!(b.created_at, b.updated_at);
    let l = Listing::new(7, AnimalKind::Carriage, "C".into(), "d".into(), "p".into(), 100, 1, 2);
    assert!(l.active);
    assert_eq!(l.owner_id, 7);
    let o = Owner::new("n".into(), "e@x".into(), "h".into(), Some("CODE".into()));
    assert_eq!(o.referral_code.len(), CODE_LEN);
    assert_eq!(o.referred_by.as_deref(), Some("CODE"));
    let r = Rider::new("n".into(), "e@x".into(), "h".into(), None);
    assert_eq!(r.referral_code.len(), CODE_LEN);
    assert_ne!(o.id, r.id);
}

#[test]
fn referral_codes_spell_their_draws() {
    assert_eq!(code_from_draws(&vec![0, 1, 2, 3, 4, 5, 6, 7]), "ABCDEFGH");
    assert_eq!(code_from_draws(&vec![31, 30, 24, 25, 8, 13, 0, 0]), "9823JPAA");
    assert_eq!(code_from_draws(&vec![0; 8]), "AAAAAAAA");
}
