use uber_for_horses::error::{AppError, ErrorKind};
use uber_for_horses::payment::{MockPaymentGateway, PaymentCall};

fn rider() -> u128 {
    uuid::Uuid::new_v4().as_u128()
}

#[test]
fn authorize_returns_fresh_hold_ids() {
    let mut gw = MockPaymentGateway::new();
    let rider = rider();
    let a = gw.authorize(1000, rider).unwrap();
    let b = gw.authorize(1000, rider).unwrap();
    assert_ne!(a, b);
}

#[test]
fn hold_ids_are_hold_and_a_uuid() {
    let mut gw = MockPaymentGateway::new();
    let h = gw.authorize(1000, 5).unwrap();
    assert!(h.starts_with("hold_"));
    let id = uuid::Uuid::parse_str(&h["hold_".len()..]).unwrap();
    assert_eq!(format!("hold_{id}"), h);
}

#[test]
fn capture_unknown_hold_errors() {
    let mut gw = MockPaymentGateway::new();
    let err = gw.capture("nope").unwrap_err();
    assert!(matches!(err, AppError::NotFound(_)));
    assert_eq!(err.message(), "payment hold nope not found");
}

#[test]
fn double_capture_is_conflict() {
    let mut gw = MockPaymentGateway::new();
    let hold = gw.authorize(1000, rider()).unwrap();
    gw.capture(&hold).unwrap();
    let err = gw.capture(&hold).unwrap_err();
    assert!(matches!(err, AppError::Conflict(_)));
    assert_eq!(err.message(), format!("payment hold {hold} was already captured"));
}

#[test]
fn double_release_is_conflict() {
    let mut gw = MockPaymentGateway::new();
    let hold = gw.authorize(1000, rider()).unwrap();
    gw.release(&hold).unwrap();
    let err = gw.release(&hold).unwrap_err();
    assert!(matches!(err, AppError::Conflict(_)));
    assert_eq!(err.message(), format!("payment hold {hold} was already released"));
}

#[test]
fn release_after_capture_is_allowed_refund_path() {
    let mut gw = MockPaymentGateway::new();
    let hold = gw.authorize(1000, rider()).unwrap();
    gw.capture(&hold).unwrap();
    gw.release(&hold).unwrap();
}

#[test]
fn capture_after_release_is_conflict() {
    let mut gw = MockPaymentGateway::new();
    let hold = gw.authorize(1000, rider()).unwrap();
    gw.release(&hold).unwrap();
    let err = gw.capture(&hold).unwrap_err();
    assert_eq!(err.kind(), ErrorKind::Conflict);
}

#[test]
fn every_call_is_recorded_in_order_even_when_refused() {
    let mut gw = MockPaymentGateway::new();
    let hold = gw.authorize(250, 9).unwrap();
    let _ = gw.capture("missing");
    gw.capture(&hold).unwrap();
    let _ = gw.capture(&hold);
    gw.release(&hold).unwrap();
    assert_eq!(
        gw.calls(),
        vec![
            PaymentCall::Authorize { amount_cents: 250, rider_id: 9 },
            PaymentCall::Capture { hold_id: "missing".to_string() },
            PaymentCall::Capture { hold_id: hold.clone() },
            PaymentCall::Capture { hold_id: hold.clone() },
            PaymentCall::Release { hold_id: hold.clone() },
        ]
    );
}
