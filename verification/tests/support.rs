use uber_for_horses::state::known_referral;
use uber_for_horses::auth::bearer::bearer_token;
use uber_for_horses::payment::stripe::{
    authorize_params, capture_url, payment_intents_url, release_url, stripe_error_text,
};
use uber_for_horses::auth::jwt::{claims_at, issue_claims, AuthIdentity, ACCESS_TOKEN_TTL_SECONDS};
use uber_for_horses::domain::{Booking, Owner, Role};
use uber_for_horses::error::{not_found, AppError, ErrorKind};
use uber_for_horses::repo::in_memory::{InMemoryBookingRepo, InMemoryOwnerRepo};
use uber_for_horses::text::{contains_char, is_blank, is_whitespace_char, same_text, trim};
use uber_for_horses::time::Timestamp;

#[test]
fn trimming_and_blank_text() {
    assert_eq!(trim("  ab c \t\n"), "ab c");
    assert_eq!(trim("\u{3000}x\u{a0}"), "x");
    assert_eq!(trim("   "), "");
    assert_eq!(trim(""), "");
    for s in ["", " ", "\t\r\n", "\u{2003}\u{205f}"] {
        assert!(is_blank(s), "{s:?}");
        assert_eq!(is_blank(s), s.trim().is_empty());
    }
    assert!(!is_blank(" a "));
    for c in ['\u{9}', '\u{b}', ' ', '\u{85}', '\u{2028}', 'a', '\u{200b}', '\u{feff}', '_'] {
        assert_eq!(is_whitespace_char(c), c.is_whitespace(), "{c:?}");
    }
    assert!(contains_char("a@b", '@'));
    assert!(!contains_char("ab", '@'));
    assert!(same_text("héllo", "héllo"));
    assert!(!same_text("hello", "hellO"));
}

#[test]
fn not_found_names_the_record_and_its_id() {
    let id = uuid::Uuid::parse_str("67e55044-10b1-426f-9247-bb680e5fe0c8").unwrap();
    let e = not_found("listing", id.as_u128());
    assert!(matches!(e, AppError::NotFound(_)));
    assert_eq!(e.message(), "listing 67e55044-10b1-426f-9247-bb680e5fe0c8 not found");
    let e = AppError::joined(ErrorKind::Internal, "a: ", "b");
    assert_eq!(e.message(), "a: b");
}

#[test]
fn tokens_last_one_hour() {
    let c = claims_at(5, Role::Rider, 1_000);
    assert_eq!((c.sub, c.role, c.exp), (5, Role::Rider, 1_000 + 3_600));
    let now = chrono::Utc::now().timestamp();
    let c = issue_claims(9, Role::Owner);
    assert_eq!((c.sub, c.role), (9, Role::Owner));
    assert!((c.exp - ACCESS_TOKEN_TTL_SECONDS - now).abs() <= 5);
    let who = AuthIdentity::from_claims(&c);
    assert_eq!((who.id, who.role), (9, Role::Owner));
}

#[test]
fn new_records_are_stamped_with_the_current_time() {
    let now = chrono::Utc::now().timestamp();
    let b = Booking::new(1, 2, 3, 4, None);
    assert!((b.created_at.secs - now).abs() <= 5);
    assert!(b.created_at.nanos < 1_000_000_000);
    let earlier = Timestamp { secs: now - 10, nanos: 999_999_999 };
    assert!(earlier.is_at_or_before(&b.created_at));
    assert!(!b.created_at.is_at_or_before(&earlier));
    assert!(b.created_at.is_at_or_before(&b.created_at));
}

#[test]
fn a_read_gives_back_what_was_written() {
    let mut repo = InMemoryBookingRepo::default();
    let b = Booking::new(1, 2, 3, 4, None);
    let id = b.id;
    repo.create(b).unwrap();
    assert_eq!(repo.get(id).unwrap().unwrap().total_price_cents, 4);
    let mut changed = repo.get(id).unwrap().unwrap();
    changed.total_price_cents = 99;
    repo.update(changed).unwrap();
    assert_eq!(repo.get(id).unwrap().unwrap().total_price_cents, 99);
    assert_eq!(repo.list_by_owner(0).unwrap().len(), 1);
    assert!(repo.get(id + 1).unwrap().is_none());
}

#[test]
fn owners_are_found_by_email_and_code() {
    let mut repo = InMemoryOwnerRepo::default();
    let o = Owner::new("A".into(), "a@x.org".into(), "h".into(), None);
    let code = o.referral_code.clone();
    let id = o.id;
    repo.create(o).unwrap();
    assert_eq!(repo.find_by_email("a@x.org").unwrap().unwrap().id, id);
    assert!(repo.find_by_email("b@x.org").unwrap().is_none());
    assert_eq!(repo.find_by_referral_code(&code).unwrap().unwrap().id, id);
    assert!(repo.find_by_referral_code("").unwrap().is_none());
}

#[test]
fn bearer_tokens_are_read_from_either_capitalisation() {
    assert_eq!(bearer_token(Some("Bearer abc.def")).unwrap(), "abc.def");
    assert_eq!(bearer_token(Some("bearer xyz")).unwrap(), "xyz");
    assert_eq!(bearer_token(Some("Bearer ")).unwrap(), "");
    let e = bearer_token(None).unwrap_err();
    assert_eq!(e.kind(), ErrorKind::Unauthorized);
    assert_eq!(e.message(), "missing authorization header");
    for bad in ["Basic abc", "BEARER abc", "Bearer", "", "Bearerabc"] {
        let e = bearer_token(Some(bad)).unwrap_err();
        assert_eq!(e.kind(), ErrorKind::Unauthorized);
        assert_eq!(e.message(), "authorization header must be a bearer token");
    }
}

#[test]
fn error_kinds_map_to_http_statuses() {
    assert_eq!(ErrorKind::NotFound.http_status(), 404);
    assert_eq!(ErrorKind::Validation.http_status(), 400);
    assert_eq!(ErrorKind::Conflict.http_status(), 409);
    assert_eq!(ErrorKind::Forbidden.http_status(), 403);
    assert_eq!(ErrorKind::Unauthorized.http_status(), 401);
    assert_eq!(ErrorKind::Internal.http_status(), 500);
}

#[test]
fn stripe_requests_and_error_texts() {
    let rider = 0x0123_4567_89ab_cdef_0123_4567_89ab_cdefu128;
    let p = authorize_params(-1250, rider);
    let want = [
        ("amount", "-1250"),
        ("currency", "usd"),
        ("capture_method", "manual"),
        ("metadata[rider_id]", "01234567-89ab-cdef-0123-456789abcdef"),
    ];
    assert_eq!(p.len(), want.len());
    for (got, (k, v)) in p.iter().zip(want.iter()) {
        assert_eq!(got.0, *k);
        assert_eq!(got.1, *v);
    }
    assert_eq!(authorize_params(5000, 0)[0].1, "5000");
    assert_eq!(payment_intents_url(), "https://api.stripe.com/v1/payment_intents");
    assert_eq!(capture_url("pi_1"), "https://api.stripe.com/v1/payment_intents/pi_1/capture");
    assert_eq!(release_url("pi_1"), "https://api.stripe.com/v1/payment_intents/pi_1/cancel");
    assert_eq!(
        stripe_error_text("402 Payment Required", Some("Your card was declined.")),
        "stripe error (402 Payment Required): Your card was declined."
    );
    assert_eq!(stripe_error_text("500 Internal Server Error", None), "stripe error: HTTP 500 Internal Server Error");
}

#[test]
fn integers_are_written_in_decimal() {
    for i in [0i64, 7, -7, 10, 1203, -45, 5000, i64::MAX, i64::MIN, -1] {
        assert_eq!(uber_for_horses::text::i64_text(i), i.to_string());
    }
}

#[test]
fn a_referral_is_kept_when_either_store_knows_the_code() {
    assert_eq!(known_referral("ABCDEFGH".into(), true, false).as_deref(), Some("ABCDEFGH"));
    assert_eq!(known_referral("ABCDEFGH".into(), false, true).as_deref(), Some("ABCDEFGH"));
    assert_eq!(known_referral("ABCDEFGH".into(), false, false), None);
}
