# uber_for_horses

A marketplace that connects horse and carriage owners with riders who book
them for time slots.

- `src/` is the library, verified with Verus: the booking life cycle
  (request, confirm, decline, cancel, complete) with its payment holds, the
  in-memory stores, listings and their time slots, accounts (sign-up with
  referral codes, log-in with bcrypt password hashes), the role and
  ownership checks in front of each operation (`access.rs`), reviews, the
  order of a nearby search, the bearer-token header and the requests and
  error texts of the Stripe gateway. The booking, listing and account
  decisions are also offered as steps (`service/booking_steps.rs`,
  `check_new_listing`, `check_new_slot`, `new_owner_record`,
  `new_rider_record`, `log_in_found`, `referral_candidate`, `known_referral`,
  `code_from_draws`) that take what a
  store or a payment processor answered as arguments, so that they run with
  stores and processors other than the in-memory ones. Every
  public function carries a contract; `service/booking_laws.rs` proves what
  the booking operations keep (statuses only move along the life cycle, no
  slot is held by two confirmed bookings, no second capture or release).
- `app/` is the HTTP server (axum): routes, JSON forms of the records, JWT
  access tokens, distances and average ratings (floating point). By default
  it keeps its records in SQLite (`DATABASE_URL`, default
  `sqlite://data.db`) and places payment holds with Stripe when
  `STRIPE_SECRET_KEY` is set (else in memory), running the library's steps
  between the reads and the writes (`app/sql_market.rs`); with
  `DATABASE_URL=memory` it serves the library's in-memory marketplace.
- `tests/` exercises the library.

Coordinates are kept in the library as the bits of their IEEE-754 binary64
encoding (a search distance likewise); identifiers as 128-bit integers (the bits of a UUID); instants as
seconds and nanoseconds since the Unix epoch.
