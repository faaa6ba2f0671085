//! What the Stripe-backed payment processor sends and how it words a
//! refusal: the PaymentIntents endpoints of its manual-capture flow, the
//! form that places a hold, and the error texts. The HTTP exchange itself
//! lives with the application.

use vstd::prelude::*;
use crate::text::{decimal_text, i64_text, id_text, uuid_text};

verus! {

/// Where the PaymentIntents resource lives.
pub open spec fn intents_url_text() -> Seq<char> {
    "https://api.stripe.com/v1/payment_intents"@
}

/// The endpoint that creates a PaymentIntent (the hold).
pub fn payment_intents_url() -> (r: String)
    ensures
        r@ == intents_url_text(),
{
    String::from_str("https://api.stripe.com/v1/payment_intents")
}

/// The endpoint that captures (charges) the hold `hold_id`.
pub fn capture_url(hold_id: &str) -> (r: String)
    ensures
        r@ == intents_url_text() + "/"@ + hold_id@ + "/capture"@,
{
    let mut u = payment_intents_url();
    u.append("/");
    u.append(hold_id);
    u.append("/capture");
    u
}

/// The endpoint that cancels (releases) the hold `hold_id`.
pub fn release_url(hold_id: &str) -> (r: String)
    ensures
        r@ == intents_url_text() + "/"@ + hold_id@ + "/cancel"@,
{
    let mut u = payment_intents_url();
    u.append("/");
    u.append(hold_id);
    u.append("/cancel");
    u
}

/// The form fields of a manual-capture PaymentIntent for `amount_cents`
/// US cents, tagged with the rider.
pub open spec fn authorize_form(amount_cents: int, rider_id: u128) -> Seq<(Seq<char>, Seq<char>)> {
    seq![
        ("amount"@, decimal_text(amount_cents)),
        ("currency"@, "usd"@),
        ("capture_method"@, "manual"@),
        ("metadata[rider_id]"@, uuid_text(rider_id)),
    ]
}

/// The texts of a list of form fields.
pub open spec fn form_view(p: Seq<(String, String)>) -> Seq<(Seq<char>, Seq<char>)> {
    p.map_values(|f: (String, String)| (f.0@, f.1@))
}

/// The form that places a hold of `amount_cents` for `rider_id`.
pub fn authorize_params(amount_cents: i64, rider_id: u128) -> (p: Vec<(String, String)>)
    ensures
        form_view(p@) == authorize_form(amount_cents as int, rider_id),
{
    let mut p: Vec<(String, String)> = Vec::new();
    p.push((String::from_str("amount"), i64_text(amount_cents)));
    p.push((String::from_str("currency"), String::from_str("usd")));
    p.push((String::from_str("capture_method"), String::from_str("manual")));
    p.push((String::from_str("metadata[rider_id]"), id_text(rider_id)));
    assert(form_view(p@) =~= authorize_form(amount_cents as int, rider_id));
    p
}

/// How a refused request is reported: with Stripe's own message when its
/// error body could be read, else with the HTTP status alone.
pub open spec fn stripe_error_text_of(status: Seq<char>, message: Option<Seq<char>>) -> Seq<char> {
    match message {
        Some(m) => "stripe error ("@ + status + "): "@ + m,
        None => "stripe error: HTTP "@ + status,
    }
}

/// The text of a refused request; `status` is the HTTP status as written
/// (such as `402 Payment Required`), `message` Stripe's error message.
pub fn stripe_error_text(status: &str, message: Option<&str>) -> (r: String)
    ensures
        r@ == stripe_error_text_of(
            status@,
            match message {
                Some(m) => Some(m@),
                None => None,
            },
        ),
{
    match message {
        Some(m) => {
            let mut t = String::from_str("stripe error (");
            t.append(status);
            t.append("): ");
            t.append(m);
            t
        },
        None => {
            let mut t = String::from_str("stripe error: HTTP ");
            t.append(status);
            t
        },
    }
}

} // verus!
