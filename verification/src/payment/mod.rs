pub mod mock;
pub mod stripe;

pub use mock::{CallRecord, HoldState, MockPaymentGateway, PaymentCall};
