pub mod booking;
pub mod listing;

pub use booking::{Booking, BookingStatus};
pub use listing::{AnimalKind, Listing, TimeSlot};
pub mod referral;
pub mod role;

pub use referral::generate_referral_code;
pub use role::Role;
pub mod owner;
pub mod review;
pub mod rider;

pub use owner::Owner;
pub use review::Review;
pub use rider::Rider;
