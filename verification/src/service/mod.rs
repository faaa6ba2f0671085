pub mod booking_service;
pub mod listing_service;
pub mod owner_service;
pub mod rider_service;

pub use booking_service::BookingService;
pub use listing_service::ListingService;
pub use owner_service::OwnerService;
pub use rider_service::RiderService;
pub mod review_service;

pub use review_service::ReviewService;
pub mod booking_laws;
pub mod booking_steps;
pub mod nearby;

pub use nearby::{nearest_first, NearbyListing};
