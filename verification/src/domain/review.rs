use vstd::prelude::*;
use crate::error::{AppError, ErrorKind};
use crate::text::copy_opt_text;
use crate::time::{now, Timestamp};
use crate::ids::new_id;

verus! {

/// A rider's rating of a completed booking.
#[derive(Debug)]
pub struct Review {
    pub id: u128,
    pub booking_id: u128,
    pub rider_id: u128,
    pub listing_id: u128,
    pub rating: i32,
    pub comment: Option<String>,
    pub created_at: Timestamp,
}

impl Clone for Review {
    fn clone(&self) -> (r: Self)
        ensures
            r == *self,
    {
        Review {
            id: self.id,
            booking_id: self.booking_id,
            rider_id: self.rider_id,
            listing_id: self.listing_id,
            rating: self.rating,
            comment: copy_opt_text(&self.comment),
            created_at: self.created_at,
        }
    }
}

/// The accepted ratings.
pub open spec fn valid_rating(rating: i32) -> bool {
    1 <= rating <= 5
}

impl Review {
    /// Construct a new review, validating that `rating` is within the
    /// inclusive 1..=5 range.
    pub fn new(
        booking_id: u128,
        rider_id: u128,
        listing_id: u128,
        rating: i32,
        comment: Option<String>,
    ) -> (r: Result<Review, AppError>)
        ensures
            r is Ok <==> valid_rating(rating),
            r matches Ok(v) ==> {
                &&& v.booking_id == booking_id
                &&& v.rider_id == rider_id
                &&& v.listing_id == listing_id
                &&& v.rating == rating
                &&& v.comment == comment
            },
            r matches Err(e) ==> e.is(ErrorKind::Validation, "rating must be between 1 and 5"@),
    {
        if !(1 <= rating && rating <= 5) {
            return Err(AppError::new(ErrorKind::Validation, "rating must be between 1 and 5"));
        }
        Ok(Review { id: new_id(), booking_id, rider_id, listing_id, rating, comment, created_at: now() })
    }
}

} // verus!
