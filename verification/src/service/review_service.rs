use vstd::prelude::*;
use crate::domain::review::valid_rating;
use crate::domain::{BookingStatus, Review};
use crate::error::{agrees, not_found, not_found_text, AppError, ErrorKind};
use crate::repo::in_memory::{review_of_listing, InMemoryBookingRepo, InMemoryReviewRepo};
use crate::repo::store::{lemma_take_all, lookup, upsert};

verus! {

/// Whether some review is of the booking `booking_id`.
pub open spec fn reviewed(s: Seq<Review>, booking_id: u128) -> bool {
    exists|i: int| 0 <= i < s.len() && (#[trigger] s[i]).booking_id == booking_id
}

/// No booking has two reviews.
pub open spec fn one_review_per_booking(s: Seq<Review>) -> bool {
    forall|i: int, j: int| 0 <= i < j < s.len() ==> (#[trigger] s[i]).booking_id != (#[trigger] s[j]).booking_id
}

/// The sum of the ratings in `s`.
pub open spec fn rating_sum(s: Seq<Review>) -> int
    decreases s.len(),
{
    if s.len() == 0 {
        0
    } else {
        rating_sum(s.drop_last()) + s.last().rating
    }
}

/// The effect of creating a review: the booking must exist, be the rider's
/// own, be Completed and not reviewed yet, and the rating must lie in
/// 1..=5; then the review is stored.
pub open spec fn review_post(
    bookings: Seq<crate::domain::Booking>,
    before: Seq<Review>,
    after: Seq<Review>,
    booking_id: u128,
    rider_id: u128,
    rating: i32,
    comment: Option<String>,
    r: Result<Review, AppError>,
) -> bool {
    match lookup(bookings, booking_id) {
        None => agrees(r, Err((ErrorKind::NotFound, not_found_text("booking"@, booking_id)))) && after == before,
        Some(b) => if b.rider_id != rider_id {
            agrees(r, Err((ErrorKind::Forbidden, "only the rider who made this booking can review it"@)))
                && after == before
        } else if b.status != BookingStatus::Completed {
            agrees(r, Err((ErrorKind::Conflict, "only completed bookings can be reviewed"@))) && after == before
        } else if reviewed(before, booking_id) {
            agrees(r, Err((ErrorKind::Conflict, "this booking has already been reviewed"@))) && after == before
        } else if !valid_rating(rating) {
            agrees(r, Err((ErrorKind::Validation, "rating must be between 1 and 5"@))) && after == before
        } else {
            &&& r matches Ok(v)
            &&& v.booking_id == booking_id
            &&& v.rider_id == rider_id
            &&& v.listing_id == b.listing_id
            &&& v.rating == rating
            &&& v.comment == comment
            &&& after == upsert(before, v)
        },
    }
}

/// A review is stored only for the rider's own booking once it is
/// Completed, only once per booking, and only with a rating from 1 to 5;
/// a request on a booking that is not Completed is refused and stores nothing.
pub proof fn law_reviews_only_of_own_completed_bookings(
    bookings: Seq<crate::domain::Booking>,
    before: Seq<Review>,
    after: Seq<Review>,
    booking_id: u128,
    rider_id: u128,
    rating: i32,
    comment: Option<String>,
    r: Result<Review, AppError>,
)
    requires
        review_post(bookings, before, after, booking_id, rider_id, rating, comment, r),
    ensures
        r is Ok ==> {
            &&& lookup(bookings, booking_id) matches Some(b)
            &&& b.status == BookingStatus::Completed
            &&& b.rider_id == rider_id
            &&& 1 <= rating <= 5
            &&& forall|i: int| 0 <= i < before.len() ==> (#[trigger] before[i]).booking_id != booking_id
        },
        (lookup(bookings, booking_id) matches Some(b) && b.status != BookingStatus::Completed) ==> r is Err && after
            == before,
{
}

/// Manages reviews of completed bookings.
pub struct ReviewService {
    pub review_repo: InMemoryReviewRepo,
}

impl ReviewService {
    pub open spec fn wf(&self) -> bool {
        self.review_repo.wf()
    }

    pub fn new(review_repo: InMemoryReviewRepo) -> (s: Self)
        ensures
            s.review_repo == review_repo,
    {
        ReviewService { review_repo }
    }

    /// The rider of a completed booking reviews it, once.
    pub fn create_review(
        &mut self,
        bookings: &InMemoryBookingRepo,
        booking_id: u128,
        rider_id: u128,
        rating: i32,
        comment: Option<String>,
    ) -> (r: Result<Review, AppError>)
        requires
            old(self).wf(),
            bookings.wf(),
        ensures
            final(self).wf(),
            review_post(
                bookings.records(),
                old(self).review_repo.records(),
                final(self).review_repo.records(),
                booking_id,
                rider_id,
                rating,
                comment,
                r,
            ),
    {
        let booking = match bookings.get(booking_id) {
            Ok(Some(b)) => b,
            _ => return Err(not_found("booking", booking_id)),
        };
        if booking.rider_id != rider_id {
            return Err(AppError::new(ErrorKind::Forbidden, "only the rider who made this booking can review it"));
        }
        if booking.status != BookingStatus::Completed {
            return Err(AppError::new(ErrorKind::Conflict, "only completed bookings can be reviewed"));
        }
        match self.review_repo.get_by_booking(booking_id) {
            Ok(Some(_)) => {
                return Err(AppError::new(ErrorKind::Conflict, "this booking has already been reviewed"));
            },
            _ => {},
        }
        let review = match Review::new(booking_id, rider_id, booking.listing_id, rating, comment) {
            Ok(v) => v,
            Err(e) => return Err(e),
        };
        self.review_repo.create(review)
    }

    /// The reviews of a listing, oldest first.
    pub fn list_for_listing(&self, listing_id: u128) -> (r: Result<Vec<Review>, AppError>)
        requires
            self.wf(),
        ensures
            r matches Ok(v) && v@ == self.review_repo.records().filter(review_of_listing(listing_id)),
    {
        self.review_repo.list_for_listing(listing_id)
    }

    /// The sum of the ratings and the number of reviews of a listing, from
    /// which its average rating follows.
    pub fn rating_totals_for_listing(&self, listing_id: u128) -> (r: Result<(i128, usize), AppError>)
        requires
            self.wf(),
        ensures
            r matches Ok((sum, count)) && {
                let s = self.review_repo.records().filter(review_of_listing(listing_id));
                &&& count == s.len()
                &&& sum == rating_sum(s)
            },
    {
        let reviews = match self.review_repo.list_for_listing(listing_id) {
            Ok(v) => v,
            Err(e) => return Err(e),
        };
        let mut sum: i128 = 0;
        let mut i: usize = 0;
        while i < reviews.len()
            invariant
                i <= reviews@.len(),
                sum == rating_sum(reviews@.take(i as int)),
                -0x8000_0000 * i <= sum <= 0x8000_0000 * i,
            decreases reviews@.len() - i,
        {
            proof {
                assert(reviews@.take(i + 1).drop_last() =~= reviews@.take(i as int));
            }
            sum = sum + reviews[i].rating as i128;
            i = i + 1;
        }
        proof {
            lemma_take_all(reviews@);
        }
        Ok((sum, reviews.len()))
    }
}

/// Creating a review keeps every booking to at most one review.
pub proof fn lemma_review_keeps_one_per_booking(
    bookings: Seq<crate::domain::Booking>,
    before: Seq<Review>,
    after: Seq<Review>,
    booking_id: u128,
    rider_id: u128,
    rating: i32,
    comment: Option<String>,
    r: Result<Review, AppError>,
)
    requires
        one_review_per_booking(before),
        review_post(bookings, before, after, booking_id, rider_id, rating, comment, r),
    ensures
        one_review_per_booking(after),
{
    if r is Ok {
        let v = r->Ok_0;
        assert(!reviewed(before, booking_id));
        if crate::repo::store::has_key(before, v.id) {
            let p = crate::repo::store::index_of(before, v.id);
            assert forall|i: int, j: int| 0 <= i < j < after.len() implies (#[trigger] after[i]).booking_id
                != (#[trigger] after[j]).booking_id by {
                if i == p {
                    assert(before[j].booking_id != booking_id);
                } else if j == p {
                    assert(before[i].booking_id != booking_id);
                } else {
                    assert(before[i].booking_id != before[j].booking_id);
                }
            }
        } else {
            let n = before.len() as int;
            assert forall|i: int, j: int| 0 <= i < j < after.len() implies (#[trigger] after[i]).booking_id
                != (#[trigger] after[j]).booking_id by {
                if j == n {
                    assert(before[i].booking_id != booking_id);
                } else {
                    assert(before[i].booking_id != before[j].booking_id);
                }
            }
        }
    }
}

} // verus!
