//! The order of a nearby search: listings found within the radius come
//! back nearest first.
//!
//! Distances are floating-point kilometres and are measured by the
//! application; here each one is carried by its bits. For the non-negative
//! distances that a search measures (the great-circle formula gives no
//! negative one, and one that is not a number never lies within a radius),
//! the order of the bits as unsigned integers is the order of the distances.

use vstd::prelude::*;
use crate::domain::Listing;

verus! {

/// A listing found by a nearby search and its distance from the search
/// point: `distance_bits` holds the bits of the distance in kilometres.
pub struct NearbyListing {
    pub listing: Listing,
    pub distance_bits: u64,
}

/// Nearest first: no listing comes after one that is farther away.
pub open spec fn sorted_by_distance(s: Seq<NearbyListing>) -> bool {
    forall|i: int, j: int| 0 <= i <= j < s.len() ==> #[trigger] s[i].distance_bits <= #[trigger] s[j].distance_bits
}

/// Whether a found listing lies at distance `d`.
pub open spec fn at_distance(d: u64) -> spec_fn(NearbyListing) -> bool {
    |n: NearbyListing| n.distance_bits == d
}

/// `r` holds the listings of `s` nearest first, those at equal distances
/// in the order of `s` (a stable sort by distance).
pub open spec fn nearest_first_of(s: Seq<NearbyListing>, r: Seq<NearbyListing>) -> bool {
    &&& sorted_by_distance(r)
    &&& forall|d: u64| #[trigger] r.filter(at_distance(d)) == s.filter(at_distance(d))
}

/// No element of a sequence whose distances all lie below `d` is at `d`.
proof fn lemma_none_at(a: Seq<NearbyListing>, d: u64)
    requires
        forall|j: int| 0 <= j < a.len() ==> #[trigger] a[j].distance_bits < d,
    ensures
        a.filter(at_distance(d)) == Seq::<NearbyListing>::empty(),
{
    broadcast use vstd::seq_lib::group_filter_ensures;
    let f = a.filter(at_distance(d));
    if f.len() > 0 {
        let e = f[0];
        assert(f.contains(e));
        a.lemma_filter_contains_rev(at_distance(d), e);
        let j = choose|j: int| 0 <= j < a.len() && a[j] == e;
        assert(a[j].distance_bits < d);
        assert(false);
    }
    assert(f =~= Seq::<NearbyListing>::empty());
}

/// Putting `x` in front of the first listing of a sorted `r` that is not
/// nearer than `x` keeps `r` sorted and adds `x` in front of its distance
/// class.
proof fn lemma_insert_nearest(r: Seq<NearbyListing>, p: int, x: NearbyListing)
    requires
        sorted_by_distance(r),
        0 <= p <= r.len(),
        forall|j: int| 0 <= j < p ==> #[trigger] r[j].distance_bits < x.distance_bits,
        p < r.len() ==> x.distance_bits <= r[p].distance_bits,
    ensures
        sorted_by_distance(r.insert(p, x)),
        forall|d: u64| #[trigger] r.insert(p, x).filter(at_distance(d)) == (if d == x.distance_bits {
            seq![x]
        } else {
            Seq::<NearbyListing>::empty()
        }) + r.filter(at_distance(d)),
{
    broadcast use vstd::seq_lib::group_filter_ensures;
    let q = r.insert(p, x);
    r.insert_ensures(p, x);
    assert forall|i: int, j: int| 0 <= i <= j < q.len() implies #[trigger] q[i].distance_bits
        <= #[trigger] q[j].distance_bits by {
        if i < p {
            if j < p {
            } else if j == p {
            } else {
                assert(q[j] == r[j - 1]);
                assert(r[i].distance_bits <= r[j - 1].distance_bits);
            }
        } else if i == p {
            if j > p {
                assert(q[j] == r[j - 1]);
                assert(r[p].distance_bits <= r[j - 1].distance_bits);
            }
        } else {
            assert(q[i] == r[i - 1]);
            assert(q[j] == r[j - 1]);
        }
    }
    let a = r.subrange(0, p);
    let b = r.subrange(p, r.len() as int);
    assert(r =~= a + b);
    assert(q =~= a.push(x) + b);
    assert forall|d: u64| #[trigger] q.filter(at_distance(d)) == (if d == x.distance_bits {
        seq![x]
    } else {
        Seq::<NearbyListing>::empty()
    }) + r.filter(at_distance(d)) by {
        let pd = at_distance(d);
        Seq::filter_distributes_over_add(a.push(x), b, pd);
        Seq::filter_distributes_over_add(a, b, pd);
        a.lemma_filter_push(x, pd);
        if d == x.distance_bits {
            lemma_none_at(a, d);
            assert(a.filter(pd).push(x) =~= seq![x]);
        } else {
            assert(Seq::<NearbyListing>::empty() + r.filter(pd) =~= r.filter(pd));
        }
    }
}

/// Filtering a sequence keeps every copy of an element that passes.
proof fn lemma_filter_keeps_count(s: Seq<NearbyListing>, p: spec_fn(NearbyListing) -> bool, e: NearbyListing)
    requires
        p(e),
    ensures
        s.filter(p).to_multiset().count(e) == s.to_multiset().count(e),
    decreases s.len(),
{
    broadcast use vstd::seq_lib::group_to_multiset_ensures;
    broadcast use vstd::multiset::group_multiset_axioms;
    if s.len() == 0 {
        reveal(Seq::filter);
        assert(s.filter(p) =~= s);
    } else {
        let t = s.drop_last();
        let a = s.last();
        assert(s =~= t.push(a));
        lemma_filter_keeps_count(t, p, e);
        t.lemma_filter_push(a, p);
    }
}

/// A nearby search loses no listing and adds none: the ordered listings
/// are those found, each as often.
pub proof fn law_nearest_first_keeps_every_listing(s: Seq<NearbyListing>, r: Seq<NearbyListing>)
    requires
        nearest_first_of(s, r),
    ensures
        r.to_multiset() == s.to_multiset(),
        r.len() == s.len(),
{
    broadcast use vstd::seq_lib::group_to_multiset_ensures;
    assert forall|e: NearbyListing| #[trigger] r.to_multiset().count(e) == s.to_multiset().count(e) by {
        let p = at_distance(e.distance_bits);
        lemma_filter_keeps_count(r, p, e);
        lemma_filter_keeps_count(s, p, e);
        assert(r.filter(p) == s.filter(p));
    }
    assert(r.to_multiset() =~= s.to_multiset());
    assert(r.len() == r.to_multiset().len());
    assert(s.len() == s.to_multiset().len());
}

/// The found listings nearest first; listings at equal distances keep the
/// order in which they were found.
pub fn nearest_first(found: Vec<NearbyListing>) -> (r: Vec<NearbyListing>)
    ensures
        nearest_first_of(found@, r@),
{
    let ghost s = found@;
    let mut rest = found;
    let mut r: Vec<NearbyListing> = Vec::new();
    while rest.len() > 0
        invariant
            rest.len() <= s.len(),
            rest@ == s.subrange(0, rest.len() as int),
            sorted_by_distance(r@),
            forall|d: u64| #[trigger] r@.filter(at_distance(d)) == s.subrange(rest.len() as int, s.len() as int).filter(
                at_distance(d),
            ),
        decreases rest.len(),
    {
        let ghost i = rest.len() as int;
        let x = match rest.pop() {
            Some(x) => x,
            None => return r,
        };
        assert(x == s[i - 1]);
        let mut p: usize = 0;
        while p < r.len() && r[p].distance_bits < x.distance_bits
            invariant
                p <= r.len(),
                forall|j: int| 0 <= j < p ==> #[trigger] r@[j].distance_bits < x.distance_bits,
            decreases r.len() - p,
        {
            p = p + 1;
        }
        proof {
            lemma_insert_nearest(r@, p as int, x);
            assert(s.subrange(i - 1, s.len() as int) =~= seq![x] + s.subrange(i, s.len() as int));
            assert forall|d: u64| #[trigger] r@.insert(p as int, x).filter(at_distance(d)) == s.subrange(
                i - 1,
                s.len() as int,
            ).filter(at_distance(d)) by {
                s.subrange(i, s.len() as int).lemma_filter_prepend(x, at_distance(d));
            }
        }
        r.insert(p, x);
    }
    proof {
        assert(s.subrange(0, s.len() as int) =~= s);
    }
    r
}

} // verus!
