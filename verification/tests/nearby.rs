use uber_for_horses::domain::{AnimalKind, Listing};
use uber_for_horses::service::{nearest_first, NearbyListing};

fn listing(name: &str) -> Listing {
    Listing::new(
        1,
        AnimalKind::Horse,
        name.into(),
        "desc".into(),
        "https://example.com/h.png".into(),
        1000,
        37.7749f64.to_bits(),
        (-122.4194f64).to_bits(),
    )
}

fn found(name: &str, km: f64) -> NearbyListing {
    NearbyListing { listing: listing(name), distance_bits: km.to_bits() }
}

#[test]
fn nearby_results_come_nearest_first_and_ties_keep_their_order() {
    let input = vec![
        found("far-a", 5.0),
        found("mid", 1.5),
        found("far-b", 5.0),
        found("here", 0.0),
        found("edge", 24.999),
    ];
    let out = nearest_first(input);
    let names: Vec<&str> = out.iter().map(|n| n.listing.name.as_str()).collect();
    assert_eq!(names, ["here", "mid", "far-a", "far-b", "edge"]);
    let kms: Vec<f64> = out.iter().map(|n| f64::from_bits(n.distance_bits)).collect();
    assert_eq!(kms, [0.0, 1.5, 5.0, 5.0, 24.999]);
}

#[test]
fn nearby_ordering_of_nothing_and_of_one() {
    assert!(nearest_first(Vec::new()).is_empty());
    let one = nearest_first(vec![found("only", 3.25)]);
    assert_eq!(one.len(), 1);
    assert_eq!(one[0].listing.name, "only");
}
