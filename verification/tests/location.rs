use team_fixture::LocationGen;
use team_fixture::StoreLocation;

/// Tokens are issued in order, one per draw.
#[test]
fn generator_issues_increasing_tokens() {
    let mut gen = LocationGen::new();
    assert_eq!(gen.fresh(), StoreLocation::File { token: 0 });
    assert_eq!(gen.fresh(), StoreLocation::File { token: 1 });
    assert_eq!(gen.fresh(), StoreLocation::File { token: 2 });
    assert_eq!(gen.next, 3);
}

/// Ten draws in sequence hand out ten pairwise distinct locations.
#[test]
fn ten_draws_never_collide() {
    let mut gen = LocationGen::new();
    let locations = gen.fresh_many(10);
    assert_eq!(locations.len(), 10);
    for i in 0..locations.len() {
        for j in 0..locations.len() {
            if i != j {
                assert_ne!(locations[i], locations[j]);
            }
        }
    }
}

/// A transient in-memory location is distinguishable from any file
/// location.
#[test]
fn memory_location_is_distinct() {
    let mut gen = LocationGen::new();
    let file = gen.fresh();
    assert_ne!(StoreLocation::Memory, file);
    assert_eq!(StoreLocation::Memory, StoreLocation::Memory);
}
