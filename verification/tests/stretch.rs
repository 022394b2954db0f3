use lyrfin::stretch::{search_radius, HS};

#[test]
fn search_radius_is_half_the_hop_difference_within_bounds() {
    assert_eq!(search_radius(HS), 8, "no stretch → the minimum radius");
    assert_eq!(search_radius(256), 128);
    assert_eq!(search_radius(0), 256);
    assert_eq!(search_radius(600), 44);
    assert_eq!(search_radius(2048), HS - 1, "capped below the hop");
}
