use lyrfin::appearance::{detect, store_scheme, variant_to_u32, Appearance, Variant};

#[test]
fn scheme_mapping_follows_the_portal_spec() {
    // portal: 0 = no preference, 1 = prefer dark, 2 = prefer light
    assert_eq!(detect(store_scheme(1)), Some(Appearance::Dark));
    assert_eq!(detect(store_scheme(2)), Some(Appearance::Light));
    assert_eq!(detect(store_scheme(0)), None, "no preference → dark-theme fallback");
}

#[test]
fn variant_unwraps_any_nesting_depth() {
    assert_eq!(variant_to_u32(&Variant::U32(2)), Some(2));
    assert_eq!(
        variant_to_u32(&Variant::Nested(Box::new(Variant::U32(1)))),
        Some(1)
    );
    assert_eq!(
        variant_to_u32(&Variant::Nested(Box::new(Variant::Nested(Box::new(Variant::U32(2)))))),
        Some(2)
    );
    assert_eq!(variant_to_u32(&Variant::Other), None, "non-u32 → None");
}

#[test]
fn unknown_portal_values_stay_unknown() {
    assert_eq!(store_scheme(7), 0);
    assert_eq!(detect(3), None);
}
