use card_atlas::naming::default_region_name;

#[test]
fn default_name_counts_from_one() {
    assert_eq!(default_region_name(0), "region1");
    assert_eq!(default_region_name(1), "region2");
    assert_eq!(default_region_name(8), "region9");
}

#[test]
fn default_name_writes_every_digit() {
    assert_eq!(default_region_name(9), "region10");
    assert_eq!(default_region_name(99), "region100");
    assert_eq!(default_region_name(108), "region109");
    assert_eq!(default_region_name(1234567889), "region1234567890");
}

#[test]
fn default_name_does_not_overflow_at_the_largest_count() {
    let expected = format!("region{}", usize::MAX as u128 + 1);
    assert_eq!(default_region_name(usize::MAX), expected);
}
