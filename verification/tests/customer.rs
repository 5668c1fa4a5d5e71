use bakery_text::{customer, CustomerId, CUSTOMER_COUNT};

#[test]
fn every_customer_id_used_by_the_catalog_resolves_to_a_name() {
    for i in 0..CUSTOMER_COUNT {
        assert!(!CustomerId(i).name().is_empty());
    }
}

#[test]
fn customer_names_are_the_five_regulars() {
    assert_eq!(CustomerId(0).name(), "サユリ");
    assert_eq!(CustomerId(4).name(), "アリス");
    assert_eq!(customer(2).name, "ミチル");
}
