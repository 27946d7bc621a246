use tsparser::rid::RidCounter;

#[test]
fn identifiers_count_up_in_decimal() {
    let mut rids = RidCounter::new();
    for n in 0..1234u32 {
        assert_eq!(rids.next(), n.to_string());
    }
}

#[test]
fn identifiers_carry_over_nines() {
    let mut rids = RidCounter::new();
    let mut last = String::new();
    for _ in 0..=100_000u32 {
        last = rids.next();
    }
    assert_eq!(last, "100000");
    assert_eq!(rids.next(), "100001");
}

#[test]
fn the_first_identifier_is_zero() {
    assert_eq!(RidCounter::new().next(), "0");
}
