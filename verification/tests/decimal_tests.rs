use xrp_rpc::decimal::Decimal;

#[test]
fn decimal_is_taken_apart() {
    let decimal = Decimal::parse("1.50").unwrap();
    assert_eq!(decimal.as_str(), "1.50");
    assert_eq!(decimal.unscaled(), "150");
    assert_eq!(decimal.scale(), 2);
}

#[test]
fn integer_has_scale_zero() {
    let decimal = Decimal::parse("99999999999999999999999999999").unwrap();
    assert_eq!(decimal.unscaled(), "99999999999999999999999999999");
    assert_eq!(decimal.scale(), 0);
}

#[test]
fn negative_fraction() {
    let decimal = Decimal::parse("-0.001").unwrap();
    assert_eq!(decimal.unscaled(), "-1");
    assert_eq!(decimal.scale(), 3);
}

#[test]
fn exponent_moves_the_scale() {
    let decimal = Decimal::parse("12e3").unwrap();
    assert_eq!(decimal.as_str(), "12e3");
    assert_eq!(decimal.unscaled(), "12");
    assert_eq!(decimal.scale(), -3);
    let small = Decimal::parse("1.5E-7").unwrap();
    assert_eq!(small.unscaled(), "15");
    assert_eq!(small.scale(), 8);
}

#[test]
fn what_is_no_decimal_is_refused() {
    for text in ["", "abc", "1.2.3", "e5", "--1", "1e", "validated"] {
        assert!(Decimal::parse(text).is_none(), "{}", text);
    }
}

#[test]
fn clone_keeps_text_and_parts() {
    let decimal = Decimal::parse("0.25").unwrap();
    let same = decimal.clone();
    assert_eq!(same.as_str(), "0.25");
    assert_eq!(same.unscaled(), "25");
    assert_eq!(same.scale(), 2);
}
