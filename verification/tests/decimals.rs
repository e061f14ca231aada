use boldtrax::decimal::Decimal;

fn dec(s: &str) -> Decimal {
    Decimal::from_str(s).unwrap()
}

fn parts(d: Decimal) -> (i128, u32) {
    (d.mantissa(), d.scale())
}

#[test]
fn decimal_is_read_with_its_digits() {
    assert_eq!(parts(dec("1.50")), (150, 2));
    assert_eq!(parts(dec("-0.001")), (-1, 3));
    assert_eq!(parts(dec("42")), (42, 0));
    assert_eq!(parts(dec("+7.")), (7, 0));
    assert!(Decimal::from_str("").is_none());
    assert!(Decimal::from_str("abc").is_none());
    assert!(Decimal::from_str("1.2.3").is_none());
    assert_eq!(dec("1e5"), dec("100000"));
    assert!(Decimal::from_str("79228162514264337593543950336").is_none());
}

#[test]
fn decimal_is_written_with_its_scale() {
    assert_eq!(Decimal::new(150, 2).to_string(), "1.50");
    assert_eq!(Decimal::new(-1, 3).to_string(), "-0.001");
    assert_eq!(Decimal::new(0, 2).to_string(), "0.00");
    assert_eq!(Decimal::from_u64(u64::MAX).to_string(), "18446744073709551615");
    assert_eq!(Decimal::max_value().to_string(), "79228162514264337593543950335");
}

#[test]
fn decimals_are_equal_by_value() {
    assert_eq!(dec("1.50"), dec("1.5"));
    assert_ne!(dec("1.50"), dec("1.51"));
    assert!(dec("1.50").equals(dec("1.5")));
    assert!(dec("-2").less_than(dec("-1.999")));
    assert!(!dec("1.50").less_than(dec("1.5")));
    assert!(dec("1.50").at_most(dec("1.5")));
    assert!(!dec("1.6").at_most(dec("1.50")));
    assert_eq!(dec("-0.3").sign(), -1);
    assert_eq!(dec("0.00").sign(), 0);
    assert_eq!(dec("4").sign(), 1);
}

#[test]
fn decimals_are_added_exactly_where_they_fit() {
    assert_eq!(parts(dec("1.5").checked_add(dec("0.25")).unwrap()), (175, 2));
    assert_eq!(parts(dec("1.5").checked_sub(dec("0.25")).unwrap()), (125, 2));
    assert_eq!(dec("0.1").checked_add(dec("0.2")).unwrap(), dec("0.3"));
    assert_eq!(Decimal::max_value().checked_add(Decimal::one()), None);
    assert_eq!(Decimal::max_value().neg().checked_sub(Decimal::one()), None);
}

#[test]
fn decimals_are_multiplied_and_divided() {
    assert_eq!(parts(dec("1.5").checked_mul(dec("0.25")).unwrap()), (375, 3));
    assert_eq!(dec("1").checked_div(dec("8")).unwrap(), dec("0.125"));
    assert_eq!(
        dec("1").checked_div(dec("3")).unwrap().to_string(),
        "0.3333333333333333333333333333"
    );
    assert_eq!(dec("1").checked_div(Decimal::zero()), None);
    assert_eq!(Decimal::max_value().checked_mul(Decimal::two()), None);
    assert_eq!(Decimal::hundred(), dec("100"));
}

#[test]
fn decimals_are_rounded() {
    assert_eq!(parts(dec("2.5").round()), (2, 0));
    assert_eq!(parts(dec("3.5").round()), (4, 0));
    assert_eq!(parts(dec("-2.51").round()), (-3, 0));
    assert_eq!(parts(dec("2.9").floor()), (2, 0));
    assert_eq!(parts(dec("-2.1").floor()), (-3, 0));
    assert_eq!(parts(dec("-2.0").floor()), (-2, 0));
}

#[test]
fn trailing_zeros_are_dropped() {
    assert_eq!(parts(dec("1.500").normalize()), (15, 1));
    assert_eq!(parts(dec("100").normalize()), (100, 0));
    assert_eq!(parts(dec("0.000").normalize()), (0, 0));
    assert_eq!(parts(dec("-1.5").abs()), (15, 1));
    assert_eq!(parts(dec("1.5").neg()), (-15, 1));
    assert!(dec("0.00").is_zero());
}

#[test]
fn order_does_not_see_trailing_zeros() {
    let a = dec("2.500");
    let b = dec("2.75");
    assert_eq!(a.less_than(b), a.normalize().less_than(b.normalize()));
    assert_eq!(b.less_than(a), b.normalize().less_than(a.normalize()));
    assert_eq!(a, a.normalize());
}

#[test]
fn decimals_are_made_of_their_parts() {
    let most: i128 = 79_228_162_514_264_337_593_543_950_335;
    assert_eq!(parts(Decimal::from_parts(-1_500, 3).unwrap()), (-1_500, 3));
    assert_eq!(parts(Decimal::from_parts(most, 28).unwrap()), (most, 28));
    assert!(Decimal::from_parts(most + 1, 0).is_none());
    assert!(Decimal::from_parts(1, 29).is_none());
}

#[test]
fn digits_that_divide_evenly_keep_their_scale() {
    for (a, b, quotient) in [
        ("5.00", "0.5", "10.0"),
        ("6", "0.002", "3000"),
        ("-0.012", "0.001", "-12"),
        ("0.012", "-0.003", "-4"),
        ("65000.10", "0.1", "650001.0"),
        ("79228162514264337593543950335", "1", "79228162514264337593543950335"),
        ("79228162514264337593543950.335", "0.001", "79228162514264337593543950335"),
    ] {
        assert_eq!(dec(a).checked_div(dec(b)).unwrap().to_string(), quotient);
    }
    assert_eq!(dec("1").checked_div(dec("0.005")), Some(dec("200")));
    assert_eq!(Decimal::max_value().checked_div(dec("0.1")), None);
}

#[test]
fn exact_quotients_and_products_are_not_rounded() {
    for (a, b, quotient) in [
        ("1", "0.25", "4"),
        ("1", "0.10", "10"),
        ("0.3", "0.005", "60"),
        ("1", "8", "0.125"),
        ("1", "268435456", "0.0000000037252902984619140625"),
        ("3", "16384", "0.00018310546875"),
        ("36893488147419103232", "18446744073709551616", "2"),
        ("19000000000000000000000000001", "2.5", "7600000000000000000000000000.4"),
        ("39614081257132168796771975168", "39614081257132168796771975168", "1"),
    ] {
        assert_eq!(dec(a).checked_div(dec(b)), Some(dec(quotient)));
    }
    assert_eq!(
        dec("7600000000000000000000000000").checked_mul(dec("2.5")),
        Some(dec("19000000000000000000000000000"))
    );
    assert_eq!(dec("0.00000000000005").checked_mul(dec("0.000000000000002")), Some(dec("0.0000000000000000000000000001")));
}
