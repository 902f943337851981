use balans::money::{parse_decimal_text, sum, Money};

#[test]
fn test_ore_roundtrip() {
    let m = Money::from_ore(15050);
    assert_eq!(m.to_ore(), 15050);
    assert_eq!(m.to_text(), "150.50");
}

#[test]
fn test_arithmetic() {
    let a = Money::from_ore(10000);
    let b = Money::from_ore(5000);
    assert_eq!(a.add(b).to_ore(), 15000);
    assert_eq!(a.sub(b).to_ore(), 5000);
}

#[test]
fn test_sum() {
    let vals = vec![Money::from_ore(100), Money::from_ore(200), Money::from_ore(300)];
    let total = sum(&vals);
    assert_eq!(total.to_ore(), 600);
}

#[test]
fn test_balance_check() {
    let debit = Money::from_ore(50000);
    let credit = Money::from_ore(50000);
    assert!(debit.sub(credit).is_zero());
}

#[test]
fn test_serde_roundtrip() {
    // Money travels as the string of its two-decimal text.
    let m = Money::from_ore(123456);
    let json = format!("\"{}\"", m.to_text());
    assert_eq!(json, "\"1234.56\"");
    let inner = json.trim_matches('"');
    let parsed = Money::new(parse_decimal_text(inner).unwrap());
    assert_eq!(m, parsed);
}

#[test]
fn new_rounds_half_to_even() {
    assert_eq!(Money::new(parse_decimal_text("1.005").unwrap()).to_ore(), 100);
    assert_eq!(Money::new(parse_decimal_text("1.015").unwrap()).to_ore(), 102);
    assert_eq!(Money::new(parse_decimal_text("-2.675").unwrap()).to_ore(), -268);
    assert_eq!(Money::new(parse_decimal_text("12").unwrap()).to_ore(), 1200);
}

#[test]
fn negative_amounts_print_with_sign() {
    assert_eq!(Money::from_ore(-5).to_text(), "-0.05");
    assert_eq!(Money::from_ore(-123456).neg().to_text(), "1234.56");
    assert_eq!(Money::zero().to_text(), "0.00");
    assert_eq!(Money::from_ore(-700).abs().to_ore(), 700);
}

#[test]
fn inner_gives_two_decimals() {
    let d = Money::from_ore(-1234).inner();
    assert!(d.negative);
    assert_eq!(d.mantissa, 1234);
    assert_eq!(d.scale, 2);
}
