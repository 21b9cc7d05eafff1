use neutron_route::color::TrueColor;
use neutron_route::numeral::{push_decimal, push_fixed};
use neutron_route::quantity::{round_to_unit, Quantity};

fn decimal(n: u64) -> String {
    let mut s = String::new();
    push_decimal(&mut s, n);
    s
}

fn fixed(n: u64, places: u32) -> String {
    let mut s = String::new();
    push_fixed(&mut s, n, places);
    s
}

fn one_decimal(millionths: u64) -> String {
    let mut s = String::new();
    Quantity::from_millionths(millionths).fmt_one_decimal(&mut s);
    s
}

fn thousands(millionths: u64) -> String {
    let mut s = String::new();
    Quantity::from_millionths(millionths).fmt_thousands(&mut s);
    s
}

#[test]
fn decimal_of_single_digits() {
    assert_eq!(decimal(0), "0");
    assert_eq!(decimal(7), "7");
    assert_eq!(decimal(9), "9");
}

#[test]
fn decimal_of_longer_numbers() {
    assert_eq!(decimal(10), "10");
    assert_eq!(decimal(255), "255");
    assert_eq!(decimal(1_000_000), "1000000");
    assert_eq!(decimal(u64::MAX), "18446744073709551615");
}

#[test]
fn decimal_appends_to_what_is_there() {
    let mut s = String::from("n=");
    push_decimal(&mut s, 42);
    assert_eq!(s, "n=42");
}

#[test]
fn fixed_without_places_has_no_point() {
    assert_eq!(fixed(42, 0), "42");
    assert_eq!(fixed(0, 0), "0");
}

#[test]
fn fixed_with_one_place() {
    assert_eq!(fixed(1234, 1), "123.4");
    assert_eq!(fixed(5, 1), "0.5");
    assert_eq!(fixed(0, 1), "0.0");
    assert_eq!(fixed(10, 1), "1.0");
}

#[test]
fn fixed_with_three_places_pads_with_zeros() {
    assert_eq!(fixed(1000, 3), "1.000");
    assert_eq!(fixed(5, 3), "0.005");
    assert_eq!(fixed(0, 3), "0.000");
    assert_eq!(fixed(22000, 3), "22.000");
    assert_eq!(fixed(65280, 3), "65.280");
}

#[test]
fn rounding_goes_to_the_nearest_count() {
    assert_eq!(round_to_unit(249_999, 100_000), 2);
    assert_eq!(round_to_unit(250_001, 100_000), 3);
    assert_eq!(round_to_unit(0, 100_000), 0);
    assert_eq!(round_to_unit(99_999, 100_000), 1);
    assert_eq!(round_to_unit(1_000_499_999, 1_000_000), 1000);
}

#[test]
fn rounding_takes_the_even_count_at_a_tie() {
    assert_eq!(round_to_unit(50_000, 100_000), 0);
    assert_eq!(round_to_unit(150_000, 100_000), 2);
    assert_eq!(round_to_unit(250_000, 100_000), 2);
    assert_eq!(round_to_unit(350_000, 100_000), 4);
}

#[test]
fn rounding_at_the_limits() {
    assert_eq!(round_to_unit(u64::MAX, 1), u64::MAX);
    assert_eq!(round_to_unit(u64::MAX, 2), 9_223_372_036_854_775_808);
    assert_eq!(round_to_unit(u64::MAX, u64::MAX), 1);
    assert_eq!(round_to_unit(u64::MAX - 1, u64::MAX), 1);
    assert_eq!(round_to_unit(1, u64::MAX), 0);
}

#[test]
fn quantity_keeps_its_millionths() {
    let q = Quantity::from_millionths(1_234_560_000);
    assert_eq!(q.millionths, 1_234_560_000);
    assert_eq!(q, Quantity { millionths: 1_234_560_000 });
}

#[test]
fn quantity_to_one_decimal() {
    assert_eq!(one_decimal(0), "0.0");
    assert_eq!(one_decimal(1_234_560_000), "1234.6");
    assert_eq!(one_decimal(32_000_000), "32.0");
    assert_eq!(one_decimal(5_249_999), "5.2");
    assert_eq!(one_decimal(999_960_000), "1000.0");
    assert_eq!(one_decimal(250_000), "0.2");
    assert_eq!(one_decimal(750_000), "0.8");
}

#[test]
fn quantity_in_thousands_to_three_decimals() {
    assert_eq!(thousands(1_000_000_000), "1.000");
    assert_eq!(thousands(0), "0.000");
    assert_eq!(thousands(22_000_460_000), "22.000");
    assert_eq!(thousands(65_279_500_001), "65.280");
    assert_eq!(thousands(999_600_000), "1.000");
    assert_eq!(thousands(400_000_000), "0.400");
    assert_eq!(thousands(1_500_000), "0.002");
    assert_eq!(thousands(2_500_000), "0.002");
}

#[test]
fn background_colour_sequence() {
    let c = TrueColor::bg(32, 16, 0);
    assert_eq!(c.rgb, [32, 16, 0]);
    assert!(c.background);
    assert_eq!(c.to_string(), "\x1b[48;2;32;16;0m");
    assert_eq!(TrueColor::bg(0, 0, 64).to_string(), "\x1b[48;2;0;0;64m");
    assert_eq!(TrueColor::bg(255, 255, 255).to_string(), "\x1b[48;2;255;255;255m");
}

#[test]
fn foreground_colour_sequence() {
    let c = TrueColor { rgb: [1, 20, 200], background: false };
    assert_eq!(c.to_string(), "\x1b[38;2;1;20;200m");
}

#[test]
fn colour_appends_to_what_is_there() {
    let mut s = String::from("x");
    TrueColor::bg(1, 2, 3).fmt(&mut s);
    assert_eq!(s, "x\x1b[48;2;1;2;3m");
}
