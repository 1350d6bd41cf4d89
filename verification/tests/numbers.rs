use ad_infinitum::game::arith::isqrt;
use ad_infinitum::game::text::{
    decimal_string, digit_str, parse_names, scientific, scientific_signed,
};

#[test]
fn square_roots_round_down() {
    assert_eq!(isqrt(0), 0);
    assert_eq!(isqrt(1), 1);
    assert_eq!(isqrt(2), 1);
    assert_eq!(isqrt(3), 1);
    assert_eq!(isqrt(4), 2);
    assert_eq!(isqrt(15), 3);
    assert_eq!(isqrt(16), 4);
    assert_eq!(isqrt(17), 4);
    assert_eq!(isqrt(999_999), 999);
    assert_eq!(isqrt(1_000_000), 1_000);
    assert_eq!(isqrt(u128::MAX), u64::MAX);
    assert_eq!(isqrt(1u128 << 126), 1u64 << 63);
}

#[test]
fn square_root_brackets_its_argument() {
    let mut value: u128 = 1;
    for _ in 0..120 {
        let root = isqrt(value) as u128;
        assert!(root * root <= value);
        assert!((root + 1) * (root + 1) > value);
        value = value * 2 + 1;
    }
}

#[test]
fn decimal_notation() {
    assert_eq!(digit_str(0), "0");
    assert_eq!(digit_str(9), "9");
    assert_eq!(decimal_string(0), "0");
    assert_eq!(decimal_string(7), "7");
    assert_eq!(decimal_string(10), "10");
    assert_eq!(decimal_string(10_000), "10000");
    assert_eq!(decimal_string(999_999), "999999");
    assert_eq!(decimal_string(u128::MAX), u128::MAX.to_string());
}

#[test]
fn scientific_notation_of_small_numbers() {
    assert_eq!(scientific(0), "0.000e0");
    assert_eq!(scientific(1), "1.000e0");
    assert_eq!(scientific(9), "9.000e0");
    assert_eq!(scientific(10), "1.000e1");
    assert_eq!(scientific(42), "4.200e1");
    assert_eq!(scientific(123), "1.230e2");
    assert_eq!(scientific(9_999), "9.999e3");
}

#[test]
fn scientific_notation_rounds_to_nearest() {
    assert_eq!(scientific(1_234_567), "1.235e6");
    assert_eq!(scientific(12_344), "1.234e4");
    assert_eq!(scientific(12_346), "1.235e4");
    assert_eq!(scientific(695_700), "6.957e5");
    assert_eq!(scientific(1_980_000_000_000_000_000), "1.980e18");
}

#[test]
fn scientific_notation_rounds_ties_to_even() {
    assert_eq!(scientific(12_345), "1.234e4");
    assert_eq!(scientific(12_355), "1.236e4");
    assert_eq!(scientific(123_450), "1.234e5");
    assert_eq!(scientific(123_451), "1.235e5");
}

#[test]
fn scientific_notation_carries_into_the_exponent() {
    assert_eq!(scientific(99_994), "9.999e4");
    assert_eq!(scientific(99_995), "1.000e5");
    assert_eq!(scientific(99_999), "1.000e5");
    assert_eq!(scientific(999_960_000), "1.000e9");
}

#[test]
fn scientific_notation_agrees_with_the_formatter() {
    let mut value: u64 = 1;
    for step in 0..400u64 {
        assert_eq!(scientific(value as u128), format!("{:.3e}", value as f64));
        value = (value * 3 + step * 7 + 1) % 9_000_000_000_000_000;
    }
    for value in [12_345u64, 12_355, 99_995, 123_450, 1_000_500, 1_001_500] {
        assert_eq!(scientific(value as u128), format!("{:.3e}", value as f64));
    }
}

#[test]
fn scientific_notation_of_the_largest_number() {
    assert_eq!(scientific(u128::MAX), "3.403e38");
}

#[test]
fn scientific_notation_with_sign() {
    assert_eq!(scientific_signed(-1), "-1.000e0");
    assert_eq!(scientific_signed(0), "0.000e0");
    assert_eq!(scientific_signed(5_000_000), "5.000e6");
    assert_eq!(scientific_signed(-12_346), "-1.235e4");
    assert_eq!(scientific_signed(i64::MIN), "-9.223e18");
}

#[test]
fn name_list_one_name_to_a_line() {
    assert_eq!(parse_names("Alpha\nBeta\nGamma\n"), vec!["Alpha", "Beta", "Gamma"]);
    assert_eq!(parse_names("Alpha\nBeta\nGamma"), vec!["Alpha", "Beta", "Gamma"]);
}

#[test]
fn name_list_leaves_empty_lines_out() {
    assert_eq!(parse_names("\nAlpha\n\n\nBeta\n\n"), vec!["Alpha", "Beta"]);
    assert_eq!(parse_names(""), Vec::<String>::new());
    assert_eq!(parse_names("\n"), Vec::<String>::new());
    assert_eq!(parse_names("\n\n\n"), Vec::<String>::new());
}

#[test]
fn name_list_keeps_what_a_line_holds() {
    assert_eq!(parse_names(" Tau Ceti \nÉpsilon\r\n"), vec![" Tau Ceti ", "Épsilon\r"]);
}
