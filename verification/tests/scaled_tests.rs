use laser_sweep::scaled::{fmt_fixed, parse_scaled, parse_scaled_or, parse_uint};
use laser_sweep::text::{split, trim};

#[test]
fn meters_to_nanometers_is_exact() {
    // A peak-wavelength reply is metres; thirteen decimal places below
    // sit ten-thousandths of a nanometre. 9.747e-7 m is 974.7 nm exactly.
    assert_eq!(parse_scaled("9.747E-7", 13), Some(9747000));
    assert_eq!(parse_scaled("0.0000009747", 13), Some(9747000));
    assert_eq!(parse_scaled("0.0000009747\n", 13), Some(9747000));
    // 0.0009747 m scales by 1e9 to 974700 nm.
    assert_eq!(parse_scaled("0.0009747", 13), Some(9747000000));
}

#[test]
fn unparsable_text_yields_fallback() {
    assert_eq!(parse_scaled_or("N/A", 2, -10000), -10000);
    assert_eq!(parse_scaled_or("", 2, -10000), -10000);
    assert_eq!(parse_scaled_or("1.2.3", 2, -10000), -10000);
    assert_eq!(parse_scaled_or("-12.34", 2, -10000), -1234);
}

#[test]
fn plain_decimal_forms_parse() {
    assert_eq!(parse_scaled("10.00", 2), Some(1000));
    assert_eq!(parse_scaled(" 10 ", 2), Some(1000));
    assert_eq!(parse_scaled("-0.5", 2), Some(-50));
    assert_eq!(parse_scaled("+3", 0), Some(3));
    assert_eq!(parse_scaled(".25", 2), Some(25));
    assert_eq!(parse_scaled("1.", 2), Some(100));
    assert_eq!(parse_scaled("2e1", 0), Some(20));
    assert_eq!(parse_scaled("2E-1", 2), Some(20));
    // Truncation toward zero past the carried resolution.
    assert_eq!(parse_scaled("1.239", 2), Some(123));
    assert_eq!(parse_scaled("-1.239", 2), Some(-123));
}

#[test]
fn malformed_or_oversized_numbers_do_not_parse() {
    assert_eq!(parse_scaled("abc", 2), None);
    assert_eq!(parse_scaled(".", 2), None);
    assert_eq!(parse_scaled("-", 2), None);
    assert_eq!(parse_scaled("1e", 2), None);
    assert_eq!(parse_scaled("inf", 2), None);
    // Over i64 once scaled.
    assert_eq!(parse_scaled("1e30", 2), None);
    // Far below the carried resolution: truncates to zero.
    assert_eq!(parse_scaled("1e-40", 2), Some(0));
}

#[test]
fn fixed_point_rendering_is_exact() {
    assert_eq!(fmt_fixed(1250, 2).as_str(), "12.50");
    assert_eq!(fmt_fixed(-10000, 2).as_str(), "-100.00");
    assert_eq!(fmt_fixed(0, 4).as_str(), "0.0000");
    assert_eq!(fmt_fixed(9747000, 4).as_str(), "974.7000");
    assert_eq!(fmt_fixed(5, 2).as_str(), "0.05");
    assert_eq!(fmt_fixed(100, 6).as_str(), "0.000100");
}

#[test]
fn unsigned_replies_parse_with_trim() {
    assert_eq!(parse_uint("800"), Some(800));
    assert_eq!(parse_uint(" 512 \r\n"), Some(512));
    assert_eq!(parse_uint("+3"), Some(3));
    assert_eq!(parse_uint("0"), Some(0));
    assert_eq!(parse_uint("-1"), None);
    assert_eq!(parse_uint("12a"), None);
    assert_eq!(parse_uint(""), None);
}

#[test]
fn trim_and_split_behave_like_the_transport_text_needs() {
    assert_eq!(trim("  x "), "x");
    assert_eq!(trim("\r\n"), "");
    let parts = split("a,b,");
    assert_eq!(parts.len(), 3);
    assert_eq!(parts[0].as_str(), "a");
    assert_eq!(parts[1].as_str(), "b");
    assert_eq!(parts[2].as_str(), "");
    let single = split("");
    assert_eq!(single.len(), 1);
    assert_eq!(single[0].as_str(), "");
}
