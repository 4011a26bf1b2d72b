use blog_server::numbers::{parse_u64, u64_to_decimal};

#[test]
fn parse_u64_agrees_with_std() {
    let inputs = [
        "", "+", "-", "0", "+0", "-0", "7", "+7", "007", "42", " 1", "1 ", "1a", "a1", "++1",
        "+-1", "12345678901234567890", "18446744073709551615", "+18446744073709551615",
        "18446744073709551616", "99999999999999999999", "000000000000000000000000001", "١",
        "١٢", "１", "9x9",
    ];
    for s in inputs.iter() {
        assert_eq!(parse_u64(s), s.parse::<u64>().ok(), "input {:?}", s);
    }
}

#[test]
fn parse_u64_exact_values() {
    assert_eq!(parse_u64("0"), Some(0));
    assert_eq!(parse_u64("+15"), Some(15));
    assert_eq!(parse_u64("18446744073709551615"), Some(u64::MAX));
    assert_eq!(parse_u64("18446744073709551616"), None);
    assert_eq!(parse_u64("-1"), None);
    assert_eq!(parse_u64(""), None);
    assert_eq!(parse_u64("+"), None);
}

#[test]
fn decimal_matches_to_string() {
    for n in [0u64, 1, 9, 10, 11, 99, 100, 12345, 4294967296, u64::MAX - 1, u64::MAX] {
        assert_eq!(u64_to_decimal(n), n.to_string());
    }
    assert_eq!(u64_to_decimal(305), "305");
}

#[test]
fn decimal_round_trip() {
    for n in [0u64, 5, 10, 1000000007, u64::MAX] {
        assert_eq!(parse_u64(&u64_to_decimal(n)), Some(n));
    }
}
