use async_wsocket::text::decimal_string;

#[test]
fn single_digits() {
    let expected = ["0", "1", "2", "3", "4", "5", "6", "7", "8", "9"];
    for (n, text) in expected.iter().enumerate() {
        assert_eq!(decimal_string(n as u64), *text);
    }
}

#[test]
fn numbers_around_powers_of_ten() {
    assert_eq!(decimal_string(10), "10");
    assert_eq!(decimal_string(99), "99");
    assert_eq!(decimal_string(100), "100");
    assert_eq!(decimal_string(101), "101");
    assert_eq!(decimal_string(1000), "1000");
    assert_eq!(decimal_string(65535), "65535");
    assert_eq!(decimal_string(1_000_000_007), "1000000007");
}

#[test]
fn largest_number() {
    assert_eq!(decimal_string(u64::MAX), "18446744073709551615");
}

#[test]
fn agrees_with_the_standard_formatting() {
    let mut n: u64 = 1;
    for _ in 0..64 {
        assert_eq!(decimal_string(n), n.to_string());
        assert_eq!(decimal_string(n.wrapping_sub(1)), n.wrapping_sub(1).to_string());
        n = n.wrapping_mul(3).wrapping_add(7);
    }
}
