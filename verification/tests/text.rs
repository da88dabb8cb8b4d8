use native_bridge::text::str_eq;
use native_bridge::text::u16_to_dec;

#[test]
fn decimal_of_zero_is_a_single_digit() {
    assert_eq!(u16_to_dec(0), "0");
}

#[test]
fn decimal_of_small_and_large_ports() {
    assert_eq!(u16_to_dec(7), "7");
    assert_eq!(u16_to_dec(80), "80");
    assert_eq!(u16_to_dec(8080), "8080");
    assert_eq!(u16_to_dec(65535), "65535");
}

#[test]
fn string_equality_agrees_with_rust() {
    assert!(str_eq("code", "code"));
    assert!(str_eq("", ""));
    assert!(!str_eq("code", "Code"));
    assert!(!str_eq("code", "codes"));
    assert!(!str_eq("codes", "code"));
    assert!(str_eq("naïve", "naïve"));
    assert!(!str_eq("naïve", "naive"));
}
