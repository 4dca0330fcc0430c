use gm_maxminddb_geoip::info::asn_label;
use gm_maxminddb_geoip::text::{push_decimal, str_equals};

#[test]
fn asn_labels() {
    assert_eq!(asn_label(13335), "AS13335");
    assert_eq!(asn_label(0), "AS0");
    assert_eq!(asn_label(7), "AS7");
    assert_eq!(asn_label(10), "AS10");
    assert_eq!(asn_label(u32::MAX), "AS4294967295");
}

#[test]
fn decimal_appends() {
    let mut s = String::from("n=");
    push_decimal(&mut s, 1000);
    assert_eq!(s, "n=1000");
}

#[test]
fn string_equality() {
    assert!(str_equals("zh-CN", "zh-CN"));
    assert!(str_equals("", ""));
    assert!(!str_equals("zh", "zh-CN"));
    assert!(!str_equals("en", "de"));
    assert!(str_equals("Австралия", "Австралия"));
}
