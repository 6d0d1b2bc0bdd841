use dash::nav::v1::NavApi;
use dash::nav::NavService;
use dash::text::{find_bytes, parse_u8, str_eq, u8_to_decimal};
use dash::voice::{parse_intent, Intent};

#[test]
fn trim_removes_unicode_whitespace() {
    let mut nav = NavService::new();
    let status = nav.set_destination("  a b \t\n").unwrap();
    assert_eq!(status.destination.as_deref(), Some("a b"));
    let status = nav.set_destination("\u{85}\u{2028}x\u{205f}").unwrap();
    assert_eq!(status.destination.as_deref(), Some("x"));
    assert!(nav.set_destination("\u{3000}\u{1680}").is_err());
}

#[test]
fn lowercase_maps_ascii_and_beyond() {
    assert_eq!(
        parse_intent("SET THEME TO DARK"),
        Some(Intent::Setting { key: "theme".into(), value: "dark".into() })
    );
    assert_eq!(
        parse_intent("set ÜBER to x"),
        Some(Intent::Setting { key: "über".into(), value: "x".into() })
    );
}

#[test]
fn byte_search_reports_the_first_position() {
    assert_eq!(find_bytes(b"go to go to", b"go to"), Some(0));
    assert_eq!(find_bytes(b"let's go to", b"go to"), Some(6));
    assert_eq!(find_bytes(b"abc", b"abcd"), None);
    assert_eq!(find_bytes(b"abc", b""), Some(0));
    assert_eq!(find_bytes("née to".as_bytes(), b" to"), Some(4));
}

#[test]
fn exact_comparison() {
    assert!(str_eq("volume", "volume"));
    assert!(!str_eq("volume", "Volume"));
    assert!(!str_eq("vol", "volume"));
}

#[test]
fn u8_parsing_and_decimal_text() {
    assert_eq!(parse_u8("007"), Some(7));
    assert_eq!(parse_u8("+255"), Some(255));
    assert_eq!(parse_u8("256"), None);
    assert_eq!(parse_u8("-0"), None);
    assert_eq!(parse_u8(""), None);
    assert_eq!(u8_to_decimal(0), "0");
    assert_eq!(u8_to_decimal(10), "10");
    assert_eq!(u8_to_decimal(255), "255");
    for v in 0..=255u8 {
        assert_eq!(u8_to_decimal(v), v.to_string());
        assert_eq!(parse_u8(&v.to_string()), Some(v));
    }
}
