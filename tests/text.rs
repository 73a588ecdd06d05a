use mcli::text::{append_u16, parse_port, u16_to_decimal};

#[test]
fn decimal_writing() {
    assert_eq!(u16_to_decimal(0), "0");
    assert_eq!(u16_to_decimal(7), "7");
    assert_eq!(u16_to_decimal(10), "10");
    assert_eq!(u16_to_decimal(25565), "25565");
    assert_eq!(u16_to_decimal(65535), "65535");
    let mut s = "n=".to_string();
    append_u16(&mut s, 120);
    assert_eq!(s, "n=120");
}

#[test]
fn port_parsing() {
    assert_eq!(parse_port("0"), Some(0));
    assert_eq!(parse_port("007"), Some(7));
    assert_eq!(parse_port("25565"), Some(25565));
    assert_eq!(parse_port("65535"), Some(65535));
    assert_eq!(parse_port("65536"), None);
    assert_eq!(parse_port("99999999999999999999"), None);
    assert_eq!(parse_port(""), None);
    assert_eq!(parse_port("-1"), None);
    assert_eq!(parse_port("+1"), None);
    assert_eq!(parse_port("8 0"), None);
    assert_eq!(parse_port("٣"), None);
}
