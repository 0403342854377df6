use subcalc::text::{append_octet, digit_str, format_ipv4};

#[test]
fn digit_texts() {
    let all: Vec<&str> = (0u8..10).map(digit_str).collect();
    assert_eq!(all, vec!["0", "1", "2", "3", "4", "5", "6", "7", "8", "9"]);
}

#[test]
fn octets_have_no_leading_zeros() {
    for n in 0u8..=255 {
        let mut out = String::from("x");
        append_octet(&mut out, n);
        assert_eq!(out, format!("x{}", n));
    }
}

#[test]
fn dotted_decimal_values() {
    assert_eq!(format_ipv4(0), "0.0.0.0");
    assert_eq!(format_ipv4(u32::MAX), "255.255.255.255");
    assert_eq!(format_ipv4(0xC0A8_0100), "192.168.1.0");
    assert_eq!(format_ipv4(0x0A00_0001), "10.0.0.1");
    assert_eq!(format_ipv4(0x0102_0304), "1.2.3.4");
    assert_eq!(format_ipv4(0x6409_0A63), "100.9.10.99");
}

#[test]
fn dotted_decimal_is_read_back_as_the_same_address() {
    for addr in [0u32, 1, 255, 256, 0x7F00_0001, 0xAC10_FE01, 0xFFFF_FF00, u32::MAX] {
        let text = format!("{}/32", format_ipv4(addr));
        assert_eq!(
            subcalc::cidr::parse_cidr(&text),
            Some(subcalc::cidr::Cidr::V4 { addr, prefix: 32 })
        );
    }
}
