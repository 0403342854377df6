use subcalc::cidr::{ends_in_prefix, is_digit_char, parse_cidr, Cidr};
use subcalc::count::checked_pow2;

#[test]
fn checked_pow2_values() {
    assert_eq!(checked_pow2(0), Some(1));
    assert_eq!(checked_pow2(1), Some(2));
    assert_eq!(checked_pow2(32), Some(4294967296));
    assert_eq!(checked_pow2(96), Some(79228162514264337593543950336));
    assert_eq!(checked_pow2(127), Some(170141183460469231731687303715884105728));
}

#[test]
fn checked_pow2_overflow_is_none() {
    assert_eq!(checked_pow2(128), None);
    assert_eq!(checked_pow2(129), None);
    assert_eq!(checked_pow2(u32::MAX), None);
}

#[test]
fn checked_pow2_agrees_with_std() {
    for e in 0u32..200 {
        assert_eq!(checked_pow2(e), 2u128.checked_pow(e));
    }
}

#[test]
fn digits() {
    assert!(is_digit_char('0'));
    assert!(is_digit_char('5'));
    assert!(is_digit_char('9'));
    assert!(!is_digit_char('/'));
    assert!(!is_digit_char(':'));
    assert!(!is_digit_char('a'));
    assert!(!is_digit_char('+'));
    assert!(!is_digit_char('\u{0663}'));
}

#[test]
fn prefix_part_present() {
    assert!(ends_in_prefix("10.0.0.0/8"));
    assert!(ends_in_prefix("::/0"));
    assert!(ends_in_prefix("/1"));
    assert!(ends_in_prefix("x/999"));
    assert!(ends_in_prefix("1/2/3"));
    assert!(ends_in_prefix("\u{00e9}\u{4e2d}/12"));
}

#[test]
fn prefix_part_absent() {
    assert!(!ends_in_prefix(""));
    assert!(!ends_in_prefix("/"));
    assert!(!ends_in_prefix("24"));
    assert!(!ends_in_prefix("10.0.0.0"));
    assert!(!ends_in_prefix("10.0.0.0/"));
    assert!(!ends_in_prefix("10.0.0.0/+8"));
    assert!(!ends_in_prefix("10.0.0.0/8 "));
    assert!(!ends_in_prefix("10.0.0.0/255.0.0.0"));
    assert!(!ends_in_prefix("10.0.0.0/8x"));
}

#[test]
fn parse_keeps_the_host_bits() {
    assert_eq!(parse_cidr("192.168.1.77/24"), Some(Cidr::V4 { addr: 0xC0A8_014D, prefix: 24 }));
    assert_eq!(
        parse_cidr("2001:db8::1/48"),
        Some(Cidr::V6 { addr: 0x2001_0db8_0000_0000_0000_0000_0000_0001, prefix: 48 })
    );
    assert_eq!(parse_cidr("0.0.0.0/0"), Some(Cidr::V4 { addr: 0, prefix: 0 }));
    assert_eq!(parse_cidr("::/0"), Some(Cidr::V6 { addr: 0, prefix: 0 }));
    assert_eq!(
        parse_cidr("255.255.255.255/32"),
        Some(Cidr::V4 { addr: 0xFFFF_FFFF, prefix: 32 })
    );
}

#[test]
fn parse_refuses_what_is_no_network() {
    assert_eq!(parse_cidr(""), None);
    assert_eq!(parse_cidr("10.0.0.0"), None);
    assert_eq!(parse_cidr("10.0.0.0/33"), None);
    assert_eq!(parse_cidr("::1/129"), None);
    assert_eq!(parse_cidr("10.0.0.0/255.255.255.0"), None);
    assert_eq!(parse_cidr("10.0.0.0/+8"), None);
    assert_eq!(parse_cidr("not-a-subnet"), None);
    assert_eq!(parse_cidr("hello/8"), None);
}

#[test]
fn version_and_prefix() {
    let v4 = Cidr::V4 { addr: 1, prefix: 7 };
    let v6 = Cidr::V6 { addr: 1, prefix: 99 };
    assert_eq!(v4.version(), 4);
    assert_eq!(v6.version(), 6);
    assert_eq!(v4.prefix(), 7);
    assert_eq!(v6.prefix(), 99);
}

#[test]
fn address_counts() {
    assert_eq!(Cidr::V4 { addr: 0, prefix: 0 }.address_count(), Some(1u128 << 32));
    assert_eq!(Cidr::V4 { addr: 0, prefix: 24 }.address_count(), Some(256));
    assert_eq!(Cidr::V4 { addr: 0, prefix: 32 }.address_count(), Some(1));
    assert_eq!(Cidr::V6 { addr: 0, prefix: 0 }.address_count(), Some(u128::MAX));
    assert_eq!(Cidr::V6 { addr: 0, prefix: 1 }.address_count(), Some(1u128 << 127));
    assert_eq!(Cidr::V6 { addr: 0, prefix: 64 }.address_count(), Some(1u128 << 64));
    assert_eq!(Cidr::V6 { addr: 0, prefix: 128 }.address_count(), Some(1));
}

#[test]
fn ipv4_range_texts() {
    let net = Cidr::V4 { addr: 0x0A01_0920, prefix: 16 };
    assert_eq!(net.network_text(), "10.1.0.0");
    assert_eq!(net.broadcast_text(), "10.1.255.255");
    let all = Cidr::V4 { addr: 0x0A01_0920, prefix: 0 };
    assert_eq!(all.network_text(), "0.0.0.0");
    assert_eq!(all.broadcast_text(), "255.255.255.255");
    let one = Cidr::V4 { addr: 0x0A01_0920, prefix: 32 };
    assert_eq!(one.network_text(), "10.1.9.32");
    assert_eq!(one.broadcast_text(), "10.1.9.32");
    let odd = Cidr::V4 { addr: 0xC0A8_4DC8, prefix: 31 };
    assert_eq!(odd.network_text(), "192.168.77.200");
    assert_eq!(odd.broadcast_text(), "192.168.77.201");
}

#[test]
fn ipv6_range_texts() {
    let net = Cidr::V6 { addr: 0x2001_0db8_0000_0000_0000_0000_dead_beef, prefix: 96 };
    assert_eq!(net.network_text(), "2001:db8::");
    assert_eq!(net.broadcast_text(), "2001:db8::ffff:ffff");
    let all = Cidr::V6 { addr: 0x2001_0db8_0000_0000_0000_0000_dead_beef, prefix: 0 };
    assert_eq!(all.network_text(), "::");
    assert_eq!(all.broadcast_text(), "ffff:ffff:ffff:ffff:ffff:ffff:ffff:ffff");
    let one = Cidr::V6 { addr: 0x2001_0db8_0000_0000_0000_0000_dead_beef, prefix: 128 };
    assert_eq!(one.network_text(), "2001:db8::dead:beef");
    assert_eq!(one.broadcast_text(), "2001:db8::dead:beef");
}
