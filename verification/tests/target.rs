use socks5::decimal::u16_dec;
use socks5::target::{domain_target, ipv4_target, port_of};

#[test]
fn decimal_single_digits() {
    assert_eq!(u16_dec(0), "0");
    assert_eq!(u16_dec(7), "7");
    assert_eq!(u16_dec(9), "9");
}

#[test]
fn decimal_multi_digits() {
    assert_eq!(u16_dec(10), "10");
    assert_eq!(u16_dec(80), "80");
    assert_eq!(u16_dec(255), "255");
    assert_eq!(u16_dec(8080), "8080");
    assert_eq!(u16_dec(65535), "65535");
}

#[test]
fn port_big_endian() {
    assert_eq!(port_of(0x1F, 0x90), 8080);
    assert_eq!(port_of(0x01, 0xBB), 443);
    assert_eq!(port_of(0x00, 0x00), 0);
    assert_eq!(port_of(0xFF, 0xFF), 65535);
}

#[test]
fn ipv4_loopback_8080() {
    let t = ipv4_target(&vec![127, 0, 0, 1, 0x1F, 0x90]);
    assert_eq!(t, "127.0.0.1:8080");
}

#[test]
fn ipv4_extreme_octets() {
    let t = ipv4_target(&vec![0, 255, 10, 1, 0x00, 0x50]);
    assert_eq!(t, "0.255.10.1:80");
}

#[test]
fn domain_example_443() {
    let mut b: Vec<u8> = b"example.c".to_vec();
    b.push(0x01);
    b.push(0xBB);
    assert_eq!(domain_target(&b), "example.c:443");
}

#[test]
fn domain_empty_name() {
    let b: Vec<u8> = vec![0x01, 0xBB];
    assert_eq!(domain_target(&b), ":443");
}

#[test]
fn domain_invalid_utf8_is_replaced() {
    let b: Vec<u8> = vec![0xFF, 0x01, 0xBB];
    assert_eq!(domain_target(&b), "\u{FFFD}:443");
}
