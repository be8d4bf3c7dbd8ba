use socks5::protocol::{
    auth_reply, connect_reply, parse_greeting, parse_request_header, AddrKind, ProtocolError,
};

#[test]
fn auth_reply_is_version_and_no_auth() {
    assert_eq!(auth_reply(), vec![0x05, 0x00]);
}

#[test]
fn connect_reply_success_frame() {
    assert_eq!(connect_reply(true), vec![0x05, 0x00, 0x00, 0x01, 0, 0, 0, 0, 0, 0]);
}

#[test]
fn connect_reply_failure_frame() {
    assert_eq!(connect_reply(false), vec![0x05, 0x04, 0x00, 0x01, 0, 0, 0, 0, 0, 0]);
}

#[test]
fn greeting_version_five_yields_method_count() {
    assert_eq!(parse_greeting(&vec![0x05, 0x00]), Ok(0));
    assert_eq!(parse_greeting(&vec![0x05, 0x03]), Ok(3));
    assert_eq!(parse_greeting(&vec![0x05, 0xFF]), Ok(255));
}

#[test]
fn greeting_wrong_version_rejected() {
    assert_eq!(parse_greeting(&vec![0x04, 0x01]), Err(ProtocolError::BadVersion));
    assert_eq!(parse_greeting(&vec![0x00, 0x00]), Err(ProtocolError::BadVersion));
}

#[test]
fn request_header_ipv4() {
    assert_eq!(parse_request_header(&vec![0x05, 0x01, 0x00, 0x01]), Ok(AddrKind::Ipv4));
}

#[test]
fn request_header_domain() {
    assert_eq!(parse_request_header(&vec![0x05, 0x01, 0x00, 0x03]), Ok(AddrKind::Domain));
}

#[test]
fn request_header_wrong_version_rejected() {
    assert_eq!(
        parse_request_header(&vec![0x04, 0x01, 0x00, 0x01]),
        Err(ProtocolError::BadVersion)
    );
}

#[test]
fn request_header_non_connect_command_rejected() {
    // BIND
    assert_eq!(
        parse_request_header(&vec![0x05, 0x02, 0x00, 0x01]),
        Err(ProtocolError::UnsupportedCommand)
    );
    // UDP ASSOCIATE
    assert_eq!(
        parse_request_header(&vec![0x05, 0x03, 0x00, 0x01]),
        Err(ProtocolError::UnsupportedCommand)
    );
}

#[test]
fn request_header_ipv6_rejected() {
    assert_eq!(
        parse_request_header(&vec![0x05, 0x01, 0x00, 0x04]),
        Err(ProtocolError::UnsupportedAddressType)
    );
}

#[test]
fn request_header_unknown_atyp_rejected() {
    assert_eq!(
        parse_request_header(&vec![0x05, 0x01, 0x00, 0x22]),
        Err(ProtocolError::UnsupportedAddressType)
    );
    assert_eq!(
        parse_request_header(&vec![0x05, 0x01, 0x00, 0x00]),
        Err(ProtocolError::UnsupportedAddressType)
    );
}
