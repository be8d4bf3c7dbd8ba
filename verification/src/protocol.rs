//! The SOCKS5 wire protocol subset this server speaks: version and command
//! constants, the error taxonomy for a non-conformant client, the two fixed
//! reply frames, and the validation of the greeting and the request header.

use vstd::prelude::*;

verus! {

/// The SOCKS protocol version this server accepts.
pub const SOCKS_VERSION: u8 = 5;

/// The only command this server supports.
pub const CMD_CONNECT: u8 = 1;

/// Address type: 4-byte IPv4 address.
pub const ATYP_IPV4: u8 = 1;

/// Address type: length-prefixed domain name.
pub const ATYP_DOMAIN: u8 = 3;

/// A way the client's bytes can fail to conform to the protocol subset this
/// server speaks. Every such failure is terminal for the session.
#[derive(Debug, Clone, Copy, PartialEq, Eq, Structural)]
pub enum ProtocolError {
    /// A greeting or request whose version byte is not 5.
    BadVersion,
    /// A request whose command is not CONNECT.
    UnsupportedCommand,
    /// A request whose address type is neither IPv4 nor domain.
    UnsupportedAddressType,
}

/// The kind of destination descriptor that follows a valid request header.
#[derive(Debug, Clone, Copy, PartialEq, Eq, Structural)]
pub enum AddrKind {
    /// 4 address bytes, then 2 port bytes.
    Ipv4,
    /// 1 length byte, then that many name bytes, then 2 port bytes.
    Domain,
}

/// The auth reply frame: version 5, method "no authentication required".
pub open spec fn auth_reply_spec() -> Seq<u8> {
    seq![5u8, 0u8]
}

/// The CONNECT reply frame: version, reply code ("succeeded" on success,
/// "host unreachable" on a connect failure), reserved byte, IPv4 address
/// type, and a zeroed bind address and port.
pub open spec fn connect_reply_spec(success: bool) -> Seq<u8> {
    seq![5u8, if success { 0u8 } else { 4u8 }, 0u8, 1u8, 0u8, 0u8, 0u8, 0u8, 0u8, 0u8]
}

/// Builds the 2-byte auth reply.
pub fn auth_reply() -> (r: Vec<u8>)
    ensures
        r@ == auth_reply_spec(),
{
    let mut v: Vec<u8> = Vec::new();
    v.push(5);
    v.push(0);
    proof {
        assert(v@ =~= auth_reply_spec());
    }
    v
}

/// Builds the 10-byte CONNECT reply.
pub fn connect_reply(success: bool) -> (r: Vec<u8>)
    ensures
        r@ == connect_reply_spec(success),
{
    let mut v: Vec<u8> = Vec::new();
    v.push(5);
    if success {
        v.push(0);
    } else {
        v.push(4);
    }
    v.push(0);
    v.push(1);
    v.push(0);
    v.push(0);
    v.push(0);
    v.push(0);
    v.push(0);
    v.push(0);
    proof {
        assert(v@ =~= connect_reply_spec(success));
    }
    v
}

/// Validates the 2-byte greeting header and yields the number of offered
/// authentication methods. The method identifiers themselves are never
/// inspected, only counted, so nothing else is returned.
pub fn parse_greeting(b: &Vec<u8>) -> (r: Result<u8, ProtocolError>)
    requires
        b@.len() == 2,
    ensures
        b@[0] == SOCKS_VERSION ==> r == Ok::<u8, ProtocolError>(b@[1]),
        b@[0] != SOCKS_VERSION ==> r == Err::<u8, ProtocolError>(ProtocolError::BadVersion),
{
    if b[0] != SOCKS_VERSION {
        Err(ProtocolError::BadVersion)
    } else {
        Ok(b[1])
    }
}

/// Validates the 4-byte request header — version, command, reserved byte,
/// address type — and yields the kind of destination descriptor to read
/// next. The reserved byte is not inspected.
pub fn parse_request_header(b: &Vec<u8>) -> (r: Result<AddrKind, ProtocolError>)
    requires
        b@.len() == 4,
    ensures
        b@[0] != SOCKS_VERSION ==> r == Err::<AddrKind, ProtocolError>(ProtocolError::BadVersion),
        b@[0] == SOCKS_VERSION && b@[1] != CMD_CONNECT ==> r == Err::<AddrKind, ProtocolError>(
            ProtocolError::UnsupportedCommand,
        ),
        b@[0] == SOCKS_VERSION && b@[1] == CMD_CONNECT && b@[3] == ATYP_IPV4 ==> r == Ok::<
            AddrKind,
            ProtocolError,
        >(AddrKind::Ipv4),
        b@[0] == SOCKS_VERSION && b@[1] == CMD_CONNECT && b@[3] == ATYP_DOMAIN ==> r == Ok::<
            AddrKind,
            ProtocolError,
        >(AddrKind::Domain),
        b@[0] == SOCKS_VERSION && b@[1] == CMD_CONNECT && b@[3] != ATYP_IPV4 && b@[3]
            != ATYP_DOMAIN ==> r == Err::<AddrKind, ProtocolError>(
            ProtocolError::UnsupportedAddressType,
        ),
{
    if b[0] != SOCKS_VERSION {
        Err(ProtocolError::BadVersion)
    } else if b[1] != CMD_CONNECT {
        Err(ProtocolError::UnsupportedCommand)
    } else if b[3] == ATYP_IPV4 {
        Ok(AddrKind::Ipv4)
    } else if b[3] == ATYP_DOMAIN {
        Ok(AddrKind::Domain)
    } else {
        Err(ProtocolError::UnsupportedAddressType)
    }
}

} // verus!
