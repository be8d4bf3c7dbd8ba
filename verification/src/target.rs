//! Building the `host:port` target string from the destination descriptor of
//! a CONNECT request: either a 4-byte IPv4 address or a length-prefixed
//! domain name, each followed by a 2-byte big-endian port.

use vstd::prelude::*;
use crate::decimal::{dec_digits, u16_dec};

verus! {

/// The port value encoded by two big-endian bytes.
pub open spec fn port_val(hi: u8, lo: u8) -> nat {
    hi as nat * 256 + lo as nat
}

/// Decodes a big-endian 2-byte port.
pub fn port_of(hi: u8, lo: u8) -> (r: u16)
    ensures
        r as nat == port_val(hi, lo),
{
    (hi as u16) * 256 + (lo as u16)
}

/// What `String::from_utf8_lossy` decodes a byte sequence to.
pub uninterp spec fn lossy_of(bytes: Seq<u8>) -> Seq<char>;

/// Relies on `String::from_utf8_lossy`: the result depends on the bytes
/// alone, and valid UTF-8 input — in particular pure ASCII — decodes to
/// exactly those characters, one per byte.
#[verifier::external_body]
fn lossy_utf8(bytes: &[u8]) -> (r: String)
    ensures
        r@ == lossy_of(bytes@),
        (forall|i: int| 0 <= i < bytes@.len() ==> bytes@[i] < 0x80) ==> r@ == bytes@.map_values(
            |b: u8| b as char,
        ),
{
    String::from_utf8_lossy(bytes).into_owned()
}

fn dot_str() -> (r: &'static str)
    ensures
        r@ == seq!['.'],
{
    proof {
        reveal_strlit(".");
    }
    let r = ".";
    proof {
        assert(r@ =~= seq!['.']);
    }
    r
}

fn colon_str() -> (r: &'static str)
    ensures
        r@ == seq![':'],
{
    proof {
        reveal_strlit(":");
    }
    let r = ":";
    proof {
        assert(r@ =~= seq![':']);
    }
    r
}

/// The dotted-quad-and-port notation `a.b.c.d:port`.
pub open spec fn ipv4_target_spec(a: u8, b: u8, c: u8, d: u8, port: nat) -> Seq<char> {
    dec_digits(a as nat) + seq!['.'] + dec_digits(b as nat) + seq!['.'] + dec_digits(c as nat)
        + seq!['.'] + dec_digits(d as nat) + seq![':'] + dec_digits(port)
}

/// The target notation `name:port`, where `name` is the lossy UTF-8 decoding
/// of the domain bytes.
pub open spec fn domain_target_spec(domain: Seq<u8>, port: nat) -> Seq<char> {
    lossy_of(domain) + seq![':'] + dec_digits(port)
}

/// Formats the six bytes of an IPv4 destination descriptor — four address
/// octets, then the big-endian port — as `a.b.c.d:port`.
pub fn ipv4_target(b: &Vec<u8>) -> (r: String)
    requires
        b@.len() == 6,
    ensures
        r@ == ipv4_target_spec(b@[0], b@[1], b@[2], b@[3], port_val(b@[4], b@[5])),
{
    let mut s = u16_dec(b[0] as u16);
    s.append(dot_str());
    let o1 = u16_dec(b[1] as u16);
    s.append(o1.as_str());
    s.append(dot_str());
    let o2 = u16_dec(b[2] as u16);
    s.append(o2.as_str());
    s.append(dot_str());
    let o3 = u16_dec(b[3] as u16);
    s.append(o3.as_str());
    s.append(colon_str());
    let p = u16_dec(port_of(b[4], b[5]));
    s.append(p.as_str());
    proof {
        assert(s@ =~= ipv4_target_spec(b@[0], b@[1], b@[2], b@[3], port_val(b@[4], b@[5])));
    }
    s
}

/// Formats a domain destination descriptor as `name:port`. The buffer holds
/// the domain bytes followed by the two big-endian port bytes.
pub fn domain_target(b: &Vec<u8>) -> (r: String)
    requires
        b@.len() >= 2,
    ensures
        r@ == domain_target_spec(
            b@.subrange(0, b@.len() as int - 2),
            port_val(b@[b@.len() as int - 2], b@[b@.len() as int - 1]),
        ),
{
    let n = b.len();
    let domain = vstd::slice::slice_subrange(b.as_slice(), 0, n - 2);
    let mut s = lossy_utf8(domain);
    s.append(colon_str());
    let p = u16_dec(port_of(b[n - 2], b[n - 1]));
    s.append(p.as_str());
    proof {
        assert(s@ =~= domain_target_spec(
            b@.subrange(0, b@.len() as int - 2),
            port_val(b@[b@.len() as int - 2], b@[b@.len() as int - 1]),
        ));
    }
    s
}

} // verus!
