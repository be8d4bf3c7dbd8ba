//! Core of a minimal SOCKS5 proxy server: the handshake and request parser,
//! the reply frames, and the session state machine that drives one client
//! connection from greeting to forwarding. All protocol decisions are made
//! here on plain byte values; the surrounding program performs the actual
//! socket reads, writes, dialing and forwarding as the state machine directs.

pub mod decimal;
pub mod protocol;
pub mod session;
pub mod target;
