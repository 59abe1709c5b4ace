//! Shared protocol code of the FTLS tunnel: the framing that wraps every
//! postcard-encoded message (a magic header and a little-endian length), the
//! messages themselves, and the decisions that the client and the server make
//! while they shake hands and relay traffic.

pub mod flavor;
pub mod message;
pub mod text;
pub mod handshake;
pub mod server;
pub mod socks5;
pub mod dns;
pub mod tun;
pub mod laws;
