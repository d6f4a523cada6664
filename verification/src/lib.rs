//! Verified core of a SOCKS5-to-tunnel proxy.
//!
//! The client side speaks SOCKS5 to local applications and forwards their
//! traffic through a tunnel; the server side ends the tunnel and talks to
//! remote hosts. This crate holds the protocol logic of both sides: the
//! SOCKS5 handshake, the SOCKS5 UDP datagram format, the framing that UDP
//! payloads travel in through the tunnel, and the decisions of the relay
//! loops. Sockets, tasks and timers are left to the caller.

pub mod common;
pub mod wire;
pub mod text;
pub mod tl_frame;
pub mod relay;
pub mod client;
pub mod server;
pub mod udp_relay;
