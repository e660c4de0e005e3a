//! The SOCKS5 proxy that rides on the tunnel.

pub mod frontend;
pub mod protocol;
