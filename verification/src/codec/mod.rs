//! Wire formats: SOCKS5 values and the packets of the tunnel.

pub mod packet;
pub mod socks5;

pub use packet::Packet;
pub use socks5::{Addr, Command, MethodType, RepCode, Target};
pub use socks5::{ADDR_DOMAIN, ADDR_IPV4, ADDR_IPV6};
