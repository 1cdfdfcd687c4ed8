//! Core of a tunnelling proxy: a SOCKS5 front end whose streams travel as
//! framed packets over pooled WebSocket connections.
//!
//! Everything here works on plain values. Sockets, TLS and task scheduling
//! belong to the program built around this library.

pub mod error;
pub mod trusted;
pub mod codec;
pub mod pool;
pub mod socks5;
pub mod util;
pub mod server;
pub mod client;
