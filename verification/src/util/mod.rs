//! What the byte-stream side of a tunnelled connection decides.

pub mod copy;
pub mod ssl;
pub mod websocket_connection;
