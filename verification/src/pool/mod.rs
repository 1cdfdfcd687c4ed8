//! A pool of reusable outbound connections.

pub mod make_connection;
pub mod pool;

pub use pool::{settle, Checkout, Elem, ElemBuilder, Inner, Placement, Settled, Winner};
