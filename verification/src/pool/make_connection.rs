//! What it takes to open a fresh connection to the server.

use std::sync::Arc;
use vstd::prelude::*;

verus! {

/// The address of the server and the secret to present to it. A clone of
/// this is handed to whatever opens the next connection.
#[derive(Debug, Clone)]
pub struct MakeWebsocketStreamConnection {
    /// The URL to open the WebSocket on.
    pub server_url: Arc<String>,
    /// The value of the `Authorization` header.
    pub authorization: Arc<String>,
}

impl MakeWebsocketStreamConnection {
    pub fn new(server_url: String, authorization: String) -> (mt: Self)
        ensures
            mt.server_url@ == server_url@,
            mt.authorization@ == authorization@,
    {
        Self { server_url: Arc::new(server_url), authorization: Arc::new(authorization) }
    }
}

} // verus!
