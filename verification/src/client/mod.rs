//! The client end of the tunnel: its settings.

use crate::error::{ProxyError, ProxyErrorView};
use crate::pool::make_connection::MakeWebsocketStreamConnection;
use vstd::prelude::*;
use vstd::string::StringExecFns;

verus! {

/// The settings of a client.
#[derive(Debug)]
pub struct Client {
    listen_addr: String,
    mt: MakeWebsocketStreamConnection,
}

/// The URL of the server whose host is `host`: the host between `wss://`
/// and a slash.
pub open spec fn server_url(host: Seq<char>) -> Seq<char> {
    "wss://"@ + host + "/"@
}

impl Client {
    pub closed spec fn listen_addr(&self) -> Seq<char> {
        self.listen_addr@
    }

    pub closed spec fn maker(&self) -> MakeWebsocketStreamConnection {
        self.mt
    }

    /// The settings of a client that listens on `listen_addr` and tunnels
    /// to the server at `proxy_addr`, to which it presents `authorization`.
    /// The server must be named: an empty `proxy_addr` is refused.
    pub fn new(listen_addr: String, proxy_addr: String, authorization: String) -> (r: Result<
        Self,
        ProxyError,
    >)
        ensures
            match r {
                Ok(client) => {
                    &&& proxy_addr@.len() > 0
                    &&& client.listen_addr() == listen_addr@
                    &&& client.maker().server_url@ == server_url(proxy_addr@)
                    &&& client.maker().authorization@ == authorization@
                },
                Err(e) => proxy_addr@.len() == 0 && e@ == ProxyErrorView::EmptyParams,
            },
    {
        if proxy_addr.as_str().is_empty() {
            return Err(ProxyError::EmptyParams);
        }
        let url = String::from_str("wss://").concat(proxy_addr.as_str()).concat("/");
        Ok(Self { listen_addr, mt: MakeWebsocketStreamConnection::new(url, authorization) })
    }

    /// The address to listen on.
    pub fn listen_on(&self) -> (s: &str)
        ensures
            s@ == self.listen_addr(),
    {
        self.listen_addr.as_str()
    }

    /// What opens connections to the server.
    pub fn connector(&self) -> (mt: &MakeWebsocketStreamConnection)
        ensures
            *mt == self.maker(),
    {
        &self.mt
    }
}

} // verus!
