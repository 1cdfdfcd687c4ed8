//! The server end of the tunnel: its settings, the check of the shared
//! secret, and what to do with the first message of a connection.

use crate::codec::packet::{packet_reads_back, parse_packet, Packet, PacketParse, PacketView};
use crate::codec::socks5::{Addr, AddrView};
use crate::error::{ProxyError, ProxyErrorView};
use crate::trusted::{message_data, message_is_binary};
use tokio_tungstenite::tungstenite::{Error, Message};
use vstd::prelude::*;
use vstd::string::{StringExecFns, StringSliceAdditionalSpecFns};

verus! {

/// The settings of a server, all of them present.
#[derive(Debug)]
pub struct Server {
    listen_addr: String,
    cert_pem_path: String,
    cert_key_path: String,
    authorization: String,
}

/// What to do with a connection after its first message.
#[derive(Debug)]
pub enum ServeStep {
    /// Connect to this address and splice the two streams.
    Dial(Addr),
    /// The peer is gone; end quietly.
    Stop,
    /// End with this error.
    Fail(ProxyError),
}

/// The mathematical content of a [`ServeStep`].
pub enum ServeStepView {
    Dial(AddrView),
    Stop,
    Fail(ProxyErrorView),
}

impl View for ServeStep {
    type V = ServeStepView;

    open spec fn view(&self) -> ServeStepView {
        match *self {
            ServeStep::Dial(addr) => ServeStepView::Dial(addr@),
            ServeStep::Stop => ServeStepView::Stop,
            ServeStep::Fail(e) => ServeStepView::Fail(e@),
        }
    }
}

/// The text of the error for a first packet that is no connect packet.
pub open spec fn connect_expected_detail() -> Seq<char> {
    "expected a connect packet"@
}

/// What the first message of a connection asks for: a connect packet names
/// the address to dial, any other packet breaks the protocol, and what is
/// no packet fails as its reading does.
pub open spec fn first_message(msg: Message) -> ServeStepView {
    if !message_is_binary(msg) {
        ServeStepView::Fail(ProxyErrorView::PacketNotBinaryMessage)
    } else {
        match parse_packet(message_data(msg)) {
            PacketParse::Complete(PacketView::Connect(addr)) => ServeStepView::Dial(addr),
            PacketParse::Complete(_) => ServeStepView::Fail(
                ProxyErrorView::Unknown(connect_expected_detail()),
            ),
            failure => ServeStepView::Fail(failure.error()),
        }
    }
}

/// The message that a client makes of a connect packet is, when it comes
/// first, the order to dial the address of the packet.
pub proof fn connect_message_is_dialled(msg: Message, addr: AddrView)
    requires
        addr is Domain || addr.wf(),
        message_is_binary(msg),
        message_data(msg) == PacketView::Connect(addr).bytes(),
    ensures
        first_message(msg) == ServeStepView::Dial(addr),
{
    packet_reads_back(PacketView::Connect(addr));
}

impl Server {
    pub closed spec fn listen_addr(&self) -> Seq<char> {
        self.listen_addr@
    }

    pub closed spec fn cert_pem_path(&self) -> Seq<char> {
        self.cert_pem_path@
    }

    pub closed spec fn cert_key_path(&self) -> Seq<char> {
        self.cert_key_path@
    }

    pub closed spec fn authorization(&self) -> Seq<char> {
        self.authorization@
    }

    /// The settings of a server. Each of the four must be given: an empty
    /// one is refused.
    pub fn new(
        listen_addr: String,
        cert_pem_path: String,
        cert_key_path: String,
        authorization: String,
    ) -> (r: Result<Self, ProxyError>)
        ensures
            match r {
                Ok(server) => {
                    &&& listen_addr@.len() > 0
                    &&& cert_pem_path@.len() > 0
                    &&& cert_key_path@.len() > 0
                    &&& authorization@.len() > 0
                    &&& server.listen_addr() == listen_addr@
                    &&& server.cert_pem_path() == cert_pem_path@
                    &&& server.cert_key_path() == cert_key_path@
                    &&& server.authorization() == authorization@
                },
                Err(e) => {
                    &&& e@ == ProxyErrorView::EmptyParams
                    &&& listen_addr@.len() == 0 || cert_pem_path@.len() == 0 || cert_key_path@.len()
                        == 0 || authorization@.len() == 0
                },
            },
    {
        if listen_addr.as_str().is_empty() || cert_pem_path.as_str().is_empty()
            || cert_key_path.as_str().is_empty() || authorization.as_str().is_empty() {
            return Err(ProxyError::EmptyParams);
        }
        Ok(Self { listen_addr, cert_pem_path, cert_key_path, authorization })
    }

    /// The address to listen on.
    pub fn listen_on(&self) -> (s: &str)
        ensures
            s@ == self.listen_addr(),
    {
        self.listen_addr.as_str()
    }

    /// The path of the certificate chain.
    pub fn cert_pem(&self) -> (s: &str)
        ensures
            s@ == self.cert_pem_path(),
    {
        self.cert_pem_path.as_str()
    }

    /// The path of the private key.
    pub fn cert_key(&self) -> (s: &str)
        ensures
            s@ == self.cert_key_path(),
    {
        self.cert_key_path.as_str()
    }

    /// Whether a client that presented these bytes in its `Authorization`
    /// header may open a tunnel: only when they are, byte for byte, the
    /// shared secret. A client that presented none may not.
    pub fn authorized(&self, presented: Option<&[u8]>) -> (ok: bool)
        ensures
            ok == match presented {
                Some(bytes) => bytes@ == vstd::utf8::encode_utf8(self.authorization()),
                None => false,
            },
    {
        let bytes = match presented {
            Some(bytes) => bytes,
            None => {
                return false;
            },
        };
        let secret = self.authorization.as_str().as_bytes();
        if bytes.len() != secret.len() {
            return false;
        }
        let mut i: usize = 0;
        while i < bytes.len()
            invariant
                i <= bytes@.len() == secret@.len(),
                presented == Some(bytes),
                secret@ == vstd::utf8::encode_utf8(self.authorization()),
                forall|k: int| 0 <= k < i ==> bytes@[k] == secret@[k],
            decreases bytes@.len() - i,
        {
            if bytes[i] != secret[i] {
                return false;
            }
            i += 1;
        }
        assert(bytes@ =~= secret@);
        true
    }

    /// The body of the answer to a client that may not open a tunnel.
    pub fn rejection() -> (body: String)
        ensures
            body@ == "invalid authorization"@,
    {
        String::from_str("invalid authorization")
    }

    /// Decides what to do after the first thing that a fresh connection
    /// delivered. When it ends or fails before any message, there is
    /// nothing to serve.
    pub fn first_step(item: Option<Result<Message, Error>>) -> (step: ServeStep)
        ensures
            step@ == match item {
                None => ServeStepView::Stop,
                Some(Err(_)) => ServeStepView::Stop,
                Some(Ok(msg)) => first_message(msg),
            },
    {
        match item {
            None => ServeStep::Stop,
            Some(Err(_)) => ServeStep::Stop,
            Some(Ok(msg)) => match Packet::to_packet(msg) {
                Ok(Packet::Connect(addr)) => ServeStep::Dial(addr),
                Ok(_) => ServeStep::Fail(
                    ProxyError::Unknown(String::from_str("expected a connect packet")),
                ),
                Err(e) => ServeStep::Fail(e),
            },
        }
    }
}

} // verus!
