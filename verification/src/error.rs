//! The error type shared by every part of the proxy.

use vstd::prelude::*;

verus! {

/// Everything that can go wrong while serving one tunnelled stream or while
/// preparing to serve.
#[derive(Debug)]
pub enum ProxyError {
    /// The SOCKS version byte was not 5; the byte is kept.
    UnsupportedSocksType(u8),
    /// The client offered no authentication method that is accepted.
    UnsupportedMethodType,
    /// The address type byte is none of IPv4, domain name, IPv6.
    UnsupportedAddrType,
    /// The command byte is unknown, or names a command other than CONNECT.
    UnsupportedCommand,
    /// A reply code outside the defined range.
    InvalidRepCode,
    /// The first byte of a tunnel packet is no known tag.
    InvalidPacketType,
    /// A WebSocket message that should carry a packet is not binary.
    PacketNotBinaryMessage,
    /// A required configuration parameter is empty.
    EmptyParams,
    /// No usable private key was found.
    InvalidPrivateKey,
    /// The certificate chain could not be read.
    InvalidCert,
    /// The transport ended or failed underneath.
    Disconnect(std::io::Error),
    /// The WebSocket layer reported an error.
    TungsteniteError(tokio_tungstenite::tungstenite::Error),
    /// The two halves of a split stream could not be joined again.
    ReuniteError,
    /// A violation of the protocol that has no variant of its own.
    Unknown(String),
}

/// What an error says, without the outside values that it may carry.
pub enum ProxyErrorView {
    UnsupportedSocksType(u8),
    UnsupportedMethodType,
    UnsupportedAddrType,
    UnsupportedCommand,
    InvalidRepCode,
    InvalidPacketType,
    PacketNotBinaryMessage,
    EmptyParams,
    InvalidPrivateKey,
    InvalidCert,
    Disconnect,
    TungsteniteError,
    ReuniteError,
    Unknown(Seq<char>),
}

impl View for ProxyError {
    type V = ProxyErrorView;

    open spec fn view(&self) -> ProxyErrorView {
        match *self {
            ProxyError::UnsupportedSocksType(version) => ProxyErrorView::UnsupportedSocksType(
                version,
            ),
            ProxyError::UnsupportedMethodType => ProxyErrorView::UnsupportedMethodType,
            ProxyError::UnsupportedAddrType => ProxyErrorView::UnsupportedAddrType,
            ProxyError::UnsupportedCommand => ProxyErrorView::UnsupportedCommand,
            ProxyError::InvalidRepCode => ProxyErrorView::InvalidRepCode,
            ProxyError::InvalidPacketType => ProxyErrorView::InvalidPacketType,
            ProxyError::PacketNotBinaryMessage => ProxyErrorView::PacketNotBinaryMessage,
            ProxyError::EmptyParams => ProxyErrorView::EmptyParams,
            ProxyError::InvalidPrivateKey => ProxyErrorView::InvalidPrivateKey,
            ProxyError::InvalidCert => ProxyErrorView::InvalidCert,
            ProxyError::Disconnect(_) => ProxyErrorView::Disconnect,
            ProxyError::TungsteniteError(_) => ProxyErrorView::TungsteniteError,
            ProxyError::ReuniteError => ProxyErrorView::ReuniteError,
            ProxyError::Unknown(detail) => ProxyErrorView::Unknown(detail@),
        }
    }
}

pub type ProxyResult<T> = Result<T, ProxyError>;

} // verus!
