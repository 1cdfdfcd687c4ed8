//! The packets of the tunnel, one to a binary WebSocket message.

use super::socks5::{
    parse_tunnel, port_le, push_all, tunnel_form_reads_back, Addr, AddrView, TunnelParse,
    ADDR_DOMAIN, ADDR_IPV4, ADDR_IPV6,
};
use crate::error::{ProxyError, ProxyErrorView};
use crate::trusted::{
    binary_message, into_data, is_binary, message_data, message_is_binary, read_u8, write_u16_le,
    write_u8,
};
use tokio_tungstenite::tungstenite::Message;
use vstd::prelude::*;
use vstd::slice::{slice_subrange, slice_to_vec};

verus! {

/// Tag of a packet that opens a stream to an address.
pub const PACKET_CONNECT: u8 = 1;

/// Tag of a packet that carries bytes of the stream.
pub const PACKET_DATA: u8 = 2;

/// Tag of a packet that ends the stream and leaves the connection open.
pub const PACKET_CLOSE: u8 = 3;

/// One frame on the tunnel.
#[derive(Debug, PartialEq, Eq)]
pub enum Packet {
    Connect(Addr),
    Data(Vec<u8>),
    Close(),
}

/// The mathematical content of a [`Packet`].
pub enum PacketView {
    Connect(AddrView),
    Data(Seq<u8>),
    Close,
}

impl View for Packet {
    type V = PacketView;

    open spec fn view(&self) -> PacketView {
        match *self {
            Packet::Connect(addr) => PacketView::Connect(addr@),
            Packet::Data(data) => PacketView::Data(data@),
            Packet::Close() => PacketView::Close,
        }
    }
}

impl PacketView {
    /// The payload of the message that carries this packet: the tag, then
    /// the tunnel form of the address, or the bytes of the stream, or
    /// nothing.
    pub open spec fn bytes(self) -> Seq<u8> {
        match self {
            PacketView::Connect(addr) => seq![PACKET_CONNECT] + addr.tunnel_bytes(),
            PacketView::Data(data) => seq![PACKET_DATA] + data,
            PacketView::Close => seq![PACKET_CLOSE],
        }
    }
}

/// What a message's payload is, read as a packet.
pub enum PacketParse {
    Complete(PacketView),
    /// There is no tag: the payload is empty.
    Empty,
    /// The tag is none of the three.
    UnknownTag,
    /// The tag says connect, and what follows is no address, for the reason
    /// given.
    BadAddr(TunnelParse),
}

/// Reads a payload as a packet. What follows the tag of a close packet is
/// ignored.
pub open spec fn parse_packet(b: Seq<u8>) -> PacketParse {
    if b.len() == 0 {
        PacketParse::Empty
    } else if b[0] == PACKET_CONNECT {
        match parse_tunnel(b.subrange(1, b.len() as int)) {
            TunnelParse::Complete(addr) => PacketParse::Complete(PacketView::Connect(addr)),
            failure => PacketParse::BadAddr(failure),
        }
    } else if b[0] == PACKET_DATA {
        PacketParse::Complete(PacketView::Data(b.subrange(1, b.len() as int)))
    } else if b[0] == PACKET_CLOSE {
        PacketParse::Complete(PacketView::Close)
    } else {
        PacketParse::UnknownTag
    }
}

impl PacketParse {
    /// The error that stands for a failed reading: the reader's
    /// end-of-input error for an empty payload, the error of the address
    /// for a bad address, and otherwise what the variant says.
    pub open spec fn error(self) -> ProxyErrorView {
        match self {
            PacketParse::Empty => ProxyErrorView::Disconnect,
            PacketParse::BadAddr(failure) => failure.error(),
            _ => ProxyErrorView::InvalidPacketType,
        }
    }
}

/// Whether `r` is what reading the payload `b` as a packet must give.
pub open spec fn reads_as(b: Seq<u8>, r: Result<Packet, ProxyError>) -> bool {
    match parse_packet(b) {
        PacketParse::Complete(packet) => r matches Ok(found) && found@ == packet,
        failure => r matches Err(e) && e@ == failure.error(),
    }
}

/// Appends the type byte and the port of the tunnel form to `msg`.
fn write_addr_head(msg: &mut Vec<u8>, addr_type: u8, port: u16) -> (r: Result<(), ProxyError>)
    ensures
        r is Ok,
        final(msg)@ == old(msg)@ + seq![addr_type] + port_le(port),
{
    match write_u8(msg, addr_type) {
        Ok(()) => {},
        Err(e) => {
            return Err(ProxyError::Disconnect(e));
        },
    }
    match write_u16_le(msg, port) {
        Ok(()) => {},
        Err(e) => {
            return Err(ProxyError::Disconnect(e));
        },
    }
    assert(msg@ =~= old(msg)@ + seq![addr_type] + port_le(port));
    Ok(())
}

impl Packet {
    /// The binary message that carries this packet. It is always made.
    pub fn to_message(self) -> (r: Result<Message, ProxyError>)
        ensures
            r matches Ok(msg) && message_is_binary(msg) && message_data(msg) == self@.bytes(),
    {
        match self {
            Packet::Connect(addr) => {
                let mut msg: Vec<u8> = Vec::new();
                msg.push(PACKET_CONNECT);
                match addr {
                    Addr::IpV4((octets, port)) => {
                        write_addr_head(&mut msg, ADDR_IPV4, port)?;
                        push_all(&mut msg, octets.as_slice());
                    },
                    Addr::Domain((name, port)) => {
                        write_addr_head(&mut msg, ADDR_DOMAIN, port)?;
                        push_all(&mut msg, name.as_str().as_bytes());
                    },
                    Addr::IpV6((octets, port)) => {
                        write_addr_head(&mut msg, ADDR_IPV6, port)?;
                        push_all(&mut msg, octets.as_slice());
                    },
                }
                assert(msg@ =~= self@.bytes());
                Ok(binary_message(msg))
            },
            Packet::Data(data) => {
                let mut msg: Vec<u8> = Vec::with_capacity(1);
                msg.push(PACKET_DATA);
                push_all(&mut msg, data.as_slice());
                Ok(binary_message(msg))
            },
            Packet::Close() => {
                let mut msg: Vec<u8> = Vec::new();
                msg.push(PACKET_CLOSE);
                assert(msg@ =~= self@.bytes());
                Ok(binary_message(msg))
            },
        }
    }

    /// Reads the payload of a binary message as a packet.
    ///
    /// An empty payload makes the reader's end-of-input error, an unknown
    /// tag is refused, and a connect packet fails as its address does.
    pub fn from_bytes(data: &[u8]) -> (r: Result<Packet, ProxyError>)
        ensures
            reads_as(data@, r),
    {
        let tag = match read_u8(data) {
            Ok(byte) => byte,
            Err(e) => {
                return Err(ProxyError::Disconnect(e));
            },
        };
        let rest = slice_subrange(data, 1, data.len());
        if tag == PACKET_CONNECT {
            match Addr::from_bytes(rest) {
                Ok(addr) => Ok(Packet::Connect(addr)),
                Err(e) => Err(e),
            }
        } else if tag == PACKET_DATA {
            Ok(Packet::Data(slice_to_vec(rest)))
        } else if tag == PACKET_CLOSE {
            Ok(Packet::Close())
        } else {
            Err(ProxyError::InvalidPacketType)
        }
    }

    /// Reads a message as a packet. A message that is not binary is refused;
    /// the payload of a binary one is read as [`Packet::from_bytes`] reads
    /// it.
    pub fn to_packet(msg: Message) -> (r: Result<Packet, ProxyError>)
        ensures
            if message_is_binary(msg) {
                reads_as(message_data(msg), r)
            } else {
                r matches Err(e) && e@ == ProxyErrorView::PacketNotBinaryMessage
            },
    {
        if !is_binary(&msg) {
            return Err(ProxyError::PacketNotBinaryMessage);
        }
        let data = into_data(msg);
        Packet::from_bytes(data.as_slice())
    }
}

/// Reading back the payload of a packet's message gives that packet.
pub proof fn packet_reads_back(packet: PacketView)
    requires
        packet matches PacketView::Connect(addr) ==> addr is Domain || addr.wf(),
    ensures
        parse_packet(packet.bytes()) == PacketParse::Complete(packet),
{
    let b = packet.bytes();
    match packet {
        PacketView::Connect(addr) => {
            tunnel_form_reads_back(addr);
            assert(b.subrange(1, b.len() as int) =~= addr.tunnel_bytes());
        },
        PacketView::Data(data) => {
            assert(b.subrange(1, b.len() as int) =~= data);
        },
        PacketView::Close => {},
    }
}

} // verus!
