//! The decisions of the adapter that lets a WebSocket carry a byte stream:
//! what a reader gets for each thing that arrives, and which message goes
//! out for a write and for a shutdown.
//!
//! The adapter itself lives with the sockets. It asks these functions and
//! does as they say.

use crate::codec::packet::{
    packet_reads_back, parse_packet, Packet, PacketParse, PacketView, PACKET_CLOSE, PACKET_DATA,
};
use crate::error::{ProxyError, ProxyErrorView};
use crate::trusted::{message_data, message_is_binary};
use tokio_tungstenite::tungstenite::{Error, Message};
use vstd::prelude::*;
use vstd::slice::slice_to_vec;
use vstd::string::StringExecFns;

verus! {

/// The kind under which a failed read is reported to the byte-stream side.
#[derive(Debug, Clone, Copy, PartialEq, Eq, Structural)]
pub enum FailureKind {
    /// What arrived is no part of a stream.
    InvalidData,
    /// The connection underneath failed.
    ConnectionAborted,
}

/// What one read on the adapter yields.
#[derive(Debug)]
pub enum ReadStep {
    /// These bytes, all of them at once.
    Data(Vec<u8>),
    /// The end of the tunnelled stream. The connection stays open.
    Eof,
    /// A failed read.
    Failed { kind: FailureKind, cause: ProxyError },
}

/// The mathematical content of a [`ReadStep`].
pub enum ReadStepView {
    Data(Seq<u8>),
    Eof,
    Failed { kind: FailureKind, cause: ProxyErrorView },
}

impl View for ReadStep {
    type V = ReadStepView;

    open spec fn view(&self) -> ReadStepView {
        match *self {
            ReadStep::Data(bytes) => ReadStepView::Data(bytes@),
            ReadStep::Eof => ReadStepView::Eof,
            ReadStep::Failed { kind, cause } => ReadStepView::Failed { kind, cause: cause@ },
        }
    }
}

/// The text of the error for a connect packet on a stream that is already
/// established.
pub open spec fn unexpected_connect_detail() -> Seq<char> {
    "unexpected packet type `Connect`"@
}

/// The text of the error for a WebSocket that ends without a close packet.
pub open spec fn stream_ended_detail() -> Seq<char> {
    "websocket stream ended without a close packet"@
}

/// What a reader gets for the payload of a binary message: the bytes of a
/// data packet, the end of the stream for a close packet, and a failure for
/// a connect packet and for anything that is no packet.
pub open spec fn read_of_payload(payload: Seq<u8>) -> ReadStepView {
    match parse_packet(payload) {
        PacketParse::Complete(PacketView::Data(bytes)) => ReadStepView::Data(bytes),
        PacketParse::Complete(PacketView::Close) => ReadStepView::Eof,
        PacketParse::Complete(PacketView::Connect(_)) => ReadStepView::Failed {
            kind: FailureKind::InvalidData,
            cause: ProxyErrorView::Unknown(unexpected_connect_detail()),
        },
        failure => ReadStepView::Failed { kind: FailureKind::InvalidData, cause: failure.error() },
    }
}

/// What a reader gets for a message: a message that is not binary is a
/// failure, a binary one is read by its payload.
pub open spec fn read_of_message(msg: Message) -> ReadStepView {
    if message_is_binary(msg) {
        read_of_payload(message_data(msg))
    } else {
        ReadStepView::Failed {
            kind: FailureKind::InvalidData,
            cause: ProxyErrorView::PacketNotBinaryMessage,
        }
    }
}

/// Decides what a read yields for a packet that was decoded, or for the
/// error of decoding it.
pub fn read_packet(decoded: Result<Packet, ProxyError>) -> (step: ReadStep)
    ensures
        step@ == match decoded {
            Ok(Packet::Data(bytes)) => ReadStepView::Data(bytes@),
            Ok(Packet::Close()) => ReadStepView::Eof,
            Ok(Packet::Connect(_)) => ReadStepView::Failed {
                kind: FailureKind::InvalidData,
                cause: ProxyErrorView::Unknown(unexpected_connect_detail()),
            },
            Err(e) => ReadStepView::Failed { kind: FailureKind::InvalidData, cause: e@ },
        },
{
    match decoded {
        Ok(Packet::Data(bytes)) => ReadStep::Data(bytes),
        Ok(Packet::Close()) => ReadStep::Eof,
        Ok(Packet::Connect(_)) => ReadStep::Failed {
            kind: FailureKind::InvalidData,
            cause: ProxyError::Unknown(String::from_str("unexpected packet type `Connect`")),
        },
        Err(e) => ReadStep::Failed { kind: FailureKind::InvalidData, cause: e },
    }
}

/// Decides what a read yields for what the WebSocket delivered.
///
/// The end of the WebSocket is a failure, since a stream ends with a close
/// packet; an error of the WebSocket is a failure of the connection; a
/// message is read as [`read_of_message`] says.
pub fn read_step(item: Option<Result<Message, Error>>) -> (step: ReadStep)
    ensures
        step@ == match item {
            None => ReadStepView::Failed {
                kind: FailureKind::InvalidData,
                cause: ProxyErrorView::Unknown(stream_ended_detail()),
            },
            Some(Err(_)) => ReadStepView::Failed {
                kind: FailureKind::ConnectionAborted,
                cause: ProxyErrorView::TungsteniteError,
            },
            Some(Ok(msg)) => read_of_message(msg),
        },
{
    match item {
        None => ReadStep::Failed {
            kind: FailureKind::InvalidData,
            cause: ProxyError::Unknown(
                String::from_str("websocket stream ended without a close packet"),
            ),
        },
        Some(Err(e)) => ReadStep::Failed {
            kind: FailureKind::ConnectionAborted,
            cause: ProxyError::TungsteniteError(e),
        },
        Some(Ok(msg)) => read_packet(Packet::to_packet(msg)),
    }
}

/// The message that carries one write: a data packet with exactly the bytes
/// written. The second part is the number of bytes taken from the writer,
/// which is all of them.
pub fn write_step(buf: &[u8]) -> (r: (Message, usize))
    ensures
        message_is_binary(r.0),
        message_data(r.0) == seq![PACKET_DATA] + buf@,
        r.1 == buf@.len(),
{
    let packet = Packet::Data(slice_to_vec(buf));
    (packet.to_message().unwrap(), buf.len())
}

/// The message that carries a shutdown: a close packet. It ends the
/// tunnelled stream; the WebSocket is left open for the next one.
pub fn shutdown_step() -> (msg: Message)
    ensures
        message_is_binary(msg),
        message_data(msg) == seq![PACKET_CLOSE],
{
    let packet = Packet::Close();
    packet.to_message().unwrap()
}

/// A write and then a shutdown put two messages on the WebSocket, and the
/// far side reads them, in that order, as the bytes written and the end of
/// the stream.
pub proof fn write_then_shutdown_arrive(buf: Seq<u8>)
    ensures
        read_of_payload(seq![PACKET_DATA] + buf) == ReadStepView::Data(buf),
        read_of_payload(seq![PACKET_CLOSE]) == ReadStepView::Eof,
{
    packet_reads_back(PacketView::Data(buf));
    packet_reads_back(PacketView::Close);
}

} // verus!
