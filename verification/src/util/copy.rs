//! What the copy between a TCP stream and the tunnel decides: the packet
//! for each read, and what becomes of a connection whose two halves were
//! used apart.

use crate::codec::packet::{packet_reads_back, Packet, PacketView};
use crate::error::{ProxyError, ProxyErrorView};
use crate::util::websocket_connection::{read_of_payload, ReadStepView};
use vstd::prelude::*;
use vstd::string::StringExecFns;

verus! {

/// The packet for what one read of the TCP stream returned: the bytes as a
/// data packet, and a close packet for the empty read that marks the end
/// of the stream.
pub fn relay_chunk(chunk: Vec<u8>) -> (packet: Packet)
    ensures
        packet@ == if chunk@.len() == 0 {
            PacketView::Close
        } else {
            PacketView::Data(chunk@)
        },
{
    if chunk.len() == 0 {
        Packet::Close()
    } else {
        Packet::Data(chunk)
    }
}

/// What was read from the TCP stream on one side comes out of the tunnel
/// on the other: the far side reads the message for a chunk as the bytes of
/// the chunk, and the message for the end of the stream as the end of the
/// stream.
pub proof fn relayed_chunk_arrives(chunk: Seq<u8>)
    ensures
        chunk.len() > 0 ==> read_of_payload(PacketView::Data(chunk).bytes())
            == ReadStepView::Data(chunk),
        read_of_payload(PacketView::Close.bytes()) == ReadStepView::Eof,
{
    packet_reads_back(PacketView::Data(chunk));
    packet_reads_back(PacketView::Close);
}

/// The text of the error for a copy of which one direction failed.
pub open spec fn copy_failed_detail() -> Seq<char> {
    "read/write stream can not reunite together, may be one of the copy fail"@
}

/// Decides what becomes of a connection after both directions of a copy
/// have stopped.
///
/// `joined` is nothing when a direction failed, and otherwise the outcome
/// of joining the two halves again. Only a connection that was joined goes
/// back to its lease; in every other case it is given up.
pub fn settle_halves<S, E>(joined: Option<Result<S, E>>) -> (r: Result<S, ProxyError>)
    ensures
        match joined {
            Some(Ok(stream)) => r == Ok::<S, ProxyError>(stream),
            Some(Err(_)) => r matches Err(e) && e@ == ProxyErrorView::ReuniteError,
            None => r matches Err(e) && e@ == ProxyErrorView::Unknown(copy_failed_detail()),
        },
{
    match joined {
        Some(Ok(stream)) => Ok(stream),
        Some(Err(_)) => Err(ProxyError::ReuniteError),
        None => Err(
            ProxyError::Unknown(
                String::from_str(
                    "read/write stream can not reunite together, may be one of the copy fail",
                ),
            ),
        ),
    }
}

} // verus!
