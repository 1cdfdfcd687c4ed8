//! The boundary to code that Verus does not read.
//!
//! Outside types are declared here so that they can be named in signatures,
//! and every call into an outside crate, or into a part of the standard
//! library that has no specification yet, goes through one of the small
//! functions below. Their contracts are taken on faith; each doc comment
//! says what is claimed of the function it calls.

use byteorder::{LittleEndian, ReadBytesExt, WriteBytesExt};
use bytes::BufMut;
use crate::util::ssl::{PemItem, PemSection};
use rustls_pemfile::Item;
use std::io::Read;
use tokio::sync::oneshot::{self, Receiver, Sender};
use tokio_tungstenite::tungstenite::Message;
use vstd::prelude::*;
use vstd::utf8::*;

verus! {

/// `std::io::Error`, carried through as an opaque value.
#[verifier::external_type_specification]
#[verifier::external_body]
pub struct ExIoError(std::io::Error);

/// `tungstenite::Error`, carried through as an opaque value.
#[verifier::external_type_specification]
#[verifier::external_body]
pub struct ExWsError(tokio_tungstenite::tungstenite::Error);

/// The number whose low byte is `lo` and whose high byte is `hi`.
pub open spec fn u16_of(hi: u8, lo: u8) -> u16 {
    (hi as int * 256 + lo as int) as u16
}

/// The high byte of `n`.
pub open spec fn hi_byte(n: u16) -> u8 {
    (n / 256) as u8
}

/// The low byte of `n`.
pub open spec fn lo_byte(n: u16) -> u8 {
    (n % 256) as u8
}

/// `ReadBytesExt::read_u8` of byteorder, reading from a byte slice: the first
/// byte of the slice, or the reader's end-of-input error when it is empty.
#[verifier::external_body]
pub(crate) fn read_u8(src: &[u8]) -> (r: Result<u8, std::io::Error>)
    ensures
        match r {
            Ok(byte) => src@.len() >= 1 && byte == src@[0],
            Err(_) => src@.len() == 0,
        },
{
    let mut reader = src;
    reader.read_u8()
}

/// `ReadBytesExt::read_u16::<LittleEndian>` of byteorder, reading from a byte
/// slice: the first two bytes, low byte first, or the reader's end-of-input
/// error when fewer than two are there.
#[verifier::external_body]
pub(crate) fn read_u16_le(src: &[u8]) -> (r: Result<u16, std::io::Error>)
    ensures
        match r {
            Ok(n) => src@.len() >= 2 && n == u16_of(src@[1], src@[0]),
            Err(_) => 2 > src@.len(),
        },
{
    let mut reader = src;
    reader.read_u16::<LittleEndian>()
}

/// `std::io::Read::read_exact` on a byte slice: the first `N` bytes, or the
/// reader's end-of-input error when fewer than `N` are there.
#[verifier::external_body]
pub(crate) fn read_exact<const N: usize>(src: &[u8]) -> (r: Result<[u8; N], std::io::Error>)
    ensures
        match r {
            Ok(a) => src@.len() >= N && a@ == src@.subrange(0, N as int),
            Err(_) => N > src@.len(),
        },
{
    let mut reader = src;
    let mut buf = [0u8; N];
    reader.read_exact(&mut buf)?;
    Ok(buf)
}

/// `WriteBytesExt::write_u8` of byteorder on a `Vec<u8>`: the byte is
/// written with `write_all`, and a `Vec<u8>` takes every write whole by
/// appending it, so the byte is appended and the call reports success.
#[verifier::external_body]
pub(crate) fn write_u8(dst: &mut Vec<u8>, n: u8) -> (r: Result<(), std::io::Error>)
    ensures
        r is Ok,
        final(dst)@ == old(dst)@.push(n),
{
    dst.write_u8(n)
}

/// `WriteBytesExt::write_u16::<LittleEndian>` of byteorder on a `Vec<u8>`:
/// the low byte, then the high byte are written with `write_all`, and a
/// `Vec<u8>` takes every write whole by appending it, so both are appended
/// and the call reports success.
#[verifier::external_body]
pub(crate) fn write_u16_le(dst: &mut Vec<u8>, n: u16) -> (r: Result<(), std::io::Error>)
    ensures
        r is Ok,
        final(dst)@ == old(dst)@.push(lo_byte(n)).push(hi_byte(n)),
{
    dst.write_u16::<LittleEndian>(n)
}

/// `core::str::from_utf8`: the text that the bytes encode, exactly when they
/// are valid UTF-8.
#[verifier::external_body]
pub(crate) fn str_from_utf8(bytes: &[u8]) -> (r: Option<&str>)
    ensures
        match r {
            Some(s) => valid_utf8(bytes@) && s@ == decode_utf8(bytes@),
            None => !valid_utf8(bytes@),
        },
{
    std::str::from_utf8(bytes).ok()
}

/// What `String::from_utf8_lossy` makes of a sequence of bytes.
pub uninterp spec fn utf8_lossy(bytes: Seq<u8>) -> Seq<char>;

/// `String::from_utf8_lossy`, as an owned string: valid UTF-8 gives the text
/// that it encodes, and anything else the text that the function documents,
/// with a replacement character for each invalid sequence.
#[verifier::external_body]
pub(crate) fn string_from_utf8_lossy(bytes: &[u8]) -> (r: String)
    ensures
        r@ == if valid_utf8(bytes@) {
            decode_utf8(bytes@)
        } else {
            utf8_lossy(bytes@)
        },
{
    String::from_utf8_lossy(bytes).into_owned()
}

/// `tungstenite::Message`, one WebSocket message.
#[verifier::external_type_specification]
#[verifier::external_body]
pub struct ExMessage(tokio_tungstenite::tungstenite::Message);

/// Whether a message is a binary one: what `Message::is_binary` returns.
pub uninterp spec fn message_is_binary(msg: Message) -> bool;

/// The payload of a message: what `Message::into_data` returns.
pub uninterp spec fn message_data(msg: Message) -> Seq<u8>;

/// `Message::binary`: the binary message whose payload is `data`.
#[verifier::external_body]
pub(crate) fn binary_message(data: Vec<u8>) -> (msg: Message)
    ensures
        message_is_binary(msg),
        message_data(msg) == data@,
{
    Message::binary(data)
}

/// `Message::is_binary`.
#[verifier::external_body]
pub(crate) fn is_binary(msg: &Message) -> (b: bool)
    ensures
        b == message_is_binary(*msg),
{
    msg.is_binary()
}

/// `Message::into_data`: takes the payload out of the message.
#[verifier::external_body]
pub(crate) fn into_data(msg: Message) -> (data: Vec<u8>)
    ensures
        data@ == message_data(msg),
{
    msg.into_data()
}

/// The sending half of a `tokio::sync::oneshot` channel.
#[verifier::external_type_specification]
#[verifier::external_body]
#[verifier::reject_recursive_types(T)]
pub struct ExSender<T>(tokio::sync::oneshot::Sender<T>);

/// The receiving half of a `tokio::sync::oneshot` channel.
#[verifier::external_type_specification]
#[verifier::external_body]
#[verifier::reject_recursive_types(T)]
pub struct ExReceiver<T>(tokio::sync::oneshot::Receiver<T>);

/// The error of a `tokio::sync::oneshot` receiver whose sender is gone.
#[verifier::external_type_specification]
#[verifier::external_body]
pub struct ExRecvError(tokio::sync::oneshot::error::RecvError);

/// `oneshot::channel`: a fresh channel for one value.
#[verifier::external_body]
pub(crate) fn channel<T>() -> (halves: (Sender<T>, Receiver<T>)) {
    oneshot::channel()
}

/// `Sender::is_closed`: whether the receiver was closed or dropped. Other
/// tasks decide that, so nothing is claimed of the answer.
#[verifier::external_body]
pub(crate) fn is_closed<T>(tx: &Sender<T>) -> (closed: bool) {
    tx.is_closed()
}

/// `Sender::send`: hands the value to the receiver, or hands it back when the
/// receiver is gone.
#[verifier::external_body]
pub(crate) fn send<T>(tx: Sender<T>, value: T) -> (r: Result<(), T>)
    ensures
        r matches Err(back) ==> back == value,
{
    tx.send(value)
}

/// What `rustls_pemfile::read_one` finds at the front of `pem`.
pub uninterp spec fn first_section(pem: Seq<u8>) -> PemSection;

/// `rustls_pemfile::read_one`, reading from a byte slice: the next
/// recognised section and the text that is left behind it, which is shorter
/// than the text was; nothing at the end of the text; or the reader's error
/// for a section that cannot be read.
#[verifier::external_body]
pub(crate) fn read_one(pem: &[u8]) -> (r: Result<Option<(PemItem, &[u8])>, std::io::Error>)
    ensures
        match r {
            Ok(Some(found)) => first_section(pem@) == PemSection::Item(found.0@, found.1@)
                && found.1@.len() < pem@.len(),
            Ok(None) => first_section(pem@) == PemSection::End,
            Err(_) => first_section(pem@) == PemSection::Invalid,
        },
{
    let mut rest = pem;
    match rustls_pemfile::read_one(&mut rest)? {
        Some(Item::X509Certificate(der)) => Ok(Some((PemItem::X509Certificate(der), rest))),
        Some(Item::RSAKey(der)) => Ok(Some((PemItem::RSAKey(der), rest))),
        Some(Item::PKCS8Key(der)) => Ok(Some((PemItem::PKCS8Key(der), rest))),
        None => Ok(None),
    }
}

/// The certificates that `rustls::internal::pemfile::certs` finds in `pem`,
/// each by its decoded contents, or nothing where it fails.
pub uninterp spec fn certs_in(pem: Seq<u8>) -> Option<Seq<Seq<u8>>>;

/// `rustls::internal::pemfile::certs`, reading from a byte slice: the
/// decoded contents of every certificate section, in order.
#[verifier::external_body]
pub(crate) fn pem_certs(pem: &[u8]) -> (r: Option<Vec<Vec<u8>>>)
    ensures
        match r {
            Some(certs) => certs_in(pem@) == Some(certs.deep_view()),
            None => certs_in(pem@) is None,
        },
{
    let mut rest = pem;
    let found = rustls::internal::pemfile::certs(&mut rest).ok()?;
    Some(found.into_iter().map(|cert| cert.0).collect())
}

/// `bytes::BytesMut`, a growable buffer of bytes.
#[verifier::external_type_specification]
#[verifier::external_body]
pub struct ExBytesMut(bytes::BytesMut);

/// The bytes that a `BytesMut` holds, first to last.
pub uninterp spec fn buffered(buf: bytes::BytesMut) -> Seq<u8>;

/// `BufMut::put_u8` on a `BytesMut`, which grows as needed: appends the byte.
#[verifier::external_body]
pub(crate) fn put_u8(buf: &mut bytes::BytesMut, n: u8)
    ensures
        buffered(*final(buf)) == buffered(*old(buf)).push(n),
{
    buf.put_u8(n)
}

/// `BufMut::put_u16_le` on a `BytesMut`, which grows as needed: appends the
/// low byte, then the high byte.
#[verifier::external_body]
pub(crate) fn put_u16_le(buf: &mut bytes::BytesMut, n: u16)
    ensures
        buffered(*final(buf)) == buffered(*old(buf)).push(lo_byte(n)).push(hi_byte(n)),
{
    buf.put_u16_le(n)
}

/// `BufMut::put_slice` on a `BytesMut`, which grows as needed: appends the
/// bytes of the slice in order.
#[verifier::external_body]
pub(crate) fn put_slice(buf: &mut bytes::BytesMut, src: &[u8])
    ensures
        buffered(*final(buf)) == buffered(*old(buf)) + src@,
{
    buf.put_slice(src)
}

} // verus!
