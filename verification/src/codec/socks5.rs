//! SOCKS5 values: authentication methods, commands, reply codes and
//! addresses, with the two wire forms of an address.

use crate::error::{ProxyError, ProxyErrorView};
use crate::trusted::{
    buffered, hi_byte, lo_byte, put_slice, put_u16_le, put_u8, read_exact, read_u16_le, read_u8,
    str_from_utf8, string_from_utf8_lossy, u16_of, utf8_lossy,
};
use bytes::BytesMut;
use std::convert::TryFrom;
use vstd::prelude::*;
use vstd::slice::slice_subrange;
use vstd::string::StringExecFns;
use vstd::utf8::*;
use vstd::std_specs::convert::{FromSpecImpl, TryFromSpecImpl};

verus! {

/// Address type byte of an IPv4 address.
pub const ADDR_IPV4: u8 = 1;

/// Address type byte of a domain name.
pub const ADDR_DOMAIN: u8 = 3;

/// Address type byte of an IPv6 address.
pub const ADDR_IPV6: u8 = 4;

/// An authentication method a SOCKS5 client may offer.
#[derive(Debug, Clone, Copy, PartialEq, Eq, Structural)]
pub enum MethodType {
    NoAuth,
    UserPass,
}

impl TryFrom<u8> for MethodType {
    type Error = ProxyError;

    fn try_from(orig: u8) -> (r: Result<Self, ProxyError>) {
        match orig {
            0 => Ok(MethodType::NoAuth),
            2 => Ok(MethodType::UserPass),
            _ => Err(ProxyError::UnsupportedMethodType),
        }
    }
}

impl TryFromSpecImpl<u8> for MethodType {
    open spec fn obeys_try_from_spec() -> bool {
        true
    }

    open spec fn try_from_spec(orig: u8) -> Result<Self, ProxyError> {
        if orig == 0 {
            Ok(MethodType::NoAuth)
        } else if orig == 2 {
            Ok(MethodType::UserPass)
        } else {
            Err(ProxyError::UnsupportedMethodType)
        }
    }
}

/// A SOCKS5 command.
#[derive(Debug, Clone, Copy, PartialEq, Eq, Structural)]
pub enum Command {
    Connect,
    Bind,
    Udp,
}

impl TryFrom<u8> for Command {
    type Error = ProxyError;

    fn try_from(value: u8) -> (r: Result<Self, ProxyError>) {
        match value {
            1 => Ok(Command::Connect),
            2 => Ok(Command::Bind),
            3 => Ok(Command::Udp),
            _ => Err(ProxyError::UnsupportedCommand),
        }
    }
}

impl TryFromSpecImpl<u8> for Command {
    open spec fn obeys_try_from_spec() -> bool {
        true
    }

    open spec fn try_from_spec(value: u8) -> Result<Self, ProxyError> {
        if value == 1 {
            Ok(Command::Connect)
        } else if value == 2 {
            Ok(Command::Bind)
        } else if value == 3 {
            Ok(Command::Udp)
        } else {
            Err(ProxyError::UnsupportedCommand)
        }
    }
}

impl From<Command> for u8 {
    fn from(command: Command) -> (r: u8) {
        match command {
            Command::Connect => 1,
            Command::Bind => 2,
            Command::Udp => 3,
        }
    }
}

impl FromSpecImpl<Command> for u8 {
    open spec fn obeys_from_spec() -> bool {
        true
    }

    open spec fn from_spec(command: Command) -> u8 {
        match command {
            Command::Connect => 1,
            Command::Bind => 2,
            Command::Udp => 3,
        }
    }
}

/// A SOCKS5 reply code.
#[derive(Debug, Clone, Copy, PartialEq, Eq, Structural)]
pub enum RepCode {
    Success,
    ConnectError,
    DisallowConnection,
    NetworkUnreachable,
    HostUnreachable,
    ConnectionRefused,
    TTLTimeout,
    UnsupportedCommand,
    UnsupportedAddrType,
    /// Not a code of the protocol: stands for anything else.
    Undefined,
}

impl RepCode {
    /// The byte that stands for this code on the wire.
    pub open spec fn byte(self) -> u8 {
        match self {
            RepCode::Success => 0,
            RepCode::ConnectError => 1,
            RepCode::DisallowConnection => 2,
            RepCode::NetworkUnreachable => 3,
            RepCode::HostUnreachable => 4,
            RepCode::ConnectionRefused => 5,
            RepCode::TTLTimeout => 6,
            RepCode::UnsupportedCommand => 7,
            RepCode::UnsupportedAddrType => 8,
            RepCode::Undefined => 9,
        }
    }
}

impl TryFrom<u8> for RepCode {
    type Error = ProxyError;

    fn try_from(orig: u8) -> (r: Result<Self, ProxyError>) {
        match orig {
            0 => Ok(RepCode::Success),
            1 => Ok(RepCode::ConnectError),
            2 => Ok(RepCode::DisallowConnection),
            3 => Ok(RepCode::NetworkUnreachable),
            4 => Ok(RepCode::HostUnreachable),
            5 => Ok(RepCode::ConnectionRefused),
            6 => Ok(RepCode::TTLTimeout),
            7 => Ok(RepCode::UnsupportedCommand),
            8 => Ok(RepCode::UnsupportedAddrType),
            _ => Err(ProxyError::InvalidRepCode),
        }
    }
}

impl TryFromSpecImpl<u8> for RepCode {
    open spec fn obeys_try_from_spec() -> bool {
        true
    }

    /// The code whose byte is `orig`; only the codes of the protocol, 0 to 8,
    /// are accepted.
    open spec fn try_from_spec(orig: u8) -> Result<Self, ProxyError> {
        if orig == 0 {
            Ok(RepCode::Success)
        } else if orig == 1 {
            Ok(RepCode::ConnectError)
        } else if orig == 2 {
            Ok(RepCode::DisallowConnection)
        } else if orig == 3 {
            Ok(RepCode::NetworkUnreachable)
        } else if orig == 4 {
            Ok(RepCode::HostUnreachable)
        } else if orig == 5 {
            Ok(RepCode::ConnectionRefused)
        } else if orig == 6 {
            Ok(RepCode::TTLTimeout)
        } else if orig == 7 {
            Ok(RepCode::UnsupportedCommand)
        } else if orig == 8 {
            Ok(RepCode::UnsupportedAddrType)
        } else {
            Err(ProxyError::InvalidRepCode)
        }
    }
}

impl From<RepCode> for u8 {
    fn from(orig: RepCode) -> (r: u8) {
        match orig {
            RepCode::Success => 0,
            RepCode::ConnectError => 1,
            RepCode::DisallowConnection => 2,
            RepCode::NetworkUnreachable => 3,
            RepCode::HostUnreachable => 4,
            RepCode::ConnectionRefused => 5,
            RepCode::TTLTimeout => 6,
            RepCode::UnsupportedCommand => 7,
            RepCode::UnsupportedAddrType => 8,
            RepCode::Undefined => 9,
        }
    }
}

impl FromSpecImpl<RepCode> for u8 {
    open spec fn obeys_from_spec() -> bool {
        true
    }

    open spec fn from_spec(orig: RepCode) -> u8 {
        orig.byte()
    }
}

/// A destination as a SOCKS5 client names it.
#[derive(Debug, PartialEq, Eq)]
pub enum Addr {
    /// Four octets and a port.
    IpV4(([u8; 4], u16)),
    /// A host name and a port.
    Domain((String, u16)),
    /// Sixteen octets and a port.
    IpV6(([u8; 16], u16)),
}

/// The mathematical content of an [`Addr`].
pub enum AddrView {
    IpV4(Seq<u8>, u16),
    Domain(Seq<char>, u16),
    IpV6(Seq<u8>, u16),
}

impl View for Addr {
    type V = AddrView;

    open spec fn view(&self) -> AddrView {
        match *self {
            Addr::IpV4((octets, port)) => AddrView::IpV4(octets@, port),
            Addr::Domain((name, port)) => AddrView::Domain(name@, port),
            Addr::IpV6((octets, port)) => AddrView::IpV6(octets@, port),
        }
    }
}

/// Where to connect for an address: to the IP address itself, or to
/// whatever a lookup of the name gives.
#[derive(Debug, PartialEq, Eq)]
pub enum Target {
    /// An IPv4 address by its octets.
    V4([u8; 4], u16),
    /// An IPv6 address by its eight groups of sixteen bits.
    V6([u16; 8], u16),
    /// A host to look up.
    Lookup(String, u16),
}

/// The two bytes of `port`, high byte first.
pub open spec fn port_be(port: u16) -> Seq<u8> {
    seq![hi_byte(port), lo_byte(port)]
}

/// The two bytes of `port`, low byte first.
pub open spec fn port_le(port: u16) -> Seq<u8> {
    seq![lo_byte(port), hi_byte(port)]
}

impl AddrView {
    /// An IPv4 address has four octets, an IPv6 address sixteen, and the
    /// UTF-8 form of a domain name fits the one length byte of the SOCKS5
    /// form.
    pub open spec fn wf(self) -> bool {
        match self {
            AddrView::IpV4(octets, _) => octets.len() == 4,
            AddrView::Domain(name, _) => encode_utf8(name).len() <= 255,
            AddrView::IpV6(octets, _) => octets.len() == 16,
        }
    }

    /// The address type byte.
    pub open spec fn type_byte(self) -> u8 {
        match self {
            AddrView::IpV4(..) => ADDR_IPV4,
            AddrView::Domain(..) => ADDR_DOMAIN,
            AddrView::IpV6(..) => ADDR_IPV6,
        }
    }

    pub open spec fn port(self) -> u16 {
        match self {
            AddrView::IpV4(_, port) => port,
            AddrView::Domain(_, port) => port,
            AddrView::IpV6(_, port) => port,
        }
    }

    /// The octets of an IP address, or the UTF-8 bytes of a domain name.
    pub open spec fn host_bytes(self) -> Seq<u8> {
        match self {
            AddrView::IpV4(octets, _) => octets,
            AddrView::Domain(name, _) => encode_utf8(name),
            AddrView::IpV6(octets, _) => octets,
        }
    }

    /// The SOCKS5 form: the type byte, then the host (a domain name behind
    /// one byte that gives its length), then the port, high byte first.
    pub open spec fn socks5_bytes(self) -> Seq<u8> {
        match self {
            AddrView::Domain(name, port) => seq![ADDR_DOMAIN, encode_utf8(name).len() as u8]
                + encode_utf8(name) + port_be(port),
            _ => seq![self.type_byte()] + self.host_bytes() + port_be(self.port()),
        }
    }

    /// The form inside a tunnel packet: the type byte, the port, low byte
    /// first, then the host. Nothing gives the length of a domain name: it
    /// runs to the end.
    pub open spec fn tunnel_bytes(self) -> Seq<u8> {
        seq![self.type_byte()] + port_le(self.port()) + self.host_bytes()
    }
}

/// What the start of a sequence of bytes is, read as the SOCKS5 form of an
/// address.
pub enum Socks5Parse {
    /// An address, and the number of bytes that it took.
    Complete(AddrView, nat),
    /// So far so good, but the bytes end before the address does.
    Incomplete,
    /// The type byte is none of the three.
    UnknownType,
    /// The bytes of a domain name are not UTF-8.
    BadName,
}

/// Reads the SOCKS5 form of an address off the front of `b`.
pub open spec fn parse_socks5(b: Seq<u8>) -> Socks5Parse {
    if b.len() == 0 {
        Socks5Parse::Incomplete
    } else if b[0] == ADDR_IPV4 {
        if b.len() < 7 {
            Socks5Parse::Incomplete
        } else {
            Socks5Parse::Complete(AddrView::IpV4(b.subrange(1, 5), u16_of(b[5], b[6])), 7)
        }
    } else if b[0] == ADDR_DOMAIN {
        if b.len() < 2 || b.len() < b[1] + 4 {
            Socks5Parse::Incomplete
        } else {
            let name = b.subrange(2, b[1] + 2);
            if valid_utf8(name) {
                Socks5Parse::Complete(
                    AddrView::Domain(decode_utf8(name), u16_of(b[b[1] + 2], b[b[1] + 3])),
                    (b[1] + 4) as nat,
                )
            } else {
                Socks5Parse::BadName
            }
        }
    } else if b[0] == ADDR_IPV6 {
        if b.len() < 19 {
            Socks5Parse::Incomplete
        } else {
            Socks5Parse::Complete(AddrView::IpV6(b.subrange(1, 17), u16_of(b[17], b[18])), 19)
        }
    } else {
        Socks5Parse::UnknownType
    }
}

/// How many more bytes must follow `b` before it is settled whether, and
/// as what address, the SOCKS5 form at its front reads: none exactly when
/// [`parse_socks5`] is done with `b`.
pub open spec fn missing_socks5(b: Seq<u8>) -> nat {
    if b.len() == 0 {
        1
    } else if b[0] == ADDR_IPV4 {
        if b.len() < 7 {
            (7 - b.len()) as nat
        } else {
            0
        }
    } else if b[0] == ADDR_DOMAIN {
        if b.len() < 2 {
            1
        } else if b.len() < b[1] + 4 {
            (b[1] + 4 - b.len()) as nat
        } else {
            0
        }
    } else if b[0] == ADDR_IPV6 {
        if b.len() < 19 {
            (19 - b.len()) as nat
        } else {
            0
        }
    } else {
        0
    }
}

/// The text that a domain name's bytes stand for in a tunnel packet: what
/// they encode where they are UTF-8, and otherwise what the lossy conversion
/// of the standard library makes of them.
pub open spec fn lossy_text(bytes: Seq<u8>) -> Seq<char> {
    if valid_utf8(bytes) {
        decode_utf8(bytes)
    } else {
        utf8_lossy(bytes)
    }
}

/// What a sequence of bytes is, read as the tunnel form of an address.
pub enum TunnelParse {
    Complete(AddrView),
    /// Fewer than the three bytes of type and port.
    Truncated,
    /// An IP address of the wrong length.
    WrongLength,
    /// The type byte is none of the three.
    UnknownType,
}

/// The text of the error for a domain name that is not UTF-8.
pub open spec fn bad_name_detail() -> Seq<char> {
    "domain name is not valid utf-8"@
}

/// The text of the error for an IP address of the wrong length.
pub open spec fn wrong_length_detail() -> Seq<char> {
    "address has the wrong length"@
}

impl TunnelParse {
    /// The error that stands for a failed reading: the reader's
    /// end-of-input error for too few bytes, and otherwise what the variant
    /// says.
    pub open spec fn error(self) -> ProxyErrorView {
        match self {
            TunnelParse::Truncated => ProxyErrorView::Disconnect,
            TunnelParse::WrongLength => ProxyErrorView::Unknown(wrong_length_detail()),
            _ => ProxyErrorView::UnsupportedAddrType,
        }
    }
}

/// Reads all of `b` as the tunnel form of an address.
pub open spec fn parse_tunnel(b: Seq<u8>) -> TunnelParse {
    if b.len() < 3 {
        TunnelParse::Truncated
    } else if b[0] == ADDR_IPV4 {
        if b.len() == 7 {
            TunnelParse::Complete(AddrView::IpV4(b.subrange(3, 7), u16_of(b[2], b[1])))
        } else {
            TunnelParse::WrongLength
        }
    } else if b[0] == ADDR_DOMAIN {
        TunnelParse::Complete(
            AddrView::Domain(lossy_text(b.subrange(3, b.len() as int)), u16_of(b[2], b[1])),
        )
    } else if b[0] == ADDR_IPV6 {
        if b.len() == 19 {
            TunnelParse::Complete(AddrView::IpV6(b.subrange(3, 19), u16_of(b[2], b[1])))
        } else {
            TunnelParse::WrongLength
        }
    } else {
        TunnelParse::UnknownType
    }
}

/// The number with the given high and low byte.
fn u16_from(hi: u8, lo: u8) -> (n: u16)
    ensures
        n == u16_of(hi, lo),
{
    (hi as u16) * 256 + (lo as u16)
}

/// Appends the two bytes of `port` to `out`, high byte first.
fn push_port_be(out: &mut Vec<u8>, port: u16)
    ensures
        final(out)@ == old(out)@ + port_be(port),
{
    out.push((port / 256) as u8);
    out.push((port % 256) as u8);
    assert(out@ =~= old(out)@ + port_be(port));
}

/// Appends every byte of `src` to `out`.
pub(crate) fn push_all(out: &mut Vec<u8>, src: &[u8])
    ensures
        final(out)@ == old(out)@ + src@,
{
    let mut i: usize = 0;
    while i < src.len()
        invariant
            i <= src@.len(),
            out@ == old(out)@ + src@.subrange(0, i as int),
        decreases src@.len() - i,
    {
        out.push(src[i]);
        i += 1;
        assert(out@ =~= old(out)@ + src@.subrange(0, i as int));
    }
    assert(src@.subrange(0, i as int) =~= src@);
}

/// The `N` bytes of `src` that begin at `at`.
fn octets_at<const N: usize>(src: &[u8], at: usize) -> (out: [u8; N])
    requires
        at + N <= src@.len(),
    ensures
        out@ == src@.subrange(at as int, at + N),
{
    let mut out = [0u8; N];
    let end = src.len();
    let mut i: usize = 0;
    while i < N
        invariant
            i <= N,
            at + N <= end == src@.len(),
            out@.len() == N,
            forall|k: int| 0 <= k < i ==> out@[k] == src@[at + k],
        decreases N - i,
    {
        out[i] = src[at + i];
        i += 1;
    }
    assert(out@ =~= src@.subrange(at as int, at + N));
    out
}

impl Addr {
    /// Whether this address can be written in the SOCKS5 form.
    pub fn is_wf(&self) -> (b: bool)
        ensures
            b == self@.wf(),
    {
        match self {
            Addr::Domain((name, _)) => name.as_str().as_bytes().len() <= 255,
            _ => true,
        }
    }

    /// The SOCKS5 form of this address.
    pub fn encode(&self) -> (out: Vec<u8>)
        requires
            self@.wf(),
        ensures
            out@ == self@.socks5_bytes(),
    {
        let mut out: Vec<u8> = Vec::new();
        match self {
            Addr::IpV4((octets, port)) => {
                out.push(ADDR_IPV4);
                push_all(&mut out, octets.as_slice());
                push_port_be(&mut out, *port);
            },
            Addr::Domain((name, port)) => {
                let raw = name.as_str().as_bytes();
                out.push(ADDR_DOMAIN);
                out.push(raw.len() as u8);
                push_all(&mut out, raw);
                push_port_be(&mut out, *port);
            },
            Addr::IpV6((octets, port)) => {
                out.push(ADDR_IPV6);
                push_all(&mut out, octets.as_slice());
                push_port_be(&mut out, *port);
            },
        }
        assert(out@ =~= self@.socks5_bytes());
        out
    }

    /// Reads one address in the SOCKS5 form off the front of `bytes`.
    ///
    /// Gives the address and the number of bytes it took, or `None` while
    /// the bytes end before the address does. A type byte that is none of
    /// the three is refused, and so is a domain name that is not UTF-8.
    pub fn decode(bytes: &[u8]) -> (r: Result<Option<(Addr, usize)>, ProxyError>)
        ensures
            match parse_socks5(bytes@) {
                Socks5Parse::Complete(addr, used) => r matches Ok(Some(found)) && found.0@ == addr
                    && found.1 == used && addr.wf(),
                Socks5Parse::Incomplete => r matches Ok(None),
                Socks5Parse::UnknownType => r matches Err(e) && e@
                    == ProxyErrorView::UnsupportedAddrType,
                Socks5Parse::BadName => r matches Err(e) && e@ == ProxyErrorView::Unknown(
                    bad_name_detail(),
                ),
            },
    {
        proof {
            decoded_is_wf(bytes@);
        }
        if bytes.len() == 0 {
            return Ok(None);
        }
        let addr_type = bytes[0];
        if addr_type == ADDR_IPV4 {
            if bytes.len() < 7 {
                return Ok(None);
            }
            let octets = octets_at::<4>(bytes, 1);
            let port = u16_from(bytes[5], bytes[6]);
            Ok(Some((Addr::IpV4((octets, port)), 7)))
        } else if addr_type == ADDR_DOMAIN {
            if bytes.len() < 2 {
                return Ok(None);
            }
            let len = bytes[1] as usize;
            if bytes.len() < len + 4 {
                return Ok(None);
            }
            match str_from_utf8(slice_subrange(bytes, 2, len + 2)) {
                Some(name) => {
                    let port = u16_from(bytes[len + 2], bytes[len + 3]);
                    Ok(Some((Addr::Domain((name.to_owned(), port)), len + 4)))
                },
                None => Err(
                    ProxyError::Unknown(String::from_str("domain name is not valid utf-8")),
                ),
            }
        } else if addr_type == ADDR_IPV6 {
            if bytes.len() < 19 {
                return Ok(None);
            }
            let octets = octets_at::<16>(bytes, 1);
            let port = u16_from(bytes[17], bytes[18]);
            Ok(Some((Addr::IpV6((octets, port)), 19)))
        } else {
            Err(ProxyError::UnsupportedAddrType)
        }
    }

    /// Where to connect for this address. The sixteen octets of an IPv6
    /// address make eight groups, each from two octets, high octet first.
    pub fn target(self) -> (t: Target)
        ensures
            match self@ {
                AddrView::IpV4(octets, port) => t matches Target::V4(o, p) && o@ == octets && p
                    == port,
                AddrView::Domain(name, port) => t matches Target::Lookup(host, p) && host@ == name
                    && p == port,
                AddrView::IpV6(octets, port) => t matches Target::V6(groups, p) && p == port
                    && forall|k: int|
                    0 <= k < 8 ==> #[trigger] groups@[k] == u16_of(octets[2 * k], octets[2 * k + 1]),
            },
    {
        match self {
            Addr::IpV4((octets, port)) => Target::V4(octets, port),
            Addr::Domain((name, port)) => Target::Lookup(name, port),
            Addr::IpV6((octets, port)) => {
                let mut groups = [0u16; 8];
                let mut k: usize = 0;
                while k < 8
                    invariant
                        k <= 8,
                        groups@.len() == 8,
                        forall|j: int|
                            0 <= j < k ==> #[trigger] groups@[j] == u16_of(
                                octets@[2 * j],
                                octets@[2 * j + 1],
                            ),
                    decreases 8 - k,
                {
                    groups[k] = u16_from(octets[2 * k], octets[2 * k + 1]);
                    k += 1;
                }
                Target::V6(groups, port)
            },
        }
    }

    /// How many more bytes a reader must fetch before [`Addr::decode`] can
    /// settle on `bytes`: one for the type byte, then the rest of an IP
    /// address and its port, or the length byte of a domain name and then
    /// the name and the port.
    pub fn missing(bytes: &[u8]) -> (n: usize)
        ensures
            n == missing_socks5(bytes@),
    {
        if bytes.len() == 0 {
            return 1;
        }
        let addr_type = bytes[0];
        let whole: usize = if addr_type == ADDR_IPV4 {
            7
        } else if addr_type == ADDR_IPV6 {
            19
        } else if addr_type == ADDR_DOMAIN {
            if bytes.len() < 2 {
                2
            } else {
                bytes[1] as usize + 4
            }
        } else {
            0
        };
        if bytes.len() < whole {
            whole - bytes.len()
        } else {
            0
        }
    }

    /// Appends the tunnel form of this address to `bytes`.
    pub fn to_bytes(&self, bytes: &mut BytesMut)
        ensures
            buffered(*final(bytes)) == buffered(*old(bytes)) + self@.tunnel_bytes(),
    {
        match self {
            Addr::IpV4(addr) => {
                put_u8(bytes, ADDR_IPV4);
                put_u16_le(bytes, addr.1);
                put_slice(bytes, addr.0.as_slice());
            },
            Addr::Domain(addr) => {
                put_u8(bytes, ADDR_DOMAIN);
                put_u16_le(bytes, addr.1);
                put_slice(bytes, addr.0.as_str().as_bytes());
            },
            Addr::IpV6(addr) => {
                put_u8(bytes, ADDR_IPV6);
                put_u16_le(bytes, addr.1);
                put_slice(bytes, addr.0.as_slice());
            },
        }
        assert(buffered(*bytes) =~= buffered(*old(bytes)) + self@.tunnel_bytes());
    }

    /// Reads all of `bytes` as the tunnel form of an address.
    ///
    /// Fewer than three bytes make the reader's end-of-input error. An IP
    /// address must fill the rest exactly; a domain name is whatever is
    /// left, read leniently.
    pub fn from_bytes(bytes: &[u8]) -> (r: Result<Addr, ProxyError>)
        ensures
            match parse_tunnel(bytes@) {
                TunnelParse::Complete(addr) => r matches Ok(found) && found@ == addr,
                failure => r matches Err(e) && e@ == failure.error(),
            },
    {
        let addr_type = match read_u8(bytes) {
            Ok(byte) => byte,
            Err(e) => {
                return Err(ProxyError::Disconnect(e));
            },
        };
        let port = match read_u16_le(slice_subrange(bytes, 1, bytes.len())) {
            Ok(port) => port,
            Err(e) => {
                return Err(ProxyError::Disconnect(e));
            },
        };
        let host = slice_subrange(bytes, 3, bytes.len());
        if addr_type == ADDR_IPV4 {
            if bytes.len() != 7 {
                return Err(
                    ProxyError::Unknown(String::from_str("address has the wrong length")),
                );
            }
            match read_exact::<4>(host) {
                Ok(octets) => {
                    assert(octets@ =~= bytes@.subrange(3, 7));
                    Ok(Addr::IpV4((octets, port)))
                },
                Err(e) => Err(ProxyError::Disconnect(e)),
            }
        } else if addr_type == ADDR_DOMAIN {
            Ok(Addr::Domain((string_from_utf8_lossy(host), port)))
        } else if addr_type == ADDR_IPV6 {
            if bytes.len() != 19 {
                return Err(
                    ProxyError::Unknown(String::from_str("address has the wrong length")),
                );
            }
            match read_exact::<16>(host) {
                Ok(octets) => {
                    assert(octets@ =~= bytes@.subrange(3, 19));
                    Ok(Addr::IpV6((octets, port)))
                },
                Err(e) => Err(ProxyError::Disconnect(e)),
            }
        } else {
            Err(ProxyError::UnsupportedAddrType)
        }
    }
}

/// Reading back the SOCKS5 form of an address gives that address and the
/// length of the form, whatever bytes follow it.
pub proof fn socks5_form_reads_back(addr: AddrView, rest: Seq<u8>)
    requires
        addr.wf(),
    ensures
        parse_socks5(addr.socks5_bytes() + rest) == Socks5Parse::Complete(
            addr,
            addr.socks5_bytes().len(),
        ),
{
    let form = addr.socks5_bytes();
    let b = form + rest;
    let port = addr.port();
    assert(u16_of(hi_byte(port), lo_byte(port)) == port);
    match addr {
        AddrView::IpV4(octets, _) => {
            assert(b.subrange(1, 5) =~= octets);
        },
        AddrView::Domain(name, _) => {
            let raw = encode_utf8(name);
            encode_utf8_valid_utf8(name);
            encode_utf8_decode_utf8(name);
            assert(b[1] == raw.len());
            assert(b.subrange(2, b[1] + 2) =~= raw);
        },
        AddrView::IpV6(octets, _) => {
            assert(b.subrange(1, 17) =~= octets);
        },
    }
}

/// An address that was read from its SOCKS5 form can be written in it.
pub proof fn decoded_is_wf(b: Seq<u8>)
    ensures
        parse_socks5(b) matches Socks5Parse::Complete(addr, _) ==> addr.wf(),
{
    if b.len() >= 2 && b[0] == ADDR_DOMAIN && b.len() >= b[1] + 4 {
        let name = b.subrange(2, b[1] + 2);
        if valid_utf8(name) {
            decode_utf8_encode_utf8(name);
        }
    }
}

/// The reader of the SOCKS5 form asks for more bytes exactly while some are
/// missing.
pub proof fn incomplete_while_missing(b: Seq<u8>)
    ensures
        parse_socks5(b) is Incomplete <==> missing_socks5(b) > 0,
{
}

/// Reading back the tunnel form of an address gives that address.
pub proof fn tunnel_form_reads_back(addr: AddrView)
    requires
        addr is Domain || addr.wf(),
    ensures
        parse_tunnel(addr.tunnel_bytes()) == TunnelParse::Complete(addr),
{
    let b = addr.tunnel_bytes();
    let port = addr.port();
    assert(u16_of(hi_byte(port), lo_byte(port)) == port);
    match addr {
        AddrView::IpV4(octets, _) => {
            assert(b.subrange(3, 7) =~= octets);
        },
        AddrView::Domain(name, _) => {
            encode_utf8_valid_utf8(name);
            encode_utf8_decode_utf8(name);
            assert(b.subrange(3, b.len() as int) =~= encode_utf8(name));
        },
        AddrView::IpV6(octets, _) => {
            assert(b.subrange(3, 19) =~= octets);
        },
    }
}

} // verus!
