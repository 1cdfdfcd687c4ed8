//! The SOCKS5 front end: method negotiation, the CONNECT request and the
//! reply, as a machine that is fed the bytes it asks for.

use crate::codec::socks5::{
    bad_name_detail, missing_socks5, parse_socks5, Addr, AddrView, Command, RepCode, Socks5Parse,
};
use crate::error::{ProxyError, ProxyErrorView};
use std::convert::TryFrom;
use vstd::prelude::*;

verus! {

/// The one protocol version that is spoken.
pub const SOCKS5_VERSION: u8 = 5;

/// The method byte for "no authentication".
pub const METHOD_NO_AUTH: u8 = 0;

/// A reply to a SOCKS5 request.
#[derive(Debug)]
pub struct Socks5Reply {
    ver: u8,
    rep: RepCode,
    addr: Addr,
}

/// The bytes of a reply: version, reply code, a reserved zero, and the
/// address in its SOCKS5 form.
pub open spec fn reply_bytes(ver: u8, rep: RepCode, addr: AddrView) -> Seq<u8> {
    seq![ver, rep.byte(), 0u8] + addr.socks5_bytes()
}

impl Socks5Reply {
    pub closed spec fn ver(&self) -> u8 {
        self.ver
    }

    pub closed spec fn rep(&self) -> RepCode {
        self.rep
    }

    pub closed spec fn addr(&self) -> AddrView {
        self.addr@
    }

    pub fn new(ver: u8, rep: RepCode, addr: Addr) -> (reply: Self)
        ensures
            reply.ver() == ver,
            reply.rep() == rep,
            reply.addr() == addr@,
    {
        Self { ver, rep, addr }
    }

    /// The bytes to write for this reply.
    pub fn encode(&self) -> (out: Vec<u8>)
        requires
            self.addr().wf(),
        ensures
            out@ == reply_bytes(self.ver(), self.rep(), self.addr()),
    {
        let mut out: Vec<u8> = Vec::new();
        out.push(self.ver);
        out.push(u8::from(self.rep));
        out.push(0);
        let mut tail = self.addr.encode();
        out.append(&mut tail);
        assert(out@ =~= reply_bytes(self.ver(), self.rep(), self.addr()));
        out
    }

    /// Gives the address back.
    pub fn into_addr(self) -> (addr: Addr)
        ensures
            addr@ == self.addr(),
    {
        self.addr
    }
}

/// Judges the two bytes that open a greeting: gives the number of method
/// bytes that follow, and refuses any version but 5.
pub fn check_greeting(header: &[u8; 2]) -> (r: Result<u8, ProxyError>)
    ensures
        match r {
            Ok(count) => header@[0] == SOCKS5_VERSION && count == header@[1],
            Err(e) => header@[0] != SOCKS5_VERSION && e@ == ProxyErrorView::UnsupportedSocksType(
                header@[0],
            ),
        },
{
    if header[0] != SOCKS5_VERSION {
        return Err(ProxyError::UnsupportedSocksType(header[0]));
    }
    Ok(header[1])
}

/// Picks the method: "no authentication" when the client offers it, which
/// is answered with version 5 and method 0; nothing else is accepted.
pub fn select_method(methods: &[u8]) -> (r: Result<[u8; 2], ProxyError>)
    ensures
        match r {
            Ok(answer) => methods@.contains(METHOD_NO_AUTH) && answer@ == seq![
                SOCKS5_VERSION,
                METHOD_NO_AUTH,
            ],
            Err(e) => !methods@.contains(METHOD_NO_AUTH) && e@
                == ProxyErrorView::UnsupportedMethodType,
        },
{
    let mut i: usize = 0;
    while i < methods.len()
        invariant
            i <= methods@.len(),
            forall|k: int| 0 <= k < i ==> methods@[k] != METHOD_NO_AUTH,
        decreases methods@.len() - i,
    {
        if methods[i] == METHOD_NO_AUTH {
            let answer = [SOCKS5_VERSION, METHOD_NO_AUTH];
            assert(answer@ =~= seq![SOCKS5_VERSION, METHOD_NO_AUTH]);
            return Ok(answer);
        }
        i += 1;
    }
    Err(ProxyError::UnsupportedMethodType)
}

/// Judges the three bytes that open a request: version, command and a
/// reserved byte. Only version 5 and only CONNECT pass.
pub fn check_request(header: &[u8; 3]) -> (r: Result<Command, ProxyError>)
    ensures
        match r {
            Ok(command) => header@[0] == SOCKS5_VERSION && header@[1] == 1 && command
                == Command::Connect,
            Err(e) => if header@[0] != SOCKS5_VERSION {
                e@ == ProxyErrorView::UnsupportedSocksType(header@[0])
            } else {
                header@[1] != 1 && e@ == ProxyErrorView::UnsupportedCommand
            },
        },
{
    if header[0] != SOCKS5_VERSION {
        return Err(ProxyError::UnsupportedSocksType(header[0]));
    }
    let command = match Command::try_from(header[1]) {
        Ok(command) => command,
        Err(e) => {
            return Err(e);
        },
    };
    match command {
        Command::Connect => Ok(command),
        _ => Err(ProxyError::UnsupportedCommand),
    }
}

/// Where the handshake with one SOCKS5 client stands.
#[derive(Debug)]
pub enum Stage {
    /// Waiting for the version and the number of methods.
    AwaitGreeting,
    /// Waiting for that many method bytes.
    AwaitMethods { count: u8 },
    /// Waiting for version, command and the reserved byte.
    AwaitRequest,
    /// Waiting for more of the address; `have` is what came so far.
    AwaitAddr { have: Vec<u8> },
    /// The request is read; the reply is due.
    SendReply { addr: Addr },
    /// The handshake is over; the stream to `addr` can be tunnelled.
    Tunneling { addr: Addr },
    /// The client was turned away.
    Failed,
}

/// What the caller must do after a step of the handshake.
#[derive(Debug)]
pub enum Action {
    /// Nothing but the next step.
    Continue,
    /// Write these bytes to the client.
    Send(Vec<u8>),
    /// Give up on this client for the reason given.
    Reject(ProxyError),
}

/// The mathematical content of a [`Stage`].
pub enum StageView {
    AwaitGreeting,
    AwaitMethods { count: u8 },
    AwaitRequest,
    AwaitAddr { have: Seq<u8> },
    SendReply { addr: AddrView },
    Tunneling { addr: AddrView },
    Failed,
}

/// The mathematical content of an [`Action`].
pub enum ActionView {
    Continue,
    Send(Seq<u8>),
    Reject(ProxyErrorView),
}

impl View for Stage {
    type V = StageView;

    open spec fn view(&self) -> StageView {
        match *self {
            Stage::AwaitGreeting => StageView::AwaitGreeting,
            Stage::AwaitMethods { count } => StageView::AwaitMethods { count },
            Stage::AwaitRequest => StageView::AwaitRequest,
            Stage::AwaitAddr { have } => StageView::AwaitAddr { have: have@ },
            Stage::SendReply { addr } => StageView::SendReply { addr: addr@ },
            Stage::Tunneling { addr } => StageView::Tunneling { addr: addr@ },
            Stage::Failed => StageView::Failed,
        }
    }
}

impl View for Action {
    type V = ActionView;

    open spec fn view(&self) -> ActionView {
        match *self {
            Action::Continue => ActionView::Continue,
            Action::Send(bytes) => ActionView::Send(bytes@),
            Action::Reject(e) => ActionView::Reject(e@),
        }
    }
}

impl StageView {
    /// Whether every address that this stage holds can be written in the
    /// SOCKS5 form.
    pub open spec fn wf(self) -> bool {
        match self {
            StageView::SendReply { addr } => addr.wf(),
            StageView::Tunneling { addr } => addr.wf(),
            _ => true,
        }
    }

    /// How many bytes the next step wants, neither more nor fewer.
    pub open spec fn expected(self) -> nat {
        match self {
            StageView::AwaitGreeting => 2,
            StageView::AwaitMethods { count } => count as nat,
            StageView::AwaitRequest => 3,
            StageView::AwaitAddr { have } => missing_socks5(have),
            _ => 0,
        }
    }

    /// One step: the stage that follows when `input` arrives, and what is
    /// to be done.
    ///
    /// A greeting must speak version 5 and offer "no authentication", and
    /// is answered with `05 00`. A request must speak version 5 and ask for
    /// CONNECT; its address is read as more of it arrives. The reply is
    /// `05 00 00` and the requested address. After that, and after a
    /// refusal, nothing happens any more.
    pub open spec fn step(self, input: Seq<u8>) -> (StageView, ActionView) {
        match self {
            StageView::AwaitGreeting => if input[0] != SOCKS5_VERSION {
                (
                    StageView::Failed,
                    ActionView::Reject(ProxyErrorView::UnsupportedSocksType(input[0])),
                )
            } else {
                (StageView::AwaitMethods { count: input[1] }, ActionView::Continue)
            },
            StageView::AwaitMethods { .. } => if input.contains(METHOD_NO_AUTH) {
                (
                    StageView::AwaitRequest,
                    ActionView::Send(seq![SOCKS5_VERSION, METHOD_NO_AUTH]),
                )
            } else {
                (StageView::Failed, ActionView::Reject(ProxyErrorView::UnsupportedMethodType))
            },
            StageView::AwaitRequest => if input[0] != SOCKS5_VERSION {
                (
                    StageView::Failed,
                    ActionView::Reject(ProxyErrorView::UnsupportedSocksType(input[0])),
                )
            } else if input[1] != 1 {
                (StageView::Failed, ActionView::Reject(ProxyErrorView::UnsupportedCommand))
            } else {
                (StageView::AwaitAddr { have: Seq::empty() }, ActionView::Continue)
            },
            StageView::AwaitAddr { have } => match parse_socks5(have + input) {
                Socks5Parse::Complete(addr, _) => (
                    StageView::SendReply { addr },
                    ActionView::Continue,
                ),
                Socks5Parse::Incomplete => (
                    StageView::AwaitAddr { have: have + input },
                    ActionView::Continue,
                ),
                Socks5Parse::UnknownType => (
                    StageView::Failed,
                    ActionView::Reject(ProxyErrorView::UnsupportedAddrType),
                ),
                Socks5Parse::BadName => (
                    StageView::Failed,
                    ActionView::Reject(ProxyErrorView::Unknown(bad_name_detail())),
                ),
            },
            StageView::SendReply { addr } => (
                StageView::Tunneling { addr },
                ActionView::Send(reply_bytes(SOCKS5_VERSION, RepCode::Success, addr)),
            ),
            StageView::Tunneling { .. } => (self, ActionView::Continue),
            StageView::Failed => (self, ActionView::Continue),
        }
    }
}

impl ActionView {
    /// The bytes that this action writes to the client.
    pub open spec fn sent(self) -> Seq<u8> {
        match self {
            ActionView::Send(bytes) => bytes,
            _ => Seq::empty(),
        }
    }

    /// The reason for which this action turns the client away, if it does.
    pub open spec fn refusal(self) -> Option<ProxyErrorView> {
        match self {
            ActionView::Reject(e) => Some(e),
            _ => None,
        }
    }
}

/// How a handshake went: where it stands, everything that was written to
/// the client, and the reason if the client was turned away.
pub struct Run {
    pub stage: StageView,
    pub sent: Seq<u8>,
    pub refusal: Option<ProxyErrorView>,
}

impl StageView {
    /// Whether the handshake is over, one way or the other.
    pub open spec fn settled(self) -> bool {
        self is Tunneling || self is Failed
    }

    /// How far a stage is from the end, counted in stages.
    pub open spec fn rank(self) -> nat {
        match self {
            StageView::AwaitGreeting => 5,
            StageView::AwaitMethods { .. } => 4,
            StageView::AwaitRequest => 3,
            StageView::AwaitAddr { .. } => 2,
            StageView::SendReply { .. } => 1,
            _ => 0,
        }
    }

    /// How the handshake goes from this stage on when the client sends
    /// `stream` and each step is fed the portion it asks for, until the
    /// handshake is over or the bytes do not suffice for the next step.
    pub open spec fn run(self, stream: Seq<u8>) -> Run
        decreases stream.len(), self.rank(),
    {
        let portion = self.expected() as int;
        if self.settled() || stream.len() < portion {
            Run { stage: self, sent: Seq::empty(), refusal: None }
        } else {
            let (next, action) = self.step(stream.take(portion));
            let rest = next.run(stream.skip(portion));
            Run {
                stage: rest.stage,
                sent: action.sent() + rest.sent,
                refusal: if action.refusal() is Some {
                    action.refusal()
                } else {
                    rest.refusal
                },
            }
        }
    }
}

impl Stage {
    /// The stage in which every handshake begins.
    pub fn start() -> (stage: Stage)
        ensures
            stage@ == StageView::AwaitGreeting,
    {
        Stage::AwaitGreeting
    }

    /// How many bytes the caller must read for the next step.
    pub fn expected(&self) -> (n: usize)
        ensures
            n == self@.expected(),
    {
        match self {
            Stage::AwaitGreeting => 2,
            Stage::AwaitMethods { count } => *count as usize,
            Stage::AwaitRequest => 3,
            Stage::AwaitAddr { have } => Addr::missing(have.as_slice()),
            _ => 0,
        }
    }

    /// Takes the bytes that were asked for and makes one step.
    pub fn advance(self, input: &[u8]) -> (r: (Stage, Action))
        requires
            self@.wf(),
            input@.len() == self@.expected(),
        ensures
            (r.0@, r.1@) == self@.step(input@),
            r.0@.wf(),
    {
        match self {
            Stage::AwaitGreeting => {
                let header = [input[0], input[1]];
                match check_greeting(&header) {
                    Ok(count) => (Stage::AwaitMethods { count }, Action::Continue),
                    Err(e) => (Stage::Failed, Action::Reject(e)),
                }
            },
            Stage::AwaitMethods { .. } => match select_method(input) {
                Ok(answer) => {
                    let mut bytes: Vec<u8> = Vec::new();
                    bytes.push(answer[0]);
                    bytes.push(answer[1]);
                    assert(bytes@ =~= seq![SOCKS5_VERSION, METHOD_NO_AUTH]);
                    (Stage::AwaitRequest, Action::Send(bytes))
                },
                Err(e) => (Stage::Failed, Action::Reject(e)),
            },
            Stage::AwaitRequest => {
                let header = [input[0], input[1], input[2]];
                match check_request(&header) {
                    Ok(_) => (Stage::AwaitAddr { have: Vec::new() }, Action::Continue),
                    Err(e) => (Stage::Failed, Action::Reject(e)),
                }
            },
            Stage::AwaitAddr { have } => {
                let mut have = have;
                let mut i: usize = 0;
                let ghost before = have@;
                while i < input.len()
                    invariant
                        i <= input@.len(),
                        have@ == before + input@.subrange(0, i as int),
                    decreases input@.len() - i,
                {
                    have.push(input[i]);
                    i += 1;
                    assert(have@ =~= before + input@.subrange(0, i as int));
                }
                assert(input@.subrange(0, i as int) =~= input@);
                match Addr::decode(have.as_slice()) {
                    Ok(Some(found)) => (Stage::SendReply { addr: found.0 }, Action::Continue),
                    Ok(None) => (Stage::AwaitAddr { have }, Action::Continue),
                    Err(e) => (Stage::Failed, Action::Reject(e)),
                }
            },
            Stage::SendReply { addr } => {
                let reply = Socks5Reply::new(SOCKS5_VERSION, RepCode::Success, addr);
                let bytes = reply.encode();
                (Stage::Tunneling { addr: reply.into_addr() }, Action::Send(bytes))
            },
            Stage::Tunneling { addr } => (Stage::Tunneling { addr }, Action::Continue),
            Stage::Failed => (Stage::Failed, Action::Continue),
        }
    }
}

/// One step of a run, spelled out.
proof fn run_unfolds(stage: StageView, stream: Seq<u8>)
    requires
        !stage.settled(),
        stream.len() >= stage.expected(),
    ensures
        stage.run(stream) == ({
            let portion = stage.expected() as int;
            let (next, action) = stage.step(stream.take(portion));
            let rest = next.run(stream.skip(portion));
            Run {
                stage: rest.stage,
                sent: action.sent() + rest.sent,
                refusal: if action.refusal() is Some {
                    action.refusal()
                } else {
                    rest.refusal
                },
            }
        }),
{
}

/// While only a part of the SOCKS5 form of an address has arrived, the
/// reader asks for more, and never for more than the form still holds.
proof fn part_of_form_is_incomplete(addr: AddrView, k: int)
    requires
        addr.wf(),
        0 <= k < addr.socks5_bytes().len(),
    ensures
        parse_socks5(addr.socks5_bytes().take(k)) is Incomplete,
        0 < missing_socks5(addr.socks5_bytes().take(k)),
        k + missing_socks5(addr.socks5_bytes().take(k)) <= addr.socks5_bytes().len(),
{
    let form = addr.socks5_bytes();
    let part = form.take(k);
    if k >= 1 {
        assert(part[0] == form[0]);
    }
    if k >= 2 {
        assert(part[1] == form[1]);
    }
}

/// From any point inside the address on, the handshake reads the rest of
/// the address, answers with the reply, and is ready to tunnel.
proof fn address_is_read_on(addr: AddrView, k: int, rest: Seq<u8>)
    requires
        addr.wf(),
        0 <= k < addr.socks5_bytes().len(),
    ensures
        (StageView::AwaitAddr { have: addr.socks5_bytes().take(k) }).run(
            addr.socks5_bytes().skip(k) + rest,
        ) == (Run {
            stage: StageView::Tunneling { addr },
            sent: reply_bytes(SOCKS5_VERSION, RepCode::Success, addr),
            refusal: None,
        }),
    decreases addr.socks5_bytes().len() - k,
{
    let form = addr.socks5_bytes();
    let have = form.take(k);
    let stage = StageView::AwaitAddr { have };
    let stream = form.skip(k) + rest;
    part_of_form_is_incomplete(addr, k);
    let portion = missing_socks5(have) as int;
    assert(have + stream.take(portion) =~= form.take(k + portion));
    assert(stream.skip(portion) =~= form.skip(k + portion) + rest);
    run_unfolds(stage, stream);
    if k + portion == form.len() {
        assert(form.take(k + portion) =~= form);
        assert(form + Seq::<u8>::empty() =~= form);
        crate::codec::socks5::socks5_form_reads_back(addr, Seq::empty());
        assert(form.skip(k + portion) + rest =~= rest);
        let reply = StageView::SendReply { addr };
        run_unfolds(reply, rest);
        let done = StageView::Tunneling { addr };
        assert(done.run(rest.skip(0)) == Run { stage: done, sent: Seq::empty(), refusal: None });
        assert(Seq::<u8>::empty() + (reply_bytes(SOCKS5_VERSION, RepCode::Success, addr)
            + Seq::<u8>::empty()) =~= reply_bytes(SOCKS5_VERSION, RepCode::Success, addr));
    } else {
        part_of_form_is_incomplete(addr, k + portion);
        address_is_read_on(addr, k + portion, rest);
        assert(Seq::<u8>::empty() + reply_bytes(SOCKS5_VERSION, RepCode::Success, addr)
            =~= reply_bytes(SOCKS5_VERSION, RepCode::Success, addr));
    }
}

/// A client that greets with version 5, offers "no authentication" among
/// its methods and asks to connect to an address gets two answers, `05 00`
/// and then `05 00 00` with the address it asked for, and after them its
/// stream can be tunnelled to that address. Whatever the client sends
/// behind the request is not touched.
pub proof fn request_is_answered(methods: Seq<u8>, reserved: u8, addr: AddrView, rest: Seq<u8>)
    requires
        methods.len() <= 255,
        methods.contains(METHOD_NO_AUTH),
        addr.wf(),
    ensures
        StageView::AwaitGreeting.run(
            seq![SOCKS5_VERSION, methods.len() as u8] + methods + seq![
                SOCKS5_VERSION,
                1u8,
                reserved,
            ] + addr.socks5_bytes() + rest,
        ) == (Run {
            stage: StageView::Tunneling { addr },
            sent: seq![SOCKS5_VERSION, METHOD_NO_AUTH] + reply_bytes(
                SOCKS5_VERSION,
                RepCode::Success,
                addr,
            ),
            refusal: None,
        }),
{
    let count = methods.len() as u8;
    let greeting = seq![SOCKS5_VERSION, count];
    let request = seq![SOCKS5_VERSION, 1u8, reserved];
    let form = addr.socks5_bytes();
    let reply = reply_bytes(SOCKS5_VERSION, RepCode::Success, addr);
    let s0 = greeting + methods + request + form + rest;
    let s1 = methods + request + form + rest;
    let s2 = request + form + rest;
    let s3 = form + rest;

    run_unfolds(StageView::AwaitGreeting, s0);
    assert(s0.take(2) =~= greeting);
    assert(s0.skip(2) =~= s1);

    let methods_stage = StageView::AwaitMethods { count };
    run_unfolds(methods_stage, s1);
    assert(s1.take(count as int) =~= methods);
    assert(s1.skip(count as int) =~= s2);

    run_unfolds(StageView::AwaitRequest, s2);
    assert(s2.take(3) =~= request);
    assert(s2.skip(3) =~= s3);

    address_is_read_on(addr, 0, rest);
    assert(form.take(0) =~= Seq::<u8>::empty());
    assert(form.skip(0) + rest =~= s3);

    assert(Seq::<u8>::empty() + (seq![SOCKS5_VERSION, METHOD_NO_AUTH] + (Seq::<u8>::empty()
        + reply)) =~= seq![SOCKS5_VERSION, METHOD_NO_AUTH] + reply);
}

/// A client that greets with any version but 5 is turned away at once and
/// gets no answer.
pub proof fn other_versions_are_turned_away(version: u8, count: u8, rest: Seq<u8>)
    requires
        version != SOCKS5_VERSION,
    ensures
        StageView::AwaitGreeting.run(seq![version, count] + rest) == (Run {
            stage: StageView::Failed,
            sent: Seq::empty(),
            refusal: Some(ProxyErrorView::UnsupportedSocksType(version)),
        }),
{
    let stream = seq![version, count] + rest;
    run_unfolds(StageView::AwaitGreeting, stream);
    assert(stream.take(2) =~= seq![version, count]);
    assert(Seq::<u8>::empty() + Seq::<u8>::empty() =~= Seq::<u8>::empty());
}

/// A client that does not offer "no authentication" is turned away and
/// gets no answer.
pub proof fn other_methods_are_turned_away(methods: Seq<u8>, rest: Seq<u8>)
    requires
        methods.len() <= 255,
        !methods.contains(METHOD_NO_AUTH),
    ensures
        StageView::AwaitGreeting.run(
            seq![SOCKS5_VERSION, methods.len() as u8] + methods + rest,
        ) == (Run {
            stage: StageView::Failed,
            sent: Seq::empty(),
            refusal: Some(ProxyErrorView::UnsupportedMethodType),
        }),
{
    let count = methods.len() as u8;
    let s0 = seq![SOCKS5_VERSION, count] + methods + rest;
    let s1 = methods + rest;
    run_unfolds(StageView::AwaitGreeting, s0);
    assert(s0.take(2) =~= seq![SOCKS5_VERSION, count]);
    assert(s0.skip(2) =~= s1);
    run_unfolds(StageView::AwaitMethods { count }, s1);
    assert(s1.take(count as int) =~= methods);
    assert(Seq::<u8>::empty() + Seq::<u8>::empty() =~= Seq::<u8>::empty());
}

} // verus!
