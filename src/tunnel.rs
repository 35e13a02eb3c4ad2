//! The CONNECT tunnel: the reply to the CONNECT itself, the sniffing of the
//! first bytes of the upgraded stream, and the state machine that drives a
//! tunnel from upgrade to its end. The caller performs each action and
//! hands back what came of it as an event.
use vstd::prelude::*;
use crate::text::{has_prefix, starts_with};

verus! {

/// What the first bytes of an upgraded stream show.
#[derive(Debug, PartialEq, Eq, Structural, Clone, Copy)]
pub enum Protocol {
    /// `GET `: plain HTTP, often a WebSocket upgrade.
    Http,
    /// `0x16 0x03`: a TLS ClientHello record.
    Tls,
    /// Anything else: relayed as opaque bytes.
    Opaque,
}

/// The protocol the peeked bytes show.
pub open spec fn protocol_of(peek: Seq<u8>) -> Protocol {
    if peek == seq![71u8, 69u8, 84u8, 32u8] {
        Protocol::Http
    } else if peek.len() >= 2 && peek[0] == 0x16u8 && peek[1] == 0x03u8 {
        Protocol::Tls
    } else {
        Protocol::Opaque
    }
}

/// Classifies the bytes peeked from an upgraded stream (up to four; a short
/// read gives fewer).
pub fn classify(peek: &[u8]) -> (r: Protocol)
    ensures
        r == protocol_of(peek@),
{
    if peek.len() == 4 && peek[0] == 71u8 && peek[1] == 69u8 && peek[2] == 84u8 && peek[3] == 32u8 {
        assert(peek@ =~= seq![71u8, 69u8, 84u8, 32u8]);
        Protocol::Http
    } else if peek.len() >= 2 && peek[0] == 0x16u8 && peek[1] == 0x03u8 {
        Protocol::Tls
    } else {
        Protocol::Opaque
    }
}

/// The status of the reply to a CONNECT: `200` where the request-target
/// has an authority, `400` where it has none.
pub fn connect_status(has_authority: bool) -> (r: u16)
    ensures
        r == (if has_authority { 200u16 } else { 400u16 }),
{
    if has_authority {
        200
    } else {
        400
    }
}

/// Where a tunnel stands.
#[derive(Debug, PartialEq, Eq, Structural, Clone, Copy)]
pub enum Phase {
    /// Waiting for the connection to be surrendered after the `200`.
    Upgrading,
    /// Reading the first bytes.
    Peeking,
    /// Obtaining the TLS configuration minted for the authority.
    MintingConfig,
    /// Accepting TLS from the client.
    AcceptingTls,
    /// Serving HTTP over the plain stream.
    ServingHttp,
    /// Serving HTTP over the intercepted TLS stream.
    ServingHttps,
    /// Opening a TCP connection to the authority.
    Connecting,
    /// Relaying bytes both ways.
    Copying,
    /// Over.
    Done,
}

/// What came of the last action.
#[derive(Debug)]
pub enum Event {
    Upgraded,
    UpgradeFailed(String),
    /// The bytes read (four, or fewer on a short read).
    Peeked(Vec<u8>),
    PeekFailed(String),
    ConfigReady,
    ConfigFailed(String),
    TlsAccepted,
    TlsFailed(String),
    /// The inner HTTP server ended, with the text of its error if any.
    ServeEnded(Option<String>),
    Connected,
    ConnectFailed(String),
    /// The relay ended, with the text of its error if any.
    CopyEnded(Option<String>),
}

/// What to do next.
#[derive(Debug, PartialEq, Eq, Structural, Clone, Copy)]
pub enum Action {
    ReadPeek,
    /// Serve the rewound stream as HTTP with scheme `http`.
    ServeHttp,
    /// Obtain the TLS configuration for the authority.
    MintConfig,
    /// Accept TLS on the rewound stream.
    AcceptTls,
    /// Serve the TLS stream as HTTP with scheme `https`.
    ServeHttps,
    /// Open a TCP connection to the authority.
    ConnectTcp,
    /// Relay the rewound stream and the connection both ways.
    CopyBidirectional,
    /// Finalize the record and close.
    Finish,
}

/// An error met in a tunnel, to be recorded on the transaction.
#[derive(Debug)]
pub enum TunnelError {
    Upgrade(String),
    PeekRead(String),
    ServerConfig(String),
    TlsAccept(String),
    /// The inner HTTP server failed; `true` on the TLS side.
    Serve(bool, String),
    /// The peeked bytes matched no known protocol.
    UnknownProtocol(Vec<u8>),
    Connect(String),
    Relay(String),
}

/// The outcome of one step.
pub struct Step {
    pub phase: Phase,
    pub action: Action,
    pub error: Option<TunnelError>,
}

/// The text with which the inner HTTP server reports a connection that was
/// shut down; on the TLS side such an error is not recorded.
pub const SHUTDOWN_ERROR: &'static str = "error shutting down connection";

/// The step a tunnel in `phase` takes on `event`. An event that does not
/// belong to the phase ends the tunnel.
pub open spec fn next(phase: Phase, event: Event) -> (Phase, Action, Option<TunnelError>) {
    match (phase, event) {
        (Phase::Upgrading, Event::Upgraded) => (Phase::Peeking, Action::ReadPeek, None),
        (Phase::Upgrading, Event::UpgradeFailed(e)) => (Phase::Done, Action::Finish, Some(TunnelError::Upgrade(e))),
        (Phase::Peeking, Event::Peeked(b)) => match protocol_of(b@) {
            Protocol::Http => (Phase::ServingHttp, Action::ServeHttp, None),
            Protocol::Tls => (Phase::MintingConfig, Action::MintConfig, None),
            Protocol::Opaque => (Phase::Connecting, Action::ConnectTcp, Some(TunnelError::UnknownProtocol(b))),
        },
        (Phase::Peeking, Event::PeekFailed(e)) => (Phase::Done, Action::Finish, Some(TunnelError::PeekRead(e))),
        (Phase::MintingConfig, Event::ConfigReady) => (Phase::AcceptingTls, Action::AcceptTls, None),
        (Phase::MintingConfig, Event::ConfigFailed(e)) => (Phase::Done, Action::Finish, Some(TunnelError::ServerConfig(e))),
        (Phase::AcceptingTls, Event::TlsAccepted) => (Phase::ServingHttps, Action::ServeHttps, None),
        (Phase::AcceptingTls, Event::TlsFailed(e)) => (Phase::Done, Action::Finish, Some(TunnelError::TlsAccept(e))),
        (Phase::ServingHttp, Event::ServeEnded(Some(e))) => (Phase::Done, Action::Finish, Some(TunnelError::Serve(false, e))),
        (Phase::ServingHttps, Event::ServeEnded(Some(e))) => if has_prefix(e@, SHUTDOWN_ERROR@) {
            (Phase::Done, Action::Finish, None)
        } else {
            (Phase::Done, Action::Finish, Some(TunnelError::Serve(true, e)))
        },
        (Phase::Connecting, Event::Connected) => (Phase::Copying, Action::CopyBidirectional, None),
        (Phase::Connecting, Event::ConnectFailed(e)) => (Phase::Done, Action::Finish, Some(TunnelError::Connect(e))),
        (Phase::Copying, Event::CopyEnded(Some(e))) => (Phase::Done, Action::Finish, Some(TunnelError::Relay(e))),
        _ => (Phase::Done, Action::Finish, None),
    }
}

/// Takes one step of the tunnel state machine.
pub fn step(phase: Phase, event: Event) -> (r: Step)
    ensures
        (r.phase, r.action, r.error) == next(phase, event),
{
    let (p, a, e) = match (phase, event) {
        (Phase::Upgrading, Event::Upgraded) => (Phase::Peeking, Action::ReadPeek, None),
        (Phase::Upgrading, Event::UpgradeFailed(e)) => (Phase::Done, Action::Finish, Some(TunnelError::Upgrade(e))),
        (Phase::Peeking, Event::Peeked(b)) => match classify(b.as_slice()) {
            Protocol::Http => (Phase::ServingHttp, Action::ServeHttp, None),
            Protocol::Tls => (Phase::MintingConfig, Action::MintConfig, None),
            Protocol::Opaque => (Phase::Connecting, Action::ConnectTcp, Some(TunnelError::UnknownProtocol(b))),
        },
        (Phase::Peeking, Event::PeekFailed(e)) => (Phase::Done, Action::Finish, Some(TunnelError::PeekRead(e))),
        (Phase::MintingConfig, Event::ConfigReady) => (Phase::AcceptingTls, Action::AcceptTls, None),
        (Phase::MintingConfig, Event::ConfigFailed(e)) => (Phase::Done, Action::Finish, Some(TunnelError::ServerConfig(e))),
        (Phase::AcceptingTls, Event::TlsAccepted) => (Phase::ServingHttps, Action::ServeHttps, None),
        (Phase::AcceptingTls, Event::TlsFailed(e)) => (Phase::Done, Action::Finish, Some(TunnelError::TlsAccept(e))),
        (Phase::ServingHttp, Event::ServeEnded(Some(e))) => (Phase::Done, Action::Finish, Some(TunnelError::Serve(false, e))),
        (Phase::ServingHttps, Event::ServeEnded(Some(e))) => if starts_with(e.as_str(), SHUTDOWN_ERROR) {
            (Phase::Done, Action::Finish, None)
        } else {
            (Phase::Done, Action::Finish, Some(TunnelError::Serve(true, e)))
        },
        (Phase::Connecting, Event::Connected) => (Phase::Copying, Action::CopyBidirectional, None),
        (Phase::Connecting, Event::ConnectFailed(e)) => (Phase::Done, Action::Finish, Some(TunnelError::Connect(e))),
        (Phase::Copying, Event::CopyEnded(Some(e))) => (Phase::Done, Action::Finish, Some(TunnelError::Relay(e))),
        _ => (Phase::Done, Action::Finish, None),
    };
    Step { phase: p, action: a, error: e }
}

/// Bytes peeked from a stream, handed out again before the stream's own.
pub struct Rewind {
    prefix: Vec<u8>,
    pos: usize,
}

impl View for Rewind {
    type V = Seq<u8>;

    /// The peeked bytes not yet handed out.
    closed spec fn view(&self) -> Seq<u8> {
        self.prefix@.subrange(self.pos as int, self.prefix@.len() as int)
    }
}

impl Rewind {
    pub closed spec fn wf(&self) -> bool {
        self.pos <= self.prefix@.len()
    }

    /// Holds `prefix` to be read first.
    pub fn new(prefix: Vec<u8>) -> (r: Rewind)
        ensures
            r.wf(),
            r@ == prefix@,
    {
        let r = Rewind { prefix, pos: 0 };
        assert(r.prefix@.subrange(0, r.prefix@.len() as int) =~= r.prefix@);
        r
    }

    /// Whether every peeked byte has been handed out, after which reads go
    /// to the stream alone.
    pub fn is_drained(&self) -> (r: bool)
        requires
            self.wf(),
        ensures
            r == (self@.len() == 0),
    {
        self.pos == self.prefix.len()
    }

    /// Hands out up to `max` of the peeked bytes, in order.
    pub fn read_prefix(&mut self, max: usize) -> (r: Vec<u8>)
        requires
            old(self).wf(),
        ensures
            final(self).wf(),
            r@.len() == if max < old(self)@.len() { max as int } else { old(self)@.len() as int },
            r@ + final(self)@ == old(self)@,
    {
        let avail = self.prefix.len() - self.pos;
        let n = if max < avail { max } else { avail };
        let mut out: Vec<u8> = Vec::new();
        let len = self.prefix.len();
        let mut k: usize = 0;
        while k < n
            invariant
                len == self.prefix@.len(),
                n <= avail,
                avail == len - self.pos,
                self.pos <= len,
                k <= n,
                out@ == self.prefix@.subrange(self.pos as int, self.pos + k),
            decreases n - k,
        {
            out.push(self.prefix[self.pos + k]);
            k = k + 1;
        }
        let ghost before = self@;
        self.pos = self.pos + n;
        assert(out@ + self@ =~= before);
        out
    }
}

/// What a reader of a rewound stream sees: the peeked bytes not yet handed
/// out, then the rest of the stream.
pub open spec fn observed(pending: Seq<u8>, stream: Seq<u8>) -> Seq<u8> {
    pending + stream
}

/// Peeking is transparent: reading a chunk of the peeked bytes and then the
/// rest gives the same bytes as before the read, whatever follows in the
/// stream; so a rewound stream yields what the client sent.
pub proof fn law_peek_is_transparent(before: Seq<u8>, chunk: Seq<u8>, after: Seq<u8>, stream: Seq<u8>)
    requires
        chunk + after == before,
    ensures
        chunk + observed(after, stream) == observed(before, stream),
{
    assert(chunk + (after + stream) =~= (chunk + after) + stream);
}

} // verus!
