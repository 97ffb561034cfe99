//! The proxy's decisions: which accepted connections are served, how a
//! CONNECT request is judged and answered, and the life of one connection.
use vstd::prelude::*;

use crate::barrier::Barrier;
use crate::HTTPS_PORT;

verus! {

#[verifier::external_type_specification]
#[verifier::external_body]
pub struct ExIoError(std::io::Error);

/// Why the proxy could not run.
#[derive(Debug)]
pub enum ProxyError {
    /// The listener could not be bound or failed.
    Io(std::io::Error),
}

/// The copy buffers of one relay, in bytes: `outgoing_buf` for bytes from
/// the client towards the overlay, `incoming_buf` for the way back.
#[derive(Clone, Copy, Debug, PartialEq, Eq, Structural)]
pub struct BufferSizes {
    pub outgoing_buf: usize,
    pub incoming_buf: usize,
}

/// Size of each copy buffer unless configured otherwise.
pub const DEFAULT_BUF: usize = 512;

impl BufferSizes {
    /// Both buffers hold at least one byte.
    pub open spec fn wf(self) -> bool {
        self.outgoing_buf > 0 && self.incoming_buf > 0
    }

    /// Buffer sizes of the given byte counts; `None` when either is zero.
    pub fn new(outgoing_buf: usize, incoming_buf: usize) -> (r: Option<BufferSizes>)
        ensures
            r is Some <==> outgoing_buf > 0 && incoming_buf > 0,
            r matches Some(b) ==> b.outgoing_buf == outgoing_buf && b.incoming_buf
                == incoming_buf && b.wf(),
    {
        if outgoing_buf == 0 || incoming_buf == 0 {
            None
        } else {
            Some(BufferSizes { outgoing_buf, incoming_buf })
        }
    }
}

impl Default for BufferSizes {
    fn default() -> (r: BufferSizes)
        ensures
            r.outgoing_buf == DEFAULT_BUF,
            r.incoming_buf == DEFAULT_BUF,
            r.wf(),
    {
        BufferSizes { outgoing_buf: DEFAULT_BUF, incoming_buf: DEFAULT_BUF }
    }
}

/// The authority of a request-target: its host and the port, if written.
#[derive(Debug)]
pub struct Authority {
    pub host: String,
    pub port: Option<u16>,
}

/// Why a request is not tunnelled; each reason has its own answer.
#[derive(Clone, Copy, Debug, PartialEq, Eq, Structural)]
pub enum RequestError {
    /// The method is not CONNECT.
    UnsupportedMethod,
    /// The request-target has no authority.
    InvalidAddress,
    /// The authority names a port other than 443.
    UnsupportedPort,
    /// No overlay stream could be opened to the host.
    UpstreamConnect,
}

/// The HTTP status that answers `e`.
pub open spec fn status_of(e: RequestError) -> u16 {
    match e {
        RequestError::UnsupportedMethod => 501,
        RequestError::InvalidAddress => 400,
        RequestError::UnsupportedPort => 400,
        RequestError::UpstreamConnect => 503,
    }
}

/// The body that answers `e`.
pub open spec fn message_of(e: RequestError) -> Seq<char> {
    match e {
        RequestError::UnsupportedMethod => "proxy only allows CONNECT request method"@,
        RequestError::InvalidAddress => "invalid address"@,
        RequestError::UnsupportedPort => "proxy only accepts connections to port 443"@,
        RequestError::UpstreamConnect => "failed to establish connection with upstream"@,
    }
}

/// Status of the answer that opens a tunnel; its body is empty.
pub const OK_STATUS: u16 = 200;

/// An HTTP answer: status code and body.
#[derive(Clone, Copy, Debug, PartialEq, Eq)]
pub struct Reply {
    pub status: u16,
    pub body: &'static str,
}

impl Reply {
    /// The answer that opens a tunnel: 200 with an empty body.
    pub fn tunnel_open() -> (r: Reply)
        ensures
            r.status == OK_STATUS,
            r.body@.len() == 0,
    {
        proof {
            reveal_strlit("");
        }
        Reply { status: OK_STATUS, body: "" }
    }
}

impl RequestError {
    /// The HTTP status that answers this error.
    pub fn status(&self) -> (r: u16)
        ensures
            r == status_of(*self),
    {
        match self {
            RequestError::UnsupportedMethod => 501,
            RequestError::InvalidAddress => 400,
            RequestError::UnsupportedPort => 400,
            RequestError::UpstreamConnect => 503,
        }
    }

    /// The body that answers this error.
    pub fn message(&self) -> (r: &'static str)
        ensures
            r@ == message_of(*self),
    {
        match self {
            RequestError::UnsupportedMethod => "proxy only allows CONNECT request method",
            RequestError::InvalidAddress => "invalid address",
            RequestError::UnsupportedPort => "proxy only accepts connections to port 443",
            RequestError::UpstreamConnect => "failed to establish connection with upstream",
        }
    }

    /// The whole answer to this error.
    pub fn reply(&self) -> (r: Reply)
        ensures
            r.status == status_of(*self),
            r.body@ == message_of(*self),
    {
        Reply { status: self.status(), body: self.message() }
    }
}

/// What a request asks for: the host to tunnel to, or the error that
/// refuses it. The method is checked first, then the authority, then its
/// port; a missing port means 443.
pub open spec fn judge(is_connect: bool, authority: Option<Authority>) -> Result<
    Seq<char>,
    RequestError,
> {
    if !is_connect {
        Err(RequestError::UnsupportedMethod)
    } else {
        match authority {
            None => Err(RequestError::InvalidAddress),
            Some(a) => match a.port {
                Some(p) if p != HTTPS_PORT => Err(RequestError::UnsupportedPort),
                _ => Ok(a.host@),
            },
        }
    }
}

/// Judges one request: `is_connect` tells whether its method is CONNECT,
/// `authority` is the authority of its request-target. On success the host
/// to open an overlay stream to is returned.
pub fn check_request(is_connect: bool, authority: Option<Authority>) -> (r: Result<
    String,
    RequestError,
>)
    ensures
        r is Ok <==> judge(is_connect, authority) is Ok,
        r is Ok ==> judge(is_connect, authority) == Ok::<Seq<char>, RequestError>(r->Ok_0@),
        r is Err ==> judge(is_connect, authority) == Err::<Seq<char>, RequestError>(r->Err_0),
{
    if !is_connect {
        return Err(RequestError::UnsupportedMethod);
    }
    match authority {
        None => Err(RequestError::InvalidAddress),
        Some(a) => match a.port {
            Some(p) if p != HTTPS_PORT => Err(RequestError::UnsupportedPort),
            _ => Ok(a.host),
        },
    }
}

/// The answer once the overlay stream was tried: 200 with an empty body
/// when it opened, else the upstream error's answer.
pub fn upstream_reply(connected: bool) -> (r: Reply)
    ensures
        connected ==> r.status == OK_STATUS && r.body@.len() == 0,
        !connected ==> r.status == status_of(RequestError::UpstreamConnect) && r.body@
            == message_of(RequestError::UpstreamConnect),
{
    if connected {
        Reply::tunnel_open()
    } else {
        RequestError::UpstreamConnect.reply()
    }
}

/// The address the listener binds: the IPv4 loopback address, octet by
/// octet, and `port`. The proxy listens on no other address.
pub fn loopback_address(port: u16) -> (r: ([u8; 4], u16))
    ensures
        r.0@ == seq![127u8, 0u8, 0u8, 1u8],
        r.1 == port,
{
    let octets: [u8; 4] = [127, 0, 0, 1];
    proof {
        assert(octets@ =~= seq![127u8, 0u8, 0u8, 1u8]);
    }
    (octets, port)
}

/// What the listener loop saw.
#[derive(Clone, Copy, Debug, PartialEq, Eq, Structural)]
pub enum ListenerEvent {
    /// The shutdown signal fired.
    Shutdown,
    /// Accepting failed; the listener is taken to be broken.
    AcceptFailed,
    /// A TCP connection was accepted.
    Accepted,
}

/// What the listener loop does next.
#[derive(Debug)]
pub enum AcceptAction {
    /// Leave the loop.
    Stop,
    /// Close the accepted connection unserved; the barrier gives the wait,
    /// in nanoseconds.
    Drop(u64),
    /// Serve the accepted connection in a task of its own.
    Serve,
}

/// The listener loop's decision on one event: stop on shutdown or a failed
/// accept, leaving the barrier alone; probe the barrier once for each
/// accepted connection, which is served exactly when the probe took a cell
/// and dropped, with the wait, when it did not.
pub fn on_listener_event(barrier: &mut Barrier, event: ListenerEvent) -> (r: AcceptAction)
    requires
        old(barrier).wf(),
    ensures
        final(barrier).wf(),
        final(barrier).spec_replenish_nanos() == old(barrier).spec_replenish_nanos(),
        final(barrier).spec_max_burst() == old(barrier).spec_max_burst(),
        event != ListenerEvent::Accepted ==> r is Stop && final(barrier).cells_taken() == old(
            barrier,
        ).cells_taken(),
        event == ListenerEvent::Accepted ==> (r is Serve || r is Drop),
        event == ListenerEvent::Accepted ==> (r is Serve <==> final(barrier).cells_taken() == old(
            barrier,
        ).cells_taken() + 1),
        r is Drop ==> final(barrier).cells_taken() == old(barrier).cells_taken(),
        r matches AcceptAction::Drop(w) ==> w <= old(barrier).spec_replenish_nanos(),
        event == ListenerEvent::Accepted && old(barrier).cells_taken() < old(
            barrier,
        ).spec_max_burst() ==> r is Serve,
{
    match event {
        ListenerEvent::Shutdown => AcceptAction::Stop,
        ListenerEvent::AcceptFailed => AcceptAction::Stop,
        ListenerEvent::Accepted => match barrier.jammed() {
            Some(wait) => AcceptAction::Drop(wait),
            None => AcceptAction::Serve,
        },
    }
}

/// A model of the life of one client connection, after the state machine
/// that the handler follows; the laws below state its order.
#[derive(Clone, Copy, Debug, PartialEq, Eq, Structural)]
pub enum ConnState {
    Accepted,
    Parsing,
    ConnectingUpstream,
    Responded200,
    Upgraded,
    Relaying,
    Dropped,
    RespondedErr,
    Responded503,
    Closed,
}

/// What happens to a connection.
#[derive(Clone, Copy, Debug, PartialEq, Eq, Structural)]
pub enum ConnEvent {
    BarrierPassed,
    BarrierJammed,
    ValidConnect,
    InvalidRequest,
    UpstreamOpened,
    UpstreamFailed,
    UpgradeDone,
    RelayStarted,
    StreamClosed,
}

/// The state after `e` in state `s`; an event that does not apply leaves
/// the state as it is.
pub open spec fn next_state(s: ConnState, e: ConnEvent) -> ConnState {
    match (s, e) {
        (ConnState::Accepted, ConnEvent::BarrierPassed) => ConnState::Parsing,
        (ConnState::Accepted, ConnEvent::BarrierJammed) => ConnState::Dropped,
        (ConnState::Parsing, ConnEvent::ValidConnect) => ConnState::ConnectingUpstream,
        (ConnState::Parsing, ConnEvent::InvalidRequest) => ConnState::RespondedErr,
        (ConnState::ConnectingUpstream, ConnEvent::UpstreamOpened) => ConnState::Responded200,
        (ConnState::ConnectingUpstream, ConnEvent::UpstreamFailed) => ConnState::Responded503,
        (ConnState::Responded200, ConnEvent::UpgradeDone) => ConnState::Upgraded,
        (ConnState::Responded200, ConnEvent::StreamClosed) => ConnState::Closed,
        (ConnState::Upgraded, ConnEvent::RelayStarted) => ConnState::Relaying,
        (ConnState::Upgraded, ConnEvent::StreamClosed) => ConnState::Closed,
        (ConnState::Relaying, ConnEvent::StreamClosed) => ConnState::Closed,
        _ => s,
    }
}

/// The four states in which a connection ends.
pub open spec fn is_terminal_state(s: ConnState) -> bool {
    s == ConnState::Dropped || s == ConnState::RespondedErr || s == ConnState::Responded503
        || s == ConnState::Closed
}

/// The state after the events `es`, in order, from `s`.
pub open spec fn run_events(s: ConnState, es: Seq<ConnEvent>) -> ConnState
    decreases es.len(),
{
    if es.len() == 0 {
        s
    } else {
        run_events(next_state(s, es[0]), es.subrange(1, es.len() as int))
    }
}

/// Whether the states from `s` through the events `es` meet `target`.
pub open spec fn passes_through(s: ConnState, es: Seq<ConnEvent>, target: ConnState) -> bool
    decreases es.len(),
{
    s == target || (es.len() > 0 && passes_through(
        next_state(s, es[0]),
        es.subrange(1, es.len() as int),
        target,
    ))
}

/// The states that come only after the 200 answer was sent.
pub open spec fn after_response(s: ConnState) -> bool {
    s == ConnState::Responded200 || s == ConnState::Upgraded || s == ConnState::Relaying
        || s == ConnState::Closed
}

impl ConnState {
    /// The state after `event`.
    pub fn step(self, event: ConnEvent) -> (r: ConnState)
        ensures
            r == next_state(self, event),
    {
        match (self, event) {
            (ConnState::Accepted, ConnEvent::BarrierPassed) => ConnState::Parsing,
            (ConnState::Accepted, ConnEvent::BarrierJammed) => ConnState::Dropped,
            (ConnState::Parsing, ConnEvent::ValidConnect) => ConnState::ConnectingUpstream,
            (ConnState::Parsing, ConnEvent::InvalidRequest) => ConnState::RespondedErr,
            (ConnState::ConnectingUpstream, ConnEvent::UpstreamOpened) => ConnState::Responded200,
            (ConnState::ConnectingUpstream, ConnEvent::UpstreamFailed) => ConnState::Responded503,
            (ConnState::Responded200, ConnEvent::UpgradeDone) => ConnState::Upgraded,
            (ConnState::Responded200, ConnEvent::StreamClosed) => ConnState::Closed,
            (ConnState::Upgraded, ConnEvent::RelayStarted) => ConnState::Relaying,
            (ConnState::Upgraded, ConnEvent::StreamClosed) => ConnState::Closed,
            (ConnState::Relaying, ConnEvent::StreamClosed) => ConnState::Closed,
            _ => self,
        }
    }

    /// Whether the connection has ended.
    pub fn is_terminal(&self) -> (r: bool)
        ensures
            r == is_terminal_state(*self),
    {
        match self {
            ConnState::Dropped | ConnState::RespondedErr | ConnState::Responded503
            | ConnState::Closed => true,
            _ => false,
        }
    }
}

/// Once a connection has ended, no event changes its state.
pub proof fn lemma_terminal_states_absorb(s: ConnState, es: Seq<ConnEvent>)
    requires
        is_terminal_state(s),
    ensures
        run_events(s, es) == s,
    decreases es.len(),
{
    if es.len() > 0 {
        lemma_terminal_states_absorb(next_state(s, es[0]), es.subrange(1, es.len() as int));
    }
}

proof fn lemma_response_precedes(s: ConnState, es: Seq<ConnEvent>)
    ensures
        after_response(run_events(s, es)) ==> after_response(s) || passes_through(
            s,
            es,
            ConnState::Responded200,
        ),
    decreases es.len(),
{
    if es.len() > 0 {
        let t = next_state(s, es[0]);
        lemma_response_precedes(t, es.subrange(1, es.len() as int));
    }
}

/// The 200 answer comes before any relaying: whatever the events, a
/// connection that reaches the relay, or is closed after it, went through
/// the state in which the 200 answer was sent.
pub proof fn lemma_response_before_relay(es: Seq<ConnEvent>)
    ensures
        run_events(ConnState::Accepted, es) == ConnState::Relaying || run_events(ConnState::Accepted, es)
            == ConnState::Closed ==> passes_through(
            ConnState::Accepted,
            es,
            ConnState::Responded200,
        ),
{
    lemma_response_precedes(ConnState::Accepted, es);
}

} // verus!
