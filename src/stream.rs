//! The TCP-over-IPv4 connection as a state machine over firmware calls.
//!
//! The firmware offers no blocking socket API: every step (creating a signal
//! object, locating the service binding, creating the child instance, opening
//! and configuring the protocol, issuing I/O and waiting on a token's signal)
//! is a call into the environment. `Tcp4Stream` decides which call comes next
//! and what its reply means; the owner of the stream performs each `Call` and
//! hands the `Reply` back through `resume`, until a `Request::Done` reports the
//! outcome of the operation.
use vstd::prelude::*;
use crate::addr::{SocketAddr, SocketAddrV4};

verus! {

/// Hop limit used for every connection.
pub const TIME_TO_LIVE: u8 = 255;

/// Number of signal objects a connection owns: connect, send, receive, close.
pub const TOKEN_COUNT: usize = 4;

/// Why an operation failed.
#[derive(Debug, Clone, Copy, PartialEq, Eq, Structural)]
pub enum NetError {
    /// A signal object or a child instance could not be allocated.
    ResourceExhausted,
    /// The service binding could not be located or the protocol not opened.
    ProtocolUnavailable,
    /// The connection parameters were refused.
    ConfigurationRejected,
    ConnectionRefused,
    ConnectionReset,
    ConnectionAborted,
    /// The IPv6 path was asked for.
    Unsupported,
    /// An operation was asked for while another one is outstanding.
    AlreadyInProgress,
    /// I/O was asked for on a connection that is not active.
    NotConnected,
}

/// Completion status found in a token once its signal object fired.
#[derive(Debug, Clone, Copy, PartialEq, Eq, Structural)]
pub enum Completion {
    Success,
    Refused,
    Reset,
    Aborted,
}

/// What the environment answered to the last `Call`.
#[derive(Debug, Clone, Copy, PartialEq, Eq, Structural)]
pub enum Reply {
    /// The call succeeded and produced this handle.
    Created(u64),
    /// The call succeeded and produced nothing.
    Accepted,
    /// The call failed.
    Failed,
    /// A wait ended: the token's completion status and the bytes it moved.
    Signaled(Completion, usize),
}

/// Parameters handed to the protocol's configure call. The station address
/// and subnet mask are not given: the stack's default address is used.
#[derive(Debug, Clone, Copy)]
pub struct Tcp4Config {
    pub type_of_service: u8,
    pub time_to_live: u8,
    pub use_default_address: bool,
    pub station_port: u16,
    pub remote: SocketAddrV4,
    pub active: bool,
}

/// A call into the environment that the stream asks its owner to perform.
#[derive(Debug, Clone, Copy)]
pub enum Call {
    /// Create a signal object; reply `Created(event)`.
    CreateEvent,
    /// Close a signal object; any reply.
    DestroyEvent { event: u64 },
    /// Locate the TCP4 service binding; reply `Created(service)`.
    LocateService,
    /// Ask the service binding for a child instance; reply `Created(child)`.
    CreateChild { service: u64 },
    /// Destroy the child instance through its service binding; any reply.
    DestroyChild { service: u64, child: u64 },
    /// Open the TCP4 protocol on the child, for this image; reply `Created(protocol)`.
    OpenProtocol { child: u64 },
    /// Close the TCP4 protocol on the child; any reply.
    CloseProtocol { child: u64 },
    /// Configure the protocol; reply `Accepted`.
    Configure { protocol: u64, config: Tcp4Config },
    /// Issue the connect request bound to `event`; reply `Accepted`.
    Connect { protocol: u64, event: u64 },
    /// Issue a transmit of `len` bytes bound to `event`; reply `Accepted`.
    Transmit { protocol: u64, event: u64, len: usize },
    /// Issue a receive into `len` bytes of buffer bound to `event`; reply `Accepted`.
    Receive { protocol: u64, event: u64, len: usize },
    /// Issue the graceful close bound to `event`; reply `Accepted`.
    Close { protocol: u64, event: u64 },
    /// Block until `event` is signaled; reply `Signaled(status, bytes)`.
    Wait { event: u64 },
}

/// What the stream asks of its owner next.
#[derive(Debug, Clone, Copy)]
pub enum Request {
    /// Perform this call and hand its reply to `resume`.
    Call(Call),
    /// The operation is over, with this outcome (bytes moved, or 0).
    Done(Result<usize, NetError>),
}

/// Where a connection stands, and which call it awaits a reply to.
#[derive(Debug, Clone, Copy)]
pub enum Stage {
    CreatingEvents,
    LocatingService,
    CreatingChild,
    OpeningProtocol,
    Configuring,
    Connecting,
    AwaitingConnect,
    Active,
    Sending { len: usize },
    AwaitingSend { len: usize },
    Receiving { len: usize },
    AwaitingReceive { len: usize },
    Closing,
    AwaitingClose,
    /// Releasing what was acquired, in reverse order; then reports `outcome`.
    TearingDown { outcome: Result<usize, NetError> },
    Closed,
}

/// The abstract state of a connection.
pub struct StreamView {
    pub stage: Stage,
    pub config: Tcp4Config,
    /// Signal objects owned, in the order of creation: connect, send, receive, close.
    pub events: Seq<u64>,
    /// The shared service binding (borrowed, never destroyed by the stream).
    pub service: Option<u64>,
    /// The child instance, owned.
    pub child: Option<u64>,
    /// The opened protocol interface on the child.
    pub protocol: Option<u64>,
}

pub open spec fn config_for(remote: SocketAddrV4) -> Tcp4Config {
    Tcp4Config {
        type_of_service: 0,
        time_to_live: 255,
        use_default_address: true,
        station_port: 0,
        remote,
        active: true,
    }
}

/// The state right after `connect`: nothing acquired yet.
pub open spec fn initial(remote: SocketAddrV4) -> StreamView {
    StreamView {
        stage: Stage::CreatingEvents,
        config: config_for(remote),
        events: seq![],
        service: None,
        child: None,
        protocol: None,
    }
}

/// Invariants that hold in every stage: what is acquired is acquired in order.
pub open spec fn shape(v: StreamView) -> bool {
    &&& v.events.len() <= 4
    &&& (v.protocol is Some ==> v.child is Some)
    &&& (v.child is Some ==> v.service is Some && v.events.len() == 4)
}

/// The next release during teardown: protocol, then child, then the last event.
pub open spec fn teardown_call(v: StreamView) -> Option<Call> {
    if v.protocol is Some {
        Some(Call::CloseProtocol { child: v.child.unwrap() })
    } else if v.child is Some {
        Some(Call::DestroyChild { service: v.service.unwrap(), child: v.child.unwrap() })
    } else if v.events.len() > 0 {
        Some(Call::DestroyEvent { event: v.events.last() })
    } else {
        None
    }
}

pub open spec fn well_formed(v: StreamView) -> bool {
    &&& shape(v)
    &&& match v.stage {
        Stage::CreatingEvents => v.events.len() < 4 && v.service is None && v.child is None,
        Stage::LocatingService => v.events.len() == 4 && v.service is None && v.child is None,
        Stage::CreatingChild => v.events.len() == 4 && v.service is Some && v.child is None,
        Stage::OpeningProtocol => v.child is Some && v.protocol is None,
        Stage::TearingDown { .. } => teardown_call(v) is Some,
        Stage::Closed => v.events.len() == 0 && v.child is None && v.protocol is None,
        _ => v.protocol is Some,
    }
}

/// The call whose reply the stream awaits, if any.
pub open spec fn pending(v: StreamView) -> Option<Call> {
    match v.stage {
        Stage::CreatingEvents => Some(Call::CreateEvent),
        Stage::LocatingService => Some(Call::LocateService),
        Stage::CreatingChild => Some(Call::CreateChild { service: v.service.unwrap() }),
        Stage::OpeningProtocol => Some(Call::OpenProtocol { child: v.child.unwrap() }),
        Stage::Configuring => Some(
            Call::Configure { protocol: v.protocol.unwrap(), config: v.config },
        ),
        Stage::Connecting => Some(Call::Connect { protocol: v.protocol.unwrap(), event: v.events[0] }),
        Stage::AwaitingConnect => Some(Call::Wait { event: v.events[0] }),
        Stage::Active => None,
        Stage::Sending { len } => Some(
            Call::Transmit { protocol: v.protocol.unwrap(), event: v.events[1], len },
        ),
        Stage::AwaitingSend { .. } => Some(Call::Wait { event: v.events[1] }),
        Stage::Receiving { len } => Some(
            Call::Receive { protocol: v.protocol.unwrap(), event: v.events[2], len },
        ),
        Stage::AwaitingReceive { .. } => Some(Call::Wait { event: v.events[2] }),
        Stage::Closing => Some(Call::Close { protocol: v.protocol.unwrap(), event: v.events[3] }),
        Stage::AwaitingClose => Some(Call::Wait { event: v.events[3] }),
        Stage::TearingDown { .. } => teardown_call(v),
        Stage::Closed => None,
    }
}

pub open spec fn awaiting(v: StreamView) -> bool {
    pending(v) is Some
}

/// Move to `stage` and ask for the call that it awaits.
pub open spec fn go(v: StreamView, stage: Stage) -> (StreamView, Request) {
    let w = StreamView { stage, ..v };
    (w, Request::Call(pending(w).unwrap()))
}

/// Start (or continue) releasing everything held; report `outcome` once nothing is left.
pub open spec fn teardown(v: StreamView, outcome: Result<usize, NetError>) -> (StreamView, Request) {
    match teardown_call(v) {
        Some(c) => (StreamView { stage: Stage::TearingDown { outcome }, ..v }, Request::Call(c)),
        None => (StreamView { stage: Stage::Closed, ..v }, Request::Done(outcome)),
    }
}

/// The state once the release that `teardown_call` named has been performed.
pub open spec fn released(v: StreamView) -> StreamView {
    if v.protocol is Some {
        StreamView { protocol: None, ..v }
    } else if v.child is Some {
        StreamView { child: None, ..v }
    } else {
        StreamView { events: v.events.drop_last(), ..v }
    }
}

/// The error that a failed completion status stands for.
pub open spec fn failure_of(c: Completion) -> NetError {
    match c {
        Completion::Refused => NetError::ConnectionRefused,
        Completion::Reset => NetError::ConnectionReset,
        _ => NetError::ConnectionAborted,
    }
}

/// Completion status and byte count of a wait's reply; a wait that did not
/// end in a signal counts as an aborted transfer.
pub open spec fn signal_of(r: Reply) -> (Completion, usize) {
    match r {
        Reply::Signaled(c, n) => (c, n),
        _ => (Completion::Aborted, 0),
    }
}

pub open spec fn min_len(a: usize, b: usize) -> usize {
    if a <= b { a } else { b }
}

/// The end of a send or receive, back in the active stage.
pub open spec fn transfer_done(v: StreamView, r: Reply, len: usize) -> (StreamView, Request) {
    let (c, n) = signal_of(r);
    let w = StreamView { stage: Stage::Active, ..v };
    if c == Completion::Success {
        (w, Request::Done(Ok(min_len(n, len))))
    } else {
        (w, Request::Done(Err(failure_of(c))))
    }
}

/// How the stream moves on a reply to its pending call.
pub open spec fn on_reply(v: StreamView, r: Reply) -> (StreamView, Request) {
    match v.stage {
        Stage::CreatingEvents => match r {
            Reply::Created(h) => {
                let w = StreamView { events: v.events.push(h), ..v };
                if w.events.len() < 4 {
                    (w, Request::Call(Call::CreateEvent))
                } else {
                    go(w, Stage::LocatingService)
                }
            },
            _ => teardown(v, Err(NetError::ResourceExhausted)),
        },
        Stage::LocatingService => match r {
            Reply::Created(s) => go(StreamView { service: Some(s), ..v }, Stage::CreatingChild),
            _ => teardown(v, Err(NetError::ProtocolUnavailable)),
        },
        Stage::CreatingChild => match r {
            Reply::Created(c) => go(StreamView { child: Some(c), ..v }, Stage::OpeningProtocol),
            _ => teardown(v, Err(NetError::ResourceExhausted)),
        },
        Stage::OpeningProtocol => match r {
            Reply::Created(p) => go(StreamView { protocol: Some(p), ..v }, Stage::Configuring),
            _ => teardown(v, Err(NetError::ProtocolUnavailable)),
        },
        Stage::Configuring => if r == Reply::Accepted {
            go(v, Stage::Connecting)
        } else {
            teardown(v, Err(NetError::ConfigurationRejected))
        },
        Stage::Connecting => if r == Reply::Accepted {
            go(v, Stage::AwaitingConnect)
        } else {
            teardown(v, Err(NetError::ConnectionRefused))
        },
        Stage::AwaitingConnect => {
            let c = signal_of(r).0;
            if c == Completion::Success {
                (StreamView { stage: Stage::Active, ..v }, Request::Done(Ok(0)))
            } else {
                teardown(v, Err(failure_of(c)))
            }
        },
        Stage::Sending { len } => if r == Reply::Accepted {
            go(v, Stage::AwaitingSend { len })
        } else {
            (StreamView { stage: Stage::Active, ..v }, Request::Done(Err(NetError::ConnectionAborted)))
        },
        Stage::AwaitingSend { len } => transfer_done(v, r, len),
        Stage::Receiving { len } => if r == Reply::Accepted {
            go(v, Stage::AwaitingReceive { len })
        } else {
            (StreamView { stage: Stage::Active, ..v }, Request::Done(Err(NetError::ConnectionAborted)))
        },
        Stage::AwaitingReceive { len } => transfer_done(v, r, len),
        Stage::Closing => if r == Reply::Accepted {
            go(v, Stage::AwaitingClose)
        } else {
            teardown(v, Err(NetError::ConnectionAborted))
        },
        Stage::AwaitingClose => {
            let c = signal_of(r).0;
            if c == Completion::Success {
                teardown(v, Ok(0))
            } else {
                teardown(v, Err(failure_of(c)))
            }
        },
        Stage::TearingDown { outcome } => teardown(released(v), outcome),
        _ => (v, Request::Done(Err(NetError::NotConnected))),
    }
}

/// Whether a send or receive is outstanding.
pub open spec fn transferring(s: Stage) -> bool {
    ||| s is Sending
    ||| s is AwaitingSend
    ||| s is Receiving
    ||| s is AwaitingReceive
}

/// How the stream moves when a transfer of `len` bytes is asked for.
pub open spec fn on_transfer(v: StreamView, stage: Stage) -> (StreamView, Request) {
    if v.stage is Active {
        go(v, stage)
    } else if transferring(v.stage) {
        (v, Request::Done(Err(NetError::AlreadyInProgress)))
    } else {
        (v, Request::Done(Err(NetError::NotConnected)))
    }
}

pub open spec fn on_send(v: StreamView, len: usize) -> (StreamView, Request) {
    on_transfer(v, Stage::Sending { len })
}

pub open spec fn on_receive(v: StreamView, len: usize) -> (StreamView, Request) {
    on_transfer(v, Stage::Receiving { len })
}

/// How the stream moves when it is asked to close. An outstanding transfer is
/// abandoned; a connect in progress is abandoned and what it acquired released.
pub open spec fn on_close(v: StreamView) -> (StreamView, Request) {
    match v.stage {
        Stage::Closed => (v, Request::Done(Err(NetError::NotConnected))),
        Stage::Closing | Stage::AwaitingClose | Stage::TearingDown { .. } => (
            v,
            Request::Done(Err(NetError::AlreadyInProgress)),
        ),
        _ => if v.stage is Active || transferring(v.stage) {
            go(v, Stage::Closing)
        } else {
            teardown(v, Ok(0))
        },
    }
}

/// Every transition keeps the stream well formed.
pub proof fn lemma_on_reply_well_formed(v: StreamView, r: Reply)
    requires
        well_formed(v),
        awaiting(v),
    ensures
        well_formed(on_reply(v, r).0),
{
    if let Stage::TearingDown { outcome } = v.stage {
        let w = released(v);
        assert(shape(w));
        if v.protocol is None && v.child is None {
            assert(w.events.len() == v.events.len() - 1);
        }
    }
}

pub proof fn lemma_on_close_well_formed(v: StreamView)
    requires
        well_formed(v),
    ensures
        well_formed(on_close(v).0),
{
}

pub proof fn lemma_on_transfer_well_formed(v: StreamView, stage: Stage)
    requires
        well_formed(v),
        transferring(stage),
    ensures
        well_formed(on_transfer(v, stage).0),
{
}

/// The error that a failed completion status stands for.
fn failure(c: Completion) -> (e: NetError)
    ensures
        e == failure_of(c),
{
    match c {
        Completion::Refused => NetError::ConnectionRefused,
        Completion::Reset => NetError::ConnectionReset,
        _ => NetError::ConnectionAborted,
    }
}

fn signal(r: Reply) -> (s: (Completion, usize))
    ensures
        s == signal_of(r),
{
    match r {
        Reply::Signaled(c, n) => (c, n),
        _ => (Completion::Aborted, 0),
    }
}

/// One TCP4 connection: its child instance, protocol interface and the four
/// signal objects of its connect, send, receive and close tokens.
pub struct Tcp4Stream {
    stage: Stage,
    config: Tcp4Config,
    events: Vec<u64>,
    service: Option<u64>,
    child: Option<u64>,
    protocol: Option<u64>,
}

impl View for Tcp4Stream {
    type V = StreamView;

    closed spec fn view(&self) -> StreamView {
        StreamView {
            stage: self.stage,
            config: self.config,
            events: self.events@,
            service: self.service,
            child: self.child,
            protocol: self.protocol,
        }
    }
}

impl Tcp4Stream {
    pub open spec fn wf(&self) -> bool {
        well_formed(self@)
    }

    /// Starts connecting to `addr`: the first call asked for creates the
    /// connect token's signal object.
    pub fn connect(addr: SocketAddrV4) -> (r: (Tcp4Stream, Request))
        ensures
            r.0@ == initial(addr),
            r.0.wf(),
            r.1 == Request::Call(Call::CreateEvent),
    {
        let config = Tcp4Config {
            type_of_service: 0,
            time_to_live: TIME_TO_LIVE,
            use_default_address: true,
            station_port: 0,
            remote: addr,
            active: true,
        };
        let stream = Tcp4Stream {
            stage: Stage::CreatingEvents,
            config,
            events: Vec::new(),
            service: None,
            child: None,
            protocol: None,
        };
        assert(stream@.events =~= seq![]);
        (stream, Request::Call(Call::CreateEvent))
    }

    /// Starts connecting to `addr`; only IPv4 is implemented.
    pub fn connect_addr(addr: SocketAddr) -> (r: Result<(Tcp4Stream, Request), NetError>)
        ensures
            match addr {
                SocketAddr::V4(a) => r matches Ok((s, q)) && s@ == initial(a) && s.wf()
                    && q == Request::Call(Call::CreateEvent),
                SocketAddr::V6(_) => r matches Err(e) && e == NetError::Unsupported,
            },
    {
        match addr {
            SocketAddr::V4(a) => Ok(Tcp4Stream::connect(a)),
            SocketAddr::V6(_) => Err(NetError::Unsupported),
        }
    }

    fn next_release(&self) -> (r: Option<Call>)
        requires
            shape(self@),
        ensures
            r == teardown_call(self@),
    {
        match self.protocol {
            Some(_) => Some(Call::CloseProtocol { child: self.child.unwrap() }),
            None => match self.child {
                Some(c) => Some(Call::DestroyChild { service: self.service.unwrap(), child: c }),
                None => if self.events.len() > 0 {
                    Some(Call::DestroyEvent { event: self.events[self.events.len() - 1] })
                } else {
                    None
                },
            },
        }
    }

    /// The call whose reply the stream awaits, if any.
    pub fn pending(&self) -> (r: Option<Call>)
        requires
            self.wf(),
        ensures
            r == pending(self@),
    {
        match self.stage {
            Stage::CreatingEvents => Some(Call::CreateEvent),
            Stage::LocatingService => Some(Call::LocateService),
            Stage::CreatingChild => Some(Call::CreateChild { service: self.service.unwrap() }),
            Stage::OpeningProtocol => Some(Call::OpenProtocol { child: self.child.unwrap() }),
            Stage::Configuring => Some(
                Call::Configure { protocol: self.protocol.unwrap(), config: self.config },
            ),
            Stage::Connecting => Some(
                Call::Connect { protocol: self.protocol.unwrap(), event: self.events[0] },
            ),
            Stage::AwaitingConnect => Some(Call::Wait { event: self.events[0] }),
            Stage::Active => None,
            Stage::Sending { len } => Some(
                Call::Transmit { protocol: self.protocol.unwrap(), event: self.events[1], len },
            ),
            Stage::AwaitingSend { .. } => Some(Call::Wait { event: self.events[1] }),
            Stage::Receiving { len } => Some(
                Call::Receive { protocol: self.protocol.unwrap(), event: self.events[2], len },
            ),
            Stage::AwaitingReceive { .. } => Some(Call::Wait { event: self.events[2] }),
            Stage::Closing => Some(
                Call::Close { protocol: self.protocol.unwrap(), event: self.events[3] },
            ),
            Stage::AwaitingClose => Some(Call::Wait { event: self.events[3] }),
            Stage::TearingDown { .. } => self.next_release(),
            Stage::Closed => None,
        }
    }

    /// Whether a call is outstanding, whose reply `resume` takes.
    pub fn is_awaiting(&self) -> (r: bool)
        requires
            self.wf(),
        ensures
            r == awaiting(self@),
    {
        self.pending().is_some()
    }

    /// Whether the connection is established and idle.
    pub fn is_active(&self) -> (r: bool)
        ensures
            r == (self@.stage is Active),
    {
        match self.stage {
            Stage::Active => true,
            _ => false,
        }
    }

    /// Whether everything the connection held has been released.
    pub fn is_closed(&self) -> (r: bool)
        ensures
            r == (self@.stage is Closed),
    {
        match self.stage {
            Stage::Closed => true,
            _ => false,
        }
    }

    fn go(&mut self, stage: Stage) -> (r: Request)
        requires
            well_formed(StreamView { stage, ..old(self)@ }),
            awaiting(StreamView { stage, ..old(self)@ }),
        ensures
            (final(self)@, r) == go(old(self)@, stage),
    {
        self.stage = stage;
        Request::Call(self.pending().unwrap())
    }

    fn teardown(&mut self, outcome: Result<usize, NetError>) -> (r: Request)
        requires
            shape(old(self)@),
        ensures
            (final(self)@, r) == teardown(old(self)@, outcome),
    {
        match self.next_release() {
            Some(c) => {
                self.stage = Stage::TearingDown { outcome };
                Request::Call(c)
            },
            None => {
                self.stage = Stage::Closed;
                Request::Done(outcome)
            },
        }
    }

    fn release(&mut self)
        requires
            shape(old(self)@),
            teardown_call(old(self)@) is Some,
        ensures
            final(self)@ == released(old(self)@),
    {
        if self.protocol.is_some() {
            self.protocol = None;
        } else if self.child.is_some() {
            self.child = None;
        } else {
            self.events.pop();
        }
    }

    /// Takes the reply to the pending call and moves on: asks for the next
    /// call, or reports the outcome of the operation.
    pub fn resume(&mut self, reply: Reply) -> (r: Request)
        requires
            old(self).wf(),
            awaiting(old(self)@),
        ensures
            (final(self)@, r) == on_reply(old(self)@, reply),
            final(self).wf(),
    {
        proof {
            lemma_on_reply_well_formed(self@, reply);
        }
        match self.stage {
            Stage::CreatingEvents => match reply {
                Reply::Created(h) => {
                    self.events.push(h);
                    if self.events.len() < TOKEN_COUNT {
                        Request::Call(Call::CreateEvent)
                    } else {
                        self.go(Stage::LocatingService)
                    }
                },
                _ => self.teardown(Err(NetError::ResourceExhausted)),
            },
            Stage::LocatingService => match reply {
                Reply::Created(s) => {
                    self.service = Some(s);
                    self.go(Stage::CreatingChild)
                },
                _ => self.teardown(Err(NetError::ProtocolUnavailable)),
            },
            Stage::CreatingChild => match reply {
                Reply::Created(c) => {
                    self.child = Some(c);
                    self.go(Stage::OpeningProtocol)
                },
                _ => self.teardown(Err(NetError::ResourceExhausted)),
            },
            Stage::OpeningProtocol => match reply {
                Reply::Created(p) => {
                    self.protocol = Some(p);
                    self.go(Stage::Configuring)
                },
                _ => self.teardown(Err(NetError::ProtocolUnavailable)),
            },
            Stage::Configuring => if reply == Reply::Accepted {
                self.go(Stage::Connecting)
            } else {
                self.teardown(Err(NetError::ConfigurationRejected))
            },
            Stage::Connecting => if reply == Reply::Accepted {
                self.go(Stage::AwaitingConnect)
            } else {
                self.teardown(Err(NetError::ConnectionRefused))
            },
            Stage::AwaitingConnect => {
                let (c, _) = signal(reply);
                if c == Completion::Success {
                    self.stage = Stage::Active;
                    Request::Done(Ok(0))
                } else {
                    self.teardown(Err(failure(c)))
                }
            },
            Stage::Sending { len } => if reply == Reply::Accepted {
                self.go(Stage::AwaitingSend { len })
            } else {
                self.stage = Stage::Active;
                Request::Done(Err(NetError::ConnectionAborted))
            },
            Stage::AwaitingSend { len } => self.finish_transfer(reply, len),
            Stage::Receiving { len } => if reply == Reply::Accepted {
                self.go(Stage::AwaitingReceive { len })
            } else {
                self.stage = Stage::Active;
                Request::Done(Err(NetError::ConnectionAborted))
            },
            Stage::AwaitingReceive { len } => self.finish_transfer(reply, len),
            Stage::Closing => if reply == Reply::Accepted {
                self.go(Stage::AwaitingClose)
            } else {
                self.teardown(Err(NetError::ConnectionAborted))
            },
            Stage::AwaitingClose => {
                let (c, _) = signal(reply);
                if c == Completion::Success {
                    self.teardown(Ok(0))
                } else {
                    self.teardown(Err(failure(c)))
                }
            },
            Stage::TearingDown { outcome } => {
                self.release();
                self.teardown(outcome)
            },
            _ => Request::Done(Err(NetError::NotConnected)),
        }
    }

    fn finish_transfer(&mut self, reply: Reply, len: usize) -> (r: Request)
        ensures
            (final(self)@, r) == transfer_done(old(self)@, reply, len),
    {
        let (c, n) = signal(reply);
        self.stage = Stage::Active;
        if c == Completion::Success {
            Request::Done(Ok(if n <= len { n } else { len }))
        } else {
            Request::Done(Err(failure(c)))
        }
    }

    fn transfer(&mut self, stage: Stage) -> (r: Request)
        requires
            old(self).wf(),
            transferring(stage),
        ensures
            (final(self)@, r) == on_transfer(old(self)@, stage),
            final(self).wf(),
    {
        proof {
            lemma_on_transfer_well_formed(self@, stage);
        }
        match self.stage {
            Stage::Active => self.go(stage),
            Stage::Sending { .. } | Stage::AwaitingSend { .. } | Stage::Receiving { .. }
            | Stage::AwaitingReceive { .. } => Request::Done(Err(NetError::AlreadyInProgress)),
            _ => Request::Done(Err(NetError::NotConnected)),
        }
    }

    /// Asks to transmit `len` bytes of the caller's buffer. On an active idle
    /// connection this issues the transmit; its wait reports how many bytes
    /// were accepted, at most `len`.
    pub fn send(&mut self, len: usize) -> (r: Request)
        requires
            old(self).wf(),
        ensures
            (final(self)@, r) == on_send(old(self)@, len),
            final(self).wf(),
            transferring(old(self)@.stage) ==> r == Request::Done(Err(NetError::AlreadyInProgress))
                && final(self)@ == old(self)@,
    {
        self.transfer(Stage::Sending { len })
    }

    /// Asks to receive into `len` bytes of the caller's buffer. Its wait
    /// reports how many bytes were written, at most `len`; 0 is the end of
    /// the stream, not an error.
    pub fn receive(&mut self, len: usize) -> (r: Request)
        requires
            old(self).wf(),
        ensures
            (final(self)@, r) == on_receive(old(self)@, len),
            final(self).wf(),
            transferring(old(self)@.stage) ==> r == Request::Done(Err(NetError::AlreadyInProgress))
                && final(self)@ == old(self)@,
    {
        self.transfer(Stage::Receiving { len })
    }

    /// Asks to close: a graceful close on a connected stream, then the
    /// release of the protocol, the child instance and the signal objects, in
    /// reverse order of acquisition. On a closed stream it does nothing.
    pub fn close(&mut self) -> (r: Request)
        requires
            old(self).wf(),
        ensures
            (final(self)@, r) == on_close(old(self)@),
            final(self).wf(),
            old(self)@.stage is Closed ==> r == Request::Done(Err(NetError::NotConnected))
                && final(self)@ == old(self)@,
    {
        proof {
            lemma_on_close_well_formed(self@);
        }
        match self.stage {
            Stage::Closed => Request::Done(Err(NetError::NotConnected)),
            Stage::Closing | Stage::AwaitingClose | Stage::TearingDown { .. } => Request::Done(
                Err(NetError::AlreadyInProgress),
            ),
            Stage::Active | Stage::Sending { .. } | Stage::AwaitingSend { .. }
            | Stage::Receiving { .. } | Stage::AwaitingReceive { .. } => self.go(Stage::Closing),
            _ => self.teardown(Ok(0)),
        }
    }
}

} // verus!
