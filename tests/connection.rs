use efi_net::{
    Call, Completion, Input, Ipv4Addr, Ipv6Addr, NetError, Reply, Request, SocketAddr, SocketAddrV4,
    SocketAddrV6, Tcp4Stream,
};

/// An environment that hands out fresh handles, records every call, and
/// counts what it created and destroyed.
struct Mock {
    next: u64,
    calls: Vec<Call>,
    live_events: Vec<u64>,
    live_children: Vec<u64>,
    event_creations: usize,
    event_destroys: usize,
    child_creations: usize,
    child_destroys: usize,
    fail_event_creation: Option<usize>,
    connect_status: Completion,
    fail_configure: bool,
    sent: usize,
    received: usize,
}

impl Mock {
    fn new() -> Mock {
        Mock {
            next: 100,
            calls: Vec::new(),
            live_events: Vec::new(),
            live_children: Vec::new(),
            event_creations: 0,
            event_destroys: 0,
            child_creations: 0,
            child_destroys: 0,
            fail_event_creation: None,
            connect_status: Completion::Success,
            fail_configure: false,
            sent: usize::MAX,
            received: 0,
        }
    }

    fn fresh(&mut self) -> u64 {
        self.next += 1;
        self.next
    }

    fn perform(&mut self, c: Call) -> Reply {
        self.calls.push(c);
        match c {
            Call::CreateEvent => {
                self.event_creations += 1;
                if self.fail_event_creation == Some(self.event_creations) {
                    return Reply::Failed;
                }
                let h = self.fresh();
                self.live_events.push(h);
                Reply::Created(h)
            }
            Call::DestroyEvent { event } => {
                self.event_destroys += 1;
                let i = self.live_events.iter().position(|&e| e == event).expect("live event");
                self.live_events.remove(i);
                Reply::Accepted
            }
            Call::LocateService => Reply::Created(7),
            Call::CreateChild { .. } => {
                self.child_creations += 1;
                let h = self.fresh();
                self.live_children.push(h);
                Reply::Created(h)
            }
            Call::DestroyChild { child, .. } => {
                self.child_destroys += 1;
                let i = self.live_children.iter().position(|&c| c == child).expect("live child");
                self.live_children.remove(i);
                Reply::Accepted
            }
            Call::OpenProtocol { .. } => Reply::Created(9),
            Call::CloseProtocol { .. } => Reply::Accepted,
            Call::Configure { .. } => {
                if self.fail_configure {
                    Reply::Failed
                } else {
                    Reply::Accepted
                }
            }
            Call::Connect { .. } | Call::Transmit { .. } | Call::Receive { .. } | Call::Close { .. } => {
                Reply::Accepted
            }
            Call::Wait { event } => {
                let last_issue = self
                    .calls
                    .iter()
                    .rev()
                    .find(|c| !matches!(c, Call::Wait { .. }))
                    .copied();
                match last_issue {
                    Some(Call::Connect { event: e, .. }) if e == event => {
                        Reply::Signaled(self.connect_status, 0)
                    }
                    Some(Call::Transmit { len, .. }) => {
                        Reply::Signaled(Completion::Success, self.sent.min(len))
                    }
                    Some(Call::Receive { .. }) => Reply::Signaled(Completion::Success, self.received),
                    _ => Reply::Signaled(Completion::Success, 0),
                }
            }
        }
    }

    fn balanced(&self) -> bool {
        self.live_events.is_empty()
            && self.live_children.is_empty()
            && self.event_creations >= self.event_destroys
            && self.child_creations == self.child_destroys
    }

    fn count(&self, f: fn(&Call) -> bool) -> usize {
        self.calls.iter().filter(|c| f(c)).count()
    }
}

fn drive(s: &mut Tcp4Stream, m: &mut Mock, mut r: Request) -> Result<usize, NetError> {
    loop {
        match r {
            Request::Call(c) => r = s.resume(m.perform(c)),
            Request::Done(o) => return o,
        }
    }
}

fn addr() -> SocketAddrV4 {
    SocketAddrV4::new(Ipv4Addr::new([192, 168, 1, 20]), 8080)
}

fn connected(m: &mut Mock) -> Tcp4Stream {
    let (mut s, r) = Tcp4Stream::connect(addr());
    assert_eq!(drive(&mut s, m, r), Ok(0));
    assert!(s.is_active());
    s
}

#[test]
fn full_session_releases_everything() {
    let mut m = Mock::new();
    let mut s = connected(&mut m);
    let r = s.send(10);
    assert_eq!(drive(&mut s, &mut m, r), Ok(10));
    let r = s.send(5);
    assert_eq!(drive(&mut s, &mut m, r), Ok(5));
    m.received = 3;
    let r = s.receive(16);
    assert_eq!(drive(&mut s, &mut m, r), Ok(3));
    let r = s.close();
    assert_eq!(drive(&mut s, &mut m, r), Ok(0));
    assert!(s.is_closed());
    assert_eq!(m.event_creations, 4);
    assert_eq!(m.event_destroys, 4);
    assert_eq!(m.child_creations, 1);
    assert_eq!(m.child_destroys, 1);
    assert!(m.balanced());
}

#[test]
fn connect_refused_leaves_nothing() {
    let mut m = Mock::new();
    m.connect_status = Completion::Refused;
    let (mut s, r) = Tcp4Stream::connect(addr());
    assert_eq!(drive(&mut s, &mut m, r), Err(NetError::ConnectionRefused));
    assert!(s.is_closed());
    assert_eq!(m.event_creations, 4);
    assert_eq!(m.event_destroys, 4);
    assert_eq!(m.child_destroys, 1);
    assert!(m.balanced());
}

#[test]
fn connect_reset_maps_to_reset() {
    let mut m = Mock::new();
    m.connect_status = Completion::Reset;
    let (mut s, r) = Tcp4Stream::connect(addr());
    assert_eq!(drive(&mut s, &mut m, r), Err(NetError::ConnectionReset));
    assert!(m.balanced());
}

#[test]
fn second_send_while_outstanding_is_rejected() {
    let mut m = Mock::new();
    let mut s = connected(&mut m);
    let first = s.send(8);
    assert!(matches!(first, Request::Call(Call::Transmit { len: 8, .. })));
    let second = s.send(4);
    assert!(matches!(second, Request::Done(Err(NetError::AlreadyInProgress))));
    assert_eq!(m.count(|c| matches!(c, Call::Transmit { .. })), 0);
    assert_eq!(drive(&mut s, &mut m, first), Ok(8));
    assert_eq!(m.count(|c| matches!(c, Call::Transmit { .. })), 1);
}

#[test]
fn receive_of_zero_bytes_is_success() {
    let mut m = Mock::new();
    let mut s = connected(&mut m);
    m.received = 0;
    let r = s.receive(64);
    assert_eq!(drive(&mut s, &mut m, r), Ok(0));
    assert!(s.is_active());
}

#[test]
fn close_twice_is_not_connected() {
    let mut m = Mock::new();
    let mut s = connected(&mut m);
    let r = s.close();
    assert_eq!(drive(&mut s, &mut m, r), Ok(0));
    let calls_before = m.calls.len();
    let again = s.close();
    assert!(matches!(again, Request::Done(Err(NetError::NotConnected))));
    assert_eq!(m.calls.len(), calls_before);
    assert_eq!(m.event_destroys, 4);
    assert!(m.balanced());
}

#[test]
fn third_event_failure_rolls_back_two() {
    let mut m = Mock::new();
    m.fail_event_creation = Some(3);
    let (mut s, r) = Tcp4Stream::connect(addr());
    assert_eq!(drive(&mut s, &mut m, r), Err(NetError::ResourceExhausted));
    assert_eq!(m.event_destroys, 2);
    assert_eq!(m.count(|c| matches!(c, Call::DestroyEvent { .. })), 2);
    assert_eq!(m.child_creations, 0);
    assert!(m.balanced());
    // released in reverse order of creation
    let destroyed: Vec<u64> = m
        .calls
        .iter()
        .filter_map(|c| match c {
            Call::DestroyEvent { event } => Some(*event),
            _ => None,
        })
        .collect();
    assert_eq!(destroyed, vec![102, 101]);
}

#[test]
fn first_event_failure_releases_nothing() {
    let mut m = Mock::new();
    m.fail_event_creation = Some(1);
    let (mut s, r) = Tcp4Stream::connect(addr());
    assert_eq!(drive(&mut s, &mut m, r), Err(NetError::ResourceExhausted));
    assert_eq!(m.calls.len(), 1);
    assert!(s.is_closed());
}

#[test]
fn configure_rejected_unwinds_in_reverse() {
    let mut m = Mock::new();
    m.fail_configure = true;
    let (mut s, r) = Tcp4Stream::connect(addr());
    assert_eq!(drive(&mut s, &mut m, r), Err(NetError::ConfigurationRejected));
    let tail: Vec<Call> = m.calls[m.calls.len() - 6..].to_vec();
    assert!(matches!(tail[0], Call::CloseProtocol { child: 105 }));
    assert!(matches!(tail[1], Call::DestroyChild { service: 7, child: 105 }));
    assert!(matches!(tail[2], Call::DestroyEvent { event: 104 }));
    assert!(matches!(tail[5], Call::DestroyEvent { event: 101 }));
    assert!(m.balanced());
}

#[test]
fn connect_sequence_and_configuration() {
    let (mut s, r) = Tcp4Stream::connect(addr());
    assert!(matches!(r, Request::Call(Call::CreateEvent)));
    for h in 1..4u64 {
        assert!(matches!(s.resume(Reply::Created(h)), Request::Call(Call::CreateEvent)));
    }
    assert!(matches!(s.resume(Reply::Created(4)), Request::Call(Call::LocateService)));
    assert!(matches!(s.resume(Reply::Created(50)), Request::Call(Call::CreateChild { service: 50 })));
    assert!(matches!(s.resume(Reply::Created(60)), Request::Call(Call::OpenProtocol { child: 60 })));
    match s.resume(Reply::Created(70)) {
        Request::Call(Call::Configure { protocol, config }) => {
            assert_eq!(protocol, 70);
            assert_eq!(config.time_to_live, 255);
            assert_eq!(config.type_of_service, 0);
            assert!(config.use_default_address);
            assert!(config.active);
            assert_eq!(config.station_port, 0);
            assert_eq!(config.remote.port(), 8080);
            assert_eq!(config.remote.ip().octets(), [192, 168, 1, 20]);
        }
        _ => panic!("expected configure"),
    }
    assert!(matches!(s.resume(Reply::Accepted), Request::Call(Call::Connect { protocol: 70, event: 1 })));
    assert!(matches!(s.resume(Reply::Accepted), Request::Call(Call::Wait { event: 1 })));
    assert!(s.is_awaiting());
    assert!(matches!(s.resume(Reply::Signaled(Completion::Success, 0)), Request::Done(Ok(0))));
    assert!(!s.is_awaiting());
    assert!(matches!(s.send(3), Request::Call(Call::Transmit { protocol: 70, event: 2, len: 3 })));
    assert!(matches!(s.resume(Reply::Accepted), Request::Call(Call::Wait { event: 2 })));
    assert!(matches!(s.resume(Reply::Signaled(Completion::Success, 2)), Request::Done(Ok(2))));
    assert!(matches!(s.receive(9), Request::Call(Call::Receive { protocol: 70, event: 3, len: 9 })));
    assert!(matches!(s.resume(Reply::Accepted), Request::Call(Call::Wait { event: 3 })));
    assert!(matches!(
        s.resume(Reply::Signaled(Completion::Reset, 0)),
        Request::Done(Err(NetError::ConnectionReset))
    ));
    assert!(matches!(s.close(), Request::Call(Call::Close { protocol: 70, event: 4 })));
}

#[test]
fn partial_send_and_clamped_counts() {
    let mut m = Mock::new();
    let mut s = connected(&mut m);
    m.sent = 3;
    let r = s.send(10);
    assert_eq!(drive(&mut s, &mut m, r), Ok(3));
    assert!(matches!(s.receive(4), Request::Call(Call::Receive { len: 4, .. })));
    assert!(matches!(s.resume(Reply::Accepted), Request::Call(Call::Wait { .. })));
    assert!(matches!(s.resume(Reply::Signaled(Completion::Success, 99)), Request::Done(Ok(4))));
}

#[test]
fn transfer_failures() {
    let mut m = Mock::new();
    let mut s = connected(&mut m);
    let _ = s.send(5);
    assert!(matches!(s.resume(Reply::Failed), Request::Done(Err(NetError::ConnectionAborted))));
    let _ = s.receive(5);
    assert!(matches!(s.resume(Reply::Accepted), Request::Call(Call::Wait { .. })));
    assert!(matches!(
        s.resume(Reply::Signaled(Completion::Refused, 0)),
        Request::Done(Err(NetError::ConnectionRefused))
    ));
    assert!(s.is_active());
}

#[test]
fn io_before_connected_is_not_connected() {
    let (mut s, _) = Tcp4Stream::connect(addr());
    assert!(matches!(s.send(1), Request::Done(Err(NetError::NotConnected))));
    assert!(matches!(s.receive(1), Request::Done(Err(NetError::NotConnected))));
}

#[test]
fn io_after_close_is_not_connected() {
    let mut m = Mock::new();
    let mut s = connected(&mut m);
    let r = s.close();
    assert_eq!(drive(&mut s, &mut m, r), Ok(0));
    assert!(matches!(s.send(1), Request::Done(Err(NetError::NotConnected))));
    assert!(matches!(s.receive(1), Request::Done(Err(NetError::NotConnected))));
}

#[test]
fn close_during_setup_releases_what_was_acquired() {
    let mut m = Mock::new();
    let (mut s, r) = Tcp4Stream::connect(addr());
    let mut r = r;
    for _ in 0..7 {
        if let Request::Call(c) = r {
            r = s.resume(m.perform(c));
        }
    }
    // the protocol is open and the configure call is pending
    assert!(matches!(r, Request::Call(Call::Configure { .. })));
    let r = s.close();
    assert_eq!(drive(&mut s, &mut m, r), Ok(0));
    assert!(m.balanced());
    assert_eq!(m.count(|c| matches!(c, Call::Close { .. })), 0);
}

#[test]
fn close_while_closing_is_in_progress() {
    let mut m = Mock::new();
    let mut s = connected(&mut m);
    let r = s.close();
    assert!(matches!(s.close(), Request::Done(Err(NetError::AlreadyInProgress))));
    assert_eq!(drive(&mut s, &mut m, r), Ok(0));
}

#[test]
fn locate_failure_is_protocol_unavailable() {
    let (mut s, _) = Tcp4Stream::connect(addr());
    for h in 1..5u64 {
        let _ = s.resume(Reply::Created(h));
    }
    assert!(matches!(s.resume(Reply::Failed), Request::Call(Call::DestroyEvent { event: 4 })));
    for h in (1..4u64).rev() {
        assert!(matches!(s.resume(Reply::Accepted), Request::Call(Call::DestroyEvent { event }) if event == h));
    }
    assert!(matches!(s.resume(Reply::Accepted), Request::Done(Err(NetError::ProtocolUnavailable))));
}

#[test]
fn feed_matches_the_methods() {
    let mut m = Mock::new();
    let mut s = connected(&mut m);
    let r = s.feed(Input::Send(6));
    assert!(matches!(r, Request::Call(Call::Transmit { len: 6, .. })));
    let r = s.feed(Input::Reply(Reply::Accepted));
    assert!(matches!(r, Request::Call(Call::Wait { .. })));
    assert!(matches!(s.feed(Input::Reply(Reply::Signaled(Completion::Success, 6))), Request::Done(Ok(6))));
    let r = s.feed(Input::Close);
    assert_eq!(drive(&mut s, &mut m, r), Ok(0));
    assert!(m.balanced());
}

#[test]
fn ipv6_connect_is_unsupported() {
    let a = SocketAddrV6::new(Ipv6Addr::new([0; 16]), 80);
    assert!(matches!(Tcp4Stream::connect_addr(SocketAddr::V6(a)), Err(NetError::Unsupported)));
    let ok = Tcp4Stream::connect_addr(SocketAddr::V4(addr()));
    assert!(matches!(ok, Ok((_, Request::Call(Call::CreateEvent)))));
}

#[test]
fn address_values() {
    let a = SocketAddrV4::new(Ipv4Addr::from([10, 0, 0, 1]), 0);
    assert_eq!(a.ip().octets(), [10, 0, 0, 1]);
    assert_eq!(a.port(), 0);
    assert_eq!(Ipv4Addr::zero().octets(), [0, 0, 0, 0]);
    let mut b = [0u8; 16];
    b[15] = 1;
    let v6 = SocketAddrV6::new(Ipv6Addr::from(b), 443);
    assert_eq!(v6.ip().octets()[15], 1);
    assert_eq!(v6.port(), 443);
}
