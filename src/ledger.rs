//! Accounting of the firmware objects a connection acquires and releases,
//! and the order in which a connection passes through its phases.
use vstd::prelude::*;
use crate::stream::{
    Call, NetError, Reply, Request, Stage, StreamView, Tcp4Stream, awaiting, initial, on_close, on_receive, on_reply,
    on_send, pending, well_formed, lemma_on_close_well_formed, lemma_on_reply_well_formed,
    lemma_on_transfer_well_formed, on_transfer,
};
use crate::addr::SocketAddrV4;

verus! {

/// What the owner of a stream can do to it.
#[derive(Debug, Clone, Copy)]
pub enum Input {
    Send(usize),
    Receive(usize),
    Close,
    /// Hand back the reply to the pending call.
    Reply(Reply),
}

pub open spec fn advance(v: StreamView, i: Input) -> (StreamView, Request) {
    match i {
        Input::Send(n) => on_send(v, n),
        Input::Receive(n) => on_receive(v, n),
        Input::Close => on_close(v),
        Input::Reply(r) => on_reply(v, r),
    }
}

/// The signal objects and child instances that exist in the environment.
pub struct Live {
    pub events: Set<u64>,
    pub children: Set<u64>,
}

/// The environment after it performed `c` and answered `r`. A release is
/// counted as done whatever its reply.
pub open spec fn perform(live: Live, c: Call, r: Reply) -> Live {
    match c {
        Call::CreateEvent => match r {
            Reply::Created(h) => Live { events: live.events.insert(h), ..live },
            _ => live,
        },
        Call::DestroyEvent { event } => Live { events: live.events.remove(event), ..live },
        Call::CreateChild { .. } => match r {
            Reply::Created(h) => Live { children: live.children.insert(h), ..live },
            _ => live,
        },
        Call::DestroyChild { child, .. } => Live { children: live.children.remove(child), ..live },
        _ => live,
    }
}

/// A created handle is one that was not live.
pub open spec fn fresh(live: Live, c: Call, r: Reply) -> bool {
    match r {
        Reply::Created(h) => match c {
            Call::CreateEvent => !live.events.contains(h),
            Call::CreateChild { .. } => !live.children.contains(h),
            _ => true,
        },
        _ => true,
    }
}

/// The environment after the owner fed `i` to a stream in state `v`.
pub open spec fn after(v: StreamView, live: Live, i: Input) -> Live {
    match i {
        Input::Reply(r) => perform(live, pending(v).unwrap(), r),
        _ => live,
    }
}

/// A reply is fed only to a stream that awaits one, and creation gives new handles.
pub open spec fn admissible(v: StreamView, live: Live, i: Input) -> bool {
    match i {
        Input::Reply(r) => awaiting(v) && fresh(live, pending(v).unwrap(), r),
        _ => true,
    }
}

pub open spec fn held_events(v: StreamView) -> Set<u64> {
    Set::new(|h: u64| v.events.contains(h))
}

pub open spec fn held_children(v: StreamView) -> Set<u64> {
    match v.child {
        Some(c) => set![c],
        None => set![],
    }
}

/// The live objects are those of `base` and those the stream holds, each once.
pub open spec fn accounted(v: StreamView, live: Live, base: Live) -> bool {
    &&& v.events.no_duplicates()
    &&& live.events == base.events.union(held_events(v))
    &&& base.events.disjoint(held_events(v))
    &&& live.children == base.children.union(held_children(v))
    &&& base.children.disjoint(held_children(v))
}

/// Every step of a stream keeps the account of what it holds: an object the
/// environment creates for it is held, and one it releases is no longer held.
pub proof fn lemma_step_accounted(v: StreamView, live: Live, base: Live, i: Input)
    requires
        well_formed(v),
        accounted(v, live, base),
        admissible(v, live, i),
    ensures
        well_formed(advance(v, i).0),
        accounted(advance(v, i).0, after(v, live, i), base),
{
    let w = advance(v, i).0;
    let l = after(v, live, i);
    match i {
        Input::Send(n) => {
            lemma_on_transfer_well_formed(v, Stage::Sending { len: n });
            assert(held_events(w) =~= held_events(v));
        },
        Input::Receive(n) => {
            lemma_on_transfer_well_formed(v, Stage::Receiving { len: n });
            assert(held_events(w) =~= held_events(v));
        },
        Input::Close => {
            lemma_on_close_well_formed(v);
            assert(held_events(w) =~= held_events(v));
        },
        Input::Reply(r) => {
            lemma_on_reply_well_formed(v, r);
            match v.stage {
                Stage::CreatingEvents => {
                    if let Reply::Created(h) = r {
                        assert(w.events =~= v.events.push(h));
                        assert forall|x: u64| w.events.contains(x) <==> v.events.contains(x) || x == h by {
                            if w.events.contains(x) && x != h {
                                let k = choose|k: int| 0 <= k < w.events.len() && w.events[k] == x;
                                assert(k < v.events.len());
                                assert(v.events[k] == x);
                            }
                            if v.events.contains(x) {
                                let k = choose|k: int| 0 <= k < v.events.len() && v.events[k] == x;
                                assert(w.events[k] == x);
                            }
                            if x == h {
                                assert(w.events[v.events.len() as int] == x);
                            }
                        }
                        assert(held_events(w) =~= held_events(v).insert(h));
                        assert(l.events =~= base.events.union(held_events(w)));
                        assert(w.events.no_duplicates());
                    } else {
                        assert(held_events(w) =~= held_events(v));
                    }
                },
                Stage::TearingDown { .. } => {
                    if v.protocol is None && v.child is None {
                        let h = v.events.last();
                        assert(w.events =~= v.events.drop_last());
                        assert forall|x: u64| w.events.contains(x) <==> v.events.contains(x) && x != h by {
                            if w.events.contains(x) {
                                let k = choose|k: int| 0 <= k < w.events.len() && w.events[k] == x;
                                assert(v.events[k] == x);
                            }
                            if v.events.contains(x) && x != h {
                                let k = choose|k: int| 0 <= k < v.events.len() && v.events[k] == x;
                                assert(w.events[k] == x);
                            }
                        }
                        assert(held_events(w) =~= held_events(v).remove(h));
                        assert(l.events =~= base.events.union(held_events(w)));
                    } else if v.protocol is None {
                        assert(held_events(w) =~= held_events(v));
                        assert(held_children(w) =~= set![]);
                        assert(l.children =~= base.children.union(held_children(w)));
                    } else {
                        assert(held_events(w) =~= held_events(v));
                    }
                },
                Stage::CreatingChild => {
                    assert(held_events(w) =~= held_events(v));
                    if let Reply::Created(c) = r {
                        assert(l.children =~= base.children.union(held_children(w)));
                    }
                },
                _ => {
                    assert(held_events(w) =~= held_events(v));
                    assert(held_children(w) =~= held_children(v));
                },
            }
        },
    }
}

/// A closed stream holds nothing: the live objects are those of `base`.
pub proof fn lemma_closed_balanced(v: StreamView, live: Live, base: Live)
    requires
        well_formed(v),
        accounted(v, live, base),
        v.stage is Closed,
    ensures
        live == base,
{
    assert(held_events(v) =~= set![]);
    assert(live.events =~= base.events);
    assert(live.children =~= base.children);
}

/// The stream and the environment after feeding `inputs` in order.
pub open spec fn run(v: StreamView, live: Live, inputs: Seq<Input>) -> (StreamView, Live)
    decreases inputs.len(),
{
    if inputs.len() == 0 {
        (v, live)
    } else {
        run(advance(v, inputs[0]).0, after(v, live, inputs[0]), inputs.drop_first())
    }
}

/// Every input of the sequence is admissible where it is fed.
pub open spec fn admissible_run(v: StreamView, live: Live, inputs: Seq<Input>) -> bool
    decreases inputs.len(),
{
    inputs.len() == 0 || (admissible(v, live, inputs[0]) && admissible_run(
        advance(v, inputs[0]).0,
        after(v, live, inputs[0]),
        inputs.drop_first(),
    ))
}

/// Any admissible sequence of inputs keeps the account.
pub proof fn lemma_run_accounted(v: StreamView, live: Live, base: Live, inputs: Seq<Input>)
    requires
        well_formed(v),
        accounted(v, live, base),
        admissible_run(v, live, inputs),
    ensures
        well_formed(run(v, live, inputs).0),
        accounted(run(v, live, inputs).0, run(v, live, inputs).1, base),
    decreases inputs.len(),
{
    if inputs.len() > 0 {
        lemma_step_accounted(v, live, base, inputs[0]);
        lemma_run_accounted(
            advance(v, inputs[0]).0,
            after(v, live, inputs[0]),
            base,
            inputs.drop_first(),
        );
    }
}

/// No leak: whatever operations and replies a connection to `addr` goes
/// through, once it is closed every signal object and child instance it
/// acquired has been released, and the environment holds exactly what it held
/// before the connection started.
pub proof fn lemma_no_leak(addr: SocketAddrV4, live: Live, inputs: Seq<Input>)
    requires
        admissible_run(initial(addr), live, inputs),
        run(initial(addr), live, inputs).0.stage is Closed,
    ensures
        run(initial(addr), live, inputs).1 == live,
{
    let v = initial(addr);
    assert(held_events(v) =~= set![]);
    assert(live.events =~= live.events.union(held_events(v)));
    assert(live.children =~= live.children.union(held_children(v)));
    lemma_run_accounted(v, live, live, inputs);
    let (w, l) = run(v, live, inputs);
    lemma_closed_balanced(w, l, live);
}

/// The phases a connection passes through, in order.
pub open spec fn phase_rank(s: Stage) -> nat {
    match s {
        Stage::CreatingEvents | Stage::LocatingService | Stage::CreatingChild => 0,
        Stage::OpeningProtocol => 1,
        Stage::Configuring | Stage::Connecting | Stage::AwaitingConnect => 2,
        Stage::Active | Stage::Sending { .. } | Stage::AwaitingSend { .. } | Stage::Receiving { .. }
        | Stage::AwaitingReceive { .. } => 3,
        Stage::Closing | Stage::AwaitingClose | Stage::TearingDown { .. } => 4,
        Stage::Closed => 5,
    }
}

/// A connection never returns to an earlier phase: unconfigured, binding
/// created, protocol opened, active, closing, destroyed.
pub proof fn lemma_phase_order(v: StreamView, i: Input)
    requires
        well_formed(v),
    ensures
        phase_rank(advance(v, i).0.stage) >= phase_rank(v.stage),
{
}

/// Rollback before report: while a connection tears down, each reply either
/// asks for the next release or, once nothing is held, reports the outcome
/// that the teardown began with.
pub proof fn lemma_teardown_reports(v: StreamView, outcome: Result<usize, NetError>, r: Reply)
    requires
        well_formed(v),
        v.stage == (Stage::TearingDown { outcome }),
    ensures
        ({
            let (w, q) = on_reply(v, r);
            ||| w.stage == (Stage::TearingDown { outcome }) && q is Call
            ||| w.stage is Closed && q == Request::Done(outcome) && w.events.len() == 0
                && w.child is None
        }),
{
    lemma_on_reply_well_formed(v, r);
}

impl Tcp4Stream {
    /// Feeds one input to the stream.
    pub fn feed(&mut self, i: Input) -> (r: Request)
        requires
            old(self).wf(),
            i is Reply ==> awaiting(old(self)@),
        ensures
            (final(self)@, r) == advance(old(self)@, i),
            final(self).wf(),
    {
        match i {
            Input::Send(n) => self.send(n),
            Input::Receive(n) => self.receive(n),
            Input::Close => self.close(),
            Input::Reply(r) => self.resume(r),
        }
    }
}

} // verus!
