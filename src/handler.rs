//! The per-connection handler as a state machine.
//!
//! The handler decides; its runner performs. The runner reports what
//! happened as an [`Event`], and [`step`] answers with the next [`Phase`]
//! and the [`Action`] to perform. A handler passes through
//! `Init -> SendingInitial -> Streaming -> Closed`, and whichever way it
//! reaches `Closed` it asks exactly once for its permit and subscription to
//! be released.

use vstd::prelude::*;
use crate::broadcast::Recv;

verus! {

#[derive(PartialEq, Eq, Structural, Clone, Copy, Debug)]
pub enum Phase {
    /// Holds the connection and its permit; not yet subscribed.
    Init,
    /// Subscribed; the first line is being written.
    SendingInitial,
    /// Forwarding published lines.
    Streaming,
    /// Finished; resources released.
    Closed,
}

/// What the runner reports.
pub enum Event {
    /// The runner subscribed; `initial` is the first line to send.
    Subscribed(Vec<u8>),
    /// No subscription could be made.
    NoSlot,
    /// The last line was written and flushed.
    Written,
    /// Writing failed: the peer is gone.
    WriteFailed,
    /// The outcome of taking the next line from the subscription.
    Received(Recv),
    /// The peer closed the connection.
    PeerClosed,
}

/// What the runner is to do next.
pub enum Action {
    /// Write this line and flush, then report `Written` or `WriteFailed`.
    Send(Vec<u8>),
    /// Take the next line from the subscription and report it.
    Receive,
    /// Nothing is pending: wait for the next publish, then `Receive`.
    Wait,
    /// Drop the subscription, release the permit and stop.
    Release,
    /// Nothing more to do.
    Stop,
}

/// An action as a mathematical value.
pub enum Step {
    Send(Seq<u8>),
    Receive,
    Wait,
    Release,
    Stop,
}

impl Action {
    pub open spec fn model(&self) -> Step {
        match self {
            Action::Send(l) => Step::Send(l@),
            Action::Receive => Step::Receive,
            Action::Wait => Step::Wait,
            Action::Release => Step::Release,
            Action::Stop => Step::Stop,
        }
    }
}

/// The transition from `p` on `e`.
pub open spec fn step_spec(p: Phase, e: Event) -> (Phase, Step) {
    if p == Phase::Closed {
        (Phase::Closed, Step::Stop)
    } else {
        match e {
            Event::Subscribed(initial) => if p == Phase::Init {
                (Phase::SendingInitial, Step::Send(initial@))
            } else {
                (Phase::Closed, Step::Release)
            },
            Event::Written => if p == Phase::SendingInitial || p == Phase::Streaming {
                (Phase::Streaming, Step::Receive)
            } else {
                (Phase::Closed, Step::Release)
            },
            Event::Received(r) => if p == Phase::Streaming {
                match r {
                    Recv::Value(l) => (Phase::Streaming, Step::Send(l@)),
                    Recv::Lagged(_) => (Phase::Streaming, Step::Receive),
                    Recv::Empty => (Phase::Streaming, Step::Wait),
                    Recv::Closed => (Phase::Closed, Step::Release),
                }
            } else {
                (Phase::Closed, Step::Release)
            },
            _ => (Phase::Closed, Step::Release),
        }
    }
}

/// Decides the next phase and action of a handler in phase `p` on event `e`.
/// An event that cannot come in phase `p` closes the handler.
pub fn step(p: Phase, e: Event) -> (r: (Phase, Action))
    ensures
        (r.0, r.1.model()) == step_spec(p, e),
{
    if p == Phase::Closed {
        return (Phase::Closed, Action::Stop);
    }
    match e {
        Event::Subscribed(initial) => {
            if p == Phase::Init {
                (Phase::SendingInitial, Action::Send(initial))
            } else {
                (Phase::Closed, Action::Release)
            }
        },
        Event::Written => {
            if p == Phase::SendingInitial || p == Phase::Streaming {
                (Phase::Streaming, Action::Receive)
            } else {
                (Phase::Closed, Action::Release)
            }
        },
        Event::Received(r) => {
            if p == Phase::Streaming {
                match r {
                    Recv::Value(l) => (Phase::Streaming, Action::Send(l)),
                    Recv::Lagged(_) => (Phase::Streaming, Action::Receive),
                    Recv::Empty => (Phase::Streaming, Action::Wait),
                    Recv::Closed => (Phase::Closed, Action::Release),
                }
            } else {
                (Phase::Closed, Action::Release)
            }
        },
        _ => (Phase::Closed, Action::Release),
    }
}

/// Runs the handler from phase `p` over `events`: the final phase and the
/// actions taken.
pub open spec fn run(p: Phase, events: Seq<Event>) -> (Phase, Seq<Step>)
    decreases events.len(),
{
    if events.len() == 0 {
        (p, Seq::empty())
    } else {
        let (q, a) = step_spec(p, events[0]);
        let (f, rest) = run(q, events.subrange(1, events.len() as int));
        (f, seq![a] + rest)
    }
}

/// How many of `steps` are releases.
pub open spec fn releases(steps: Seq<Step>) -> nat
    decreases steps.len(),
{
    if steps.len() == 0 {
        0
    } else {
        (if steps[0] is Release { 1nat } else { 0nat }) + releases(steps.subrange(1, steps.len() as int))
    }
}

/// One step releases exactly when it enters `Closed`; once closed, a
/// handler stays closed and does nothing; a failed write or a closed peer
/// closes it at once.
pub proof fn lemma_step_release(p: Phase, e: Event)
    ensures
        (step_spec(p, e).1 is Release) <==> (p != Phase::Closed && step_spec(p, e).0 == Phase::Closed),
        p == Phase::Closed ==> step_spec(p, e) == (Phase::Closed, Step::Stop),
        (e is WriteFailed || e is PeerClosed) ==> step_spec(p, e).0 == Phase::Closed,
{
}

/// Over any run, resources are released at most once, and exactly once
/// when a handler that was not closed ends closed: nothing leaks, and
/// nothing is released twice.
pub proof fn lemma_run_releases_once(p: Phase, events: Seq<Event>)
    ensures
        releases(run(p, events).1) <= 1,
        p != Phase::Closed && run(p, events).0 == Phase::Closed ==> releases(run(p, events).1) == 1,
        p != Phase::Closed && run(p, events).0 != Phase::Closed ==> releases(run(p, events).1) == 0,
        p == Phase::Closed ==> run(p, events).0 == Phase::Closed && releases(run(p, events).1) == 0,
    decreases events.len(),
{
    if events.len() > 0 {
        let (q, a) = step_spec(p, events[0]);
        let tail = events.subrange(1, events.len() as int);
        lemma_run_releases_once(q, tail);
        let steps = run(p, events).1;
        assert(steps == seq![a] + run(q, tail).1);
        assert(steps[0] == a);
        assert(steps.subrange(1, steps.len() as int) =~= run(q, tail).1);
    }
}

} // verus!
