//! The mathematical model of the runtime: its state, the events that change
//! it, and what a run of events delivers to the update function.
use vstd::prelude::*;

verus! {

/// Where the update loop stands.
#[derive(PartialEq, Eq, Structural, Clone, Copy, Debug)]
pub enum LoopState {
    /// Waiting for the next message of the channel.
    Idle,
    /// An update invocation is in flight.
    Invoking,
    /// The model instance was disposed; the channel is closed.
    Terminated,
}

/// The abstract state of a runtime.
pub struct RuntimeModel<Msg> {
    /// Messages in the channel, oldest first.
    pub queue: Seq<Msg>,
    /// Deferred sends, in the order they were scheduled; they enter the
    /// channel at the next tick.
    pub deferred: Seq<Msg>,
    /// The state of the update loop.
    pub state: LoopState,
}

/// One thing that can happen to a runtime.
pub enum Event<Msg> {
    /// Deferred dispatch of these messages, in order.
    Send(Seq<Msg>),
    /// Immediate dispatch of one message.
    SendNow(Msg),
    /// A scheduling tick: deferred sends reach the channel.
    Tick,
    /// The loop takes the next message and starts an invocation.
    Begin,
    /// The invocation returns; its command queue held these messages.
    Finish(Seq<Msg>),
    /// The model instance is disposed.
    Close,
}

impl<Msg> RuntimeModel<Msg> {
    /// A fresh runtime, primed with the initial message.
    pub open spec fn primed(init: Msg) -> Self {
        RuntimeModel { queue: seq![init], deferred: Seq::empty(), state: LoopState::Idle }
    }

    /// Whether the model instance was disposed.
    pub open spec fn is_closed(self) -> bool {
        self.state == LoopState::Terminated
    }

    /// Deferred dispatch of `ms`; a closed channel takes nothing.
    pub open spec fn send(self, ms: Seq<Msg>) -> Self {
        if self.is_closed() {
            self
        } else {
            RuntimeModel { deferred: self.deferred + ms, ..self }
        }
    }

    /// Immediate dispatch of `m`; a closed channel takes nothing.
    pub open spec fn send_now(self, m: Msg) -> Self {
        if self.is_closed() {
            self
        } else {
            RuntimeModel { queue: self.queue.push(m), ..self }
        }
    }

    /// A tick: deferred sends enter the channel in order. On a closed
    /// channel they fail and are gone.
    pub open spec fn tick(self) -> Self {
        if self.is_closed() {
            RuntimeModel { deferred: Seq::empty(), ..self }
        } else {
            RuntimeModel { queue: self.queue + self.deferred, deferred: Seq::empty(), ..self }
        }
    }

    /// Whether the loop can start an invocation now.
    pub open spec fn can_begin(self) -> bool {
        self.state == LoopState::Idle && self.queue.len() > 0
    }

    /// The state after the loop takes the front message, where it can.
    pub open spec fn begin(self) -> Self {
        if self.can_begin() {
            RuntimeModel { queue: self.queue.drop_first(), state: LoopState::Invoking, ..self }
        } else {
            self
        }
    }

    /// The invocation in flight returns; the messages of its command queue
    /// are sent deferred.
    pub open spec fn finish(self, ms: Seq<Msg>) -> Self {
        let s = self.send(ms);
        if s.state == LoopState::Invoking {
            RuntimeModel { state: LoopState::Idle, ..s }
        } else {
            s
        }
    }

    /// Disposal: the channel closes and what it held is dropped.
    pub open spec fn close(self) -> Self {
        RuntimeModel { queue: Seq::empty(), state: LoopState::Terminated, ..self }
    }

    /// The state after one event.
    pub open spec fn apply(self, e: Event<Msg>) -> Self {
        match e {
            Event::Send(ms) => self.send(ms),
            Event::SendNow(m) => self.send_now(m),
            Event::Tick => self.tick(),
            Event::Begin => self.begin(),
            Event::Finish(ms) => self.finish(ms),
            Event::Close => self.close(),
        }
    }

    /// What one event hands to the update function.
    pub open spec fn output(self, e: Event<Msg>) -> Seq<Msg> {
        if e is Begin && self.can_begin() {
            seq![self.queue[0]]
        } else {
            Seq::empty()
        }
    }

    /// The state after a run of events.
    pub open spec fn run(self, evs: Seq<Event<Msg>>) -> Self
        decreases evs.len(),
    {
        if evs.len() == 0 {
            self
        } else {
            self.apply(evs[0]).run(evs.drop_first())
        }
    }

    /// The messages that a run of events hands to the update function, in
    /// the order of the invocations.
    pub open spec fn delivered(self, evs: Seq<Event<Msg>>) -> Seq<Msg>
        decreases evs.len(),
    {
        if evs.len() == 0 {
            Seq::empty()
        } else {
            self.output(evs[0]) + self.apply(evs[0]).delivered(evs.drop_first())
        }
    }

    /// Messages not yet handed to the update function, in channel order.
    pub open spec fn pending(self) -> Seq<Msg> {
        self.queue + self.deferred
    }
}

/// The number of invocation returns in a run of events.
pub open spec fn finishes<Msg>(evs: Seq<Event<Msg>>) -> nat
    decreases evs.len(),
{
    if evs.len() == 0 {
        0
    } else {
        (if evs[0] is Finish { 1nat } else { 0nat }) + finishes(evs.drop_first())
    }
}

/// Whether a run of events disposes of the model instance.
pub open spec fn closes<Msg>(evs: Seq<Event<Msg>>) -> bool {
    exists|i: int| 0 <= i < evs.len() && #[trigger] evs[i] is Close
}

/// `xs` occurs in `ys` in order, not necessarily contiguously.
pub open spec fn is_subseq<A>(xs: Seq<A>, ys: Seq<A>) -> bool
    decreases ys.len(),
{
    if xs.len() == 0 {
        true
    } else if ys.len() == 0 {
        false
    } else if xs[0] == ys[0] {
        is_subseq(xs.drop_first(), ys.drop_first())
    } else {
        is_subseq(xs, ys.drop_first())
    }
}

/// The abstract state of a command queue.
pub struct CmdModel<Msg, Task> {
    /// Buffered messages, in enqueue order.
    pub msgs: Seq<Msg>,
    /// Buffered command tasks, in enqueue order.
    pub cmds: Seq<Task>,
}

impl<Msg, Task> CmdModel<Msg, Task> {
    /// A queue with nothing buffered.
    pub open spec fn empty() -> Self {
        CmdModel { msgs: Seq::empty(), cmds: Seq::empty() }
    }
}

} // verus!
