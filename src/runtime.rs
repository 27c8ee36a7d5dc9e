//! The message channel and the update loop that drains it.
use crate::cmd::Cmd;
use crate::model::{LoopState, RuntimeModel};
use std::collections::VecDeque;
use vstd::prelude::*;

verus! {

/// A dispatch reached a model instance that was already disposed.
#[derive(PartialEq, Eq, Structural, Clone, Copy, Debug)]
pub struct ChannelClosed;

/// One live model instance: its message channel, the sends scheduled for the
/// next tick, and the state of its update loop.
///
/// The host performs the outside work. It calls [`Runtime::tick`] at each
/// scheduling opportunity, runs the update function on what
/// [`Runtime::begin_update`] hands out, returns the command queue through
/// [`Runtime::finish_update`], and runs the command tasks that come back.
pub struct Runtime<Msg> {
    queue: VecDeque<Msg>,
    deferred: VecDeque<Msg>,
    state: LoopState,
}

impl<Msg> View for Runtime<Msg> {
    type V = RuntimeModel<Msg>;

    closed spec fn view(&self) -> RuntimeModel<Msg> {
        RuntimeModel { queue: self.queue@, deferred: self.deferred@, state: self.state }
    }
}

impl<Msg> Runtime<Msg> {
    /// A runtime for a fresh model instance, primed with `init` so that the
    /// update function first runs on it.
    pub fn new(init: Msg) -> (r: Self)
        ensures
            r@ == RuntimeModel::primed(init),
    {
        let mut queue = VecDeque::new();
        queue.push_back(init);
        let r = Runtime { queue, deferred: VecDeque::new(), state: LoopState::Idle };
        assert(r@.queue =~= seq![init]);
        r
    }

    /// Whether the model instance was disposed.
    pub fn is_closed(&self) -> (r: bool)
        ensures
            r == self@.is_closed(),
    {
        match self.state {
            LoopState::Terminated => true,
            _ => false,
        }
    }

    /// Schedules a deferred send of each message of `msgs`, in order.
    pub(crate) fn send(&mut self, msgs: Vec<Msg>) -> (r: Result<(), ChannelClosed>)
        ensures
            final(self)@ == old(self)@.send(msgs@),
            r is Err <==> old(self)@.is_closed(),
    {
        if self.is_closed() {
            return Err(ChannelClosed);
        }
        let ghost start = self@;
        let ghost all = msgs@;
        let mut msgs = msgs;
        while msgs.len() > 0
            invariant
                self.deferred@ + msgs@ == start.deferred + all,
                self.queue@ == start.queue,
                self.state == start.state,
            decreases msgs.len(),
        {
            let ghost before = msgs@;
            let m = msgs.remove(0);
            self.deferred.push_back(m);
            assert(self.deferred@ + msgs@ =~= start.deferred + all) by {
                assert(before =~= seq![m] + msgs@);
            }
        }
        assert(self.deferred@ =~= start.deferred + all);
        Ok(())
    }

    /// Puts `msg` straight into the channel.
    pub(crate) fn send_now(&mut self, msg: Msg) -> (r: Result<(), ChannelClosed>)
        ensures
            final(self)@ == old(self)@.send_now(msg),
            r is Err <==> old(self)@.is_closed(),
    {
        if self.is_closed() {
            return Err(ChannelClosed);
        }
        self.queue.push_back(msg);
        Ok(())
    }

    /// A scheduling tick: every deferred send reaches the channel, in the
    /// order it was scheduled. After disposal those sends fail, which is an
    /// error.
    pub fn tick(&mut self) -> (r: Result<(), ChannelClosed>)
        ensures
            final(self)@ == old(self)@.tick(),
            r is Err <==> old(self)@.is_closed() && old(self)@.deferred.len() > 0,
    {
        if self.is_closed() {
            if self.deferred.len() > 0 {
                self.deferred.clear();
                return Err(ChannelClosed);
            }
            proof {
                assert(self.deferred@ =~= Seq::empty());
            }
            return Ok(());
        }
        self.queue.append(&mut self.deferred);
        Ok(())
    }

    /// The loop takes the next message of the channel and starts an update
    /// invocation with it. It hands out nothing while an invocation is in
    /// flight, after disposal, or while the channel is empty.
    pub fn begin_update(&mut self) -> (r: Option<Msg>)
        ensures
            final(self)@ == old(self)@.begin(),
            r == (if old(self)@.can_begin() {
                Some(old(self)@.queue[0])
            } else {
                None
            }),
    {
        match self.state {
            LoopState::Idle => {},
            _ => {
                return None;
            },
        }
        let r = self.queue.pop_front();
        if r.is_some() {
            self.state = LoopState::Invoking;
        }
        r
    }

    /// The update invocation returns its command queue: the buffered
    /// messages are sent deferred and the loop is idle again. The buffered
    /// command tasks come back for the host to run; each one's result
    /// messages go through [`crate::MsgDispatcher::batch`].
    pub fn finish_update<Task>(&mut self, cmd: Cmd<Msg, Task>) -> (r: Result<Vec<Task>, ChannelClosed>)
        ensures
            final(self)@ == old(self)@.finish(cmd@.msgs),
            match r {
                Ok(tasks) => !old(self)@.is_closed() && tasks@ == cmd@.cmds,
                Err(_) => old(self)@.is_closed(),
            },
    {
        let mut cmd = cmd;
        let r = cmd.perform(self);
        match self.state {
            LoopState::Invoking => {
                self.state = LoopState::Idle;
            },
            _ => {},
        }
        r
    }

    /// Disposes of the model instance: the channel closes and the messages
    /// it held are dropped. Later dispatches fail with [`ChannelClosed`].
    pub fn close(&mut self)
        ensures
            final(self)@ == old(self)@.close(),
    {
        self.queue.clear();
        self.state = LoopState::Terminated;
    }
    /// Where the update loop stands.
    pub fn state(&self) -> (r: LoopState)
        ensures
            r == self@.state,
    {
        self.state
    }

    /// The number of messages in the channel.
    pub fn queued(&self) -> (r: usize)
        ensures
            r == self@.queue.len(),
    {
        self.queue.len()
    }

    /// The number of deferred sends waiting for the next tick.
    pub fn scheduled(&self) -> (r: usize)
        ensures
            r == self@.deferred.len(),
    {
        self.deferred.len()
    }
}

} // verus!
