//! The command queue of one update invocation.
use crate::dispatcher::MsgDispatcher;
use crate::model::CmdModel;
use crate::runtime::{ChannelClosed, Runtime};
use vstd::prelude::*;

verus! {

/// Collects the messages and the asynchronous command tasks that an update
/// invocation produces. [`Cmd::perform`] schedules them; the update loop
/// performs the queue when the invocation returns, so nothing buffered is
/// lost.
pub struct Cmd<Msg, Task> {
    msg_dispatcher: MsgDispatcher<Msg>,
    msgs: Vec<Msg>,
    cmds: Vec<Task>,
}

impl<Msg, Task> View for Cmd<Msg, Task> {
    type V = CmdModel<Msg, Task>;

    closed spec fn view(&self) -> CmdModel<Msg, Task> {
        CmdModel { msgs: self.msgs@, cmds: self.cmds@ }
    }
}

/// A clone is a fresh, empty queue that schedules through the same
/// dispatcher; the buffered effects stay with the original.
impl<Msg, Task> Clone for Cmd<Msg, Task> {
    fn clone(&self) -> (r: Self)
        ensures
            r@ == CmdModel::<Msg, Task>::empty(),
    {
        Cmd::new(self.msg_dispatcher)
    }
}

impl<Msg, Task> Cmd<Msg, Task> {
    /// An empty queue that schedules through `msg_dispatcher`.
    pub fn new(msg_dispatcher: MsgDispatcher<Msg>) -> (r: Self)
        ensures
            r@ == CmdModel::<Msg, Task>::empty(),
    {
        let r = Cmd { msg_dispatcher, msgs: Vec::new(), cmds: Vec::new() };
        assert(r@.msgs =~= Seq::empty() && r@.cmds =~= Seq::empty());
        r
    }

    /// Buffers `msg` for dispatch.
    pub fn msg(&mut self, msg: Msg)
        ensures
            final(self)@.msgs == old(self)@.msgs.push(msg),
            final(self)@.cmds == old(self)@.cmds,
    {
        self.msgs.push(msg);
    }

    /// Buffers every message of `msgs`, keeping their order.
    pub fn batch_msgs(&mut self, msgs: Vec<Msg>)
        ensures
            final(self)@.msgs == old(self)@.msgs + msgs@,
            final(self)@.cmds == old(self)@.cmds,
    {
        let mut msgs = msgs;
        self.msgs.append(&mut msgs);
    }

    /// Buffers a command task, which eventually yields zero or more
    /// messages.
    pub fn cmd(&mut self, cmd: Task)
        ensures
            final(self)@.msgs == old(self)@.msgs,
            final(self)@.cmds == old(self)@.cmds.push(cmd),
    {
        self.cmds.push(cmd);
    }

    /// Schedules everything buffered now: each message is sent deferred, in
    /// order, and the command tasks come back for the host to run. The queue
    /// is then empty, so performing it again schedules nothing. After
    /// disposal nothing is scheduled and the queue is left as it was.
    pub fn perform(&mut self, rt: &mut Runtime<Msg>) -> (r: Result<Vec<Task>, ChannelClosed>)
        ensures
            final(rt)@ == old(rt)@.send(old(self)@.msgs),
            match r {
                Ok(tasks) => {
                    &&& !old(rt)@.is_closed()
                    &&& tasks@ == old(self)@.cmds
                    &&& final(self)@ == CmdModel::<Msg, Task>::empty()
                },
                Err(_) => old(rt)@.is_closed() && final(self)@ == old(self)@,
            },
    {
        if rt.is_closed() {
            return Err(ChannelClosed);
        }
        let mut msgs = Vec::new();
        std::mem::swap(&mut msgs, &mut self.msgs);
        let mut cmds = Vec::new();
        std::mem::swap(&mut cmds, &mut self.cmds);
        let _ = self.msg_dispatcher.batch(rt, msgs);
        assert(self@.msgs =~= Seq::empty() && self@.cmds =~= Seq::empty());
        Ok(cmds)
    }
}

} // verus!
