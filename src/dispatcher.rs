//! The capability through which any code enqueues messages.
use crate::runtime::{ChannelClosed, Runtime};
use std::marker::PhantomData;
use vstd::prelude::*;

verus! {

/// Sends messages to the update function of one model instance.
///
/// It holds no state of its own: every copy reaches the same channel, which
/// the caller hands in.
pub struct MsgDispatcher<Msg> {
    msg: PhantomData<Msg>,
}

impl<Msg> Clone for MsgDispatcher<Msg> {
    fn clone(&self) -> (r: Self)
        ensures
            r == *self,
    {
        MsgDispatcher { msg: PhantomData }
    }
}

impl<Msg> Copy for MsgDispatcher<Msg> {

}

impl<Msg> MsgDispatcher<Msg> {
    pub fn new() -> (r: Self) {
        MsgDispatcher { msg: PhantomData }
    }

    /// Dispatches `msg` to the update function at the next scheduling
    /// opportunity, never inline with this call.
    pub fn dispatch(self, rt: &mut Runtime<Msg>, msg: Msg) -> (r: Result<(), ChannelClosed>)
        ensures
            final(rt)@ == old(rt)@.send(seq![msg]),
            r is Err <==> old(rt)@.is_closed(),
    {
        let mut msgs = Vec::new();
        msgs.push(msg);
        proof {
            assert(msgs@ =~= seq![msg]);
        }
        rt.send(msgs)
    }

    /// Puts `msg` into the channel now. The update loop still is the only
    /// one to invoke the update function.
    pub fn dispatch_immediate(self, rt: &mut Runtime<Msg>, msg: Msg) -> (r: Result<(), ChannelClosed>)
        ensures
            final(rt)@ == old(rt)@.send_now(msg),
            r is Err <==> old(rt)@.is_closed(),
    {
        rt.send_now(msg)
    }

    /// Dispatches each message of `msgs`, one after another.
    pub fn batch(self, rt: &mut Runtime<Msg>, msgs: Vec<Msg>) -> (r: Result<(), ChannelClosed>)
        ensures
            final(rt)@ == old(rt)@.send(msgs@),
            r is Err <==> old(rt)@.is_closed(),
    {
        rt.send(msgs)
    }
}

} // verus!
