//! A message-driven update runtime in the style of the Elm architecture.
//!
//! Messages reach one serialized update function through a channel owned by
//! [`Runtime`]. An update invocation collects follow-up messages and
//! asynchronous commands in a [`Cmd`], which is flushed when the invocation
//! returns. [`MsgDispatcher`] is the capability through which any code
//! enqueues messages. The host drives the runtime: it performs each scheduling
//! tick, runs the update function, and runs the command tasks.
use vstd::prelude::*;

pub mod cmd;
pub mod dispatcher;
pub mod laws;
pub mod model;
pub mod projection;
pub mod runtime;

pub use cmd::Cmd;
pub use dispatcher::MsgDispatcher;
pub use model::LoopState;
pub use runtime::{ChannelClosed, Runtime};

verus! {

} // verus!
