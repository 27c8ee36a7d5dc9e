use leptos_tea::{ChannelClosed, Cmd, LoopState, MsgDispatcher, Runtime};

#[derive(Debug, Clone, Copy, PartialEq)]
enum Msg {
    Init,
    Increment,
    Decrement,
    A,
    B,
    C,
    X,
    Y,
}

/// Runs the loop until the channel and the deferred sends are both empty,
/// calling `update` for each invocation and feeding command results back
/// in the order the commands were issued.
fn drain<F>(rt: &mut Runtime<Msg>, mut update: F) -> Vec<Msg>
where
    F: FnMut(Msg, &mut Cmd<Msg, Vec<Msg>>),
{
    let dispatcher = MsgDispatcher::new();
    let mut seen = Vec::new();
    loop {
        rt.tick().unwrap();
        match rt.begin_update() {
            Some(msg) => {
                seen.push(msg);
                let mut cmd = Cmd::new(dispatcher);
                update(msg, &mut cmd);
                let tasks = rt.finish_update(cmd).unwrap();
                for results in tasks {
                    dispatcher.batch(rt, results).unwrap();
                }
            }
            None => {
                if rt.scheduled() == 0 {
                    return seen;
                }
            }
        }
    }
}

#[test]
fn counter_scenario() {
    let mut rt = Runtime::new(Msg::Init);
    let d = MsgDispatcher::new();
    d.dispatch(&mut rt, Msg::Increment).unwrap();
    d.dispatch(&mut rt, Msg::Increment).unwrap();
    d.dispatch(&mut rt, Msg::Decrement).unwrap();
    let mut counter: i64 = 0;
    let mut invocations = 0;
    drain(&mut rt, |msg, _| {
        invocations += 1;
        match msg {
            Msg::Increment => counter += 1,
            Msg::Decrement => counter -= 1,
            _ => {}
        }
    });
    assert_eq!(counter, 1);
    assert_eq!(invocations, 4);
}

#[test]
fn command_results_in_order() {
    let mut rt = Runtime::new(Msg::Init);
    let mut view = Vec::new();
    drain(&mut rt, |msg, cmd| {
        if msg == Msg::Init {
            cmd.cmd(vec![Msg::A, Msg::B]);
        } else {
            view.push(msg);
        }
    });
    assert_eq!(view, vec![Msg::A, Msg::B]);
}

#[test]
fn two_dispatchers_each_delivered_once() {
    let mut rt = Runtime::new(Msg::Init);
    let d1 = MsgDispatcher::new();
    let d2 = d1;
    d2.dispatch(&mut rt, Msg::Y).unwrap();
    d1.dispatch(&mut rt, Msg::X).unwrap();
    let seen = drain(&mut rt, |_, _| {});
    assert_eq!(seen.iter().filter(|m| **m == Msg::X).count(), 1);
    assert_eq!(seen.iter().filter(|m| **m == Msg::Y).count(), 1);
    assert_eq!(seen, vec![Msg::Init, Msg::Y, Msg::X]);
}

#[test]
fn dispatch_after_teardown_is_an_error() {
    let mut rt = Runtime::new(Msg::Init);
    let d = MsgDispatcher::new();
    rt.close();
    assert_eq!(rt.state(), LoopState::Terminated);
    assert_eq!(d.dispatch(&mut rt, Msg::X), Err(ChannelClosed));
    assert_eq!(d.dispatch_immediate(&mut rt, Msg::X), Err(ChannelClosed));
    assert_eq!(d.batch(&mut rt, vec![Msg::X]), Err(ChannelClosed));
    assert_eq!(rt.begin_update(), None);
}

#[test]
fn deferred_send_after_teardown_is_an_error() {
    let mut rt = Runtime::new(Msg::Init);
    let d = MsgDispatcher::new();
    d.dispatch(&mut rt, Msg::X).unwrap();
    rt.close();
    assert_eq!(rt.tick(), Err(ChannelClosed));
    assert_eq!(rt.scheduled(), 0);
    assert_eq!(rt.tick(), Ok(()));
}

#[test]
fn no_second_invocation_while_one_is_in_flight() {
    let mut rt = Runtime::new(Msg::Init);
    let d = MsgDispatcher::new();
    d.dispatch_immediate(&mut rt, Msg::X).unwrap();
    assert_eq!(rt.begin_update(), Some(Msg::Init));
    assert_eq!(rt.state(), LoopState::Invoking);
    // dispatches from inside the invocation
    d.dispatch(&mut rt, Msg::Y).unwrap();
    d.dispatch_immediate(&mut rt, Msg::Y).unwrap();
    rt.tick().unwrap();
    assert_eq!(rt.begin_update(), None);
    assert_eq!(rt.state(), LoopState::Invoking);
    let tasks = rt.finish_update(Cmd::<Msg, Vec<Msg>>::new(d)).unwrap();
    assert!(tasks.is_empty());
    assert_eq!(rt.state(), LoopState::Idle);
    assert_eq!(rt.begin_update(), Some(Msg::X));
    assert_eq!(rt.begin_update(), None);
}

#[test]
fn dispatch_is_deferred_until_tick() {
    let mut rt = Runtime::new(Msg::Init);
    let d = MsgDispatcher::new();
    assert_eq!(rt.begin_update(), Some(Msg::Init));
    rt.finish_update(Cmd::<Msg, Vec<Msg>>::new(d)).unwrap();
    d.dispatch(&mut rt, Msg::X).unwrap();
    assert_eq!(rt.scheduled(), 1);
    assert_eq!(rt.queued(), 0);
    assert_eq!(rt.begin_update(), None);
    rt.tick().unwrap();
    assert_eq!(rt.scheduled(), 0);
    assert_eq!(rt.queued(), 1);
    assert_eq!(rt.begin_update(), Some(Msg::X));
}

#[test]
fn immediate_dispatch_skips_the_tick() {
    let mut rt = Runtime::new(Msg::Init);
    let d = MsgDispatcher::new();
    d.dispatch(&mut rt, Msg::X).unwrap();
    d.dispatch_immediate(&mut rt, Msg::Y).unwrap();
    assert_eq!(rt.queued(), 2);
    rt.tick().unwrap();
    assert_eq!(rt.begin_update(), Some(Msg::Init));
    rt.finish_update(Cmd::<Msg, Vec<Msg>>::new(d)).unwrap();
    assert_eq!(rt.begin_update(), Some(Msg::Y));
    rt.finish_update(Cmd::<Msg, Vec<Msg>>::new(d)).unwrap();
    assert_eq!(rt.begin_update(), Some(Msg::X));
}

#[test]
fn one_command_keeps_its_order_among_others() {
    let mut rt = Runtime::new(Msg::Init);
    let mut view = Vec::new();
    drain(&mut rt, |msg, cmd| {
        if msg == Msg::Init {
            cmd.msg(Msg::X);
            cmd.cmd(vec![Msg::A, Msg::B, Msg::C]);
            cmd.cmd(vec![Msg::Y, Msg::Y]);
            cmd.cmd(vec![]);
        } else {
            view.push(msg);
        }
    });
    let ours: Vec<Msg> = view
        .iter()
        .copied()
        .filter(|m| matches!(m, Msg::A | Msg::B | Msg::C))
        .collect();
    assert_eq!(ours, vec![Msg::A, Msg::B, Msg::C]);
    assert_eq!(view.len(), 6);
}

#[test]
fn perform_twice_schedules_once() {
    let mut rt = Runtime::new(Msg::Init);
    let d = MsgDispatcher::new();
    assert_eq!(rt.begin_update(), Some(Msg::Init));
    let mut cmd: Cmd<Msg, Vec<Msg>> = Cmd::new(d);
    cmd.msg(Msg::A);
    cmd.batch_msgs(vec![Msg::B, Msg::C]);
    cmd.cmd(vec![Msg::X]);
    let tasks = cmd.perform(&mut rt).unwrap();
    assert_eq!(tasks, vec![vec![Msg::X]]);
    assert_eq!(rt.scheduled(), 3);
    let again = cmd.perform(&mut rt).unwrap();
    assert!(again.is_empty());
    assert_eq!(rt.scheduled(), 3);
    let last = rt.finish_update(cmd).unwrap();
    assert!(last.is_empty());
    assert_eq!(rt.scheduled(), 3);
    let seen = drain(&mut rt, |_, _| {});
    assert_eq!(seen, vec![Msg::A, Msg::B, Msg::C]);
}

#[test]
fn finish_flushes_what_was_not_performed() {
    let mut rt = Runtime::new(Msg::Init);
    let d = MsgDispatcher::new();
    assert_eq!(rt.begin_update(), Some(Msg::Init));
    let mut cmd: Cmd<Msg, Vec<Msg>> = Cmd::new(d);
    cmd.msg(Msg::B);
    cmd.cmd(vec![Msg::C]);
    let tasks = rt.finish_update(cmd).unwrap();
    assert_eq!(tasks, vec![vec![Msg::C]]);
    assert_eq!(rt.state(), LoopState::Idle);
    assert_eq!(rt.scheduled(), 1);
}

#[test]
fn perform_after_teardown_keeps_the_queue() {
    let mut rt = Runtime::new(Msg::Init);
    let d = MsgDispatcher::new();
    let mut cmd: Cmd<Msg, Vec<Msg>> = Cmd::new(d);
    cmd.msg(Msg::A);
    rt.close();
    assert!(cmd.perform(&mut rt).is_err());
    assert_eq!(rt.finish_update(cmd), Err(ChannelClosed));
    assert_eq!(rt.state(), LoopState::Terminated);
}

#[test]
fn initial_message_comes_first() {
    let mut rt = Runtime::new(Msg::Init);
    let d = MsgDispatcher::new();
    d.dispatch_immediate(&mut rt, Msg::X).unwrap();
    d.dispatch(&mut rt, Msg::Y).unwrap();
    rt.tick().unwrap();
    assert_eq!(rt.queued(), 3);
    let seen = drain(&mut rt, |_, _| {});
    assert_eq!(seen, vec![Msg::Init, Msg::X, Msg::Y]);
    assert_eq!(seen.iter().filter(|m| **m == Msg::Init).count(), 1);
}

#[test]
fn empty_channel_starts_nothing() {
    let mut rt = Runtime::new(Msg::Init);
    assert_eq!(rt.begin_update(), Some(Msg::Init));
    rt.finish_update(Cmd::<Msg, Vec<Msg>>::new(MsgDispatcher::new())).unwrap();
    assert_eq!(rt.begin_update(), None);
    assert_eq!(rt.state(), LoopState::Idle);
    assert!(!rt.is_closed());
}

#[test]
fn cloned_queue_starts_empty() {
    let mut rt = Runtime::new(Msg::Init);
    let d = MsgDispatcher::new();
    let mut cmd: Cmd<Msg, Vec<Msg>> = Cmd::new(d);
    cmd.msg(Msg::A);
    cmd.cmd(vec![Msg::B]);
    let mut copy = cmd.clone();
    assert!(copy.perform(&mut rt).unwrap().is_empty());
    assert_eq!(rt.scheduled(), 0);
    assert_eq!(cmd.perform(&mut rt).unwrap(), vec![vec![Msg::B]]);
    assert_eq!(rt.scheduled(), 1);
}
