//! What holds of every run of the runtime.
use crate::model::{closes, finishes, is_subseq, CmdModel, Event, LoopState, RuntimeModel};
use vstd::prelude::*;

verus! {

proof fn lemma_subseq_refl<A>(xs: Seq<A>)
    ensures
        is_subseq(xs, xs),
    decreases xs.len(),
{
    if xs.len() > 0 {
        lemma_subseq_refl(xs.drop_first());
    }
}

proof fn lemma_subseq_cons<A>(xs: Seq<A>, ys: Seq<A>, m: A)
    requires
        is_subseq(xs, ys),
    ensures
        is_subseq(xs, seq![m] + ys),
    decreases ys.len(),
{
    let zs = seq![m] + ys;
    assert(zs.drop_first() =~= ys);
    if xs.len() > 0 && xs[0] == m {
        let rest = ys.drop_first();
        if xs[0] == ys[0] {
            lemma_subseq_cons(xs.drop_first(), rest, ys[0]);
        } else {
            lemma_subseq_cons(xs, rest, m);
            assert((seq![m] + rest).drop_first() =~= rest);
            lemma_subseq_cons(xs.drop_first(), rest, ys[0]);
        }
        assert(seq![ys[0]] + rest =~= ys);
    }
}

proof fn lemma_subseq_insert<A>(xs: Seq<A>, ys: Seq<A>, i: int, m: A)
    requires
        is_subseq(xs, ys),
        0 <= i <= ys.len(),
    ensures
        is_subseq(xs, ys.insert(i, m)),
    decreases ys.len(),
{
    if i == 0 {
        assert(ys.insert(0, m) =~= seq![m] + ys);
        lemma_subseq_cons(xs, ys, m);
    } else if xs.len() > 0 {
        let zs = ys.insert(i, m);
        assert(zs.drop_first() =~= ys.drop_first().insert(i - 1, m));
        if xs[0] == ys[0] {
            lemma_subseq_insert(xs.drop_first(), ys.drop_first(), i - 1, m);
        } else {
            lemma_subseq_insert(xs, ys.drop_first(), i - 1, m);
        }
    }
}

proof fn lemma_subseq_append<A>(xs: Seq<A>, ys: Seq<A>, zs: Seq<A>)
    requires
        is_subseq(xs, ys),
    ensures
        is_subseq(xs, ys + zs),
    decreases ys.len(),
{
    if xs.len() > 0 {
        assert((ys + zs).drop_first() =~= ys.drop_first() + zs);
        if xs[0] == ys[0] {
            lemma_subseq_append(xs.drop_first(), ys.drop_first(), zs);
        } else {
            lemma_subseq_append(xs, ys.drop_first(), zs);
        }
    }
}

proof fn lemma_subseq_prefix<A>(xs: Seq<A>, p: Seq<A>, ys: Seq<A>)
    requires
        is_subseq(xs, ys),
    ensures
        is_subseq(xs, p + ys),
    decreases p.len(),
{
    if p.len() > 0 {
        lemma_subseq_prefix(xs, p.drop_first(), ys);
        lemma_subseq_cons(xs, p.drop_first() + ys, p[0]);
        assert(seq![p[0]] + (p.drop_first() + ys) =~= p + ys);
    }
}

proof fn lemma_no_close_in_rest<Msg>(evs: Seq<Event<Msg>>)
    requires
        evs.len() > 0,
        !closes(evs),
    ensures
        !(evs[0] is Close),
        !closes(evs.drop_first()),
{
    assert(!(evs[0] is Close));
    assert forall|i: int| 0 <= i < evs.drop_first().len() implies !(#[trigger] evs.drop_first()[i] is Close) by {
        assert(evs.drop_first()[i] == evs[i + 1]);
    }
}

/// After disposal a run hands nothing to the update function and the
/// instance stays disposed.
pub proof fn lemma_closed_stays_silent<Msg>(s: RuntimeModel<Msg>, evs: Seq<Event<Msg>>)
    requires
        s.is_closed(),
    ensures
        s.delivered(evs) == Seq::<Msg>::empty(),
        s.run(evs).is_closed(),
    decreases evs.len(),
{
    if evs.len() > 0 {
        lemma_closed_stays_silent(s.apply(evs[0]), evs.drop_first());
        assert(s.delivered(evs) =~= Seq::<Msg>::empty());
    }
}

/// Initial priming: on a fresh instance the first message that reaches the
/// update function is the initial one, whatever is dispatched meanwhile.
pub proof fn lemma_initial_message_first<Msg>(init: Msg, evs: Seq<Event<Msg>>)
    ensures
        RuntimeModel::primed(init).delivered(evs).len() > 0 ==> RuntimeModel::primed(init).delivered(
            evs,
        )[0] == init,
{
    lemma_front_delivered_first(RuntimeModel::primed(init), init, evs);
}

/// An idle loop whose channel starts with `m` hands `m` out before anything
/// else.
proof fn lemma_front_delivered_first<Msg>(s: RuntimeModel<Msg>, m: Msg, evs: Seq<Event<Msg>>)
    requires
        s.state == LoopState::Idle,
        s.queue.len() > 0,
        s.queue[0] == m,
    ensures
        s.delivered(evs).len() > 0 ==> s.delivered(evs)[0] == m,
    decreases evs.len(),
{
    if evs.len() > 0 {
        let e = evs[0];
        let t = s.apply(e);
        if e is Begin {
            assert(s.output(e) =~= seq![m]);
        } else if e is Close {
            lemma_closed_stays_silent(t, evs.drop_first());
            assert(s.delivered(evs) =~= Seq::<Msg>::empty());
        } else {
            assert(s.output(e) =~= Seq::<Msg>::empty());
            assert(s.delivered(evs) =~= t.delivered(evs.drop_first()));
            lemma_front_delivered_first(t, m, evs.drop_first());
        }
    }
}


/// No reentrancy: while an invocation is in flight, nothing that happens
/// before it returns starts another one, dispatches from inside it included.
pub proof fn lemma_no_reentrant_invocation<Msg>(s: RuntimeModel<Msg>, evs: Seq<Event<Msg>>)
    requires
        s.state == LoopState::Invoking,
        finishes(evs) == 0,
    ensures
        s.delivered(evs) == Seq::<Msg>::empty(),
    decreases evs.len(),
{
    if evs.len() > 0 {
        let t = s.apply(evs[0]);
        assert(s.output(evs[0]) =~= Seq::<Msg>::empty());
        if t.is_closed() {
            lemma_closed_stays_silent(t, evs.drop_first());
        } else {
            lemma_no_reentrant_invocation(t, evs.drop_first());
        }
        assert(s.delivered(evs) =~= t.delivered(evs.drop_first()));
    }
}

/// Single writer: every invocation but the first one that an idle loop
/// starts needs an earlier invocation to have returned, so at most one is
/// ever in flight.
pub proof fn lemma_one_invocation_in_flight<Msg>(s: RuntimeModel<Msg>, evs: Seq<Event<Msg>>)
    ensures
        s.delivered(evs).len() <= (if s.state == LoopState::Idle { 1nat } else { 0nat })
            + finishes(evs),
    decreases evs.len(),
{
    if evs.len() > 0 {
        let t = s.apply(evs[0]);
        lemma_one_invocation_in_flight(t, evs.drop_first());
    }
}

/// Within-command order: the messages that one command yields reach the
/// update function in the order it yielded them, whatever else is
/// dispatched, ticked or invoked meanwhile, as long as the instance lives.
/// Those not delivered yet still wait in the channel or as deferred sends.
pub proof fn lemma_command_order_kept<Msg>(s: RuntimeModel<Msg>, ms: Seq<Msg>, evs: Seq<Event<Msg>>)
    requires
        !s.is_closed(),
        !closes(evs),
    ensures
        is_subseq(ms, s.send(ms).delivered(evs) + s.send(ms).run(evs).pending()),
{
    let t = s.send(ms);
    lemma_subseq_refl(ms);
    lemma_subseq_prefix(ms, s.pending(), ms);
    assert(Seq::<Msg>::empty() + t.pending() =~= s.pending() + ms);
    lemma_order_kept(t, ms, Seq::empty(), evs);
    assert(Seq::<Msg>::empty() + t.delivered(evs) =~= t.delivered(evs));
}

proof fn lemma_order_kept<Msg>(s: RuntimeModel<Msg>, xs: Seq<Msg>, acc: Seq<Msg>, evs: Seq<Event<Msg>>)
    requires
        !s.is_closed(),
        !closes(evs),
        is_subseq(xs, acc + s.pending()),
    ensures
        is_subseq(xs, acc + s.delivered(evs) + s.run(evs).pending()),
    decreases evs.len(),
{
    if evs.len() == 0 {
        assert(acc + s.delivered(evs) =~= acc);
    } else {
        let e = evs[0];
        let t = s.apply(e);
        let acc2 = acc + s.output(e);
        lemma_no_close_in_rest(evs);
        match e {
            Event::Send(ms) => {
                lemma_subseq_append(xs, acc + s.pending(), ms);
                assert(acc2 + t.pending() =~= acc + s.pending() + ms);
            },
            Event::Finish(ms) => {
                lemma_subseq_append(xs, acc + s.pending(), ms);
                assert(acc2 + t.pending() =~= acc + s.pending() + ms);
            },
            Event::SendNow(m) => {
                let i = (acc.len() + s.queue.len()) as int;
                lemma_subseq_insert(xs, acc + s.pending(), i, m);
                assert(acc2 + t.pending() =~= (acc + s.pending()).insert(i, m));
            },
            Event::Begin => {
                if s.can_begin() {
                    assert(s.queue =~= seq![s.queue[0]] + s.queue.drop_first());
                }
                assert(acc2 + t.pending() =~= acc + s.pending());
            },
            Event::Tick => {
                assert(acc2 + t.pending() =~= acc + s.pending());
            },
            Event::Close => {},
        }
        lemma_order_kept(t, xs, acc2, evs.drop_first());
        assert(acc2 + t.delivered(evs.drop_first()) =~= acc + s.delivered(evs));
    }
}

/// Two deferred dispatches in a row schedule like one batch of both, so
/// what holds of the order within a batch holds of the order of the calls.
pub proof fn lemma_sends_concatenate<Msg>(s: RuntimeModel<Msg>, ms1: Seq<Msg>, ms2: Seq<Msg>)
    ensures
        s.send(ms1).send(ms2) == s.send(ms1 + ms2),
{
    assert(s.deferred + ms1 + ms2 =~= s.deferred + (ms1 + ms2));
}

/// Flushing a command queue schedules each buffered message once, after
/// what was pending; flushing the emptied queue again schedules nothing.
pub proof fn lemma_flush_once<Msg, Task>(s: RuntimeModel<Msg>, c: CmdModel<Msg, Task>)
    requires
        !s.is_closed(),
    ensures
        s.send(c.msgs).pending() == s.pending() + c.msgs,
        s.send(c.msgs).send(CmdModel::<Msg, Task>::empty().msgs) == s.send(c.msgs),
        s.finish(c.msgs).pending() == s.pending() + c.msgs,
        s.finish(c.msgs).send(CmdModel::<Msg, Task>::empty().msgs) == s.finish(c.msgs),
{
    let t = s.send(c.msgs);
    assert(t.pending() =~= s.pending() + c.msgs);
    assert(t.deferred + Seq::<Msg>::empty() =~= t.deferred);
    let u = s.finish(c.msgs);
    assert(u.deferred + Seq::<Msg>::empty() =~= u.deferred);
}

} // verus!
