use vstd::prelude::*;
use crate::error::{ScopeOutcome, UiError};
use crate::session::{frame_start_result, leave_result, start_result, started};
use crate::stack::{closed_at, top_token, Entry, ScopeToken};

verus! {

/// One step of a frame as the scope stack sees it: a scope opens on a
/// region, or the innermost scope closes, its body having returned
/// normally or not.
pub enum ScopeEvent<R> {
    Enter(R),
    Leave(bool),
}

/// The stack and next stamp after one event, as `Session::enter_scope` and
/// `Session::leave_scope` (with the innermost scope's token) leave them.
pub open spec fn after_event<R>(s: Seq<Entry<R>>, next: u64, e: ScopeEvent<R>) -> (Seq<Entry<R>>, u64) {
    match e {
        ScopeEvent::Enter(region) => if next < u64::MAX {
            (s.push(Entry { region, stamp: next }), (next + 1) as u64)
        } else {
            (s, next)
        },
        ScopeEvent::Leave(_) => (closed_at(s, top_token(s)), next),
    }
}

/// The stack and next stamp after a sequence of events.
pub open spec fn replay<R>(s: Seq<Entry<R>>, next: u64, ev: Seq<ScopeEvent<R>>) -> (Seq<Entry<R>>, u64)
    decreases ev.len(),
{
    if ev.len() == 0 {
        (s, next)
    } else {
        let p = after_event(s, next, ev[0]);
        replay(p.0, p.1, ev.drop_first())
    }
}

/// How an event changes the number of open scopes.
pub open spec fn step_delta<R>(e: ScopeEvent<R>) -> int {
    match e {
        ScopeEvent::Enter(_) => 1,
        ScopeEvent::Leave(_) => -1,
    }
}

/// The events never close more scopes than are open above a floor that
/// lies `height` scopes down.
pub open spec fn stays_above<R>(ev: Seq<ScopeEvent<R>>, height: int) -> bool
    decreases ev.len(),
{
    ev.len() == 0 || (height + step_delta(ev[0]) >= 0 && stays_above(
        ev.drop_first(),
        height + step_delta(ev[0]),
    ))
}

/// The net change in the number of open scopes.
pub open spec fn net<R>(ev: Seq<ScopeEvent<R>>) -> int
    decreases ev.len(),
{
    if ev.len() == 0 {
        0
    } else {
        step_delta(ev[0]) + net(ev.drop_first())
    }
}

/// The events are the opens and closes of strictly nested scope calls:
/// each close ends the innermost call still open, and every call opened is
/// closed.
pub open spec fn well_nested<R>(ev: Seq<ScopeEvent<R>>) -> bool {
    stays_above(ev, 0) && net(ev) == 0
}

proof fn lemma_replay_push<R>(s: Seq<Entry<R>>, next: u64, ev: Seq<ScopeEvent<R>>, e: ScopeEvent<R>)
    ensures
        replay(s, next, ev.push(e)) == after_event(replay(s, next, ev).0, replay(s, next, ev).1, e),
    decreases ev.len(),
{
    if ev.len() == 0 {
        assert(ev.push(e)[0] == e);
        assert(ev.push(e).drop_first() =~= Seq::<ScopeEvent<R>>::empty());
        let p = after_event(s, next, e);
        assert(replay(p.0, p.1, Seq::<ScopeEvent<R>>::empty()) == p);
    } else {
        let p = after_event(s, next, ev[0]);
        assert(ev.push(e)[0] == ev[0]);
        assert(ev.push(e).drop_first() =~= ev.drop_first().push(e));
        lemma_replay_push(p.0, p.1, ev.drop_first(), e);
    }
}

proof fn lemma_replay_floor<R>(s: Seq<Entry<R>>, next: u64, ev: Seq<ScopeEvent<R>>, floor: int, height: int)
    requires
        0 <= floor,
        0 <= height,
        floor + height == s.len(),
        stays_above(ev, height),
        next + ev.len() <= u64::MAX,
        s.len() + ev.len() < usize::MAX,
    ensures
        replay(s, next, ev).0.len() == s.len() + net(ev),
        replay(s, next, ev).0.take(floor) == s.take(floor),
        replay(s, next, ev).1 <= next + ev.len(),
    decreases ev.len(),
{
    if ev.len() > 0 {
        let p = after_event(s, next, ev[0]);
        match ev[0] {
            ScopeEvent::Enter(region) => {
                assert(p.0 == s.push(Entry { region, stamp: next }));
                assert(p.0.take(floor) =~= s.take(floor));
            },
            ScopeEvent::Leave(_) => {
                let t = top_token(s);
                assert(t.depth == s.len() - 1);
                assert(p.0 == s.take(s.len() - 1));
                assert(p.0.take(floor) =~= s.take(floor));
            },
        }
        lemma_replay_floor(p.0, p.1, ev.drop_first(), floor, height + step_delta(ev[0]));
    }
}

/// Nested scope calls leave the stack as they found it. A scope opened on
/// `region` above the stack `s`, with any strictly nested calls as its body
/// and closed with the token that opening it returned, restores `s` exactly
/// and reports how the body ended, whether it returned normally or not.
pub proof fn law_scope_call_restores_stack<R>(
    s: Seq<Entry<R>>,
    next: u64,
    region: R,
    body: Seq<ScopeEvent<R>>,
    body_ok: bool,
)
    requires
        well_nested(body),
        next + body.len() + 1 <= u64::MAX,
        s.len() + body.len() + 1 < usize::MAX,
    ensures
        ({
            let t = ScopeToken { depth: s.len() as usize, stamp: next };
            let inner = replay(s, next, seq![ScopeEvent::Enter(region)] + body).0;
            &&& closed_at(inner, t) == s
            &&& leave_result(inner, t, body_ok) == Ok::<ScopeOutcome, UiError>(
                if body_ok {
                    ScopeOutcome::Completed
                } else {
                    ScopeOutcome::BodyFailed
                },
            )
        }),
        replay(s, next, seq![ScopeEvent::Enter(region)] + body + seq![ScopeEvent::Leave(body_ok)]).0
            == s,
{
    let t = ScopeToken { depth: s.len() as usize, stamp: next };
    let opened = s.push(Entry { region, stamp: next });
    let head = seq![ScopeEvent::Enter(region)] + body;
    assert(head[0] == ScopeEvent::<R>::Enter(region));
    assert(head.drop_first() =~= body);
    assert(after_event(s, next, head[0]) == (opened, (next + 1) as u64));
    lemma_replay_floor(opened, (next + 1) as u64, body, opened.len() as int, 0);
    let inner = replay(opened, (next + 1) as u64, body).0;
    assert(opened.take(opened.len() as int) =~= opened);
    assert(inner.take(inner.len() as int) =~= inner);
    assert(inner =~= opened);
    assert(replay(s, next, head).0 == inner);
    assert(top_token(inner) == t);
    assert(closed_at(inner, t) =~= s);
    lemma_replay_push(s, next, head, ScopeEvent::Leave(body_ok));
    assert(head.push(ScopeEvent::Leave(body_ok)) =~= seq![ScopeEvent::Enter(region)] + body + seq![
        ScopeEvent::Leave(body_ok),
    ]);
}

/// Of two starts of a run while none is active, the first succeeds and the
/// second fails with `AlreadyRunning`, leaving the first one's run in place.
pub proof fn law_single_run(first: u64, second: u64)
    ensures
        start_result(None) == Ok::<(), UiError>(()),
        start_result(started(None, first)) == Err::<(), UiError>(UiError::AlreadyRunning),
        started(started(None, first), second) == Some(first),
{
}

/// A frame whose callback fails, after any strictly nested scope calls,
/// still closes: its root scope reports the failure as an outcome, the
/// stack is empty again, and the next frame opens normally.
pub proof fn law_failed_frame_recovers<R>(thread: u64, next: u64, root: R, body: Seq<ScopeEvent<R>>)
    requires
        well_nested(body),
        next + body.len() + 2 <= u64::MAX,
        body.len() + 1 < usize::MAX,
    ensures
        ({
            let t = ScopeToken { depth: 0, stamp: next };
            let frame = seq![Entry { region: root, stamp: next }];
            let inner = replay(frame, (next + 1) as u64, body);
            &&& frame_start_result(Some(thread), thread, Seq::<Entry<R>>::empty(), next) == Ok::<
                ScopeToken,
                UiError,
            >(t)
            &&& leave_result(inner.0, t, false) == Ok::<ScopeOutcome, UiError>(
                ScopeOutcome::BodyFailed,
            )
            &&& closed_at(inner.0, t) == Seq::<Entry<R>>::empty()
            &&& frame_start_result(Some(thread), thread, Seq::<Entry<R>>::empty(), inner.1) is Ok
        }),
{
    let t = ScopeToken { depth: 0, stamp: next };
    let frame = seq![Entry { region: root, stamp: next }];
    lemma_replay_floor(frame, (next + 1) as u64, body, 1, 0);
    let inner = replay(frame, (next + 1) as u64, body);
    assert(frame.take(1) =~= frame);
    assert(inner.0.take(inner.0.len() as int) =~= inner.0);
    assert(inner.0 =~= frame);
    assert(closed_at(inner.0, t) =~= Seq::<Entry<R>>::empty());
}

} // verus!
