//! Whole sessions: what a session does over a sequence of events, and the
//! properties that every session has.
use vstd::prelude::*;

use crate::session::{
    awaits, bye_text, closing, greeting_text, initial, next, timeout_text, ActionView, Ending, EventView,
    FrameView, Phase, Session, MAX_MESSAGE_SIZE, SESSION_LIFETIME_MS,
};

verus! {

/// The state reached and the actions taken when `es` is fed to `s`, one
/// event at a time.
pub open spec fn run(s: Session, es: Seq<EventView>) -> (Session, Seq<ActionView>)
    decreases es.len(),
{
    if es.len() == 0 {
        (s, Seq::empty())
    } else {
        let (s1, a) = next(s, es[0]);
        let (s2, rest) = run(s1, es.drop_first());
        (s2, seq![a] + rest)
    }
}

/// The action that opens every session.
pub open spec fn greeting_action() -> ActionView {
    ActionView::Send(FrameView::Text(greeting_text()))
}

/// Every action of a session that started at `start`, whose driver reported `es`.
pub open spec fn trace(start: u64, es: Seq<EventView>) -> Seq<ActionView> {
    seq![greeting_action()] + run(initial(start), es).1
}

/// The events of a peer that sends `fs`, frame `i` arriving at time `ts[i]`,
/// while every echo goes out.
pub open spec fn echo_events(fs: Seq<FrameView>, ts: Seq<u64>) -> Seq<EventView>
    decreases fs.len(),
{
    if fs.len() == 0 || ts.len() == 0 {
        Seq::empty()
    } else {
        seq![EventView::Received { frame: fs[0], at: ts[0] }, EventView::Sent { ok: true }]
            + echo_events(fs.drop_first(), ts.drop_first())
    }
}

/// Each frame of `fs` sent back, each time followed by a new wait.
pub open spec fn echo_actions(fs: Seq<FrameView>) -> Seq<ActionView>
    decreases fs.len(),
{
    if fs.len() == 0 {
        Seq::empty()
    } else {
        seq![ActionView::Send(fs[0]), ActionView::Receive] + echo_actions(fs.drop_first())
    }
}

/// The frames that `actions` send, in order.
pub open spec fn sent(actions: Seq<ActionView>) -> Seq<FrameView>
    decreases actions.len(),
{
    if actions.len() == 0 {
        Seq::empty()
    } else {
        let rest = sent(actions.drop_first());
        match actions[0] {
            ActionView::Send(f) => seq![f] + rest,
            _ => rest,
        }
    }
}

/// Feeding two sequences of events one after the other is feeding their concatenation.
pub proof fn lemma_run_append(s: Session, a: Seq<EventView>, b: Seq<EventView>)
    ensures
        run(s, a + b) == ({
            let (s1, x) = run(s, a);
            let (s2, y) = run(s1, b);
            (s2, x + y)
        }),
    decreases a.len(),
{
    if a.len() == 0 {
        assert(a + b =~= b);
        assert(Seq::<ActionView>::empty() + run(s, b).1 =~= run(s, b).1);
    } else {
        let (s1, x0) = next(s, a[0]);
        assert((a + b).drop_first() =~= a.drop_first() + b);
        lemma_run_append(s1, a.drop_first(), b);
        let (s2, x) = run(s1, a.drop_first());
        let (s3, y) = run(s2, b);
        assert(seq![x0] + (x + y) =~= (seq![x0] + x) + y);
    }
}

proof fn lemma_run_one(s: Session, e: EventView)
    ensures
        run(s, seq![e]) == (next(s, e).0, seq![next(s, e).1]),
{
    let (s1, a) = next(s, e);
    assert(seq![e].drop_first() =~= Seq::<EventView>::empty());
    assert(run(s1, Seq::<EventView>::empty()) == (s1, Seq::<ActionView>::empty()));
    assert(seq![a] + Seq::<ActionView>::empty() =~= seq![a]);
}

proof fn lemma_sent_echoes(fs: Seq<FrameView>)
    ensures
        sent(echo_actions(fs)) == fs,
    decreases fs.len(),
{
    if fs.len() > 0 {
        let acts = echo_actions(fs);
        let rest = echo_actions(fs.drop_first());
        assert(acts.drop_first() =~= seq![ActionView::Receive] + rest);
        assert((seq![ActionView::Receive] + rest).drop_first() =~= rest);
        assert(sent(acts.drop_first()) == sent(rest));
        assert(sent(acts) == seq![fs[0]] + sent(rest));
        lemma_sent_echoes(fs.drop_first());
        assert(fs =~= seq![fs[0]] + fs.drop_first());
    } else {
        assert(fs =~= Seq::<FrameView>::empty());
    }
}

/// An active session that receives data frames before its deadline, each
/// within the size bound, sends each one back unchanged right after it
/// arrives, and is active again afterwards.
pub proof fn lemma_echoes_in_order(s: Session, fs: Seq<FrameView>, ts: Seq<u64>)
    requires
        s.phase == Phase::Active,
        fs.len() == ts.len(),
        forall|i: int|
            0 <= i < fs.len() ==> (#[trigger] fs[i]).is_data() && fs[i].size() <= MAX_MESSAGE_SIZE,
        forall|i: int| 0 <= i < ts.len() ==> #[trigger] ts[i] < s.deadline,
    ensures
        run(s, echo_events(fs, ts)) == (s, echo_actions(fs)),
    decreases fs.len(),
{
    if fs.len() > 0 {
        let e0 = EventView::Received { frame: fs[0], at: ts[0] };
        let e1 = EventView::Sent { ok: true };
        let rest = echo_events(fs.drop_first(), ts.drop_first());
        assert(echo_events(fs, ts) =~= seq![e0, e1] + rest);
        assert(seq![e0, e1] =~= seq![e0] + seq![e1]);
        lemma_run_append(s, seq![e0, e1], rest);
        lemma_run_append(s, seq![e0], seq![e1]);
        let s1 = next(s, e0).0;
        lemma_run_one(s, e0);
        lemma_run_one(s1, e1);
        assert forall|i: int| 0 <= i < fs.drop_first().len() implies (#[trigger] fs.drop_first()[i]).is_data()
            && fs.drop_first()[i].size() <= MAX_MESSAGE_SIZE by {
            assert(fs.drop_first()[i] == fs[i + 1]);
        }
        assert forall|i: int| 0 <= i < ts.drop_first().len() implies #[trigger] ts.drop_first()[i] < s.deadline by {
            assert(ts.drop_first()[i] == ts[i + 1]);
        }
        lemma_echoes_in_order(s, fs.drop_first(), ts.drop_first());
        assert(seq![ActionView::Send(fs[0])] + seq![ActionView::Receive] + echo_actions(fs.drop_first())
            =~= echo_actions(fs));
    } else {
        assert(echo_events(fs, ts) =~= Seq::<EventView>::empty());
        assert(echo_actions(fs) =~= Seq::<ActionView>::empty());
    }
}

/// Echo: in a session whose greeting went out, text and binary frames that
/// arrive before the deadline, each within the size bound, are each sent back
/// exactly once and unchanged, in the order in which they arrived, with no
/// frame dropped, repeated or added; the greeting comes first.
pub proof fn lemma_echo_session(start: u64, fs: Seq<FrameView>, ts: Seq<u64>)
    requires
        start + SESSION_LIFETIME_MS <= u64::MAX,
        fs.len() == ts.len(),
        forall|i: int|
            0 <= i < fs.len() ==> (#[trigger] fs[i]).is_data() && fs[i].size() <= MAX_MESSAGE_SIZE,
        forall|i: int| 0 <= i < ts.len() ==> #[trigger] ts[i] < start + SESSION_LIFETIME_MS,
    ensures
        trace(start, seq![EventView::Sent { ok: true }] + echo_events(fs, ts))
            == seq![greeting_action(), ActionView::Receive] + echo_actions(fs),
        sent(trace(start, seq![EventView::Sent { ok: true }] + echo_events(fs, ts)))
            == seq![FrameView::Text(greeting_text())] + fs,
{
    let s0 = initial(start);
    let e = EventView::Sent { ok: true };
    let s1 = next(s0, e).0;
    lemma_run_append(s0, seq![e], echo_events(fs, ts));
    lemma_run_one(s0, e);
    lemma_echoes_in_order(s1, fs, ts);
    let t = trace(start, seq![e] + echo_events(fs, ts));
    assert(t =~= seq![greeting_action(), ActionView::Receive] + echo_actions(fs));
    lemma_sent_echoes(fs);
    assert(t.drop_first() =~= seq![ActionView::Receive] + echo_actions(fs));
    assert(t.drop_first().drop_first() =~= echo_actions(fs));
    assert(sent(t.drop_first()) == sent(echo_actions(fs)));
    assert(sent(t) == seq![FrameView::Text(greeting_text())] + sent(t.drop_first()));
}

/// Greeting first: every session opens with the greeting, whatever its driver
/// reports, and until the greeting has been sent the session takes in nothing
/// but the outcome of that send, so no frame of the peer is handled before it.
pub proof fn lemma_greeting_first(start: u64, es: Seq<EventView>, e: EventView)
    ensures
        trace(start, es)[0] == greeting_action(),
        awaits(initial(start), e) ==> e is Sent,
{
}

/// Timeout: an active session whose wait runs out sends the timeout notice
/// exactly once, then the closing notice (whether or not the timeout notice
/// went out), then closes the connection and ends.
pub proof fn lemma_timeout(s: Session, ok: bool)
    requires
        s.phase == Phase::Active,
    ensures
        ({
            let es = seq![
                EventView::Elapsed,
                EventView::Sent { ok },
                EventView::Sent { ok: true },
                EventView::CloseDone,
            ];
            let (t, acts) = run(s, es);
            &&& acts == seq![
                ActionView::Send(FrameView::Text(timeout_text())),
                ActionView::Send(FrameView::Text(bye_text())),
                ActionView::Close,
                ActionView::Finish,
            ]
            &&& t.phase == Phase::Ended
            &&& t.ending == Some(Ending::TimedOut)
        }),
{
    let e0 = EventView::Elapsed;
    let e1 = EventView::Sent { ok };
    let e2 = EventView::Sent { ok: true };
    let e3 = EventView::CloseDone;
    let s1 = next(s, e0).0;
    let s2 = next(s1, e1).0;
    let s3 = next(s2, e2).0;
    assert(seq![e0, e1, e2, e3] =~= seq![e0] + (seq![e1] + (seq![e2] + seq![e3])));
    lemma_run_append(s, seq![e0], seq![e1] + (seq![e2] + seq![e3]));
    lemma_run_append(s1, seq![e1], seq![e2] + seq![e3]);
    lemma_run_append(s2, seq![e2], seq![e3]);
    lemma_run_one(s, e0);
    lemma_run_one(s1, e1);
    lemma_run_one(s2, e2);
    lemma_run_one(s3, e3);
    assert(run(s, seq![e0, e1, e2, e3]).1 =~= seq![
        ActionView::Send(FrameView::Text(timeout_text())),
        ActionView::Send(FrameView::Text(bye_text())),
        ActionView::Close,
        ActionView::Finish,
    ]);
}

/// A silent peer: a session whose peer sends nothing at all greets, sends the
/// timeout notice once, then the closing notice, and closes.
pub proof fn lemma_silent_peer(start: u64)
    requires
        start + SESSION_LIFETIME_MS <= u64::MAX,
    ensures
        trace(
            start,
            seq![
                EventView::Sent { ok: true },
                EventView::Elapsed,
                EventView::Sent { ok: true },
                EventView::Sent { ok: true },
                EventView::CloseDone,
            ],
        ) == seq![
            greeting_action(),
            ActionView::Receive,
            ActionView::Send(FrameView::Text(timeout_text())),
            ActionView::Send(FrameView::Text(bye_text())),
            ActionView::Close,
            ActionView::Finish,
        ],
{
    let s0 = initial(start);
    let e = EventView::Sent { ok: true };
    let rest = seq![EventView::Elapsed, e, e, EventView::CloseDone];
    assert(seq![e, EventView::Elapsed, e, e, EventView::CloseDone] =~= seq![e] + rest);
    lemma_run_append(s0, seq![e], rest);
    lemma_run_one(s0, e);
    lemma_timeout(next(s0, e).0, true);
    assert(trace(start, seq![e] + rest) =~= seq![
        greeting_action(),
        ActionView::Receive,
        ActionView::Send(FrameView::Text(timeout_text())),
        ActionView::Send(FrameView::Text(bye_text())),
        ActionView::Close,
        ActionView::Finish,
    ]);
}

proof fn lemma_deadline_kept(s: Session, es: Seq<EventView>)
    ensures
        run(s, es).0.deadline == s.deadline,
    decreases es.len(),
{
    if es.len() > 0 {
        lemma_deadline_kept(next(s, es[0]).0, es.drop_first());
    }
}

/// The deadline is not refreshed: whatever the session received, its deadline
/// stays where its start put it, and a frame that arrives at or after that
/// moment is never echoed: the session sends the timeout notice (or, for an
/// oversized frame, the closing notice) and leaves its echo loop.
pub proof fn lemma_deadline_fixed(start: u64, es: Seq<EventView>, f: FrameView, at: u64)
    requires
        start + SESSION_LIFETIME_MS <= u64::MAX,
    ensures
        run(initial(start), es).0.deadline == start + SESSION_LIFETIME_MS,
        ({
            let s = run(initial(start), es).0;
            let (t, a) = next(s, EventView::Received { frame: f, at });
            s.phase == Phase::Active && at >= start + SESSION_LIFETIME_MS ==> {
                ||| (t.phase == Phase::TimedOut && a == ActionView::Send(FrameView::Text(timeout_text())))
                ||| (t.phase == Phase::Closing && a == ActionView::Send(FrameView::Text(bye_text())))
            }
        }),
{
    lemma_deadline_kept(initial(start), es);
}

/// Closing: a session closes the connection only right after its closing
/// notice went out; it enters closing only by sending that notice; and it ends
/// only after the closing handshake, or because a send failed (the greeting or
/// the closing notice), the channel being broken.
pub proof fn lemma_closing(s: Session, e: EventView)
    requires
        awaits(s, e),
    ensures
        ({
            let (t, a) = next(s, e);
            &&& a is Close ==> s.phase == Phase::Closing && e == EventView::Sent { ok: true }
            &&& t.phase == Phase::Closing && s.phase != Phase::Closing ==> a == ActionView::Send(
                FrameView::Text(bye_text()),
            )
            &&& a is Finish ==> t.phase == Phase::Ended && {
                ||| (s.phase == Phase::Closed && e is CloseDone)
                ||| (e == EventView::Sent { ok: false } && (s.phase == Phase::Closing || s.phase
                    == Phase::Greeting))
            }
            &&& t.phase == Phase::Ended ==> a is Finish
        }),
{
}

/// Size bound: a frame larger than the bound never reaches the echo: the
/// session sends the closing notice and leaves its echo loop.
pub proof fn lemma_oversized(s: Session, f: FrameView, at: u64)
    requires
        s.phase == Phase::Active,
        f.size() > MAX_MESSAGE_SIZE,
    ensures
        next(s, EventView::Received { frame: f, at }) == closing(s, Ending::Errored),
{
}

} // verus!
