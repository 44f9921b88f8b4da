//! Runs of a session over sequences of events, and the laws they obey.
use vstd::prelude::*;
use crate::frame::{FrameView, Side};
use crate::session::{ActionView, EventView, InboundView, Status, ends_session, next};

verus! {

/// The status reached from `s` over `events`, and the actions asked for, one per event.
pub open spec fn run(s: Status, events: Seq<EventView>) -> (Status, Seq<ActionView>)
    decreases events.len(),
{
    if events.len() == 0 {
        (s, Seq::empty())
    } else {
        let (s1, a) = next(s, events[0]);
        let (s2, rest) = run(s1, events.drop_first());
        (s2, seq![a] + rest)
    }
}

/// The frames that `actions` write to leg `to`, in order.
pub open spec fn forwarded(actions: Seq<ActionView>, to: Side) -> Seq<FrameView>
    decreases actions.len(),
{
    if actions.len() == 0 {
        Seq::empty()
    } else {
        let rest = forwarded(actions.drop_first(), to);
        match actions[0] {
            ActionView::Forward(d, f) => if d == to {
                seq![f] + rest
            } else {
                rest
            },
            _ => rest,
        }
    }
}

/// The data frames read from leg `from` in `events`, in order.
pub open spec fn sent(events: Seq<EventView>, from: Side) -> Seq<FrameView>
    decreases events.len(),
{
    if events.len() == 0 {
        Seq::empty()
    } else {
        let rest = sent(events.drop_first(), from);
        match events[0] {
            EventView::Received(s, InboundView::Data(f)) => if s == from {
                seq![f] + rest
            } else {
                rest
            },
            _ => rest,
        }
    }
}

/// No event of `events` ends the session.
pub open spec fn healthy(events: Seq<EventView>) -> bool {
    forall|i: int| 0 <= i < events.len() ==> !ends_session(#[trigger] events[i])
}

/// A run asks for exactly one action per event.
pub proof fn lemma_run_len(s: Status, events: Seq<EventView>)
    ensures
        run(s, events).1.len() == events.len(),
    decreases events.len(),
{
    if events.len() > 0 {
        lemma_run_len(next(s, events[0]).0, events.drop_first());
    }
}

/// Running over two sequences one after the other is running over their concatenation.
pub proof fn lemma_run_append(s: Status, a: Seq<EventView>, b: Seq<EventView>)
    ensures
        run(s, a + b) == (run(run(s, a).0, b).0, run(s, a).1 + run(run(s, a).0, b).1),
    decreases a.len(),
{
    if a.len() == 0 {
        assert(a + b =~= b);
    } else {
        let s1 = next(s, a[0]).0;
        lemma_run_append(s1, a.drop_first(), b);
        assert((a + b).drop_first() =~= a.drop_first() + b);
        assert(seq![next(s, a[0]).1] + (run(s1, a.drop_first()).1 + run(run(s1, a.drop_first()).0, b).1)
            =~= (seq![next(s, a[0]).1] + run(s1, a.drop_first()).1) + run(run(s1, a.drop_first()).0, b).1);
    }
}

/// The frames written to a leg over two runs in a row are those of the first, then those of the second.
pub proof fn lemma_forwarded_append(a: Seq<ActionView>, b: Seq<ActionView>, to: Side)
    ensures
        forwarded(a + b, to) == forwarded(a, to) + forwarded(b, to),
    decreases a.len(),
{
    if a.len() == 0 {
        assert(a + b =~= b);
        assert(forwarded(a, to) + forwarded(b, to) =~= forwarded(b, to));
    } else {
        lemma_forwarded_append(a.drop_first(), b, to);
        assert((a + b).drop_first() =~= a.drop_first() + b);
        assert(forwarded(a + b, to) =~= forwarded(a, to) + forwarded(b, to));
    }
}

/// A session that is not active discards every event: nothing is written to either leg,
/// and the status stays as it is.
pub proof fn lemma_inactive_discards(s: Status, events: Seq<EventView>)
    requires
        s != Status::Active,
    ensures
        run(s, events).0 == s,
        run(s, events).1.len() == events.len(),
        forall|i: int| 0 <= i < events.len() ==> #[trigger] run(s, events).1[i] == ActionView::Discard,
    decreases events.len(),
{
    if events.len() > 0 {
        lemma_inactive_discards(s, events.drop_first());
    }
}

/// Pass-through: while no event ends the session, the session stays active, and each leg
/// receives exactly the data frames read from the other leg, unchanged and in the order read.
/// Control frames and failed writes in between change nothing.
pub proof fn lemma_pass_through(events: Seq<EventView>, to: Side)
    requires
        healthy(events),
    ensures
        run(Status::Active, events).0 == Status::Active,
        forwarded(run(Status::Active, events).1, to) == sent(events, to.spec_other()),
    decreases events.len(),
{
    if events.len() > 0 {
        let e = events[0];
        assert(!ends_session(e));
        let tail = events.drop_first();
        assert(healthy(tail)) by {
            assert forall|i: int| 0 <= i < tail.len() implies !ends_session(#[trigger] tail[i]) by {
                assert(tail[i] == events[i + 1]);
            }
        }
        lemma_pass_through(tail, to);
        let (s1, a) = next(Status::Active, e);
        let acts = run(Status::Active, events).1;
        assert(acts == seq![a] + run(s1, tail).1);
        assert(acts.drop_first() =~= run(s1, tail).1);
        assert(acts[0] == a);
    }
}

/// Termination: the first event that ends the session (a close frame, a read error or the end
/// of a stream on either leg, or the idle timeout) asks to release both legs; every later
/// event, from either leg, is discarded, so nothing more is written anywhere.
pub proof fn lemma_termination(before: Seq<EventView>, end: EventView, after: Seq<EventView>, to: Side)
    requires
        healthy(before),
        ends_session(end),
    ensures
        ({
            let (st, acts) = run(Status::Active, before + seq![end] + after);
            &&& st == Status::Closing
            &&& acts.len() == before.len() + 1 + after.len()
            &&& acts[before.len() as int] == ActionView::CloseBoth
            &&& forall|j: int| before.len() < j < acts.len() ==> #[trigger] acts[j] == ActionView::Discard
            &&& forwarded(acts, to) == sent(before, to.spec_other())
        }),
{
    lemma_pass_through(before, to);
    lemma_run_append(Status::Active, before, seq![end] + after);
    assert(before + seq![end] + after =~= before + (seq![end] + after));
    let tail = seq![end] + after;
    assert(tail.drop_first() =~= after);
    assert(next(Status::Active, end) == (Status::Closing, ActionView::CloseBoth));
    lemma_inactive_discards(Status::Closing, after);
    lemma_run_len(Status::Active, before);
    let pre = run(Status::Active, before).1;
    let rest = run(Status::Active, tail).1;
    assert(rest == seq![ActionView::CloseBoth] + run(Status::Closing, after).1);
    let acts = pre + rest;
    assert forall|j: int| before.len() < j < acts.len() implies #[trigger] acts[j] == ActionView::Discard by {
        assert(acts[j] == run(Status::Closing, after).1[j - before.len() - 1]);
    }
    lemma_forwarded_append(pre, rest, to);
    lemma_forwarded_none(run(Status::Closing, after).1, to);
    assert(forwarded(rest, to) == forwarded(run(Status::Closing, after).1, to)) by {
        assert(rest.drop_first() =~= run(Status::Closing, after).1);
    }
    assert(forwarded(pre, to) + Seq::<FrameView>::empty() =~= forwarded(pre, to));
}

/// Write-failure isolation: a failed write to either leg does not end the session. The
/// session is still active after it, and every data frame read afterwards from a leg is
/// still written, unchanged and in order, to the other leg.
pub proof fn lemma_write_failure_isolated(
    before: Seq<EventView>,
    failed: Side,
    after: Seq<EventView>,
    to: Side,
)
    requires
        healthy(before),
        healthy(after),
    ensures
        ({
            let (s1, _) = run(Status::Active, before + seq![EventView::WriteFailed(failed)]);
            &&& s1 == Status::Active
            &&& forwarded(run(s1, after).1, to) == sent(after, to.spec_other())
        }),
{
    let first = before + seq![EventView::WriteFailed(failed)];
    assert(healthy(first)) by {
        assert forall|i: int| 0 <= i < first.len() implies !ends_session(#[trigger] first[i]) by {
            if i < before.len() {
                assert(first[i] == before[i]);
            }
        }
    }
    lemma_pass_through(first, to);
    lemma_pass_through(after, to);
}

/// Which session an event or an action of a two-session trace belongs to.
#[derive(Clone, Copy, Debug, PartialEq, Eq, Structural)]
pub enum Tag {
    A,
    B,
}

/// Two sessions run side by side: each event of `tagged` is handed to the session it is
/// tagged with. Returns both final statuses and the tagged actions.
pub open spec fn run_both(a: Status, b: Status, tagged: Seq<(Tag, EventView)>) -> (
    Status,
    Status,
    Seq<(Tag, ActionView)>,
)
    decreases tagged.len(),
{
    if tagged.len() == 0 {
        (a, b, Seq::empty())
    } else {
        let (tag, e) = tagged[0];
        if tag == Tag::A {
            let (a1, act) = next(a, e);
            let (a2, b2, rest) = run_both(a1, b, tagged.drop_first());
            (a2, b2, seq![(Tag::A, act)] + rest)
        } else {
            let (b1, act) = next(b, e);
            let (a2, b2, rest) = run_both(a, b1, tagged.drop_first());
            (a2, b2, seq![(Tag::B, act)] + rest)
        }
    }
}

/// The items of `tagged` that carry `tag`, in order.
pub open spec fn only<T>(tagged: Seq<(Tag, T)>, tag: Tag) -> Seq<T>
    decreases tagged.len(),
{
    if tagged.len() == 0 {
        Seq::empty()
    } else {
        let rest = only(tagged.drop_first(), tag);
        if tagged[0].0 == tag {
            seq![tagged[0].1] + rest
        } else {
            rest
        }
    }
}

/// Independence across sessions: however the events of two sessions interleave, each
/// session ends in the status, and asks for the actions, that it would on its own events
/// alone. So the frames written to one session's legs are exactly those its own run
/// writes, and none of the other session's frames.
pub proof fn lemma_sessions_independent(a: Status, b: Status, tagged: Seq<(Tag, EventView)>)
    ensures
        ({
            let (a2, b2, acts) = run_both(a, b, tagged);
            &&& a2 == run(a, only(tagged, Tag::A)).0
            &&& b2 == run(b, only(tagged, Tag::B)).0
            &&& only(acts, Tag::A) == run(a, only(tagged, Tag::A)).1
            &&& only(acts, Tag::B) == run(b, only(tagged, Tag::B)).1
        }),
    decreases tagged.len(),
{
    if tagged.len() > 0 {
        let (tag, e) = tagged[0];
        let tail = tagged.drop_first();
        if tag == Tag::A {
            let a1 = next(a, e).0;
            lemma_sessions_independent(a1, b, tail);
            let acts = run_both(a, b, tagged).2;
            assert(acts.drop_first() =~= run_both(a1, b, tail).2);
            assert(only(tagged, Tag::A).drop_first() =~= only(tail, Tag::A));
            assert(only(tagged, Tag::A)[0] == e);
        } else {
            let b1 = next(b, e).0;
            lemma_sessions_independent(a, b1, tail);
            let acts = run_both(a, b, tagged).2;
            assert(acts.drop_first() =~= run_both(a, b1, tail).2);
            assert(only(tagged, Tag::B).drop_first() =~= only(tail, Tag::B));
            assert(only(tagged, Tag::B)[0] == e);
        }
    }
}

/// Actions that write nothing forward no frame.
proof fn lemma_forwarded_none(actions: Seq<ActionView>, to: Side)
    requires
        forall|i: int| 0 <= i < actions.len() ==> #[trigger] actions[i] == ActionView::Discard,
    ensures
        forwarded(actions, to) == Seq::<FrameView>::empty(),
    decreases actions.len(),
{
    if actions.len() > 0 {
        lemma_forwarded_none(actions.drop_first(), to);
    }
}

} // verus!
