use crate::buffer::{lemma_push_most_recent, lemma_push_wf, most_recent, of_category};
use crate::event::{Category, HandledEvent};
use crate::monitor::MonitorState;
use vstd::prelude::*;

verus! {

/// For every sequence of events, each category's buffer stays within its
/// capacity, and the capacities never change.
pub proof fn lemma_buffer_bounded(s: MonitorState, h: Seq<HandledEvent>)
    requires
        s.wf(),
    ensures
        s.replay(h).wf(),
        s.replay(h).buffer.capacities == s.buffer.capacities,
        forall|c: Category|
            #[trigger] s.replay(h).buffer.entries.get(c).len() <= s.buffer.capacities.get(c),
    decreases h.len(),
{
    if h.len() > 0 {
        lemma_buffer_bounded(s, h.drop_last());
        lemma_push_wf(s.replay(h.drop_last()).buffer, h.last());
    }
}

/// Each lifetime total grows by exactly the number of events of its category,
/// whatever the buffer evicts.
pub proof fn lemma_totals_exact(s: MonitorState, h: Seq<HandledEvent>)
    ensures
        forall|c: Category|
            #[trigger] s.replay(h).totals.get(c) == s.totals.get(c) + of_category(h, c).len(),
    decreases h.len(),
{
    if h.len() > 0 {
        lemma_totals_exact(s, h.drop_last());
        assert forall|c: Category|
            #[trigger] s.replay(h).totals.get(c) == s.totals.get(c) + of_category(h, c).len() by {
            let q = s.replay(h.drop_last());
            let x = h.last();
            assert(s.replay(h) == q.record(x));
            if x.category_spec() == c {
                assert(of_category(h, c) == of_category(h.drop_last(), c).push(x));
                assert(q.record(x).totals.get(c) == q.totals.get(c) + 1);
            } else {
                assert(of_category(h, c) == of_category(h.drop_last(), c));
                assert(q.record(x).totals.get(c) == q.totals.get(c));
            }
        }
    } else {
        assert forall|c: Category|
            #[trigger] s.replay(h).totals.get(c) == s.totals.get(c) + of_category(h, c).len() by {
            assert(of_category(h, c).len() == 0);
        }
    }
}

/// Each category's buffer holds the most recent events of that category, in
/// the order they came: its earlier contents followed by the new events,
/// cut to the capacity from the oldest end.
pub proof fn lemma_buffer_recent(s: MonitorState, h: Seq<HandledEvent>)
    requires
        s.wf(),
    ensures
        forall|c: Category|
            #[trigger] s.replay(h).buffer.entries.get(c) == most_recent(
                s.buffer.entries.get(c) + of_category(h, c),
                s.buffer.capacities.get(c),
            ),
    decreases h.len(),
{
    if h.len() == 0 {
        assert forall|c: Category|
            #[trigger] s.replay(h).buffer.entries.get(c) == most_recent(
                s.buffer.entries.get(c) + of_category(h, c),
                s.buffer.capacities.get(c),
            ) by {
            assert(s.buffer.entries.get(c) + of_category(h, c) =~= s.buffer.entries.get(c));
        }
    } else {
        let p = h.drop_last();
        let x = h.last();
        lemma_buffer_recent(s, p);
        lemma_buffer_bounded(s, p);
        assert forall|c: Category|
            #[trigger] s.replay(h).buffer.entries.get(c) == most_recent(
                s.buffer.entries.get(c) + of_category(h, c),
                s.buffer.capacities.get(c),
            ) by {
            let t = s.buffer.entries.get(c) + of_category(p, c);
            let q = s.replay(p);
            assert(s.replay(h) == q.record(x));
            assert(of_category(h, c) == if x.category_spec() == c {
                of_category(p, c).push(x)
            } else {
                of_category(p, c)
            });
            if x.category_spec() == c {
                lemma_push_most_recent(t, x, s.buffer.capacities.get(c));
                assert(t.push(x) =~= s.buffer.entries.get(c) + of_category(h, c));
            } else {
                assert(q.record(x).buffer.entries.get(c) == q.buffer.entries.get(c));
            }
        }
    }
}

/// From the initial state, after any sequence of events: each category's
/// buffer holds exactly the last `min(count, capacity)` events of that
/// category, oldest first, so every evicted event came before every retained
/// one; and each total is the exact count of that category's events.
pub proof fn lemma_from_start(keyboard_capacity: nat, mouse_capacity: nat, h: Seq<HandledEvent>)
    ensures
        forall|c: Category|
            {
                let f = #[trigger] of_category(h, c);
                let r = MonitorState::initial(keyboard_capacity, mouse_capacity).replay(h);
                let b = r.buffer.entries.get(c);
                let cap = r.buffer.capacities.get(c);
                &&& b.len() == if f.len() <= cap { f.len() } else { cap }
                &&& b == f.subrange(f.len() - b.len(), f.len() as int)
                &&& r.totals.get(c) == f.len()
            },
{
    let s = MonitorState::initial(keyboard_capacity, mouse_capacity);
    lemma_buffer_bounded(s, h);
    lemma_totals_exact(s, h);
    lemma_buffer_recent(s, h);
    assert forall|c: Category|
        {
            let f = #[trigger] of_category(h, c);
            let r = s.replay(h);
            let b = r.buffer.entries.get(c);
            let cap = r.buffer.capacities.get(c);
            &&& b.len() == if f.len() <= cap { f.len() } else { cap }
            &&& b == f.subrange(f.len() - b.len(), f.len() as int)
            &&& r.totals.get(c) == f.len()
        } by {
        let f = of_category(h, c);
        assert(s.buffer.entries.get(c) + f =~= f);
        let b = s.replay(h).buffer.entries.get(c);
        if f.len() <= s.buffer.capacities.get(c) {
            assert(f.subrange(0, f.len() as int) =~= f);
        }
    }
}

} // verus!
