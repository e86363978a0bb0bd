use crate::event::{Category, HandledEvent};
use vstd::prelude::*;

verus! {

/// One value for each category.
pub struct PerCategory<T> {
    pub keyboard: T,
    pub mouse_button: T,
    pub mouse_scroll: T,
}

impl<T> PerCategory<T> {
    pub open spec fn get(self, c: Category) -> T {
        match c {
            Category::Keyboard => self.keyboard,
            Category::MouseButton => self.mouse_button,
            Category::MouseScroll => self.mouse_scroll,
        }
    }

    /// The same values, with the one of category `c` replaced by `v`.
    pub open spec fn set(self, c: Category, v: T) -> PerCategory<T> {
        match c {
            Category::Keyboard => PerCategory {
                keyboard: v,
                mouse_button: self.mouse_button,
                mouse_scroll: self.mouse_scroll,
            },
            Category::MouseButton => PerCategory {
                keyboard: self.keyboard,
                mouse_button: v,
                mouse_scroll: self.mouse_scroll,
            },
            Category::MouseScroll => PerCategory {
                keyboard: self.keyboard,
                mouse_button: self.mouse_button,
                mouse_scroll: v,
            },
        }
    }
}

/// Pushing `e` onto a category's sequence bounded by `cap`: append, then
/// drop the single oldest entry if the bound is exceeded.
pub open spec fn push_bounded(s: Seq<HandledEvent>, e: HandledEvent, cap: nat) -> Seq<HandledEvent> {
    let t = s.push(e);
    if t.len() > cap {
        t.drop_first()
    } else {
        t
    }
}

/// The last `cap` elements of `s` (all of them if there are fewer).
pub open spec fn most_recent(s: Seq<HandledEvent>, cap: nat) -> Seq<HandledEvent> {
    if s.len() <= cap {
        s
    } else {
        s.subrange(s.len() - cap, s.len() as int)
    }
}

/// The events of `h` that belong to category `c`, in their order in `h`.
pub open spec fn of_category(h: Seq<HandledEvent>, c: Category) -> Seq<HandledEvent>
    decreases h.len(),
{
    if h.len() == 0 {
        Seq::empty()
    } else {
        let p = of_category(h.drop_last(), c);
        if h.last().category_spec() == c {
            p.push(h.last())
        } else {
            p
        }
    }
}

/// Pushing onto the most recent entries of `t` leaves the most recent
/// entries of `t` extended by `e`.
pub proof fn lemma_push_most_recent(t: Seq<HandledEvent>, e: HandledEvent, cap: nat)
    ensures
        push_bounded(most_recent(t, cap), e, cap) == most_recent(t.push(e), cap),
{
    let m = most_recent(t, cap);
    let u = t.push(e);
    if t.len() < cap {
        assert(push_bounded(m, e, cap) =~= most_recent(u, cap));
    } else if t.len() == cap {
        assert(push_bounded(m, e, cap) =~= most_recent(u, cap));
    } else {
        assert(push_bounded(m, e, cap) =~= most_recent(u, cap));
    }
}

/// The mathematical content of a display buffer: the retained entries and the
/// bound of each category.
pub struct BufferView {
    pub entries: PerCategory<Seq<HandledEvent>>,
    pub capacities: PerCategory<nat>,
}

impl BufferView {
    /// Every category holds at most its capacity, and only its own events.
    pub open spec fn wf(self) -> bool {
        forall|c: Category|
            {
                &&& #[trigger] self.entries.get(c).len() <= self.capacities.get(c)
                &&& forall|i: int|
                    0 <= i < self.entries.get(c).len() ==> (#[trigger] self.entries.get(c)[i]).category_spec()
                        == c
            }
    }

    /// The buffer after one event has been added to its category.
    pub open spec fn push(self, e: HandledEvent) -> BufferView {
        let c = e.category_spec();
        BufferView {
            entries: self.entries.set(
                c,
                push_bounded(self.entries.get(c), e, self.capacities.get(c)),
            ),
            capacities: self.capacities,
        }
    }

    /// An empty buffer; both mouse categories share the mouse capacity.
    pub open spec fn empty(keyboard_capacity: nat, mouse_capacity: nat) -> BufferView {
        BufferView {
            entries: PerCategory {
                keyboard: Seq::empty(),
                mouse_button: Seq::empty(),
                mouse_scroll: Seq::empty(),
            },
            capacities: PerCategory {
                keyboard: keyboard_capacity,
                mouse_button: mouse_capacity,
                mouse_scroll: mouse_capacity,
            },
        }
    }
}

/// Pushing keeps the buffer well formed.
pub proof fn lemma_push_wf(b: BufferView, e: HandledEvent)
    requires
        b.wf(),
    ensures
        b.push(e).wf(),
{
    let n = b.push(e);
    let c = e.category_spec();
    assert forall|d: Category| #[trigger] n.entries.get(d).len() <= n.capacities.get(d) by {
        if d != c {
            assert(n.entries.get(d) == b.entries.get(d));
        }
    }
    assert forall|d: Category, i: int|
        0 <= i < n.entries.get(d).len() implies (#[trigger] n.entries.get(d)[i]).category_spec()
        == d by {
        if d == c {
            let t = b.entries.get(c).push(e);
            if t.len() > b.capacities.get(c) {
                assert(n.entries.get(d)[i] == t[i + 1]);
            } else {
                assert(n.entries.get(d)[i] == t[i]);
            }
        } else {
            assert(n.entries.get(d) == b.entries.get(d));
        }
    }
}

/// The bounded recent events of each category, each held oldest first.
///
/// Every category has a sequence of its own with a strict bound: adding to a
/// full category drops that category's single oldest entry, so no category
/// ever holds more than its capacity, not even for one step.
pub struct DisplayBuffer {
    entries: PerCategory<Vec<HandledEvent>>,
    keyboard_capacity: usize,
    mouse_capacity: usize,
}

impl View for DisplayBuffer {
    type V = BufferView;

    closed spec fn view(&self) -> BufferView {
        BufferView {
            entries: PerCategory {
                keyboard: self.entries.keyboard@,
                mouse_button: self.entries.mouse_button@,
                mouse_scroll: self.entries.mouse_scroll@,
            },
            capacities: PerCategory {
                keyboard: self.keyboard_capacity as nat,
                mouse_button: self.mouse_capacity as nat,
                mouse_scroll: self.mouse_capacity as nat,
            },
        }
    }
}

impl DisplayBuffer {
    /// An empty buffer holding at most `keyboard_capacity` keyboard events, and
    /// at most `mouse_capacity` events of each mouse category.
    pub fn new(keyboard_capacity: usize, mouse_capacity: usize) -> (r: DisplayBuffer)
        ensures
            r@ == BufferView::empty(keyboard_capacity as nat, mouse_capacity as nat),
            r@.wf(),
    {
        DisplayBuffer {
            entries: PerCategory { keyboard: Vec::new(), mouse_button: Vec::new(), mouse_scroll: Vec::new() },
            keyboard_capacity,
            mouse_capacity,
        }
    }

    /// The retained events of category `c`, oldest first.
    pub fn entries(&self, c: Category) -> (r: &Vec<HandledEvent>)
        ensures
            r@ == self@.entries.get(c),
    {
        match c {
            Category::Keyboard => &self.entries.keyboard,
            Category::MouseButton => &self.entries.mouse_button,
            Category::MouseScroll => &self.entries.mouse_scroll,
        }
    }

    /// The most events category `c` retains.
    pub fn capacity(&self, c: Category) -> (r: usize)
        ensures
            r == self@.capacities.get(c),
    {
        match c {
            Category::Keyboard => self.keyboard_capacity,
            _ => self.mouse_capacity,
        }
    }

    /// Adds `e` to its category, evicting that category's oldest entry when
    /// the capacity is exceeded.
    pub fn push(&mut self, e: HandledEvent)
        requires
            old(self)@.wf(),
        ensures
            final(self)@ == old(self)@.push(e),
            final(self)@.wf(),
    {
        proof {
            lemma_push_wf(self@, e);
        }
        match e.category() {
            Category::Keyboard => {
                self.entries.keyboard.push(e);
                if self.entries.keyboard.len() > self.keyboard_capacity {
                    self.entries.keyboard.remove(0);
                }
            },
            Category::MouseButton => {
                self.entries.mouse_button.push(e);
                if self.entries.mouse_button.len() > self.mouse_capacity {
                    self.entries.mouse_button.remove(0);
                }
            },
            Category::MouseScroll => {
                self.entries.mouse_scroll.push(e);
                if self.entries.mouse_scroll.len() > self.mouse_capacity {
                    self.entries.mouse_scroll.remove(0);
                }
            },
        }
        assert(self@.entries.get(e.category_spec()) =~= old(self)@.push(e).entries.get(
            e.category_spec(),
        ));
        assert(self@ =~= old(self)@.push(e));
    }
}

} // verus!
