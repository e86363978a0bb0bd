use crate::buffer::{BufferView, DisplayBuffer, PerCategory};
use crate::event::{Category, HandledEvent};
use vstd::prelude::*;

verus! {

/// Lifetime totals of accepted events, one per category.
pub struct CategoryCounters {
    totals: PerCategory<u64>,
}

impl View for CategoryCounters {
    type V = PerCategory<nat>;

    closed spec fn view(&self) -> PerCategory<nat> {
        PerCategory {
            keyboard: self.totals.keyboard as nat,
            mouse_button: self.totals.mouse_button as nat,
            mouse_scroll: self.totals.mouse_scroll as nat,
        }
    }
}

/// All totals zero.
pub open spec fn zero_totals() -> PerCategory<nat> {
    PerCategory { keyboard: 0, mouse_button: 0, mouse_scroll: 0 }
}

impl CategoryCounters {
    pub fn new() -> (r: CategoryCounters)
        ensures
            r@ == zero_totals(),
    {
        CategoryCounters { totals: PerCategory { keyboard: 0, mouse_button: 0, mouse_scroll: 0 } }
    }

    pub fn get(&self, c: Category) -> (r: u64)
        ensures
            r == self@.get(c),
    {
        match c {
            Category::Keyboard => self.totals.keyboard,
            Category::MouseButton => self.totals.mouse_button,
            Category::MouseScroll => self.totals.mouse_scroll,
        }
    }

    /// Adds one to the total of category `c`.
    pub fn increment(&mut self, c: Category)
        requires
            old(self)@.get(c) < u64::MAX,
        ensures
            final(self)@ == old(self)@.set(c, old(self)@.get(c) + 1),
    {
        match c {
            Category::Keyboard => self.totals.keyboard = self.totals.keyboard + 1,
            Category::MouseButton => self.totals.mouse_button = self.totals.mouse_button + 1,
            Category::MouseScroll => self.totals.mouse_scroll = self.totals.mouse_scroll + 1,
        }
    }
}

/// The mathematical state of the consumer: its display buffer and its totals.
pub struct MonitorState {
    pub buffer: BufferView,
    pub totals: PerCategory<nat>,
}

impl MonitorState {
    pub open spec fn wf(self) -> bool {
        self.buffer.wf()
    }

    /// The state before any event: empty buffers, all totals zero.
    pub open spec fn initial(keyboard_capacity: nat, mouse_capacity: nat) -> MonitorState {
        MonitorState {
            buffer: BufferView::empty(keyboard_capacity, mouse_capacity),
            totals: zero_totals(),
        }
    }

    /// One accepted event: it enters the buffer of its category, and the total
    /// of its category grows by one.
    pub open spec fn record(self, e: HandledEvent) -> MonitorState {
        let c = e.category_spec();
        MonitorState {
            buffer: self.buffer.push(e),
            totals: self.totals.set(c, self.totals.get(c) + 1),
        }
    }

    /// The state after the events of `h`, in order.
    pub open spec fn replay(self, h: Seq<HandledEvent>) -> MonitorState
        decreases h.len(),
    {
        if h.len() == 0 {
            self
        } else {
            self.replay(h.drop_last()).record(h.last())
        }
    }
}

/// A point-in-time copy of the buffered events, the totals and the capacities.
pub struct Snapshot {
    pub entries: PerCategory<Vec<HandledEvent>>,
    pub totals: PerCategory<u64>,
    pub capacities: PerCategory<usize>,
}

impl View for Snapshot {
    type V = MonitorState;

    open spec fn view(&self) -> MonitorState {
        MonitorState {
            buffer: BufferView {
                entries: PerCategory {
                    keyboard: self.entries.keyboard@,
                    mouse_button: self.entries.mouse_button@,
                    mouse_scroll: self.entries.mouse_scroll@,
                },
                capacities: PerCategory {
                    keyboard: self.capacities.keyboard as nat,
                    mouse_button: self.capacities.mouse_button as nat,
                    mouse_scroll: self.capacities.mouse_scroll as nat,
                },
            },
            totals: PerCategory {
                keyboard: self.totals.keyboard as nat,
                mouse_button: self.totals.mouse_button as nat,
                mouse_scroll: self.totals.mouse_scroll as nat,
            },
        }
    }
}

/// What the consumer does after one receive from the bridge.
pub enum ConsumerAction {
    /// Redraw the screen from this snapshot.
    Render(Snapshot),
    /// The bridge is closed and drained: stop.
    Exit,
}

fn copy_events(v: &Vec<HandledEvent>) -> (r: Vec<HandledEvent>)
    ensures
        r@ == v@,
{
    let mut r: Vec<HandledEvent> = Vec::new();
    let mut i: usize = 0;
    while i < v.len()
        invariant
            i <= v.len(),
            r@ == v@.subrange(0, i as int),
        decreases v.len() - i,
    {
        r.push(v[i]);
        i = i + 1;
        assert(r@ =~= v@.subrange(0, i as int));
    }
    assert(r@ =~= v@);
    r
}

/// The consumer of the bridge: owns the display buffer and the totals.
pub struct Monitor {
    buffer: DisplayBuffer,
    counters: CategoryCounters,
}

impl View for Monitor {
    type V = MonitorState;

    closed spec fn view(&self) -> MonitorState {
        MonitorState { buffer: self.buffer@, totals: self.counters@ }
    }
}

impl Monitor {
    /// A monitor that has seen no event.
    pub fn new(keyboard_capacity: usize, mouse_capacity: usize) -> (r: Monitor)
        ensures
            r@ == MonitorState::initial(keyboard_capacity as nat, mouse_capacity as nat),
            r@.wf(),
    {
        Monitor {
            buffer: DisplayBuffer::new(keyboard_capacity, mouse_capacity),
            counters: CategoryCounters::new(),
        }
    }

    /// The lifetime total of category `c`.
    pub fn total(&self, c: Category) -> (r: u64)
        ensures
            r == self@.totals.get(c),
    {
        self.counters.get(c)
    }

    /// Accepts one event: buffers it and counts it.
    pub fn record(&mut self, e: HandledEvent)
        requires
            old(self)@.wf(),
            old(self)@.totals.get(e.category_spec()) < u64::MAX,
        ensures
            final(self)@ == old(self)@.record(e),
            final(self)@.wf(),
    {
        let c = e.category();
        self.buffer.push(e);
        self.counters.increment(c);
    }

    /// A copy of the current buffers, totals and capacities.
    pub fn snapshot(&self) -> (r: Snapshot)
        requires
            self@.wf(),
        ensures
            r@ == self@,
    {
        Snapshot {
            entries: PerCategory {
                keyboard: copy_events(self.buffer.entries(Category::Keyboard)),
                mouse_button: copy_events(self.buffer.entries(Category::MouseButton)),
                mouse_scroll: copy_events(self.buffer.entries(Category::MouseScroll)),
            },
            totals: PerCategory {
                keyboard: self.counters.get(Category::Keyboard),
                mouse_button: self.counters.get(Category::MouseButton),
                mouse_scroll: self.counters.get(Category::MouseScroll),
            },
            capacities: PerCategory {
                keyboard: self.buffer.capacity(Category::Keyboard),
                mouse_button: self.buffer.capacity(Category::MouseButton),
                mouse_scroll: self.buffer.capacity(Category::MouseScroll),
            },
        }
    }

    /// One step of the consumer loop. `msg` is what the bridge's receive gave:
    /// an event, or `None` once the bridge is closed and empty. An event is
    /// recorded and a snapshot of the new state is handed out for rendering;
    /// the end of the stream leaves the state as it is and ends the loop.
    pub fn on_receive(&mut self, msg: Option<HandledEvent>) -> (r: ConsumerAction)
        requires
            old(self)@.wf(),
            msg matches Some(e) ==> old(self)@.totals.get(e.category_spec()) < u64::MAX,
        ensures
            final(self)@.wf(),
            match msg {
                Some(e) => final(self)@ == old(self)@.record(e),
                None => final(self)@ == old(self)@,
            },
            match r {
                ConsumerAction::Render(s) => msg is Some && s@ == final(self)@,
                ConsumerAction::Exit => msg is None,
            },
    {
        match msg {
            Some(e) => {
                self.record(e);
                ConsumerAction::Render(self.snapshot())
            },
            None => ConsumerAction::Exit,
        }
    }
}

} // verus!
