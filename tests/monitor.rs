use device_events::{
    classify, render, Category, CategoryCounters, ConsumerAction, DisplayBuffer, EventSource, HandledEvent, Monitor,
    PressState, RawDeviceEvent, ScrollDelta, SourceAction,
};

fn key(keycode: u32) -> HandledEvent {
    HandledEvent::Keyboard { keycode, state: PressState::Pressed }
}

fn button(id: u32) -> HandledEvent {
    HandledEvent::MouseButton { id, state: PressState::Released }
}

fn scroll(y: i64) -> HandledEvent {
    HandledEvent::MouseScroll { delta: ScrollDelta::Lines { x: 0, y } }
}

#[test]
fn keyboard_capacity_two_keeps_last_two() {
    let mut m = Monitor::new(2, 12);
    m.record(key(30));
    m.record(key(48));
    m.record(key(46));
    let s = m.snapshot();
    assert_eq!(s.entries.keyboard, vec![key(48), key(46)]);
    assert_eq!(s.totals.keyboard, 3);
}

#[test]
fn first_snapshot_is_empty() {
    let m = Monitor::new(12, 12);
    let s = m.snapshot();
    assert!(s.entries.keyboard.is_empty());
    assert!(s.entries.mouse_button.is_empty());
    assert!(s.entries.mouse_scroll.is_empty());
    assert_eq!(s.totals.keyboard, 0);
    assert_eq!(s.totals.mouse_button, 0);
    assert_eq!(s.totals.mouse_scroll, 0);
}

#[test]
fn closed_bridge_ends_consumer() {
    let mut m = Monitor::new(12, 12);
    m.record(key(1));
    let action = m.on_receive(None);
    assert!(matches!(action, ConsumerAction::Exit));
    assert_eq!(m.total(Category::Keyboard), 1);
    assert_eq!(m.snapshot().entries.keyboard, vec![key(1)]);
}

#[test]
fn receive_event_renders_new_state() {
    let mut m = Monitor::new(3, 3);
    match m.on_receive(Some(button(2))) {
        ConsumerAction::Render(s) => {
            assert_eq!(s.entries.mouse_button, vec![button(2)]);
            assert_eq!(s.totals.mouse_button, 1);
        }
        ConsumerAction::Exit => panic!("an event must be rendered"),
    }
    assert_eq!(m.total(Category::MouseButton), 1);
}

#[test]
fn thousand_mixed_events_capacity_five() {
    let mut m = Monitor::new(5, 5);
    let mut counts = [0u64; 3];
    for i in 0..1000u32 {
        let e = match i % 7 {
            0 | 3 | 5 => key(i),
            1 | 4 => button(i),
            _ => scroll(i as i64 - 500),
        };
        counts[match e.category() {
            Category::Keyboard => 0,
            Category::MouseButton => 1,
            Category::MouseScroll => 2,
        }] += 1;
        m.record(e);
    }
    let s = m.snapshot();
    assert_eq!(s.entries.keyboard.len(), 5);
    assert_eq!(s.entries.mouse_button.len(), 5);
    assert_eq!(s.entries.mouse_scroll.len(), 5);
    assert_eq!(s.totals.keyboard, counts[0]);
    assert_eq!(s.totals.mouse_button, counts[1]);
    assert_eq!(s.totals.mouse_scroll, counts[2]);
    assert_eq!(counts[0] + counts[1] + counts[2], 1000);
    assert_eq!(s.entries.keyboard[4], key(999));
    assert_eq!(s.entries.mouse_button[4], button(998));
    assert_eq!(s.entries.mouse_scroll[4], scroll(996 - 500));
}

#[test]
fn totals_count_evicted_events() {
    let mut m = Monitor::new(1, 1);
    for i in 0..10u32 {
        m.record(key(i));
    }
    assert_eq!(m.total(Category::Keyboard), 10);
    assert_eq!(m.snapshot().entries.keyboard, vec![key(9)]);
}

#[test]
fn evicted_events_are_the_oldest() {
    let mut m = Monitor::new(3, 3);
    for i in 0..8u32 {
        m.record(key(i));
        m.record(button(100 + i));
    }
    let s = m.snapshot();
    assert_eq!(s.entries.keyboard, vec![key(5), key(6), key(7)]);
    assert_eq!(s.entries.mouse_button, vec![button(105), button(106), button(107)]);
}

#[test]
fn zero_capacity_keeps_nothing() {
    let mut b = DisplayBuffer::new(0, 0);
    b.push(key(1));
    b.push(scroll(1));
    assert!(b.entries(Category::Keyboard).is_empty());
    assert!(b.entries(Category::MouseScroll).is_empty());
    assert_eq!(b.capacity(Category::MouseButton), 0);
}

#[test]
fn mouse_categories_share_capacity_but_not_entries() {
    let mut b = DisplayBuffer::new(4, 2);
    b.push(button(1));
    b.push(button(2));
    b.push(button(3));
    b.push(scroll(-1));
    assert_eq!(b.entries(Category::MouseButton), &vec![button(2), button(3)]);
    assert_eq!(b.entries(Category::MouseScroll), &vec![scroll(-1)]);
    assert_eq!(b.capacity(Category::Keyboard), 4);
    assert_eq!(b.capacity(Category::MouseScroll), 2);
}

#[test]
fn render_text_is_exact() {
    let mut m = Monitor::new(2, 3);
    m.record(key(30));
    m.record(HandledEvent::MouseButton { id: 1, state: PressState::Pressed });
    m.record(HandledEvent::MouseScroll { delta: ScrollDelta::Pixels { x: -12, y: 305 } });
    let text = render(&m.snapshot());
    assert_eq!(
        text,
        "Keyboard (total 1, showing at most 2)\n  key 30 pressed\n\
         MouseButton (total 1, showing at most 3)\n  button 1 pressed\n\
         MouseScroll (total 1, showing at most 3)\n  scroll pixels x -12 y 305\n"
    );
}

#[test]
fn render_extreme_values() {
    let mut m = Monitor::new(1, 1);
    m.record(HandledEvent::MouseScroll { delta: ScrollDelta::Lines { x: i64::MIN, y: i64::MAX } });
    m.record(HandledEvent::Keyboard { keycode: u32::MAX, state: PressState::Released });
    let text = render(&m.snapshot());
    assert!(text.contains("  key 4294967295 released\n"));
    assert!(text.contains(
        "  scroll lines x -9223372036854775808 y 9223372036854775807\n"
    ));
    assert!(text.starts_with("Keyboard (total 1, showing at most 1)\n"));
}

#[test]
fn render_twice_is_identical() {
    let mut m = Monitor::new(2, 2);
    m.record(key(5));
    m.record(scroll(-3));
    let s = m.snapshot();
    assert_eq!(render(&s), render(&s));
}

#[test]
fn render_empty_snapshot() {
    let s = Monitor::new(12, 12).snapshot();
    assert_eq!(
        render(&s),
        "Keyboard (total 0, showing at most 12)\n\
         MouseButton (total 0, showing at most 12)\n\
         MouseScroll (total 0, showing at most 12)\n"
    );
}

#[test]
fn classify_each_kind() {
    assert_eq!(
        classify(RawDeviceEvent::Key { keycode: 9, state: PressState::Released }),
        Some(HandledEvent::Keyboard { keycode: 9, state: PressState::Released })
    );
    assert_eq!(
        classify(RawDeviceEvent::Button { id: 3, state: PressState::Pressed }),
        Some(HandledEvent::MouseButton { id: 3, state: PressState::Pressed })
    );
    let d = ScrollDelta::Pixels { x: 1, y: -1 };
    assert_eq!(
        classify(RawDeviceEvent::Wheel { delta: d }),
        Some(HandledEvent::MouseScroll { delta: d })
    );
    assert_eq!(classify(RawDeviceEvent::Other), None);
    assert_eq!(classify(RawDeviceEvent::CloseRequested), None);
}

#[test]
fn source_stops_after_close() {
    let mut src = EventSource::new();
    assert_eq!(
        src.on_event(RawDeviceEvent::Key { keycode: 1, state: PressState::Pressed }),
        SourceAction::Dispatch(key(1))
    );
    assert_eq!(src.on_event(RawDeviceEvent::Other), SourceAction::Ignore);
    assert_eq!(src.on_event(RawDeviceEvent::CloseRequested), SourceAction::Shutdown);
    assert!(!src.open);
    assert_eq!(
        src.on_event(RawDeviceEvent::Key { keycode: 1, state: PressState::Pressed }),
        SourceAction::Ignore
    );
    assert_eq!(src.on_event(RawDeviceEvent::CloseRequested), SourceAction::Ignore);
}

#[test]
fn variant_names() {
    assert_eq!(key(1).variant(), "Keyboard");
    assert_eq!(button(1).variant(), "MouseButton");
    assert_eq!(scroll(1).variant(), "MouseScroll");
    assert_eq!(Category::MouseScroll.name(), "MouseScroll");
}

#[test]
fn counters_count_per_category() {
    let mut c = CategoryCounters::new();
    c.increment(Category::MouseScroll);
    c.increment(Category::MouseScroll);
    c.increment(Category::Keyboard);
    assert_eq!(c.get(Category::Keyboard), 1);
    assert_eq!(c.get(Category::MouseButton), 0);
    assert_eq!(c.get(Category::MouseScroll), 2);
}
