use crate::event::{category_name, Category, HandledEvent, PressState, ScrollDelta};
use crate::monitor::{MonitorState, Snapshot};
use vstd::prelude::*;
use vstd::string::StringExecFns;

verus! {

/// The text of one decimal digit.
pub open spec fn digit_text(d: nat) -> Seq<char> {
    if d == 0 {
        "0"@
    } else if d == 1 {
        "1"@
    } else if d == 2 {
        "2"@
    } else if d == 3 {
        "3"@
    } else if d == 4 {
        "4"@
    } else if d == 5 {
        "5"@
    } else if d == 6 {
        "6"@
    } else if d == 7 {
        "7"@
    } else if d == 8 {
        "8"@
    } else {
        "9"@
    }
}

/// The decimal text of `n`, without leading zeros.
pub open spec fn decimal(n: nat) -> Seq<char>
    decreases n,
{
    if n < 10 {
        digit_text(n)
    } else {
        decimal(n / 10) + digit_text(n % 10)
    }
}

/// The decimal text of `i`, with a leading minus sign when negative.
pub open spec fn signed_decimal(i: int) -> Seq<char> {
    if i < 0 {
        "-"@ + decimal((-i) as nat)
    } else {
        decimal(i as nat)
    }
}

pub open spec fn press_text(s: PressState) -> Seq<char> {
    match s {
        PressState::Pressed => "pressed"@,
        PressState::Released => "released"@,
    }
}

/// The line that shows one event.
pub open spec fn event_line(e: HandledEvent) -> Seq<char> {
    "  "@ + match e {
        HandledEvent::Keyboard { keycode, state } => "key "@ + decimal(keycode as nat) + " "@
            + press_text(state),
        HandledEvent::MouseButton { id, state } => "button "@ + decimal(id as nat) + " "@
            + press_text(state),
        HandledEvent::MouseScroll { delta } => match delta {
            ScrollDelta::Lines { x, y } => "scroll lines x "@ + signed_decimal(x as int)
                + " y "@ + signed_decimal(y as int),
            ScrollDelta::Pixels { x, y } => "scroll pixels x "@ + signed_decimal(x as int)
                + " y "@ + signed_decimal(y as int),
        },
    } + "\n"@
}

/// The lines of a sequence of events, in order.
pub open spec fn event_lines(s: Seq<HandledEvent>) -> Seq<char>
    decreases s.len(),
{
    if s.len() == 0 {
        Seq::empty()
    } else {
        event_lines(s.drop_last()) + event_line(s.last())
    }
}

/// One category's part of a frame: a heading with the category's lifetime
/// total and capacity, then its retained events, oldest first.
pub open spec fn section_text(s: MonitorState, c: Category) -> Seq<char> {
    category_name(c) + " (total "@ + decimal(s.totals.get(c)) + ", showing at most "@ + decimal(
        s.buffer.capacities.get(c),
    ) + ")\n"@ + event_lines(s.buffer.entries.get(c))
}

/// The full text of a frame.
pub open spec fn frame_text(s: MonitorState) -> Seq<char> {
    section_text(s, Category::Keyboard) + section_text(s, Category::MouseButton) + section_text(
        s,
        Category::MouseScroll,
    )
}

fn digit_str(d: u128) -> (r: &'static str)
    requires
        d < 10,
    ensures
        r@ == digit_text(d as nat),
{
    if d == 0 {
        "0"
    } else if d == 1 {
        "1"
    } else if d == 2 {
        "2"
    } else if d == 3 {
        "3"
    } else if d == 4 {
        "4"
    } else if d == 5 {
        "5"
    } else if d == 6 {
        "6"
    } else if d == 7 {
        "7"
    } else if d == 8 {
        "8"
    } else {
        "9"
    }
}

fn push_decimal(out: &mut String, n: u128)
    ensures
        final(out)@ == old(out)@ + decimal(n as nat),
    decreases n,
{
    if n < 10 {
        out.append(digit_str(n));
    } else {
        push_decimal(out, n / 10);
        out.append(digit_str(n % 10));
        assert(final(out)@ =~= old(out)@ + decimal(n as nat));
    }
}

fn push_signed(out: &mut String, i: i64)
    ensures
        final(out)@ == old(out)@ + signed_decimal(i as int),
{
    if i < 0 {
        out.append("-");
        let m: i128 = -(i as i128);
        push_decimal(out, m as u128);
        assert(final(out)@ =~= old(out)@ + signed_decimal(i as int));
    } else {
        push_decimal(out, i as u128);
    }
}

fn push_press(out: &mut String, s: PressState)
    ensures
        final(out)@ == old(out)@ + press_text(s),
{
    match s {
        PressState::Pressed => out.append("pressed"),
        PressState::Released => out.append("released"),
    }
}

fn push_event_line(out: &mut String, e: HandledEvent)
    ensures
        final(out)@ == old(out)@ + event_line(e),
{
    let ghost start = out@;
    out.append("  ");
    match e {
        HandledEvent::Keyboard { keycode, state } => {
            out.append("key ");
            push_decimal(out, keycode as u128);
            out.append(" ");
            push_press(out, state);
        },
        HandledEvent::MouseButton { id, state } => {
            out.append("button ");
            push_decimal(out, id as u128);
            out.append(" ");
            push_press(out, state);
        },
        HandledEvent::MouseScroll { delta } => match delta {
            ScrollDelta::Lines { x, y } => {
                out.append("scroll lines x ");
                push_signed(out, x);
                out.append(" y ");
                push_signed(out, y);
            },
            ScrollDelta::Pixels { x, y } => {
                out.append("scroll pixels x ");
                push_signed(out, x);
                out.append(" y ");
                push_signed(out, y);
            },
        },
    }
    out.append("\n");
    assert(out@ =~= start + event_line(e));
}

fn push_section(
    out: &mut String,
    c: Category,
    entries: &Vec<HandledEvent>,
    total: u64,
    capacity: usize,
)
    ensures
        final(out)@ == old(out)@ + category_name(c) + " (total "@ + decimal(total as nat)
            + ", showing at most "@ + decimal(capacity as nat) + ")\n"@ + event_lines(entries@),
{
    out.append(c.name());
    out.append(" (total ");
    push_decimal(out, total as u128);
    out.append(", showing at most ");
    push_decimal(out, capacity as u128);
    out.append(")\n");
    let ghost head = out@;
    let mut i: usize = 0;
    while i < entries.len()
        invariant
            i <= entries.len(),
            out@ == head + event_lines(entries@.subrange(0, i as int)),
        decreases entries.len() - i,
    {
        push_event_line(out, entries[i]);
        i = i + 1;
        assert(entries@.subrange(0, i as int).drop_last() =~= entries@.subrange(0, i as int - 1));
        assert(out@ =~= head + event_lines(entries@.subrange(0, i as int)));
    }
    assert(entries@.subrange(0, i as int) =~= entries@);
}

fn push_snapshot_section(out: &mut String, s: &Snapshot, c: Category)
    ensures
        final(out)@ == old(out)@ + section_text(s@, c),
{
    let ghost start = out@;
    match c {
        Category::Keyboard => push_section(
            out,
            c,
            &s.entries.keyboard,
            s.totals.keyboard,
            s.capacities.keyboard,
        ),
        Category::MouseButton => push_section(
            out,
            c,
            &s.entries.mouse_button,
            s.totals.mouse_button,
            s.capacities.mouse_button,
        ),
        Category::MouseScroll => push_section(
            out,
            c,
            &s.entries.mouse_scroll,
            s.totals.mouse_scroll,
            s.capacities.mouse_scroll,
        ),
    }
    assert(out@ =~= start + section_text(s@, c));
}

/// The frame text of a snapshot. The text depends on the snapshot alone, so
/// rendering the same snapshot twice gives the same text.
pub fn render(s: &Snapshot) -> (r: String)
    ensures
        r@ == frame_text(s@),
{
    let mut out = String::new();
    push_snapshot_section(&mut out, s, Category::Keyboard);
    push_snapshot_section(&mut out, s, Category::MouseButton);
    push_snapshot_section(&mut out, s, Category::MouseScroll);
    assert(out@ =~= frame_text(s@));
    out
}

} // verus!
