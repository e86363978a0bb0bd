//! Live device-event monitor: classification of raw device events, a bounded
//! per-category display buffer, lifetime counters, snapshots and their text.

mod buffer;
mod event;
mod laws;
mod monitor;
mod render;
mod source;

pub use buffer::{
    most_recent, of_category, push_bounded, BufferView, DisplayBuffer, PerCategory,
};
pub use laws::{lemma_buffer_bounded, lemma_buffer_recent, lemma_from_start, lemma_totals_exact};
pub use event::{category_name, Category, HandledEvent, PressState, ScrollDelta};
pub use monitor::{zero_totals, CategoryCounters, ConsumerAction, Monitor, MonitorState, Snapshot};
pub use source::{classify, classify_spec, EventSource, RawDeviceEvent, SourceAction};
pub use render::{decimal, digit_text, event_line, event_lines, frame_text, press_text, render, section_text, signed_decimal};
