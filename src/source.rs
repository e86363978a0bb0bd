use crate::event::{HandledEvent, PressState, ScrollDelta};
use vstd::prelude::*;

verus! {

/// A device or window event as the platform reports it, reduced to what the
/// monitor reads.
#[derive(Clone, Copy, Debug, PartialEq, Eq, Structural)]
pub enum RawDeviceEvent {
    Key { keycode: u32, state: PressState },
    Button { id: u32, state: PressState },
    Wheel { delta: ScrollDelta },
    /// The capture window was asked to close.
    CloseRequested,
    /// Any other event kind.
    Other,
}

/// What the event source does with one raw event.
#[derive(Clone, Copy, Debug, PartialEq, Eq, Structural)]
pub enum SourceAction {
    /// Hand this event to the bridge.
    Dispatch(HandledEvent),
    /// Close the bridge and stop the event loop.
    Shutdown,
    /// Drop the event.
    Ignore,
}

/// The category event a raw event becomes, if any.
pub open spec fn classify_spec(raw: RawDeviceEvent) -> Option<HandledEvent> {
    match raw {
        RawDeviceEvent::Key { keycode, state } => Some(HandledEvent::Keyboard { keycode, state }),
        RawDeviceEvent::Button { id, state } => Some(HandledEvent::MouseButton { id, state }),
        RawDeviceEvent::Wheel { delta } => Some(HandledEvent::MouseScroll { delta }),
        _ => None,
    }
}

/// Key events become keyboard events, button events mouse-button events and
/// wheel events mouse-scroll events; every other kind is dropped.
pub fn classify(raw: RawDeviceEvent) -> (r: Option<HandledEvent>)
    ensures
        r == classify_spec(raw),
{
    match raw {
        RawDeviceEvent::Key { keycode, state } => Some(HandledEvent::Keyboard { keycode, state }),
        RawDeviceEvent::Button { id, state } => Some(HandledEvent::MouseButton { id, state }),
        RawDeviceEvent::Wheel { delta } => Some(HandledEvent::MouseScroll { delta }),
        _ => None,
    }
}

/// The decisions of the platform event loop: it dispatches classified events
/// until a close request, and nothing after it.
pub struct EventSource {
    pub open: bool,
}

impl EventSource {
    pub fn new() -> (r: EventSource)
        ensures
            r.open,
    {
        EventSource { open: true }
    }

    /// Decides what to do with one raw event. A close request shuts the
    /// source down once; after that every event is ignored.
    pub fn on_event(&mut self, raw: RawDeviceEvent) -> (r: SourceAction)
        ensures
            final(self).open == (old(self).open && raw != RawDeviceEvent::CloseRequested),
            !old(self).open ==> r == SourceAction::Ignore,
            old(self).open ==> r == match raw {
                RawDeviceEvent::CloseRequested => SourceAction::Shutdown,
                _ => match classify_spec(raw) {
                    Some(e) => SourceAction::Dispatch(e),
                    None => SourceAction::Ignore,
                },
            },
    {
        if !self.open {
            return SourceAction::Ignore;
        }
        match raw {
            RawDeviceEvent::CloseRequested => {
                self.open = false;
                SourceAction::Shutdown
            },
            _ => match classify(raw) {
                Some(e) => SourceAction::Dispatch(e),
                None => SourceAction::Ignore,
            },
        }
    }
}

} // verus!
