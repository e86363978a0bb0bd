use vstd::prelude::*;

verus! {

/// The fixed kinds of device events; the key for buffering and counting.
#[derive(Clone, Copy, Debug, PartialEq, Eq, Structural)]
pub enum Category {
    Keyboard,
    MouseButton,
    MouseScroll,
}

/// Whether a key or button went down or up.
#[derive(Clone, Copy, Debug, PartialEq, Eq, Structural)]
pub enum PressState {
    Pressed,
    Released,
}

/// A scroll-wheel movement, signed per axis, in lines or in pixels.
#[derive(Clone, Copy, Debug, PartialEq, Eq, Structural)]
pub enum ScrollDelta {
    Lines { x: i64, y: i64 },
    Pixels { x: i64, y: i64 },
}

/// A device event that has been classified into one of the categories.
#[derive(Clone, Copy, Debug, PartialEq, Eq, Structural)]
pub enum HandledEvent {
    Keyboard { keycode: u32, state: PressState },
    MouseButton { id: u32, state: PressState },
    MouseScroll { delta: ScrollDelta },
}

/// The display name of a category.
pub open spec fn category_name(c: Category) -> Seq<char> {
    match c {
        Category::Keyboard => "Keyboard"@,
        Category::MouseButton => "MouseButton"@,
        Category::MouseScroll => "MouseScroll"@,
    }
}

impl Category {
    pub fn name(&self) -> (r: &'static str)
        ensures
            r@ == category_name(*self),
    {
        match self {
            Category::Keyboard => "Keyboard",
            Category::MouseButton => "MouseButton",
            Category::MouseScroll => "MouseScroll",
        }
    }
}

impl HandledEvent {
    /// The category an event belongs to.
    pub open spec fn category_spec(self) -> Category {
        match self {
            HandledEvent::Keyboard { .. } => Category::Keyboard,
            HandledEvent::MouseButton { .. } => Category::MouseButton,
            HandledEvent::MouseScroll { .. } => Category::MouseScroll,
        }
    }

    pub fn category(&self) -> (r: Category)
        ensures
            r == self.category_spec(),
    {
        match self {
            HandledEvent::Keyboard { .. } => Category::Keyboard,
            HandledEvent::MouseButton { .. } => Category::MouseButton,
            HandledEvent::MouseScroll { .. } => Category::MouseScroll,
        }
    }

    /// The name of the event's category.
    pub fn variant(&self) -> (r: &'static str)
        ensures
            r@ == category_name(self.category_spec()),
    {
        match self {
            HandledEvent::Keyboard { .. } => "Keyboard",
            HandledEvent::MouseButton { .. } => "MouseButton",
            HandledEvent::MouseScroll { .. } => "MouseScroll",
        }
    }
}

} // verus!
