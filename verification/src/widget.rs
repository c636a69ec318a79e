//! Value types shared with the widget layer that sits on top of the
//! engine: widget identity and interaction state.
use vstd::prelude::*;

verus! {

/// An opaque identity for a widget.
#[derive(Debug, Clone, Copy, PartialEq, Eq, PartialOrd, Ord, Structural)]
pub struct WidgetId(pub i64);

impl WidgetId {
    /// The placeholder identity a widget is built with.
    pub fn new() -> (r: Self)
        ensures
            r == (WidgetId(0i64)),
    {
        Self(0)
    }
}

impl Default for WidgetId {
    fn default() -> (r: Self)
        ensures
            r == (WidgetId(0i64)),
    {
        Self(0)
    }
}

/// The interaction state a widget can be in.
pub enum WidgetState {
    Resting,
    Hovered,
    Clicked,
    Focused,
}

} // verus!
