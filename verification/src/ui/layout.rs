//! How the send pane and the receive pane share the screen.

use vstd::prelude::*;

verus! {

/// How the two panes are laid out.
#[derive(Debug, Clone, Copy, PartialEq, Eq, Structural)]
pub enum LayoutType {
    /// Side by side: send on the left, receive on the right.
    HorizontalSplit,
    /// One above the other: send on top, receive below.
    VerticalSplit,
}

/// The layout of the application.
#[derive(Debug, Clone, Copy, PartialEq, Eq, Structural)]
pub struct AppLayout {
    pub layout_type: LayoutType,
}

impl AppLayout {
    pub fn new(layout_type: LayoutType) -> (layout: AppLayout)
        ensures
            layout.layout_type == layout_type,
    {
        AppLayout { layout_type }
    }
}

} // verus!
