use vstd::prelude::*;

verus! {

/// State shared by every overlay window.
#[derive(Debug, Clone, Copy, Default, PartialEq, Eq, Structural)]
pub struct SharedState {
    pub is_overlay_focused: bool,
    pub surver_is_opened: bool,
}

/// The hint shown while the overlay holds input focus.
#[derive(Debug, Clone, Copy, Default, PartialEq, Eq, Structural)]
pub struct OverlayText;

} // verus!
