//! Core engine for a keyboard-driven terminal application that edits an
//! ordered instruction list through pluggable screens: translation of raw
//! input into semantic events, a module dispatch state machine, and a
//! scrollable view-rendering engine with per-screen scroll state.

use vstd::prelude::*;

pub mod clip;
pub mod color;
pub mod confirm;
pub mod event;
pub mod key_bindings;
pub mod module;
pub mod render_slice;
pub mod scroll_position;
pub mod text;
pub mod view_data;
pub mod view_line;

verus! {

/// Clamp a scroll offset to the room left by a viewport: with no viewport
/// there is no scrolling, and content that fits leaves no room either.
pub open spec fn spec_max_offset(content: usize, viewport: usize) -> usize {
    if viewport == 0 {
        0
    } else if content > viewport {
        (content - viewport) as usize
    } else {
        0
    }
}

/// Greatest scroll offset that still keeps the viewport inside the content.
pub fn max_offset(content: usize, viewport: usize) -> (r: usize)
    ensures
        r == spec_max_offset(content, viewport),
{
    if viewport == 0 {
        0
    } else if content > viewport {
        content - viewport
    } else {
        0
    }
}

} // verus!
