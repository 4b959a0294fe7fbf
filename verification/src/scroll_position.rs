//! Per-screen scroll cursor: a top row and left column, kept inside the
//! bounds that the content size and the viewport size leave open.

use vstd::prelude::*;

use crate::spec_max_offset;
use crate::max_offset;

verus! {

/// Scroll state of one screen: the window's top row and left column, the
/// scroll-version tag the position was stamped with, and the content and
/// viewport extents the bounds are derived from.
#[derive(Clone, Copy, Debug, PartialEq, Eq, Structural)]
pub struct ScrollPosition {
    /// First visible content row.
    pub top: usize,
    /// First visible content column of the scrollable segments.
    pub left: usize,
    /// Scroll-version tag of the view data this position belongs to.
    pub version: u32,
    /// Rows available for scrollable content.
    pub view_height: usize,
    /// Columns available for content.
    pub view_width: usize,
    /// Number of scrollable content lines.
    pub lines_length: usize,
    /// Length of the longest rendered line.
    pub max_line_length: usize,
}

/// Origin position with a zero-extent viewport and no content.
pub open spec fn origin_position() -> ScrollPosition {
    ScrollPosition {
        top: 0,
        left: 0,
        version: 0,
        view_height: 0,
        view_width: 0,
        lines_length: 0,
        max_line_length: 0,
    }
}

impl ScrollPosition {
    /// The top row never scrolls past the last full window of content.
    pub open spec fn max_top(self) -> usize {
        spec_max_offset(self.lines_length, self.view_height)
    }

    /// The left column never scrolls past the end of the longest line.
    pub open spec fn max_left(self) -> usize {
        spec_max_offset(self.max_line_length, self.view_width)
    }

    /// A position is well formed when both offsets are inside their bounds.
    pub open spec fn wf(self) -> bool {
        self.top <= self.max_top() && self.left <= self.max_left()
    }

    /// Value after `scroll_up`.
    pub open spec fn spec_scroll_up(self) -> Self {
        ScrollPosition { top: if self.top > 0 { (self.top - 1) as usize } else { 0 }, ..self }
    }

    /// Value after `scroll_down`.
    pub open spec fn spec_scroll_down(self) -> Self {
        ScrollPosition {
            top: if self.top < self.max_top() { (self.top + 1) as usize } else { self.max_top() },
            ..self
        }
    }

    /// Value after `page_up`.
    pub open spec fn spec_page_up(self) -> Self {
        ScrollPosition {
            top: if self.top >= self.view_height { (self.top - self.view_height) as usize } else { 0 },
            ..self
        }
    }

    /// Value after `page_down`.
    pub open spec fn spec_page_down(self) -> Self {
        ScrollPosition {
            top: if self.top + self.view_height < self.max_top() {
                (self.top + self.view_height) as usize
            } else {
                self.max_top()
            },
            ..self
        }
    }

    /// Value after `scroll_top`.
    pub open spec fn spec_scroll_top(self) -> Self {
        ScrollPosition { top: 0, ..self }
    }

    /// Value after `scroll_bottom`.
    pub open spec fn spec_scroll_bottom(self) -> Self {
        ScrollPosition { top: self.max_top(), ..self }
    }

    /// Value after `scroll_left`.
    pub open spec fn spec_scroll_left(self) -> Self {
        ScrollPosition { left: if self.left > 0 { (self.left - 1) as usize } else { 0 }, ..self }
    }

    /// Value after `scroll_right`.
    pub open spec fn spec_scroll_right(self) -> Self {
        ScrollPosition {
            left: if self.left < self.max_left() { (self.left + 1) as usize } else { self.max_left() },
            ..self
        }
    }

    /// Value after a `resize` call.
    pub open spec fn spec_resize(self, view_height: usize, view_width: usize) -> Self {
        let sized = ScrollPosition { view_height, view_width, ..self };
        ScrollPosition {
            top: if self.top > sized.max_top() { sized.max_top() } else { self.top },
            left: if self.left > sized.max_left() { sized.max_left() } else { self.left },
            ..sized
        }
    }

    /// Value after a `set_lines_length` call.
    pub open spec fn spec_set_lines_length(self, lines_length: usize) -> Self {
        let sized = ScrollPosition { lines_length, ..self };
        ScrollPosition {
            top: if self.top > sized.max_top() { sized.max_top() } else { self.top },
            ..sized
        }
    }

    /// Value after a `set_max_line_length` call.
    pub open spec fn spec_set_max_line_length(self, max_line_length: usize) -> Self {
        let sized = ScrollPosition { max_line_length, ..self };
        ScrollPosition {
            left: if self.left > sized.max_left() { sized.max_left() } else { self.left },
            ..sized
        }
    }

    /// Value after an `ensure_line_visible` call.
    pub open spec fn spec_ensure_row(self, row: usize) -> Self {
        if self.view_height == 0 {
            self
        } else if row < self.top {
            ScrollPosition { top: row, ..self }
        } else if row - self.top >= self.view_height {
            let target = (row - (self.view_height - 1)) as usize;
            ScrollPosition {
                top: if target > self.max_top() { self.max_top() } else { target },
                ..self
            }
        } else {
            self
        }
    }

    /// Value after an `ensure_column_visible` call.
    pub open spec fn spec_ensure_column(self, column: usize) -> Self {
        if self.view_width == 0 {
            self
        } else if column < self.left {
            ScrollPosition { left: column, ..self }
        } else if column - self.left >= self.view_width {
            let target = (column - (self.view_width - 1)) as usize;
            ScrollPosition {
                left: if target > self.max_left() { self.max_left() } else { target },
                ..self
            }
        } else {
            self
        }
    }

    /// Origin position with a zero-extent viewport and no content.
    pub fn new() -> (r: Self)
        ensures
            r == origin_position(),
            r.wf(),
    {
        ScrollPosition {
            top: 0,
            left: 0,
            version: 0,
            view_height: 0,
            view_width: 0,
            lines_length: 0,
            max_line_length: 0,
        }
    }

    pub fn get_top_position(&self) -> (r: usize)
        ensures
            r == self.top,
    {
        self.top
    }

    pub fn get_left_position(&self) -> (r: usize)
        ensures
            r == self.left,
    {
        self.left
    }

    pub fn get_version(&self) -> (r: u32)
        ensures
            r == self.version,
    {
        self.version
    }

    pub fn set_version(&mut self, version: u32)
        ensures
            *final(self) == (ScrollPosition { version, ..*old(self) }),
    {
        self.version = version;
    }

    /// Return to the origin; the version tag and the extents are kept.
    pub fn reset(&mut self)
        ensures
            *final(self) == (ScrollPosition { top: 0, left: 0, ..*old(self) }),
            final(self).wf(),
    {
        self.top = 0;
        self.left = 0;
    }

    /// Move the window one row up, stopping at the first row.
    pub fn scroll_up(&mut self)
        requires
            old(self).wf(),
        ensures
            *final(self) == old(self).spec_scroll_up(),
            final(self).wf(),
    {
        if self.top > 0 {
            self.top = self.top - 1;
        }
    }

    /// Move the window one row down, stopping at the last full window.
    pub fn scroll_down(&mut self)
        requires
            old(self).wf(),
        ensures
            *final(self) == old(self).spec_scroll_down(),
            final(self).wf(),
    {
        let bound: usize = max_offset(self.lines_length, self.view_height);
        if self.top < bound {
            self.top = self.top + 1;
        } else {
            self.top = bound;
        }
    }

    /// Move the window a full page up; a page is the scrollable height.
    pub fn page_up(&mut self)
        requires
            old(self).wf(),
        ensures
            *final(self) == old(self).spec_page_up(),
            final(self).wf(),
    {
        if self.top >= self.view_height {
            self.top = self.top - self.view_height;
        } else {
            self.top = 0;
        }
    }

    /// Move the window a full page down, stopping at the last full window.
    pub fn page_down(&mut self)
        requires
            old(self).wf(),
        ensures
            *final(self) == old(self).spec_page_down(),
            final(self).wf(),
    {
        let bound: usize = max_offset(self.lines_length, self.view_height);
        if self.top < bound && self.view_height < bound - self.top {
            self.top = self.top + self.view_height;
        } else {
            self.top = bound;
        }
    }

    /// Jump to the first row.
    pub fn scroll_top(&mut self)
        ensures
            *final(self) == old(self).spec_scroll_top(),
    {
        self.top = 0;
    }

    /// Jump to the last full window of content.
    pub fn scroll_bottom(&mut self)
        ensures
            *final(self) == old(self).spec_scroll_bottom(),
    {
        self.top = max_offset(self.lines_length, self.view_height);
    }

    /// Move the window one column left, stopping at the first column.
    pub fn scroll_left(&mut self)
        requires
            old(self).wf(),
        ensures
            *final(self) == old(self).spec_scroll_left(),
            final(self).wf(),
    {
        if self.left > 0 {
            self.left = self.left - 1;
        }
    }

    /// Move the window one column right, stopping at the last full window.
    pub fn scroll_right(&mut self)
        requires
            old(self).wf(),
        ensures
            *final(self) == old(self).spec_scroll_right(),
            final(self).wf(),
    {
        let bound: usize = max_offset(self.max_line_length, self.view_width);
        if self.left < bound {
            self.left = self.left + 1;
        } else {
            self.left = bound;
        }
    }

    /// New viewport extents; both offsets are clamped to the new bounds.
    pub fn resize(&mut self, view_height: usize, view_width: usize)
        ensures
            *final(self) == old(self).spec_resize(view_height, view_width),
            final(self).wf(),
    {
        self.view_height = view_height;
        self.view_width = view_width;
        let top_bound: usize = max_offset(self.lines_length, self.view_height);
        if self.top > top_bound {
            self.top = top_bound;
        }
        let left_bound: usize = max_offset(self.max_line_length, self.view_width);
        if self.left > left_bound {
            self.left = left_bound;
        }
    }

    /// New content length; the top offset is clamped to the new bound.
    pub fn set_lines_length(&mut self, lines_length: usize)
        ensures
            *final(self) == old(self).spec_set_lines_length(lines_length),
            old(self).wf() ==> final(self).wf(),
    {
        self.lines_length = lines_length;
        let bound: usize = max_offset(self.lines_length, self.view_height);
        if self.top > bound {
            self.top = bound;
        }
    }

    /// New longest-line length; the left offset is clamped to the new bound.
    pub fn set_max_line_length(&mut self, max_line_length: usize)
        ensures
            *final(self) == old(self).spec_set_max_line_length(max_line_length),
            old(self).wf() ==> final(self).wf(),
    {
        self.max_line_length = max_line_length;
        let bound: usize = max_offset(self.max_line_length, self.view_width);
        if self.left > bound {
            self.left = bound;
        }
    }

    /// Scroll the least amount that brings `row` into the window.
    pub fn ensure_line_visible(&mut self, row: usize)
        requires
            old(self).wf(),
        ensures
            *final(self) == old(self).spec_ensure_row(row),
            final(self).wf(),
    {
        if self.view_height == 0 {
            return;
        }
        if row < self.top {
            self.top = row;
        } else if row - self.top >= self.view_height {
            let bound: usize = max_offset(self.lines_length, self.view_height);
            let target: usize = row - (self.view_height - 1);
            self.top = if target > bound { bound } else { target };
        }
    }

    /// Scroll the least amount that brings `column` into the window.
    pub fn ensure_column_visible(&mut self, column: usize)
        requires
            old(self).wf(),
        ensures
            *final(self) == old(self).spec_ensure_column(column),
            final(self).wf(),
    {
        if self.view_width == 0 {
            return;
        }
        if column < self.left {
            self.left = column;
        } else if column - self.left >= self.view_width {
            let bound: usize = max_offset(self.max_line_length, self.view_width);
            let target: usize = column - (self.view_width - 1);
            self.left = if target > bound { bound } else { target };
        }
    }
}

} // verus!
