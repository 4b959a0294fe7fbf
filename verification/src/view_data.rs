//! Declarative, versioned bundle of styled lines a screen wants displayed:
//! leading, main (scrollable) and trailing partitions, display flags, and
//! hints for rows or a column that must stay visible. The name and version
//! identify the content for caching; the scroll version says whether an old
//! scroll position still means anything for this content.

use vstd::prelude::*;

use crate::view_line::{ViewLine, ViewLines};

verus! {

/// Content one screen declares for display.
#[derive(Debug)]
pub struct ViewData {
    /// Identity of the screen this content belongs to.
    pub name: String,
    /// Content version; bumped by every change, so that an unchanged
    /// (name, version) pair means unchanged content.
    pub version: u32,
    /// Tag distinguishing "same displayed list" from "different list under
    /// the same name"; a change forces a scroll reset.
    pub scroll_version: u32,
    /// Lines pinned above the scrollable region.
    pub leading_lines: ViewLines,
    /// The scrollable region.
    pub lines: ViewLines,
    /// Lines pinned below the scrollable region.
    pub trailing_lines: ViewLines,
    /// Whether one row is reserved for a title.
    pub show_title: bool,
    /// Whether the title advertises help.
    pub show_help: bool,
    /// Whether an earlier scroll position for this name may be kept.
    pub retain_scroll_position: bool,
    /// Rows of the scrollable region that must be scrolled into view.
    pub visible_rows: Vec<usize>,
    /// Column that must be scrolled into view, if any.
    pub visible_column: Option<usize>,
}

impl ViewData {
    /// All three partitions hold well-formed lines.
    pub open spec fn wf(self) -> bool {
        self.leading_lines.wf() && self.lines.wf() && self.trailing_lines.wf()
    }

    /// Empty content under the given screen name.
    pub fn new(name: String) -> (r: Self)
        ensures
            r.name == name,
            r.version == 0,
            r.scroll_version == 0,
            r.leading_lines@ =~= Seq::<<ViewLine as View>::V>::empty(),
            r.lines@ =~= Seq::<<ViewLine as View>::V>::empty(),
            r.trailing_lines@ =~= Seq::<<ViewLine as View>::V>::empty(),
            r.show_title == false,
            r.show_help == false,
            r.retain_scroll_position == true,
            r.visible_rows@ =~= Seq::<usize>::empty(),
            r.visible_column is None,
            r.wf(),
    {
        ViewData {
            name,
            version: 0,
            scroll_version: 0,
            leading_lines: ViewLines::new(),
            lines: ViewLines::new(),
            trailing_lines: ViewLines::new(),
            show_title: false,
            show_help: false,
            retain_scroll_position: true,
            visible_rows: Vec::new(),
            visible_column: None,
        }
    }

    pub fn get_name(&self) -> (r: &str)
        ensures
            r@ == self.name@,
    {
        self.name.as_str()
    }

    pub fn get_version(&self) -> (r: u32)
        ensures
            r == self.version,
    {
        self.version
    }

    pub fn get_scroll_version(&self) -> (r: u32)
        ensures
            r == self.scroll_version,
    {
        self.scroll_version
    }

    pub fn show_title(&self) -> (r: bool)
        ensures
            r == self.show_title,
    {
        self.show_title
    }

    pub fn show_help(&self) -> (r: bool)
        ensures
            r == self.show_help,
    {
        self.show_help
    }

    pub fn retain_scroll_position(&self) -> (r: bool)
        ensures
            r == self.retain_scroll_position,
    {
        self.retain_scroll_position
    }

    pub fn leading_lines(&self) -> (r: &ViewLines)
        ensures
            r == &self.leading_lines,
    {
        &self.leading_lines
    }

    pub fn lines(&self) -> (r: &ViewLines)
        ensures
            r == &self.lines,
    {
        &self.lines
    }

    pub fn trailing_lines(&self) -> (r: &ViewLines)
        ensures
            r == &self.trailing_lines,
    {
        &self.trailing_lines
    }

    pub fn visible_rows(&self) -> (r: &Vec<usize>)
        ensures
            r == &self.visible_rows,
    {
        &self.visible_rows
    }

    pub fn get_visible_column(&self) -> (r: Option<usize>)
        ensures
            r == self.visible_column,
    {
        self.visible_column
    }

    /// Every change bumps the content version, saturating at the largest
    /// version, so versions per name never decrease.
    pub open spec fn spec_bumped(self) -> u32 {
        self.version.saturating_add(1)
    }

    /// Append a line to the scrollable region.
    pub fn push_line(&mut self, line: ViewLine)
        ensures
            *final(self) == (ViewData {
                lines: final(self).lines,
                version: old(self).spec_bumped(),
                ..*old(self)
            }),
            final(self).lines@ =~= old(self).lines@.push(line@),
            old(self).wf() && line.wf() ==> final(self).wf(),
    {
        self.lines.push(line);
        self.version = self.version.saturating_add(1);
    }

    /// Append a line above the scrollable region.
    pub fn push_leading_line(&mut self, line: ViewLine)
        ensures
            *final(self) == (ViewData {
                leading_lines: final(self).leading_lines,
                version: old(self).spec_bumped(),
                ..*old(self)
            }),
            final(self).leading_lines@ =~= old(self).leading_lines@.push(line@),
            old(self).wf() && line.wf() ==> final(self).wf(),
    {
        self.leading_lines.push(line);
        self.version = self.version.saturating_add(1);
    }

    /// Append a line below the scrollable region.
    pub fn push_trailing_line(&mut self, line: ViewLine)
        ensures
            *final(self) == (ViewData {
                trailing_lines: final(self).trailing_lines,
                version: old(self).spec_bumped(),
                ..*old(self)
            }),
            final(self).trailing_lines@ =~= old(self).trailing_lines@.push(line@),
            old(self).wf() && line.wf() ==> final(self).wf(),
    {
        self.trailing_lines.push(line);
        self.version = self.version.saturating_add(1);
    }

    /// Drop all lines and visibility hints; flags and name are kept.
    pub fn clear(&mut self)
        ensures
            *final(self) == (ViewData {
                leading_lines: final(self).leading_lines,
                lines: final(self).lines,
                trailing_lines: final(self).trailing_lines,
                visible_rows: final(self).visible_rows,
                visible_column: None,
                version: old(self).spec_bumped(),
                ..*old(self)
            }),
            final(self).leading_lines@ =~= Seq::<<ViewLine as View>::V>::empty(),
            final(self).lines@ =~= Seq::<<ViewLine as View>::V>::empty(),
            final(self).trailing_lines@ =~= Seq::<<ViewLine as View>::V>::empty(),
            final(self).visible_rows@ =~= Seq::<usize>::empty(),
            final(self).wf(),
    {
        self.leading_lines.clear();
        self.lines.clear();
        self.trailing_lines.clear();
        self.visible_rows.clear();
        self.visible_column = None;
        self.version = self.version.saturating_add(1);
    }

    pub fn set_show_title(&mut self, show: bool)
        ensures
            *final(self) == (ViewData {
                show_title: show,
                version: old(self).spec_bumped(),
                ..*old(self)
            }),
            old(self).wf() ==> final(self).wf(),
    {
        self.show_title = show;
        self.version = self.version.saturating_add(1);
    }

    pub fn set_show_help(&mut self, show: bool)
        ensures
            *final(self) == (ViewData {
                show_help: show,
                version: old(self).spec_bumped(),
                ..*old(self)
            }),
            old(self).wf() ==> final(self).wf(),
    {
        self.show_help = show;
        self.version = self.version.saturating_add(1);
    }

    pub fn set_retain_scroll_position(&mut self, retain: bool)
        ensures
            *final(self) == (ViewData {
                retain_scroll_position: retain,
                version: old(self).spec_bumped(),
                ..*old(self)
            }),
            old(self).wf() ==> final(self).wf(),
    {
        self.retain_scroll_position = retain;
        self.version = self.version.saturating_add(1);
    }

    pub fn set_scroll_version(&mut self, scroll_version: u32)
        ensures
            *final(self) == (ViewData {
                scroll_version,
                version: old(self).spec_bumped(),
                ..*old(self)
            }),
            old(self).wf() ==> final(self).wf(),
    {
        self.scroll_version = scroll_version;
        self.version = self.version.saturating_add(1);
    }

    /// Ask that a row of the scrollable region be scrolled into view.
    pub fn push_visible_row(&mut self, row: usize)
        ensures
            *final(self) == (ViewData {
                visible_rows: final(self).visible_rows,
                version: old(self).spec_bumped(),
                ..*old(self)
            }),
            final(self).visible_rows@ =~= old(self).visible_rows@.push(row),
            old(self).wf() ==> final(self).wf(),
    {
        self.visible_rows.push(row);
        self.version = self.version.saturating_add(1);
    }

    /// Ask that a column be scrolled into view.
    pub fn set_visible_column(&mut self, column: usize)
        ensures
            *final(self) == (ViewData {
                visible_column: Some(column),
                version: old(self).spec_bumped(),
                ..*old(self)
            }),
            old(self).wf() ==> final(self).wf(),
    {
        self.visible_column = Some(column);
        self.version = self.version.saturating_add(1);
    }
}

} // verus!
