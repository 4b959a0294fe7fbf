//! The scroll engine: consumes a screen's view data and a FIFO queue of
//! scroll and resize commands, and produces the exact bounded window of
//! lines to paint, with scrollbar and scroll-index bookkeeping and one
//! cached scroll position per screen name.

use vstd::prelude::*;

use crate::clip::{spec_clip_line, clip_line, flat_len};
use crate::scroll_position::{origin_position, ScrollPosition};
use crate::text::str_eq;
use crate::view_data::ViewData;
use crate::view_line::{LineContent, ViewLines};

verus! {

/// A queued command for the scroll engine, applied strictly in arrival
/// order.
#[derive(Clone, Copy, Debug, PartialEq, Eq, Structural)]
pub enum RenderAction {
    ScrollUp,
    ScrollDown,
    ScrollLeft,
    ScrollRight,
    PageUp,
    PageDown,
    ScrollTop,
    ScrollBottom,
    Resize(usize, usize),
}

/// Mathematical state of the scroll engine.
#[verifier::ext_equal]
pub struct SliceModel {
    pub actions: Seq<RenderAction>,
    pub height: usize,
    pub width: usize,
    pub padding_height: usize,
    pub lines: Seq<LineContent>,
    pub lines_count: usize,
    pub lines_leading_count: usize,
    pub lines_trailing_count: usize,
    pub scroll_position: ScrollPosition,
    pub cache: Seq<(Seq<char>, ScrollPosition)>,
    pub should_show_scrollbar: bool,
    pub show_help: bool,
    pub show_title: bool,
    pub version: u32,
    pub view_data_name: Seq<char>,
    pub view_data_version: u32,
}

/// Rendering engine state: the action queue, the active scroll position,
/// the per-name scroll-position cache, and the last rendered line window.
#[derive(Debug)]
pub struct RenderSlice {
    pub actions: Vec<RenderAction>,
    pub height: usize,
    pub width: usize,
    pub padding_height: usize,
    pub lines: ViewLines,
    pub lines_count: usize,
    pub lines_leading_count: usize,
    pub lines_trailing_count: usize,
    pub scroll_position: ScrollPosition,
    pub scroll_position_cache: Vec<(String, ScrollPosition)>,
    pub should_show_scrollbar: bool,
    pub show_help: bool,
    pub show_title: bool,
    pub version: u32,
    pub view_data_name: String,
    pub view_data_version: u32,
}

impl View for RenderSlice {
    type V = SliceModel;

    open spec fn view(&self) -> SliceModel {
        SliceModel {
            actions: self.actions@,
            height: self.height,
            width: self.width,
            padding_height: self.padding_height,
            lines: self.lines@,
            lines_count: self.lines_count,
            lines_leading_count: self.lines_leading_count,
            lines_trailing_count: self.lines_trailing_count,
            scroll_position: self.scroll_position,
            cache: self.scroll_position_cache@.map_values(
                |e: (String, ScrollPosition)| (e.0@, e.1),
            ),
            should_show_scrollbar: self.should_show_scrollbar,
            show_help: self.show_help,
            show_title: self.show_title,
            version: self.version,
            view_data_name: self.view_data_name@,
            view_data_version: self.view_data_version,
        }
    }
}

/// Rows left for scrollable content once the padding is taken out.
pub open spec fn spec_viewport_height(m: SliceModel) -> usize {
    if m.height == 0 || m.padding_height > m.height {
        0
    } else {
        (m.height - m.padding_height) as usize
    }
}

/// Columns left for content once a shown scrollbar takes its column.
pub open spec fn spec_viewport_width(m: SliceModel) -> usize {
    if m.width == 0 {
        0
    } else if m.should_show_scrollbar {
        (m.width - 1) as usize
    } else {
        m.width
    }
}

/// State after `update_scroll_position_size`.
pub open spec fn spec_update_scroll_position_size(m: SliceModel) -> SliceModel {
    SliceModel {
        scroll_position: m.scroll_position.spec_resize(
            spec_viewport_height(m),
            spec_viewport_width(m),
        ),
        ..m
    }
}

/// State after `set_size`.
pub open spec fn spec_set_size(m: SliceModel, view_width: usize, view_height: usize) -> SliceModel {
    if m.height != view_height || m.width != view_width {
        spec_update_scroll_position_size(SliceModel { height: view_height, width: view_width, ..m })
    } else {
        m
    }
}

/// Rows the given view data reserves around the scrollable region: one for
/// a shown title plus its leading and trailing lines.
pub open spec fn spec_padding_height(view_data: ViewData) -> usize {
    let title: usize = if view_data.show_title { 1 } else { 0 };
    title.saturating_add(view_data.leading_lines@.len() as usize).saturating_add(
        view_data.trailing_lines@.len() as usize,
    )
}

/// State after `set_padding_height`.
pub open spec fn spec_set_padding_height(m: SliceModel, view_data: ViewData) -> SliceModel {
    let padding = spec_padding_height(view_data);
    if m.padding_height != padding {
        spec_update_scroll_position_size(SliceModel { padding_height: padding, ..m })
    } else {
        m
    }
}

/// Index of the entry under `name`, or `-1` when none holds it.
pub open spec fn spec_cache_index(
    entries: Seq<(Seq<char>, ScrollPosition)>,
    name: Seq<char>,
) -> int
    decreases entries.len(),
{
    if entries.len() == 0 {
        -1
    } else if entries[0].0 == name {
        0
    } else {
        let rest = spec_cache_index(entries.subrange(1, entries.len() as int), name);
        if rest < 0 {
            -1
        } else {
            rest + 1
        }
    }
}

/// The entries without the one under `name`, if it was there.
pub open spec fn spec_remove_key(
    entries: Seq<(Seq<char>, ScrollPosition)>,
    name: Seq<char>,
) -> Seq<(Seq<char>, ScrollPosition)> {
    let index = spec_cache_index(entries, name);
    if index < 0 {
        entries
    } else {
        entries.remove(index)
    }
}

/// The position stored under `name`, or the origin when none is.
pub open spec fn spec_cache_lookup(
    entries: Seq<(Seq<char>, ScrollPosition)>,
    name: Seq<char>,
) -> ScrollPosition {
    let index = spec_cache_index(entries, name);
    if index < 0 {
        origin_position()
    } else {
        entries[index].1
    }
}

/// State after `set_active_scroll_position`: on a name change the outgoing
/// position is stored under the outgoing name, the incoming name's position
/// is loaded (or freshly created), reset when its scroll version is stale or
/// the view data declines to retain it, and sized to the viewport.
pub open spec fn spec_set_active_scroll_position(m: SliceModel, view_data: ViewData) -> SliceModel {
    if view_data.name@ == m.view_data_name {
        m
    } else {
        let incoming = spec_cache_lookup(m.cache, view_data.name@);
        let stored = spec_remove_key(spec_remove_key(m.cache, view_data.name@), m.view_data_name)
            .push((m.view_data_name, m.scroll_position));
        let position = if incoming.version != view_data.scroll_version
            || !view_data.retain_scroll_position {
            ScrollPosition { top: 0, left: 0, version: view_data.scroll_version, ..incoming }
        } else {
            incoming
        };
        spec_update_scroll_position_size(
            SliceModel { cache: stored, scroll_position: position, ..m },
        )
    }
}

/// State after one queued action is applied.
pub open spec fn spec_apply_action(m: SliceModel, action: RenderAction) -> SliceModel {
    match action {
        RenderAction::ScrollUp => SliceModel {
            scroll_position: m.scroll_position.spec_scroll_up(),
            ..m
        },
        RenderAction::ScrollDown => SliceModel {
            scroll_position: m.scroll_position.spec_scroll_down(),
            ..m
        },
        RenderAction::ScrollLeft => SliceModel {
            scroll_position: m.scroll_position.spec_scroll_left(),
            ..m
        },
        RenderAction::ScrollRight => SliceModel {
            scroll_position: m.scroll_position.spec_scroll_right(),
            ..m
        },
        RenderAction::PageUp => SliceModel { scroll_position: m.scroll_position.spec_page_up(), ..m },
        RenderAction::PageDown => SliceModel {
            scroll_position: m.scroll_position.spec_page_down(),
            ..m
        },
        RenderAction::ScrollTop => SliceModel {
            scroll_position: m.scroll_position.spec_scroll_top(),
            ..m
        },
        RenderAction::ScrollBottom => SliceModel {
            scroll_position: m.scroll_position.spec_scroll_bottom(),
            ..m
        },
        RenderAction::Resize(width, height) => spec_set_size(m, width, height),
    }
}

/// State after the given actions are applied first to last.
pub open spec fn spec_apply_actions(m: SliceModel, actions: Seq<RenderAction>) -> SliceModel
    decreases actions.len(),
{
    if actions.len() == 0 {
        m
    } else {
        spec_apply_actions(spec_apply_action(m, actions[0]), actions.subrange(1, actions.len() as int))
    }
}

/// State after the whole queue is drained in arrival order.
pub open spec fn spec_drain_actions(m: SliceModel) -> SliceModel {
    SliceModel { actions: Seq::empty(), ..spec_apply_actions(m, m.actions) }
}

/// A count clipped to what fits the machine word.
pub open spec fn sat_usize(n: nat) -> usize {
    if n > usize::MAX {
        usize::MAX
    } else {
        n as usize
    }
}

/// Length one line contributes to the horizontal-scroll bound: the
/// saturated sum of all its segment lengths.
pub open spec fn spec_line_length(line: LineContent) -> usize {
    sat_usize(flat_len(line.segments))
}

/// Longest line among up to `count` lines starting at `start`, starting
/// from a longest-so-far of `acc`; a line whose segments are all pinned
/// contributes nothing.
pub open spec fn spec_max_line_length_from(
    lines: Seq<LineContent>,
    start: int,
    count: int,
    acc: usize,
) -> usize
    decreases count,
{
    if count <= 0 || start < 0 || start >= lines.len() {
        acc
    } else {
        let line = lines[start];
        let len: usize = if line.segments.len() <= line.pinned {
            0
        } else {
            spec_line_length(line)
        };
        let next: usize = if len > acc {
            len
        } else {
            acc
        };
        spec_max_line_length_from(lines, start + 1, count - 1, next)
    }
}

/// Longest line among up to `count` lines of `lines` starting at `start`.
pub open spec fn spec_max_line_length(lines: Seq<LineContent>, start: int, count: int) -> usize {
    spec_max_line_length_from(lines, start, count, 0)
}

/// Columns a `push_lines` window spans: the viewport width, less the
/// scrollbar's column when one is drawn.
pub open spec fn spec_push_width(m: SliceModel, scroll_bar: bool) -> usize {
    if scroll_bar && m.width > 0 {
        (m.width - 1) as usize
    } else {
        m.width
    }
}

/// The clipped lines produced for up to `count` rows of `lines` starting
/// at `start`.
pub open spec fn spec_render_rows(
    lines: Seq<LineContent>,
    start: int,
    count: int,
    left: usize,
    width: usize,
) -> Seq<LineContent>
    decreases count,
{
    if count <= 0 || start < 0 || start >= lines.len() {
        Seq::empty()
    } else {
        seq![spec_clip_line(lines[start], left as nat, width as nat)] + spec_render_rows(
            lines,
            start + 1,
            count - 1,
            left,
            width,
        )
    }
}

/// Scroll position after the given rows are brought into view in order.
pub open spec fn spec_ensure_rows(position: ScrollPosition, rows: Seq<usize>) -> ScrollPosition
    decreases rows.len(),
{
    if rows.len() == 0 {
        position
    } else {
        spec_ensure_rows(position.spec_ensure_row(rows[0]), rows.subrange(1, rows.len() as int))
    }
}

/// State after `rebuild`: the render version is bumped, the content
/// identity and flags are adopted, scrollbar necessity is decided, the
/// scroll position is refitted to the content, and the bounded line window
/// is recomputed under the layout precedence title, trailing lines,
/// leading lines, main content.
pub open spec fn spec_rebuild(m: SliceModel, view_data: ViewData) -> SliceModel {
    let leading_count = view_data.leading_lines@.len() as usize;
    let trailing_count = view_data.trailing_lines@.len() as usize;
    let content_count = view_data.lines@.len() as usize;
    let shows_scrollbar = m.padding_height < m.height && content_count > m.height
        - m.padding_height;
    let pos0 = m.scroll_position.spec_set_lines_length(content_count);
    let pos1 = spec_ensure_rows(pos0, view_data.visible_rows@);
    let title: usize = if view_data.show_title {
        1
    } else {
        0
    };
    let leading_end: usize = if leading_count == 0 {
        0
    } else {
        let avail = m.height.saturating_sub(title.saturating_add(trailing_count));
        if leading_count < avail {
            leading_count
        } else {
            avail
        }
    };
    let max_leading: usize = if leading_count == 0 {
        0
    } else {
        spec_max_line_length(view_data.leading_lines@, 0, leading_end as int)
    };
    let trailing_end: usize = if trailing_count == 0 {
        0
    } else {
        let avail = m.height.saturating_sub(title);
        if trailing_count < avail {
            trailing_count
        } else {
            avail
        }
    };
    let max_trailing: usize = if trailing_count == 0 {
        0
    } else {
        spec_max_line_length(view_data.trailing_lines@, 0, trailing_end as int)
    };
    let avail_main = m.height.saturating_sub(m.padding_height);
    let lines_start: usize = if content_count == 0 {
        0
    } else {
        pos1.top
    };
    let lines_end: usize = if content_count == 0 {
        0
    } else if content_count < avail_main {
        content_count
    } else {
        avail_main
    };
    let max_main: usize = if content_count == 0 {
        0
    } else {
        spec_max_line_length(view_data.lines@, lines_start as int, lines_end as int).saturating_add(
            if shows_scrollbar {
                1
            } else {
                0
            },
        )
    };
    let longest: usize = {
        let widest = if max_main > max_leading {
            max_main
        } else {
            max_leading
        };
        if widest > max_trailing {
            widest
        } else {
            max_trailing
        }
    };
    let pos2 = pos1.spec_set_max_line_length(longest);
    let pos3 = match view_data.visible_column {
        Some(column) => pos2.spec_ensure_column(column),
        None => pos2,
    };
    let m1 = SliceModel {
        version: m.version.wrapping_add(1),
        view_data_name: view_data.name@,
        view_data_version: view_data.version,
        show_title: view_data.show_title,
        show_help: view_data.show_help,
        should_show_scrollbar: shows_scrollbar,
        scroll_position: pos3,
        lines_count: content_count,
        lines_leading_count: leading_end,
        lines_trailing_count: trailing_end,
        ..m
    };
    let main_width: usize = if shows_scrollbar && m.width > 0 {
        (m.width - 1) as usize
    } else {
        m.width
    };
    let rendered = spec_render_rows(view_data.leading_lines@, 0, leading_end as int, pos3.left, m.width)
        + spec_render_rows(
        view_data.lines@,
        lines_start as int,
        lines_end as int,
        pos3.left,
        main_width,
    ) + spec_render_rows(view_data.trailing_lines@, 0, trailing_end as int, pos3.left, m.width);
    SliceModel { lines: rendered, ..m1 }
}

/// The interpolated scrollbar-thumb slot for an interior top row: `top - 1`
/// is mapped linearly from `[0, count - view_height - 2]` onto
/// `[0, view_height - 3]`, rounded to the nearest slot with ties away from
/// zero, and shifted up by one.
pub open spec fn spec_interpolated_index(top: int, count: int, view_height: int) -> int {
    let span = count - view_height - 2;
    1 + (2 * (top - 1) * (view_height - 3) + span) / (2 * span)
}

/// Scrollbar-thumb slot for a window of `view_height` rows over `count`
/// content rows with `top` as the first visible row: slot 0 everywhere the
/// viewport is degenerate or at the very top, the last slot exactly at the
/// bottom, the rounded centre when no interior range exists, and the
/// rounded linear interpolation in between.
pub open spec fn spec_scroll_index_at(top: int, count: int, view_height: int) -> int {
    if count == 0 || top == 0 {
        0
    } else if view_height <= 1 || view_height > count {
        0
    } else if top >= count - view_height {
        view_height - 1
    } else if view_height <= 2 {
        0
    } else if count - view_height <= 2 {
        (view_height + 1) / 2
    } else {
        spec_interpolated_index(top, count, view_height)
    }
}

/// Scrollbar-thumb slot the engine shows for its current state.
pub open spec fn spec_scroll_index(m: SliceModel) -> int {
    spec_scroll_index_at(
        m.scroll_position.top as int,
        m.lines_count as int,
        m.height.saturating_sub(m.padding_height) as int,
    )
}

/// For an interior top row the interpolated slot stays strictly between
/// the top and bottom slots: in `[1, view_height - 2]`.
pub proof fn lemma_interpolated_index_bounds(top: int, count: int, view_height: int)
    requires
        3 <= view_height,
        count - view_height > 2,
        1 <= top < count - view_height,
    ensures
        1 <= spec_interpolated_index(top, count, view_height) <= view_height - 2,
{
    let span = count - view_height - 2;
    let numerator = 2 * (top - 1) * (view_height - 3) + span;
    vstd::arithmetic::div_mod::lemma_div_pos_is_pos(numerator, 2 * span);
    assert(2 * (top - 1) * (view_height - 3) >= 0) by (nonlinear_arith)
        requires
            top >= 1,
            view_height >= 3,
    ;
    assert(numerator <= span * (2 * view_height - 5)) by (nonlinear_arith)
        requires
            top - 1 <= span,
            view_height >= 3,
            span > 0,
            numerator == 2 * (top - 1) * (view_height - 3) + span,
    ;
    vstd::arithmetic::div_mod::lemma_div_is_ordered(numerator, span * (2 * view_height - 5), 2 * span);
    assert(span * (2 * view_height - 5) == (view_height - 3) * (2 * span) + span) by (nonlinear_arith);
    vstd::arithmetic::div_mod::lemma_fundamental_div_mod_converse(
        span * (2 * view_height - 5),
        2 * span,
        view_height - 3,
        span,
    );
    assert(numerator / (2 * span) <= view_height - 3);
}

/// The thumb slot never moves up as the top row moves down: for one
/// content length and viewport height the index is monotone in the top
/// row, and it stays between slot 0 and slot `view_height - 1`.
pub proof fn lemma_scroll_index_monotonic(
    top1: int,
    top2: int,
    count: int,
    view_height: int,
)
    requires
        0 <= top1 <= top2,
        0 <= count,
        0 <= view_height,
    ensures
        spec_scroll_index_at(top1, count, view_height) <= spec_scroll_index_at(
            top2,
            count,
            view_height,
        ),
        0 <= spec_scroll_index_at(top1, count, view_height) <= if view_height >= 1 {
            view_height - 1
        } else {
            0
        },
{
    lemma_scroll_index_bounds(top1, count, view_height);
    lemma_scroll_index_bounds(top2, count, view_height);
    if count == 0 || view_height <= 1 || view_height > count || top1 == 0 {
    } else if top1 >= count - view_height {
        assert(top2 >= count - view_height);
    } else if view_height <= 2 {
    } else if count - view_height <= 2 {
        // both rows sit in the centre branch or the second reached bottom
        if top2 < count - view_height {
        } else {
            assert((view_height + 1) / 2 <= view_height - 1);
        }
    } else {
        lemma_interpolated_index_bounds(top1, count, view_height);
        if top2 >= count - view_height {
        } else if top2 == 0 {
        } else {
            let span = count - view_height - 2;
            let n1 = 2 * (top1 - 1) * (view_height - 3) + span;
            let n2 = 2 * (top2 - 1) * (view_height - 3) + span;
            vstd::arithmetic::mul::lemma_mul_inequality(
                2 * (top1 - 1),
                2 * (top2 - 1),
                view_height - 3,
            );
            assert(2 * (top1 - 1) * (view_height - 3) <= 2 * (top2 - 1) * (view_height - 3))
                by (nonlinear_arith)
                requires
                    top1 <= top2,
                    view_height >= 3,
            ;
            vstd::arithmetic::div_mod::lemma_div_is_ordered(n1, n2, 2 * span);
        }
    }
}

/// The thumb slot always lies between slot 0 and the last slot.
pub proof fn lemma_scroll_index_bounds(top: int, count: int, view_height: int)
    requires
        0 <= top,
        0 <= count,
        0 <= view_height,
    ensures
        0 <= spec_scroll_index_at(top, count, view_height),
        view_height >= 1 ==> spec_scroll_index_at(top, count, view_height) <= view_height - 1,
        view_height == 0 ==> spec_scroll_index_at(top, count, view_height) == 0,
{
    if count == 0 || top == 0 {
    } else if view_height <= 1 || view_height > count {
    } else if top >= count - view_height {
    } else if view_height <= 2 {
    } else if count - view_height <= 2 {
        assert((view_height + 1) / 2 <= view_height - 1);
        assert((view_height + 1) / 2 >= 0);
    } else {
        lemma_interpolated_index_bounds(top, count, view_height);
    }
}

/// State after `sync_view_data`: padding is refreshed and the active
/// position swapped when the content identity changed, the queue is
/// drained in arrival order, and the window is rebuilt if anything asked
/// for it; otherwise nothing changes.
pub open spec fn spec_sync(m: SliceModel, view_data: ViewData) -> SliceModel {
    let expired = !(m.view_data_name == view_data.name@ && m.view_data_version
        == view_data.version);
    let m1 = if expired {
        spec_set_padding_height(m, view_data)
    } else {
        m
    };
    let m2 = spec_set_active_scroll_position(m1, view_data);
    let has_actions = m2.actions.len() > 0;
    let m3 = spec_drain_actions(m2);
    if has_actions || expired {
        spec_rebuild(m3, view_data)
    } else {
        m3
    }
}

/// Syncing against unchanged content is idempotent: with an unchanged
/// (name, version) pair and an empty action queue, `sync_view_data` leaves
/// the whole engine state unchanged, the render version included.
pub proof fn lemma_sync_idempotent(m: SliceModel, view_data: ViewData)
    requires
        m.view_data_name == view_data.name@,
        m.view_data_version == view_data.version,
        m.actions.len() == 0,
    ensures
        spec_sync(m, view_data) == m,
{
    assert(spec_apply_actions(m, m.actions) == m);
    assert(spec_drain_actions(m) =~= m);
}

/// With a window of zero width every rendered row comes out empty.
pub proof fn lemma_render_rows_zero_width(
    lines: Seq<LineContent>,
    start: int,
    count: int,
    left: usize,
)
    ensures
        forall|i: int|
            0 <= i < spec_render_rows(lines, start, count, left, 0).len()
                ==> (#[trigger] spec_render_rows(lines, start, count, left, 0)[i]).segments.len()
                == 0,
    decreases count,
{
    if count <= 0 || start < 0 || start >= lines.len() {
    } else {
        lemma_render_rows_zero_width(lines, start + 1, count - 1, left);
        let clipped = spec_clip_line(lines[start], left as nat, 0);
        assert(clipped.segments.len() == 0);
    }
}

/// A viewport of height zero yields an empty rendered line set, and one of
/// width zero yields rows with no content; neither is an error.
pub proof fn lemma_rebuild_empty_viewport(m: SliceModel, view_data: ViewData)
    ensures
        m.height == 0 ==> spec_rebuild(m, view_data).lines =~= Seq::<LineContent>::empty(),
        m.width == 0 ==> forall|i: int|
            0 <= i < spec_rebuild(m, view_data).lines.len()
                ==> (#[trigger] spec_rebuild(m, view_data).lines[i]).segments.len() == 0,
{
    if m.width == 0 {
        let result = spec_rebuild(m, view_data);
        let leading_count = view_data.leading_lines@.len() as usize;
        let trailing_count = view_data.trailing_lines@.len() as usize;
        let content_count = view_data.lines@.len() as usize;
        let pos3 = result.scroll_position;
        lemma_render_rows_zero_width(view_data.leading_lines@, 0, result.lines_leading_count as int, pos3.left);
        lemma_render_rows_zero_width(view_data.trailing_lines@, 0, result.lines_trailing_count as int, pos3.left);
        lemma_render_rows_zero_width(
            view_data.lines@,
            if content_count == 0 { 0 } else { pos3.top as int },
            spec_rebuild_lines_end(m, view_data) as int,
            pos3.left,
        );
    }
}

/// Rows of main content `rebuild` shows for this state and content.
pub open spec fn spec_rebuild_lines_end(m: SliceModel, view_data: ViewData) -> usize {
    let content_count = view_data.lines@.len() as usize;
    let avail_main = m.height.saturating_sub(m.padding_height);
    if content_count == 0 {
        0
    } else if content_count < avail_main {
        content_count
    } else {
        avail_main
    }
}

impl RenderSlice {
    /// Cached positions are one per name, every held position is inside its
    /// bounds, and every rendered line is well formed.
    pub open spec fn wf(self) -> bool {
        &&& self.scroll_position.wf()
        &&& forall|i: int|
            0 <= i < self@.cache.len() ==> (#[trigger] self@.cache[i].1).wf()
        &&& forall|i: int, j: int|
            0 <= i < j < self@.cache.len() ==> self@.cache[i].0 != self@.cache[j].0
        &&& self.lines.wf()
    }

    /// Engine with an empty queue, no content and a zero-extent viewport.
    pub fn new() -> (r: Self)
        ensures
            r@ == (SliceModel {
                actions: Seq::<RenderAction>::empty(),
                height: 0,
                width: 0,
                padding_height: 0,
                lines: Seq::<LineContent>::empty(),
                lines_count: 0,
                lines_leading_count: 0,
                lines_trailing_count: 0,
                scroll_position: origin_position(),
                cache: Seq::<(Seq<char>, ScrollPosition)>::empty(),
                should_show_scrollbar: false,
                show_help: false,
                show_title: false,
                version: 0,
                view_data_name: Seq::<char>::empty(),
                view_data_version: 0,
            }),
            r.wf(),
    {
        let r = RenderSlice {
            actions: Vec::new(),
            height: 0,
            width: 0,
            padding_height: 0,
            lines: ViewLines::new(),
            lines_count: 0,
            lines_leading_count: 0,
            lines_trailing_count: 0,
            scroll_position: ScrollPosition::new(),
            scroll_position_cache: Vec::new(),
            should_show_scrollbar: false,
            show_help: false,
            show_title: false,
            version: 0,
            view_data_name: String::new(),
            view_data_version: 0,
        };
        proof {
            assert(r@.cache =~= Seq::<(Seq<char>, ScrollPosition)>::empty());
            assert(r@ =~= (SliceModel {
                actions: Seq::<RenderAction>::empty(),
                height: 0,
                width: 0,
                padding_height: 0,
                lines: Seq::<LineContent>::empty(),
                lines_count: 0,
                lines_leading_count: 0,
                lines_trailing_count: 0,
                scroll_position: origin_position(),
                cache: Seq::<(Seq<char>, ScrollPosition)>::empty(),
                should_show_scrollbar: false,
                show_help: false,
                show_title: false,
                version: 0,
                view_data_name: Seq::<char>::empty(),
                view_data_version: 0,
            }));
        }
        r
    }

    /// Queue a one-row upward scroll.
    pub fn record_scroll_up(&mut self)
        ensures
            final(self)@ == (SliceModel {
                actions: old(self)@.actions.push(RenderAction::ScrollUp),
                ..old(self)@
            }),
            old(self).wf() ==> final(self).wf(),
    {
        self.actions.push(RenderAction::ScrollUp);
        proof {
            self.lemma_action_pushed(*old(self), RenderAction::ScrollUp);
        }
    }

    /// Queue a one-row downward scroll.
    pub fn record_scroll_down(&mut self)
        ensures
            final(self)@ == (SliceModel {
                actions: old(self)@.actions.push(RenderAction::ScrollDown),
                ..old(self)@
            }),
            old(self).wf() ==> final(self).wf(),
    {
        self.actions.push(RenderAction::ScrollDown);
        proof {
            self.lemma_action_pushed(*old(self), RenderAction::ScrollDown);
        }
    }

    /// Queue a one-page upward scroll.
    pub fn record_page_up(&mut self)
        ensures
            final(self)@ == (SliceModel {
                actions: old(self)@.actions.push(RenderAction::PageUp),
                ..old(self)@
            }),
            old(self).wf() ==> final(self).wf(),
    {
        self.actions.push(RenderAction::PageUp);
        proof {
            self.lemma_action_pushed(*old(self), RenderAction::PageUp);
        }
    }

    /// Queue a one-page downward scroll.
    pub fn record_page_down(&mut self)
        ensures
            final(self)@ == (SliceModel {
                actions: old(self)@.actions.push(RenderAction::PageDown),
                ..old(self)@
            }),
            old(self).wf() ==> final(self).wf(),
    {
        self.actions.push(RenderAction::PageDown);
        proof {
            self.lemma_action_pushed(*old(self), RenderAction::PageDown);
        }
    }

    /// Queue a one-column leftward scroll.
    pub fn record_scroll_left(&mut self)
        ensures
            final(self)@ == (SliceModel {
                actions: old(self)@.actions.push(RenderAction::ScrollLeft),
                ..old(self)@
            }),
            old(self).wf() ==> final(self).wf(),
    {
        self.actions.push(RenderAction::ScrollLeft);
        proof {
            self.lemma_action_pushed(*old(self), RenderAction::ScrollLeft);
        }
    }

    /// Queue a one-column rightward scroll.
    pub fn record_scroll_right(&mut self)
        ensures
            final(self)@ == (SliceModel {
                actions: old(self)@.actions.push(RenderAction::ScrollRight),
                ..old(self)@
            }),
            old(self).wf() ==> final(self).wf(),
    {
        self.actions.push(RenderAction::ScrollRight);
        proof {
            self.lemma_action_pushed(*old(self), RenderAction::ScrollRight);
        }
    }

    /// Queue a jump to the first row.
    pub fn record_scroll_top(&mut self)
        ensures
            final(self)@ == (SliceModel {
                actions: old(self)@.actions.push(RenderAction::ScrollTop),
                ..old(self)@
            }),
            old(self).wf() ==> final(self).wf(),
    {
        self.actions.push(RenderAction::ScrollTop);
        proof {
            self.lemma_action_pushed(*old(self), RenderAction::ScrollTop);
        }
    }

    /// Queue a jump to the last full window.
    pub fn record_scroll_bottom(&mut self)
        ensures
            final(self)@ == (SliceModel {
                actions: old(self)@.actions.push(RenderAction::ScrollBottom),
                ..old(self)@
            }),
            old(self).wf() ==> final(self).wf(),
    {
        self.actions.push(RenderAction::ScrollBottom);
        proof {
            self.lemma_action_pushed(*old(self), RenderAction::ScrollBottom);
        }
    }

    /// Queue a viewport resize.
    pub fn record_resize(&mut self, width: usize, height: usize)
        ensures
            final(self)@ == (SliceModel {
                actions: old(self)@.actions.push(RenderAction::Resize(width, height)),
                ..old(self)@
            }),
            old(self).wf() ==> final(self).wf(),
    {
        self.actions.push(RenderAction::Resize(width, height));
        proof {
            self.lemma_action_pushed(*old(self), RenderAction::Resize(width, height));
        }
    }

    /// Pushing an action changes the model's queue alone.
    proof fn lemma_action_pushed(&self, prev: Self, action: RenderAction)
        requires
            self.actions@ == prev.actions@.push(action),
            self.height == prev.height,
            self.width == prev.width,
            self.padding_height == prev.padding_height,
            self.lines == prev.lines,
            self.lines_count == prev.lines_count,
            self.lines_leading_count == prev.lines_leading_count,
            self.lines_trailing_count == prev.lines_trailing_count,
            self.scroll_position == prev.scroll_position,
            self.scroll_position_cache == prev.scroll_position_cache,
            self.should_show_scrollbar == prev.should_show_scrollbar,
            self.show_help == prev.show_help,
            self.show_title == prev.show_title,
            self.version == prev.version,
            self.view_data_name == prev.view_data_name,
            self.view_data_version == prev.view_data_version,
        ensures
            self@ == (SliceModel { actions: prev@.actions.push(action), ..prev@ }),
            prev.wf() ==> self.wf(),
    {
        assert(self@ =~= (SliceModel { actions: prev@.actions.push(action), ..prev@ }));
    }

    /// Scrollbar-thumb slot for the current scroll state: slot 0 at the
    /// top or for a degenerate viewport, the last slot exactly at the
    /// bottom, the rounded centre when no interior range exists, and the
    /// rounded linear interpolation in between.
    pub fn get_scroll_index(&self) -> (r: usize)
        ensures
            r as int == spec_scroll_index(self@),
    {
        let top: usize = self.scroll_position.get_top_position();
        if self.lines_count == 0 || top == 0 {
            return 0;
        }
        let view_height: usize = self.height.saturating_sub(self.padding_height);
        if view_height <= 1 || view_height > self.lines_count {
            return 0;
        }
        // at the bottom of the content
        if top >= self.lines_count - view_height {
            return view_height - 1;
        }
        if view_height <= 2 {
            return 0;
        }
        // no interior input range: centre the thumb
        if self.lines_count - view_height <= 2 {
            return (view_height + 1) / 2;
        }
        // interpolate the top row from [1, count - view_height - 1] onto
        // [1, view_height - 2], rounding to the nearest slot, ties upward
        let span: usize = self.lines_count - view_height - 2;
        proof {
            let s = span as int;
            let v = view_height as int;
            let t = (top - 1) as int;
            assert(usize::MAX <= u64::MAX);
            assert(0 <= s + v <= u64::MAX);
            assert((s + v) * (s + v) <= (u64::MAX as int) * (u64::MAX as int)) by (nonlinear_arith)
                requires
                    0 <= s + v <= u64::MAX as int,
            ;
            assert(4 * (s * v) <= (s + v) * (s + v)) by (nonlinear_arith);
            assert(s * (v - 3) <= s * v) by (nonlinear_arith)
                requires
                    s >= 0,
                    v >= 3,
            ;
            assert(t * (v - 3) <= s * (v - 3)) by (nonlinear_arith)
                requires
                    0 <= t <= s,
                    v >= 3,
            ;
            assert((u64::MAX as int) * (u64::MAX as int)
                < 0x100000000000000000000000000000000) by (nonlinear_arith);
            assert(s * v < 0x40000000000000000000000000000000);
            assert(t * (v - 3) < 0x40000000000000000000000000000000);
            assert(2 * (t * (v - 3)) + s <= u128::MAX);
        }
        let product: u128 = ((top - 1) as u128) * ((view_height - 3) as u128);
        let numerator: u128 = 2 * product + (span as u128);
        let denominator: u128 = 2 * (span as u128);
        let index: u128 = 1 + numerator / denominator;
        proof {
            lemma_interpolated_index_bounds(top as int, self.lines_count as int, view_height as int);
            let s = span as int;
            let v = view_height as int;
            let t = (top - 1) as int;
            assert(2 * (t * (v - 3)) == 2 * t * (v - 3)) by (nonlinear_arith);
            assert(product as int == t * (v - 3));
            assert(numerator as int == 2 * t * (v - 3) + s);
            assert(index as int == spec_interpolated_index(
                top as int,
                self.lines_count as int,
                view_height as int,
            ));
        }
        index as usize
    }

    pub fn should_show_scroll_bar(&self) -> (r: bool)
        ensures
            r == self@.should_show_scrollbar,
    {
        self.should_show_scrollbar
    }

    pub fn show_title(&self) -> (r: bool)
        ensures
            r == self@.show_title,
    {
        self.show_title
    }

    pub fn show_help(&self) -> (r: bool)
        ensures
            r == self@.show_help,
    {
        self.show_help
    }

    pub fn get_leading_lines_count(&self) -> (r: usize)
        ensures
            r == self@.lines_leading_count,
    {
        self.lines_leading_count
    }

    pub fn get_trailing_lines_count(&self) -> (r: usize)
        ensures
            r == self@.lines_trailing_count,
    {
        self.lines_trailing_count
    }

    /// The bounded line window last produced for the paint stage.
    pub fn view_lines(&self) -> (r: &ViewLines)
        ensures
            r == &self.lines,
            r@ == self@.lines,
    {
        &self.lines
    }

    /// The render version: it changes exactly when the engine recomputes.
    pub fn get_version(&self) -> (r: u32)
        ensures
            r == self@.version,
    {
        self.version
    }

    /// The queued, not yet drained actions.
    pub fn get_actions(&self) -> (r: &Vec<RenderAction>)
        ensures
            r@ == self@.actions,
    {
        &self.actions
    }

    /// Whether the last-seen content identity differs from the given one.
    pub fn cache_expired(&self, view_data: &ViewData) -> (r: bool)
        ensures
            r == !(self@.view_data_name == view_data.name@ && self@.view_data_version
                == view_data.version),
    {
        !str_eq(self.view_data_name.as_str(), view_data.get_name())
            || self.view_data_version != view_data.get_version()
    }

    /// Adopt a new viewport size and refit the scroll position to it.
    pub fn set_size(&mut self, view_width: usize, view_height: usize)
        requires
            old(self).wf(),
        ensures
            final(self)@ == spec_set_size(old(self)@, view_width, view_height),
            final(self).wf(),
    {
        if self.height != view_height || self.width != view_width {
            self.height = view_height;
            self.width = view_width;
            self.update_scroll_position_size();
            proof {
                assert(self@ =~= spec_set_size(old(self)@, view_width, view_height));
            }
        } else {
            proof {
                assert(self@ =~= spec_set_size(old(self)@, view_width, view_height));
            }
        }
    }

    /// Recompute the padding the given content reserves and refit the
    /// scroll position when it changed.
    pub fn set_padding_height(&mut self, view_data: &ViewData)
        requires
            old(self).wf(),
        ensures
            final(self)@ == spec_set_padding_height(old(self)@, *view_data),
            final(self).wf(),
    {
        let title: usize = if view_data.show_title() { 1 } else { 0 };
        let padding_height: usize = title.saturating_add(view_data.leading_lines().count())
            .saturating_add(view_data.trailing_lines().count());
        if self.padding_height != padding_height {
            self.padding_height = padding_height;
            proof {
                assert(self@.cache =~= old(self)@.cache);
                assert(self.wf());
            }
            self.update_scroll_position_size();
            proof {
                assert(self@ =~= spec_set_padding_height(old(self)@, *view_data));
            }
        } else {
            proof {
                assert(self@ =~= spec_set_padding_height(old(self)@, *view_data));
            }
        }
    }

    /// Refit the scroll position to the room the viewport leaves: the
    /// height net of padding, the width net of a shown scrollbar's column.
    pub fn update_scroll_position_size(&mut self)
        requires
            old(self).wf(),
        ensures
            final(self)@ == spec_update_scroll_position_size(old(self)@),
            final(self).wf(),
    {
        let viewport_height: usize = if self.height == 0 || self.padding_height > self.height {
            0
        } else {
            self.height - self.padding_height
        };
        let scrollbar: usize = if self.should_show_scroll_bar() { 1 } else { 0 };
        let viewport_width: usize = if self.width == 0 { 0 } else { self.width - scrollbar };
        self.scroll_position.resize(viewport_height, viewport_width);
        proof {
            assert(self@ =~= spec_update_scroll_position_size(old(self)@));
        }
    }

    /// Index found by `spec_cache_index` is the first and, under unique
    /// keys, the only entry holding `name`.
    proof fn lemma_cache_index_props(entries: Seq<(Seq<char>, ScrollPosition)>, name: Seq<char>)
        ensures
            ({
                let index = spec_cache_index(entries, name);
                &&& index >= 0 ==> index < entries.len() && entries[index].0 == name && (forall|j: int|
                    0 <= j < index ==> (#[trigger] entries[j]).0 != name)
                &&& index < 0 ==> forall|j: int|
                    0 <= j < entries.len() ==> (#[trigger] entries[j]).0 != name
            }),
        decreases entries.len(),
    {
        if entries.len() == 0 {
        } else if entries[0].0 == name {
        } else {
            let rest = entries.subrange(1, entries.len() as int);
            Self::lemma_cache_index_props(rest, name);
            assert(forall|j: int| 1 <= j < entries.len() ==> entries[j] == rest[j - 1]);
        }
    }

    /// Linear search for the entry stored under `name`.
    fn cache_find(entries: &Vec<(String, ScrollPosition)>, name: &str) -> (r: Option<usize>)
        ensures
            ({
                let view = entries@.map_values(|e: (String, ScrollPosition)| (e.0@, e.1));
                let index = spec_cache_index(view, name@);
                match r {
                    Some(i) => index == i,
                    None => index == -1,
                }
            }),
    {
        let ghost view = entries@.map_values(|e: (String, ScrollPosition)| (e.0@, e.1));
        proof {
            Self::lemma_cache_index_props(view, name@);
        }
        let count: usize = entries.len();
        let mut i: usize = 0;
        while i < count
            invariant
                i <= count == entries@.len(),
                view == entries@.map_values(|e: (String, ScrollPosition)| (e.0@, e.1)),
                forall|j: int| 0 <= j < i ==> (#[trigger] view[j]).0 != name@,
            decreases count - i,
        {
            if str_eq(entries[i].0.as_str(), name) {
                proof {
                    Self::lemma_cache_index_props(view, name@);
                    let index = spec_cache_index(view, name@);
                    assert(view[i as int].0 == name@);
                    assert(index >= 0);
                    assert(index >= i);
                    assert(index == i);
                }
                return Some(i);
            }
            i = i + 1;
        }
        proof {
            Self::lemma_cache_index_props(view, name@);
            let index = spec_cache_index(view, name@);
            if index >= 0 {
                assert(view[index].0 == name@);
                assert(false);
            }
        }
        None
    }

    /// Swap the active scroll position when the screen changes: the
    /// outgoing position is stored under the outgoing name, the incoming
    /// name's cached position (or a fresh one) becomes active, is reset
    /// when its scroll version is stale or the content declines to retain
    /// it, and is refitted to the viewport.
    #[verifier::rlimit(60)]
    pub fn set_active_scroll_position(&mut self, view_data: &ViewData)
        requires
            old(self).wf(),
        ensures
            final(self)@ == spec_set_active_scroll_position(old(self)@, *view_data),
            final(self).wf(),
    {
        if str_eq(view_data.get_name(), self.view_data_name.as_str()) {
            return;
        }
        let ghost cache0 = self@.cache;
        let ghost name_new = view_data.name@;
        let ghost name_old = self.view_data_name@;
        // load the incoming name's cached position, removing its entry
        let found: Option<usize> = Self::cache_find(&self.scroll_position_cache, view_data.get_name());
        let incoming: ScrollPosition = match found {
            Some(index) => {
                proof {
                    Self::lemma_cache_index_props(cache0, name_new);
                }
                let entry = self.scroll_position_cache.remove(index);
                entry.1
            },
            None => ScrollPosition::new(),
        };
        proof {
            Self::lemma_cache_index_props(cache0, name_new);
            assert(self@.cache =~= spec_remove_key(cache0, name_new));
            assert(incoming == spec_cache_lookup(cache0, name_new));
            assert(incoming.wf());
            assert forall|i: int, j: int| 0 <= i < j < self@.cache.len() implies self@.cache[i].0
                != self@.cache[j].0 by {}
            assert forall|i: int| 0 <= i < self@.cache.len() implies (#[trigger] self@.cache[i].1).wf()
                by {}
        }
        let ghost cache1 = self@.cache;
        // drop any stale entry under the outgoing name, then store the
        // outgoing position beneath it
        let stale: Option<usize> = Self::cache_find(
            &self.scroll_position_cache,
            self.view_data_name.as_str(),
        );
        if let Some(index) = stale {
            proof {
                Self::lemma_cache_index_props(cache1, name_old);
            }
            let _ = self.scroll_position_cache.remove(index);
        }
        proof {
            Self::lemma_cache_index_props(cache1, name_old);
            assert(self@.cache =~= spec_remove_key(cache1, name_old));
        }
        let ghost cache2 = self@.cache;
        proof {
            Self::lemma_cache_index_props(cache2, name_old);
            assert forall|i: int| 0 <= i < cache2.len() implies (#[trigger] cache2[i]).0 != name_old
                by {
                if cache2[i].0 == name_old {
                    let stale_index = spec_cache_index(cache1, name_old);
                    if stale_index < 0 {
                        assert(cache2 == cache1);
                    } else {
                        assert(forall|a: int, b: int|
                            0 <= a < b < cache1.len() ==> cache1[a].0 != cache1[b].0);
                        if i < stale_index {
                            assert(cache2[i] == cache1[i]);
                        } else {
                            assert(cache2[i] == cache1[i + 1]);
                        }
                    }
                }
            }
        }
        let outgoing_name: String = self.view_data_name.clone();
        self.scroll_position_cache.push((outgoing_name, self.scroll_position));
        proof {
            assert(self@.cache =~= cache2.push((name_old, old(self).scroll_position)));
        }
        self.scroll_position = incoming;
        let version: u32 = view_data.get_scroll_version();
        if self.scroll_position.get_version() != version || !view_data.retain_scroll_position() {
            self.scroll_position.reset();
            self.scroll_position.set_version(version);
        }
        proof {
            assert(self.scroll_position.wf());
            assert(self.wf());
        }
        self.update_scroll_position_size();
        proof {
            assert(self@ =~= spec_set_active_scroll_position(old(self)@, *view_data));
        }
    }

    /// Longest line in the window of up to `length` lines starting at
    /// `start`; segment lengths are summed with saturation.
    pub fn calculate_max_line_length(view_lines: &ViewLines, start: usize, length: usize) -> (r:
        usize)
        requires
            view_lines.wf(),
        ensures
            r == spec_max_line_length(view_lines@, start as int, length as int),
    {
        let ghost v = view_lines@;
        let count: usize = view_lines.count();
        let mut longest: usize = 0;
        let mut i: usize = start;
        let mut taken: usize = 0;
        while i < count && taken < length
            invariant
                view_lines.wf(),
                v == view_lines@,
                count == v.len(),
                start <= i,
                i - start == taken,
                taken <= length,
                spec_max_line_length(v, start as int, length as int) == spec_max_line_length_from(
                    v,
                    i as int,
                    length - taken,
                    longest,
                ),
            decreases count - i,
        {
            let line = view_lines.get(i);
            let segment_count: usize = line.get_segments().len();
            let pinned: usize = line.get_number_of_pinned_segment();
            if segment_count > pinned {
                let ghost segs = line@.segments;
                let mut sum: usize = 0;
                let mut j: usize = 0;
                while j < segment_count
                    invariant
                        line.wf(),
                        segs == line@.segments,
                        segment_count == segs.len(),
                        j <= segment_count,
                        sum == sat_usize(flat_len(segs.take(j as int))),
                    decreases segment_count - j,
                {
                    proof {
                        assert(segs.take(j + 1) =~= segs.take(j as int).push(segs[j as int]));
                        crate::clip::lemma_flat_len_push(segs.take(j as int), segs[j as int]);
                        assert(line.segments@[j as int].wf());
                    }
                    let segment_length: usize = line.get_segments()[j].get_length();
                    sum = sum.saturating_add(segment_length);
                    j = j + 1;
                }
                proof {
                    assert(segs.take(segment_count as int) =~= segs);
                }
                if sum > longest {
                    longest = sum;
                }
            }
            i = i + 1;
            taken = taken + 1;
        }
        longest
    }

    /// Clip up to `end` rows of `view_lines` starting at `start` against
    /// the current left offset and append them to the rendered window; a
    /// drawn scrollbar costs the window one column.
    pub fn push_lines(&mut self, view_lines: &ViewLines, start: usize, end: usize, scroll_bar: bool)
        requires
            old(self).wf(),
            view_lines.wf(),
        ensures
            final(self)@ == (SliceModel {
                lines: old(self)@.lines + spec_render_rows(
                    view_lines@,
                    start as int,
                    end as int,
                    old(self)@.scroll_position.left,
                    spec_push_width(old(self)@, scroll_bar),
                ),
                ..old(self)@
            }),
            final(self).wf(),
    {
        let ghost m0 = self@;
        let window_width: usize = if scroll_bar && self.width > 0 {
            self.width - 1
        } else {
            self.width
        };
        let left: usize = self.scroll_position.get_left_position();
        let ghost v = view_lines@;
        let ghost base = self@.lines;
        let ghost mut built: Seq<LineContent> = Seq::empty();
        proof {
            assert(base + built =~= base);
        }
        let count: usize = view_lines.count();
        let mut i: usize = start;
        let mut taken: usize = 0;
        while i < count && taken < end
            invariant
                self.wf(),
                view_lines.wf(),
                v == view_lines@,
                count == v.len(),
                start <= i,
                i - start == taken,
                taken <= end,
                window_width == spec_push_width(m0, scroll_bar),
                left == m0.scroll_position.left,
                self@ == (SliceModel { lines: base + built, ..m0 }),
                built + spec_render_rows(v, i as int, end - taken, left, window_width)
                    == spec_render_rows(v, start as int, end as int, left, window_width),
            decreases count - i,
        {
            let line = view_lines.get(i);
            let clipped = clip_line(line, left, window_width);
            let ghost before = self@;
            self.lines.push(clipped);
            proof {
                let c = spec_clip_line(v[i as int], left as nat, window_width as nat);
                assert(built + (seq![c] + spec_render_rows(
                    v,
                    i + 1,
                    end - taken - 1,
                    left,
                    window_width,
                )) =~= built.push(c) + spec_render_rows(v, i + 1, end - taken - 1, left, window_width));
                assert((base + built).push(c) =~= base + built.push(c));
                built = built.push(c);
                assert(self@ =~= (SliceModel { lines: base + built, ..m0 }));
                assert(self@.cache =~= before.cache);
                assert(self.lines.wf());
                assert(self.wf());
            }
            i = i + 1;
            taken = taken + 1;
        }
        proof {
            assert(spec_render_rows(v, i as int, end - taken, left, window_width) =~= Seq::<
                LineContent,
            >::empty());
            assert(built + Seq::<LineContent>::empty() =~= built);
            assert(self@ =~= (SliceModel {
                lines: m0.lines + spec_render_rows(
                    v,
                    start as int,
                    end as int,
                    m0.scroll_position.left,
                    spec_push_width(m0, scroll_bar),
                ),
                ..m0
            }));
        }
    }

    /// Recompute the rendered window from the given content: adopt its
    /// identity and flags, decide scrollbar necessity, refit the scroll
    /// position, and clip each partition to its share of the viewport,
    /// with title and trailing lines taking rows before leading lines.
    #[verifier::rlimit(100)]
    pub fn rebuild(&mut self, view_data: &ViewData)
        requires
            old(self).wf(),
            view_data.wf(),
        ensures
            final(self)@ == spec_rebuild(old(self)@, *view_data),
            final(self).wf(),
    {
        let ghost m0 = self@;
        let leading_lines_length: usize = view_data.leading_lines().count();
        let trailing_lines_length: usize = view_data.trailing_lines().count();
        let lines_length: usize = view_data.lines().count();

        self.version = self.version.wrapping_add(1);
        self.view_data_name = String::from_str(view_data.get_name());
        self.view_data_version = view_data.get_version();
        self.show_title = view_data.show_title();
        self.show_help = view_data.show_help();
        self.should_show_scrollbar = self.padding_height < self.height && lines_length > (
        self.height - self.padding_height);

        self.scroll_position.set_lines_length(lines_length);
        let rows = view_data.visible_rows();
        let ghost pos0 = self.scroll_position;
        let ghost target_pos = spec_ensure_rows(pos0, rows@);
        let ghost m_mid = self@;
        let row_count: usize = rows.len();
        let mut r: usize = 0;
        proof {
            assert(rows@.subrange(0, row_count as int) =~= rows@);
            assert(self@.cache =~= m0.cache);
            assert(self.wf());
        }
        while r < row_count
            invariant
                r <= row_count == rows@.len(),
                self.wf(),
                self@ == (SliceModel { scroll_position: self@.scroll_position, ..m_mid }),
                spec_ensure_rows(self.scroll_position, rows@.subrange(r as int, row_count as int))
                    == target_pos,
            decreases row_count - r,
        {
            proof {
                assert(rows@.subrange(r as int, row_count as int)[0] == rows@[r as int]);
                assert(rows@.subrange(r as int, row_count as int).subrange(
                    1,
                    (row_count - r) as int,
                ) =~= rows@.subrange(r + 1, row_count as int));
            }
            let ghost cache_before = self@.cache;
            self.scroll_position.ensure_line_visible(rows[r]);
            proof {
                assert(self@ =~= (SliceModel { scroll_position: self@.scroll_position, ..m_mid }));
                assert(self@.cache =~= cache_before);
                assert(self.wf());
            }
            r = r + 1;
        }
        proof {
            assert(rows@.subrange(row_count as int, row_count as int) =~= Seq::<usize>::empty());
            assert(self.scroll_position == target_pos);
        }

        let title: usize = if self.show_title {
            1
        } else {
            0
        };
        let (leading_lines_end, max_leading_line_length): (usize, usize) = if leading_lines_length
            == 0 {
            (0, 0)
        } else {
            // trailing lines have precedence over leading lines; the title
            // always has precedence
            let padding_height: usize = title.saturating_add(trailing_lines_length);
            let available_height: usize = self.height.saturating_sub(padding_height);
            let end: usize = if leading_lines_length < available_height {
                leading_lines_length
            } else {
                available_height
            };
            (end, Self::calculate_max_line_length(view_data.leading_lines(), 0, end))
        };

        let (trailing_lines_end, max_trailing_line_length): (usize, usize) = if trailing_lines_length
            == 0 {
            (0, 0)
        } else {
            // the title always has precedence
            let available_height: usize = self.height.saturating_sub(title);
            let end: usize = if trailing_lines_length < available_height {
                trailing_lines_length
            } else {
                available_height
            };
            (end, Self::calculate_max_line_length(view_data.trailing_lines(), 0, end))
        };

        let (lines_start, lines_end, max_line_length): (usize, usize, usize) = if lines_length == 0 {
            (0, 0, 0)
        } else {
            // all other partitions take precedence over the main content
            let available_height: usize = self.height.saturating_sub(self.padding_height);
            let start: usize = self.scroll_position.get_top_position();
            let end: usize = if lines_length < available_height {
                lines_length
            } else {
                available_height
            };
            let max_length: usize = Self::calculate_max_line_length(view_data.lines(), start, end);
            let scrollbar: usize = if self.should_show_scrollbar {
                1
            } else {
                0
            };
            (start, end, max_length.saturating_add(scrollbar))
        };

        self.lines_leading_count = leading_lines_end;
        self.lines_trailing_count = trailing_lines_end;
        self.lines_count = lines_length;
        let widest: usize = if max_line_length > max_leading_line_length {
            max_line_length
        } else {
            max_leading_line_length
        };
        let longest: usize = if widest > max_trailing_line_length {
            widest
        } else {
            max_trailing_line_length
        };
        self.scroll_position.set_max_line_length(longest);
        if let Some(column) = view_data.get_visible_column() {
            self.scroll_position.ensure_column_visible(column);
        }

        self.lines.clear();
        proof {
            assert(self@.cache =~= m0.cache);
            assert(self.wf());
        }
        let scrollbar_shown: bool = self.should_show_scrollbar;
        self.push_lines(view_data.leading_lines(), 0, leading_lines_end, false);
        self.push_lines(view_data.lines(), lines_start, lines_end, scrollbar_shown);
        self.push_lines(view_data.trailing_lines(), 0, trailing_lines_end, false);
        proof {
            assert(self@ =~= spec_rebuild(m0, *view_data));
        }
    }

    /// Bring the engine in line with the given content: refresh padding
    /// and the active scroll position when the content identity changed,
    /// drain the queued actions strictly first to last, and rebuild the
    /// window if the content changed or any action was queued. With an
    /// unchanged identity and an empty queue nothing changes, the render
    /// version included.
    pub fn sync_view_data(&mut self, view_data: &ViewData)
        requires
            old(self).wf(),
            view_data.wf(),
        ensures
            final(self)@ == spec_sync(old(self)@, *view_data),
            final(self).wf(),
    {
        let cache_expired: bool = self.cache_expired(view_data);
        // scroll position bounds depend on padding, so a content change
        // refreshes the padding before any scroll math
        if cache_expired {
            self.set_padding_height(view_data);
        }
        self.set_active_scroll_position(view_data);
        let has_actions: bool = self.actions.len() > 0;
        let ghost m_start = self@;
        let ghost target = spec_apply_actions(m_start, m_start.actions);
        let count: usize = self.actions.len();
        let mut i: usize = 0;
        proof {
            assert(m_start.actions.subrange(0, count as int) =~= m_start.actions);
        }
        while i < count
            invariant
                self.wf(),
                i <= count,
                count == m_start.actions.len(),
                self@.actions == m_start.actions,
                spec_apply_actions(self@, self@.actions.subrange(i as int, count as int)) == target,
            decreases count - i,
        {
            let action: RenderAction = self.actions[i];
            let ghost m_before = self@;
            proof {
                assert(m_before.actions.subrange(i as int, count as int)[0] == action);
                assert(m_before.actions.subrange(i as int, count as int).subrange(
                    1,
                    (count - i) as int,
                ) =~= m_before.actions.subrange(i + 1, count as int));
            }
            match action {
                RenderAction::ScrollDown => self.scroll_position.scroll_down(),
                RenderAction::ScrollUp => self.scroll_position.scroll_up(),
                RenderAction::ScrollRight => self.scroll_position.scroll_right(),
                RenderAction::ScrollLeft => self.scroll_position.scroll_left(),
                RenderAction::ScrollTop => self.scroll_position.scroll_top(),
                RenderAction::ScrollBottom => self.scroll_position.scroll_bottom(),
                RenderAction::PageUp => self.scroll_position.page_up(),
                RenderAction::PageDown => self.scroll_position.page_down(),
                RenderAction::Resize(width, height) => self.set_size(width, height),
            }
            proof {
                assert(self@ =~= spec_apply_action(m_before, action));
                assert(self@.cache =~= m_before.cache);
                assert(self.wf());
            }
            i = i + 1;
        }
        proof {
            assert(self@.actions.subrange(count as int, count as int) =~= Seq::<
                RenderAction,
            >::empty());
            assert(self@ == target);
        }
        self.actions.clear();
        proof {
            assert(self@ =~= spec_drain_actions(m_start));
        }
        if has_actions || cache_expired {
            self.rebuild(view_data);
        }
        proof {
            assert(self@ =~= spec_sync(old(self)@, *view_data));
        }
    }
}

} // verus!
