use rebase_tui::render_slice::{RenderAction, RenderSlice};
use rebase_tui::scroll_position::ScrollPosition;
use rebase_tui::view_data::ViewData;
use rebase_tui::view_line::{LineSegment, SegmentStyle, ViewLine};

fn view_data_with_lines(name: &str, count: usize) -> ViewData {
    let mut view_data = ViewData::new(String::from(name));
    let mut i: usize = 0;
    while i < count {
        view_data.push_line(ViewLine::from_text(format!("line {i}")));
        i += 1;
    }
    view_data
}

#[test]
fn sync_is_idempotent_for_unchanged_content() {
    let mut slice = RenderSlice::new();
    let view_data = view_data_with_lines("list", 4);
    slice.record_resize(20, 10);
    slice.sync_view_data(&view_data);
    let version = slice.get_version();
    slice.sync_view_data(&view_data);
    assert_eq!(slice.get_version(), version);
    slice.sync_view_data(&view_data);
    assert_eq!(slice.get_version(), version);
}

#[test]
fn sync_changed_version_recomputes() {
    let mut slice = RenderSlice::new();
    let mut view_data = view_data_with_lines("list", 4);
    slice.record_resize(20, 10);
    slice.sync_view_data(&view_data);
    let version = slice.get_version();
    view_data.push_line(ViewLine::from_text(String::from("another")));
    slice.sync_view_data(&view_data);
    assert_ne!(slice.get_version(), version);
}

#[test]
fn queued_actions_drain_in_order() {
    let mut slice = RenderSlice::new();
    slice.record_scroll_up();
    slice.record_resize(8, 4);
    slice.record_scroll_down();
    assert_eq!(
        slice.get_actions().as_slice(),
        &[
            RenderAction::ScrollUp,
            RenderAction::Resize(8, 4),
            RenderAction::ScrollDown,
        ]
    );
    let view_data = view_data_with_lines("list", 2);
    slice.sync_view_data(&view_data);
    assert!(slice.get_actions().is_empty());
}

#[test]
fn scroll_index_endpoints_and_monotone_interior() {
    // content length 10, viewport height 5
    let mut slice = RenderSlice::new();
    let view_data = view_data_with_lines("list", 10);
    slice.record_resize(20, 5);
    slice.sync_view_data(&view_data);
    let mut indices: Vec<usize> = Vec::new();
    indices.push(slice.get_scroll_index());
    let mut step: usize = 0;
    while step < 5 {
        slice.record_scroll_down();
        slice.sync_view_data(&view_data);
        indices.push(slice.get_scroll_index());
        step += 1;
    }
    // top row 0 maps to slot 0 and the maximum top row to the last slot
    assert_eq!(indices[0], 0);
    assert_eq!(indices[5], 4);
    // interior rows interpolate monotonically between them
    assert_eq!(indices, vec![0, 1, 2, 2, 3, 4]);
    let mut i: usize = 1;
    while i < indices.len() {
        assert!(indices[i - 1] <= indices[i]);
        i += 1;
    }
}

#[test]
fn pinned_segments_precede_clipped_scrollable_content() {
    // 2 pinned segments of total length 6, a scrollable segment of
    // length 20, window width 10, no horizontal scroll
    let segments = vec![
        LineSegment::new(String::from("abc"), SegmentStyle::plain()),
        LineSegment::new(String::from("def"), SegmentStyle::plain()),
        LineSegment::new(String::from("01234567890123456789"), SegmentStyle::plain()),
    ];
    let mut view_data = ViewData::new(String::from("list"));
    view_data.push_line(ViewLine::new_with_pinned_segments(segments, 2));
    let mut slice = RenderSlice::new();
    slice.record_resize(10, 5);
    slice.sync_view_data(&view_data);
    let lines = slice.view_lines();
    assert_eq!(lines.count(), 1);
    let line = lines.get(0);
    let rendered: Vec<&str> = line.get_segments().iter().map(|s| s.get_content()).collect();
    assert_eq!(rendered, vec!["abc", "def", "0123"]);
}

#[test]
fn horizontal_scroll_only_moves_unpinned_segments() {
    let segments = vec![
        LineSegment::new(String::from("abc"), SegmentStyle::plain()),
        LineSegment::new(String::from("0123456789"), SegmentStyle::plain()),
    ];
    let mut view_data = ViewData::new(String::from("list"));
    view_data.push_line(ViewLine::new_with_pinned_segments(segments, 1));
    let mut slice = RenderSlice::new();
    slice.record_resize(8, 5);
    slice.sync_view_data(&view_data);
    slice.record_scroll_right();
    slice.record_scroll_right();
    slice.sync_view_data(&view_data);
    let lines = slice.view_lines();
    let line = lines.get(0);
    let rendered: Vec<&str> = line.get_segments().iter().map(|s| s.get_content()).collect();
    // the pinned prefix stays; the scrollable part starts two columns in
    assert_eq!(rendered, vec!["abc", "23456"]);
}

#[test]
fn leading_lines_lose_rows_before_title_and_trailing_lines() {
    // title shown, 2 trailing lines, 5 leading lines, viewport height 3:
    // every row goes to the title and the trailing lines
    let mut view_data = ViewData::new(String::from("list"));
    view_data.set_show_title(true);
    let mut i: usize = 0;
    while i < 5 {
        view_data.push_leading_line(ViewLine::from_text(format!("leading {i}")));
        i += 1;
    }
    view_data.push_trailing_line(ViewLine::from_text(String::from("trailing 0")));
    view_data.push_trailing_line(ViewLine::from_text(String::from("trailing 1")));
    let mut slice = RenderSlice::new();
    slice.record_resize(40, 3);
    slice.sync_view_data(&view_data);
    assert_eq!(slice.get_leading_lines_count(), 0);
    assert_eq!(slice.get_trailing_lines_count(), 2);
    let lines = slice.view_lines();
    assert_eq!(lines.count(), 2);
    assert_eq!(lines.get(0).get_segments()[0].get_content(), "trailing 0");
    assert_eq!(lines.get(1).get_segments()[0].get_content(), "trailing 1");
}

#[test]
fn zero_height_viewport_renders_nothing() {
    let mut slice = RenderSlice::new();
    let view_data = view_data_with_lines("list", 6);
    slice.record_resize(10, 0);
    slice.sync_view_data(&view_data);
    assert_eq!(slice.view_lines().count(), 0);
    assert_eq!(slice.get_scroll_index(), 0);
}

#[test]
fn zero_width_viewport_renders_empty_lines() {
    let mut slice = RenderSlice::new();
    let view_data = view_data_with_lines("list", 2);
    slice.record_resize(0, 10);
    slice.sync_view_data(&view_data);
    let lines = slice.view_lines();
    let mut i: usize = 0;
    while i < lines.count() {
        assert_eq!(lines.get(i).get_segments().len(), 0);
        i += 1;
    }
}

#[test]
fn scrollbar_shown_only_when_content_overflows() {
    let mut slice = RenderSlice::new();
    let short = view_data_with_lines("list", 3);
    slice.record_resize(10, 5);
    slice.sync_view_data(&short);
    assert!(!slice.should_show_scroll_bar());
    let tall = view_data_with_lines("tall", 9);
    slice.sync_view_data(&tall);
    assert!(slice.should_show_scroll_bar());
}

#[test]
fn scrollbar_reserves_one_column() {
    let view_data = view_data_with_lines("list", 9);
    let mut slice = RenderSlice::new();
    slice.record_resize(6, 5);
    slice.sync_view_data(&view_data);
    assert!(slice.should_show_scroll_bar());
    // each rendered row is clipped to width 6 - 1
    let lines = slice.view_lines();
    assert_eq!(lines.get(0).get_segments()[0].get_content(), "line ");
}

#[test]
fn scroll_position_remembered_per_screen_name() {
    let first = view_data_with_lines("first", 10);
    let second = view_data_with_lines("second", 10);
    let mut slice = RenderSlice::new();
    slice.record_resize(10, 4);
    slice.sync_view_data(&first);
    slice.record_scroll_down();
    slice.record_scroll_down();
    slice.sync_view_data(&first);
    assert_eq!(slice.get_scroll_index(), 1);
    // switching screens parks the position and starts the other at the top
    slice.sync_view_data(&second);
    assert_eq!(slice.get_scroll_index(), 0);
    // switching back restores the parked position
    slice.sync_view_data(&first);
    assert!(slice.get_scroll_index() > 0);
}

#[test]
fn changed_scroll_version_resets_position() {
    let mut first = view_data_with_lines("first", 10);
    let second = view_data_with_lines("second", 10);
    let mut slice = RenderSlice::new();
    slice.record_resize(10, 4);
    slice.sync_view_data(&first);
    slice.record_scroll_bottom();
    slice.sync_view_data(&first);
    assert_eq!(slice.get_scroll_index(), 3);
    slice.sync_view_data(&second);
    first.set_scroll_version(9);
    slice.sync_view_data(&first);
    assert_eq!(slice.get_scroll_index(), 0);
}

#[test]
fn title_and_help_flags_carry_over() {
    let mut view_data = view_data_with_lines("list", 1);
    view_data.set_show_title(true);
    view_data.set_show_help(true);
    let mut slice = RenderSlice::new();
    slice.record_resize(10, 5);
    slice.sync_view_data(&view_data);
    assert!(slice.show_title());
    assert!(slice.show_help());
}

#[test]
fn cache_expired_tracks_name_and_version() {
    let mut view_data = view_data_with_lines("list", 1);
    let mut slice = RenderSlice::new();
    assert!(slice.cache_expired(&view_data));
    slice.sync_view_data(&view_data);
    assert!(!slice.cache_expired(&view_data));
    view_data.push_line(ViewLine::from_text(String::from("more")));
    assert!(slice.cache_expired(&view_data));
}

#[test]
fn padding_fills_remaining_window() {
    let line = ViewLine::from_text(String::from("ab"))
        .set_padding(LineSegment::new(String::from("*"), SegmentStyle::plain()));
    let mut view_data = ViewData::new(String::from("list"));
    view_data.push_line(line);
    let mut slice = RenderSlice::new();
    slice.record_resize(6, 5);
    slice.sync_view_data(&view_data);
    let rendered: Vec<String> = slice
        .view_lines()
        .get(0)
        .get_segments()
        .iter()
        .map(|s| String::from(s.get_content()))
        .collect();
    assert_eq!(rendered, vec![String::from("ab"), String::from("****")]);
}

#[test]
fn scroll_position_bounds_and_moves() {
    let mut position = ScrollPosition::new();
    position.resize(4, 10);
    position.set_lines_length(10);
    position.scroll_down();
    position.scroll_down();
    assert_eq!(position.get_top_position(), 2);
    position.scroll_bottom();
    assert_eq!(position.get_top_position(), 6);
    position.scroll_down();
    assert_eq!(position.get_top_position(), 6);
    position.page_up();
    assert_eq!(position.get_top_position(), 2);
    position.page_up();
    assert_eq!(position.get_top_position(), 0);
    position.scroll_up();
    assert_eq!(position.get_top_position(), 0);
    position.page_down();
    assert_eq!(position.get_top_position(), 4);
    position.scroll_top();
    assert_eq!(position.get_top_position(), 0);
}

#[test]
fn ensure_line_visible_moves_the_window_minimally() {
    let mut position = ScrollPosition::new();
    position.resize(4, 10);
    position.set_lines_length(20);
    position.ensure_line_visible(7);
    assert_eq!(position.get_top_position(), 4);
    position.ensure_line_visible(4);
    assert_eq!(position.get_top_position(), 4);
    position.ensure_line_visible(2);
    assert_eq!(position.get_top_position(), 2);
}

#[test]
fn view_data_versions_never_decrease() {
    let mut view_data = ViewData::new(String::from("list"));
    let mut last = view_data.get_version();
    view_data.set_show_title(true);
    assert!(view_data.get_version() >= last);
    last = view_data.get_version();
    view_data.push_line(ViewLine::from_text(String::from("a")));
    assert!(view_data.get_version() >= last);
    last = view_data.get_version();
    view_data.clear();
    assert!(view_data.get_version() >= last);
}
