//! Styled line model: a line is an ordered sequence of styled segments, a
//! count of leading "pinned" segments exempt from horizontal scroll, an
//! optional selection flag and an optional filler segment.

use vstd::prelude::*;
use vstd::string::StrSliceExecFns;

verus! {

/// Semantic color of a segment; the palette is a concern of the paint stage.
#[derive(Clone, Copy, Debug, PartialEq, Eq, Structural)]
pub enum SegmentColor {
    Default,
    Indicator,
    Action,
    Error,
    Success,
}

/// Display attributes of one segment.
#[derive(Clone, Copy, Debug, PartialEq, Eq, Structural)]
pub struct SegmentStyle {
    pub color: SegmentColor,
    pub dimmed: bool,
    pub underlined: bool,
    pub reversed: bool,
}

/// Plain style: default color, no attributes.
pub open spec fn plain_style() -> SegmentStyle {
    SegmentStyle { color: SegmentColor::Default, dimmed: false, underlined: false, reversed: false }
}

impl SegmentStyle {
    /// Plain style: default color, no attributes.
    pub fn plain() -> (r: Self)
        ensures
            r == plain_style(),
    {
        SegmentStyle { color: SegmentColor::Default, dimmed: false, underlined: false, reversed: false }
    }

    /// Style with a color and no attributes.
    pub fn with_color(color: SegmentColor) -> (r: Self)
        ensures
            r == (SegmentStyle { color, dimmed: false, underlined: false, reversed: false }),
    {
        SegmentStyle { color, dimmed: false, underlined: false, reversed: false }
    }
}

/// Mathematical value of a segment: its characters and its style.
pub struct SegContent {
    pub chars: Seq<char>,
    pub style: SegmentStyle,
}

/// One run of characters sharing a style.
#[derive(Debug, Clone)]
pub struct LineSegment {
    pub content: String,
    pub length: usize,
    pub style: SegmentStyle,
}

impl View for LineSegment {
    type V = SegContent;

    open spec fn view(&self) -> SegContent {
        SegContent { chars: self.content@, style: self.style }
    }
}

impl LineSegment {
    /// The cached length always equals the number of characters.
    pub open spec fn wf(self) -> bool {
        self.length == self.content@.len()
    }

    pub fn new(content: String, style: SegmentStyle) -> (r: Self)
        ensures
            r@ == (SegContent { chars: content@, style }),
            r.wf(),
    {
        let length: usize = content.as_str().unicode_len();
        LineSegment { content, length, style }
    }

    /// Segment of plain text.
    pub fn from_text(content: String) -> (r: Self)
        ensures
            r@ == (SegContent { chars: content@, style: plain_style() }),
            r.wf(),
    {
        LineSegment::new(content, SegmentStyle::plain())
    }

    /// Segment whose content is `content` and whose style is that of `other`.
    pub fn new_copy_style(content: String, other: &Self) -> (r: Self)
        ensures
            r@ == (SegContent { chars: content@, style: other@.style }),
            r.wf(),
    {
        let length: usize = content.as_str().unicode_len();
        LineSegment { content, length, style: other.style }
    }

    pub fn get_content(&self) -> (r: &str)
        ensures
            r@ == self@.chars,
    {
        self.content.as_str()
    }

    pub fn get_length(&self) -> (r: usize)
        requires
            self.wf(),
        ensures
            r == self@.chars.len(),
    {
        self.length
    }

    pub fn get_style(&self) -> (r: SegmentStyle)
        ensures
            r == self@.style,
    {
        self.style
    }

    /// The window of this segment that starts `skip` characters in and holds
    /// at most `width` characters, under the same style.
    pub fn get_partial_segment(&self, skip: usize, width: usize) -> (r: Self)
        requires
            self.wf(),
        ensures
            r@ == (SegContent { chars: partial_chars(self@.chars, skip as nat, width as nat), style: self@.style }),
            r.wf(),
    {
        if skip >= self.length {
            LineSegment::new_copy_style(String::new(), self)
        } else {
            let take: usize = if self.length - skip < width { self.length - skip } else { width };
            let part: &str = self.content.as_str().substring_char(skip, skip + take);
            LineSegment::new_copy_style(String::from_str(part), self)
        }
    }
}

/// Window of `chars` starting `skip` characters in, at most `width` long.
pub open spec fn partial_chars(chars: Seq<char>, skip: nat, width: nat) -> Seq<char> {
    if skip >= chars.len() {
        Seq::empty()
    } else if chars.len() - skip < width {
        chars.subrange(skip as int, chars.len() as int)
    } else {
        chars.subrange(skip as int, skip as int + width as int)
    }
}

/// Mathematical value of a line.
pub struct LineContent {
    pub segments: Seq<SegContent>,
    pub pinned: int,
    pub selected: bool,
    pub padding: Option<SegContent>,
}

/// An ordered sequence of styled segments with a pinned-prefix count, a
/// selection flag and an optional filler segment.
#[derive(Debug, Clone)]
pub struct ViewLine {
    pub segments: Vec<LineSegment>,
    pub pinned: usize,
    pub selected: bool,
    pub padding: Option<LineSegment>,
}

impl View for ViewLine {
    type V = LineContent;

    open spec fn view(&self) -> LineContent {
        LineContent {
            segments: self.segments@.map_values(|s: LineSegment| s@),
            pinned: self.pinned as int,
            selected: self.selected,
            padding: match self.padding {
                Some(p) => Some(p@),
                None => None,
            },
        }
    }
}

impl ViewLine {
    /// The pinned count never exceeds the segment count, and every segment
    /// carries its true length.
    pub open spec fn wf(self) -> bool {
        &&& self.pinned <= self.segments@.len()
        &&& forall|i: int| 0 <= i < self.segments@.len() ==> (#[trigger] self.segments@[i]).wf()
        &&& match self.padding {
            Some(p) => p.wf(),
            None => true,
        }
    }

    /// Line of the given segments with no pinned prefix.
    pub fn new(segments: Vec<LineSegment>) -> (r: Self)
        requires
            forall|i: int| 0 <= i < segments@.len() ==> (#[trigger] segments@[i]).wf(),
        ensures
            r@ == (LineContent {
                segments: segments@.map_values(|s: LineSegment| s@),
                pinned: 0,
                selected: false,
                padding: None::<SegContent>,
            }),
            r.wf(),
    {
        ViewLine { segments, pinned: 0, selected: false, padding: None }
    }

    /// Line whose first `pinned` segments are exempt from horizontal scroll;
    /// a pinned count beyond the segment count is clamped to it.
    pub fn new_with_pinned_segments(segments: Vec<LineSegment>, pinned: usize) -> (r: Self)
        requires
            forall|i: int| 0 <= i < segments@.len() ==> (#[trigger] segments@[i]).wf(),
        ensures
            r@ == (LineContent {
                segments: segments@.map_values(|s: LineSegment| s@),
                pinned: if pinned <= segments@.len() { pinned as int } else { segments@.len() as int },
                selected: false,
                padding: None::<SegContent>,
            }),
            r.wf(),
    {
        let count: usize = segments.len();
        let clamped: usize = if pinned <= count { pinned } else { count };
        ViewLine { segments, pinned: clamped, selected: false, padding: None }
    }

    /// Line of one plain-text segment.
    pub fn from_text(content: String) -> (r: Self)
        ensures
            r@.segments =~= seq![SegContent { chars: content@, style: plain_style() }],
            r@.pinned == 0,
            r@.selected == false,
            r@.padding is None,
            r.wf(),
    {
        let segment = LineSegment::from_text(content);
        let mut segments: Vec<LineSegment> = Vec::new();
        segments.push(segment);
        ViewLine::new(segments)
    }

    /// Line with no content.
    pub fn new_empty_line() -> (r: Self)
        ensures
            r@.segments =~= Seq::<SegContent>::empty(),
            r@.pinned == 0,
            r@.selected == false,
            r@.padding is None,
            r.wf(),
    {
        ViewLine::new(Vec::new())
    }

    /// The same line with the selection flag set as given.
    pub fn set_selected(self, selected: bool) -> (r: Self)
        ensures
            r@ == (LineContent { selected, ..self@ }),
            self.wf() ==> r.wf(),
    {
        ViewLine { selected, ..self }
    }

    /// The same line with the given filler segment.
    pub fn set_padding(self, padding: LineSegment) -> (r: Self)
        requires
            padding.wf(),
        ensures
            r@ == (LineContent { padding: Some(padding@), ..self@ }),
            self.wf() ==> r.wf(),
    {
        ViewLine { padding: Some(padding), ..self }
    }

    pub fn get_segments(&self) -> (r: &Vec<LineSegment>)
        ensures
            r == &self.segments,
            r@.map_values(|s: LineSegment| s@) == self@.segments,
    {
        &self.segments
    }

    pub fn get_number_of_pinned_segment(&self) -> (r: usize)
        ensures
            r == self@.pinned,
    {
        self.pinned
    }

    pub fn get_selected(&self) -> (r: bool)
        ensures
            r == self@.selected,
    {
        self.selected
    }

    pub fn get_padding(&self) -> (r: &Option<LineSegment>)
        ensures
            match r {
                Some(p) => self@.padding == Some(p@),
                None => self@.padding is None,
            },
            *r is Some <==> self@.padding is Some,
    {
        &self.padding
    }
}

/// An ordered collection of lines.
#[derive(Debug, Clone)]
pub struct ViewLines {
    pub lines: Vec<ViewLine>,
}

impl View for ViewLines {
    type V = Seq<LineContent>;

    open spec fn view(&self) -> Seq<LineContent> {
        self.lines@.map_values(|l: ViewLine| l@)
    }
}

impl ViewLines {
    pub open spec fn wf(self) -> bool {
        forall|i: int| 0 <= i < self.lines@.len() ==> (#[trigger] self.lines@[i]).wf()
    }

    pub fn new() -> (r: Self)
        ensures
            r@ =~= Seq::<LineContent>::empty(),
            r.wf(),
    {
        ViewLines { lines: Vec::new() }
    }

    pub fn count(&self) -> (r: usize)
        ensures
            r == self@.len(),
    {
        self.lines.len()
    }

    pub fn get(&self, index: usize) -> (r: &ViewLine)
        requires
            index < self@.len(),
        ensures
            r@ == self@[index as int],
            self.wf() ==> r.wf(),
    {
        &self.lines[index]
    }

    pub fn push(&mut self, line: ViewLine)
        ensures
            final(self)@ =~= old(self)@.push(line@),
            old(self).wf() && line.wf() ==> final(self).wf(),
    {
        self.lines.push(line);
    }

    pub fn clear(&mut self)
        ensures
            final(self)@ =~= Seq::<LineContent>::empty(),
            final(self).wf(),
    {
        self.lines.clear();
    }
}

} // verus!
