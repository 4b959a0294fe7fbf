//! Horizontal clipping of one line into a bounded window: pinned segments
//! are exempt from the left scroll offset, the remaining segments are
//! consumed greedily from the left offset until the window is filled, and a
//! declared filler segment pads whatever room is left.

use vstd::prelude::*;
use vstd::string::StringExecFns;

use crate::view_line::{LineContent, LineSegment, SegContent, ViewLine};

verus! {

/// Total number of characters over a sequence of segments.
pub open spec fn flat_len(segs: Seq<SegContent>) -> nat
    decreases segs.len(),
{
    if segs.len() == 0 {
        0
    } else {
        segs[0].chars.len() + flat_len(segs.subrange(1, segs.len() as int))
    }
}

/// Clip a sequence of segments: drop the first `skip` characters, then keep
/// at most `width` characters; segments that end up empty are left out.
pub open spec fn clip_segments(segs: Seq<SegContent>, skip: nat, width: nat) -> Seq<SegContent>
    decreases segs.len(),
{
    if segs.len() == 0 || width == 0 {
        Seq::empty()
    } else {
        let first = segs[0];
        let rest = segs.subrange(1, segs.len() as int);
        if skip >= first.chars.len() {
            clip_segments(rest, (skip - first.chars.len()) as nat, width)
        } else {
            let take: nat = if first.chars.len() - skip < width {
                (first.chars.len() - skip) as nat
            } else {
                width
            };
            let part = SegContent {
                chars: first.chars.subrange(skip as int, skip as int + take),
                style: first.style,
            };
            seq![part] + clip_segments(rest, 0, (width - take) as nat)
        }
    }
}

/// `chars` written `n` times over.
pub open spec fn repeat_chars(chars: Seq<char>, n: nat) -> Seq<char>
    decreases n,
{
    if n == 0 {
        Seq::empty()
    } else {
        repeat_chars(chars, (n - 1) as nat) + chars
    }
}

/// The line produced for one content line by a window `width` wide with the
/// scrollable segments shifted left by `left`.
pub open spec fn spec_clip_line(line: LineContent, left: nat, width: nat) -> LineContent {
    let pin = clip_segments(line.segments.take(line.pinned), 0, width);
    let after_pin: nat = if flat_len(pin) <= width { (width - flat_len(pin)) as nat } else { 0 };
    let scrolled = clip_segments(line.segments.skip(line.pinned), left, after_pin);
    let body = pin + scrolled;
    let used = flat_len(pin) + flat_len(scrolled);
    let full = if used < width && line.padding is Some {
        body.push(SegContent {
            chars: repeat_chars(line.padding->0.chars, (width - used) as nat),
            style: line.padding->0.style,
        })
    } else {
        body
    };
    LineContent {
        segments: full,
        pinned: if line.pinned <= full.len() { line.pinned } else { full.len() as int },
        selected: line.selected,
        padding: None,
    }
}

/// Appending one segment adds its characters to the total.
pub proof fn lemma_flat_len_push(segs: Seq<SegContent>, seg: SegContent)
    ensures
        flat_len(segs.push(seg)) == flat_len(segs) + seg.chars.len(),
    decreases segs.len(),
{
    let pushed = segs.push(seg);
    assert(pushed.len() == segs.len() + 1);
    if segs.len() == 0 {
        assert(pushed[0] == seg);
        assert(pushed.subrange(1, 1) =~= Seq::<SegContent>::empty());
        assert(flat_len(pushed) == seg.chars.len() + flat_len(Seq::<SegContent>::empty()));
    } else {
        let rest = segs.subrange(1, segs.len() as int);
        lemma_flat_len_push(rest, seg);
        assert(pushed[0] == segs[0]);
        assert(pushed.subrange(1, pushed.len() as int) =~= rest.push(seg));
        assert(flat_len(pushed) == pushed[0].chars.len() + flat_len(rest.push(seg)));
    }
}

/// `text` written `n` times over.
pub fn repeat_str(text: &str, n: usize) -> (r: String)
    ensures
        r@ == repeat_chars(text@, n as nat),
{
    let mut out: String = String::new();
    let mut i: usize = 0;
    while i < n
        invariant
            i <= n,
            out@ == repeat_chars(text@, i as nat),
        decreases n - i,
    {
        out.append(text);
        i = i + 1;
    }
    out
}

/// Clip the window `[lo, hi)` of `segs`, dropping the first `skip`
/// characters and keeping at most `width`; returns the produced segments and
/// the number of characters they hold.
fn clip_range(segs: &Vec<LineSegment>, lo: usize, hi: usize, skip: usize, width: usize) -> (r: (
    Vec<LineSegment>,
    usize,
))
    requires
        lo <= hi <= segs@.len(),
        forall|i: int| lo <= i < hi ==> (#[trigger] segs@[i]).wf(),
    ensures
        ({
            let window = segs@.map_values(|s: LineSegment| s@).subrange(lo as int, hi as int);
            &&& r.0@.map_values(|s: LineSegment| s@) == clip_segments(window, skip as nat, width as nat)
            &&& r.1 == flat_len(clip_segments(window, skip as nat, width as nat))
            &&& r.1 <= width
            &&& forall|i: int| 0 <= i < r.0@.len() ==> (#[trigger] r.0@[i]).wf()
        }),
{
    let ghost window = segs@.map_values(|s: LineSegment| s@).subrange(lo as int, hi as int);
    let mut out: Vec<LineSegment> = Vec::new();
    let mut cursor: usize = 0;
    let mut sk: usize = skip;
    let mut i: usize = lo;
    proof {
        assert(window.subrange(0, hi - lo) =~= window);
        assert(out@.map_values(|s: LineSegment| s@) =~= Seq::<SegContent>::empty());
        assert(Seq::<SegContent>::empty() + clip_segments(window, skip as nat, width as nat)
            =~= clip_segments(window, skip as nat, width as nat));
    }
    while i < hi && cursor < width
        invariant
            lo <= i <= hi <= segs@.len(),
            cursor <= width,
            forall|j: int| lo <= j < hi ==> (#[trigger] segs@[j]).wf(),
            forall|j: int| 0 <= j < out@.len() ==> (#[trigger] out@[j]).wf(),
            window == segs@.map_values(|s: LineSegment| s@).subrange(lo as int, hi as int),
            clip_segments(window, skip as nat, width as nat) == out@.map_values(|s: LineSegment| s@)
                + clip_segments(
                window.subrange(i - lo, hi - lo),
                sk as nat,
                (width - cursor) as nat,
            ),
            flat_len(out@.map_values(|s: LineSegment| s@)) == cursor,
        decreases hi - i,
    {
        let ghost w_rest = window.subrange(i - lo, hi - lo);
        proof {
            assert(w_rest[0] == segs@[i as int]@);
            assert(w_rest.subrange(1, w_rest.len() as int) =~= window.subrange(i + 1 - lo, hi - lo));
        }
        let seg_len: usize = segs[i].get_length();
        if sk >= seg_len {
            sk = sk - seg_len;
        } else {
            let take: usize = if seg_len - sk < width - cursor { seg_len - sk } else { width - cursor };
            let part: LineSegment = segs[i].get_partial_segment(sk, width - cursor);
            proof {
                let partv = SegContent {
                    chars: w_rest[0].chars.subrange(sk as int, sk as int + take as int),
                    style: w_rest[0].style,
                };
                assert(part@ == partv);
                assert(out@.push(part).map_values(|s: LineSegment| s@) =~= out@.map_values(
                    |s: LineSegment| s@,
                ).push(part@));
                lemma_flat_len_push(out@.map_values(|s: LineSegment| s@), part@);
                assert((out@.map_values(|s: LineSegment| s@) + (seq![partv] + clip_segments(
                    w_rest.subrange(1, w_rest.len() as int),
                    0,
                    (width - cursor - take) as nat,
                ))) =~= (out@.map_values(|s: LineSegment| s@).push(partv) + clip_segments(
                    w_rest.subrange(1, w_rest.len() as int),
                    0,
                    (width - cursor - take) as nat,
                )));
            }
            out.push(part);
            cursor = cursor + take;
            sk = 0;
        }
        i = i + 1;
    }
    proof {
        if i < hi {
            assert(clip_segments(window.subrange(i - lo, hi - lo), sk as nat, (width - cursor) as nat)
                =~= Seq::<SegContent>::empty());
        } else {
            assert(window.subrange(i - lo, hi - lo) =~= Seq::<SegContent>::empty());
        }
        assert(clip_segments(window, skip as nat, width as nat) =~= out@.map_values(
            |s: LineSegment| s@,
        ));
    }
    (out, cursor)
}

/// Render one line for a window `window_width` wide whose scrollable
/// segments are shifted left by `left`: the pinned prefix first, then the
/// clipped scrollable segments, then the filler if room remains.
pub fn clip_line(line: &ViewLine, left: usize, window_width: usize) -> (r: ViewLine)
    requires
        line.wf(),
    ensures
        r@ == spec_clip_line(line@, left as nat, window_width as nat),
        r.wf(),
{
    let ghost segsv = line.segments@.map_values(|s: LineSegment| s@);
    proof {
        assert(segsv.subrange(0, line.pinned as int) =~= line@.segments.take(line@.pinned));
        assert(segsv.subrange(line.pinned as int, segsv.len() as int) =~= line@.segments.skip(
            line@.pinned,
        ));
    }
    let (mut segments, used) = clip_range(&line.segments, 0, line.pinned, 0, window_width);
    let (mut scrolled, used_scrolled) = clip_range(
        &line.segments,
        line.pinned,
        line.segments.len(),
        left,
        window_width - used,
    );
    proof {
        assert(segments@.map_values(|s: LineSegment| s@) + scrolled@.map_values(
            |s: LineSegment| s@,
        ) =~= (segments@ + scrolled@).map_values(|s: LineSegment| s@));
    }
    segments.append(&mut scrolled);
    let cursor: usize = used + used_scrolled;
    if cursor < window_width {
        if let Some(padding) = &line.padding {
            let fill: String = repeat_str(padding.get_content(), window_width - cursor);
            let filler: LineSegment = LineSegment::new_copy_style(fill, padding);
            proof {
                assert(segments@.push(filler).map_values(|s: LineSegment| s@) =~= segments@.map_values(
                    |s: LineSegment| s@,
                ).push(filler@));
            }
            segments.push(filler);
        }
    }
    ViewLine::new_with_pinned_segments(segments, line.pinned).set_selected(line.get_selected())
}

} // verus!
