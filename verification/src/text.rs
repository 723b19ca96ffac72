//! Styled text: spans of characters with a style, lines of spans, and whole texts.
use vstd::prelude::*;
use crate::strings::{split_lines, split_lines_of, string_of};
use crate::style::{plain_style, TextStyle};

verus! {

/// A run of characters in one style.
#[derive(Debug, Clone, PartialEq, Eq)]
pub struct StyledSpan {
    pub content: String,
    pub style: TextStyle,
}

/// What a span holds.
#[verifier::ext_equal]
pub struct SpanView {
    pub content: Seq<char>,
    pub style: TextStyle,
}

impl View for StyledSpan {
    type V = SpanView;

    open spec fn view(&self) -> SpanView {
        SpanView { content: self.content@, style: self.style }
    }
}

/// One line of styled text. The line style lies under the style of each span.
#[derive(Debug, Clone, PartialEq, Eq)]
pub struct StyledLine {
    pub spans: Vec<StyledSpan>,
    pub style: TextStyle,
}

/// What a line holds.
#[verifier::ext_equal]
pub struct LineView {
    pub spans: Seq<SpanView>,
    pub style: TextStyle,
}

pub open spec fn spans_view(v: Seq<StyledSpan>) -> Seq<SpanView> {
    v.map_values(|s: StyledSpan| s@)
}

impl View for StyledLine {
    type V = LineView;

    open spec fn view(&self) -> LineView {
        LineView { spans: spans_view(self.spans@), style: self.style }
    }
}

pub open spec fn lines_view(v: Seq<StyledLine>) -> Seq<LineView> {
    v.map_values(|l: StyledLine| l@)
}

/// A whole text: its lines, top to bottom.
#[derive(Debug, Clone, PartialEq, Eq)]
pub struct StyledText {
    pub lines: Vec<StyledLine>,
}

impl View for StyledText {
    type V = Seq<LineView>;

    open spec fn view(&self) -> Seq<LineView> {
        lines_view(self.lines@)
    }
}

/// A span made of `content` in `style`.
pub open spec fn span_v(content: Seq<char>, style: TextStyle) -> SpanView {
    SpanView { content, style }
}

/// A line of the given spans, with no line style.
pub open spec fn line_of(spans: Seq<SpanView>) -> LineView {
    LineView { spans, style: plain_style() }
}

/// A line made from a string in a line style: each piece of the string between
/// line endings becomes an unstyled span (so an empty string gives no span).
pub open spec fn styled_line(content: Seq<char>, style: TextStyle) -> LineView {
    LineView {
        spans: split_lines(content).map_values(|l: Seq<char>| span_v(l, plain_style())),
        style,
    }
}

/// The characters of each span of each line: all that decides how the text wraps.
pub open spec fn text_contents(t: Seq<LineView>) -> Seq<Seq<Seq<char>>> {
    t.map_values(|l: LineView| l.spans.map_values(|s: SpanView| s.content))
}

/// The characters of a line, its spans put together.
pub open spec fn line_chars(spans: Seq<SpanView>) -> Seq<char>
    decreases spans.len(),
{
    if spans.len() == 0 {
        seq![]
    } else {
        line_chars(spans.drop_last()) + spans.last().content
    }
}

impl StyledSpan {
    /// A span of `content` with no style.
    pub fn raw(content: &[char]) -> (r: StyledSpan)
        ensures
            r@ == span_v(content@, plain_style()),
    {
        StyledSpan { content: string_of(content), style: TextStyle::new() }
    }

    /// A span of `content` in `style`.
    pub fn styled(content: &[char], style: TextStyle) -> (r: StyledSpan)
        ensures
            r@ == span_v(content@, style),
    {
        StyledSpan { content: string_of(content), style }
    }

    /// A copy of this span.
    pub fn duplicate(&self) -> (r: StyledSpan)
        ensures
            r@ == self@,
    {
        StyledSpan { content: self.content.clone(), style: self.style }
    }
}

/// Appends a span.
pub fn push_span(v: &mut Vec<StyledSpan>, s: StyledSpan)
    ensures
        spans_view(final(v)@) == spans_view(old(v)@).push(s@),
{
    let ghost old_v = v@;
    v.push(s);
    assert(spans_view(v@) == spans_view(old_v).push(s@));
}

/// Appends a line.
pub fn push_line(v: &mut Vec<StyledLine>, l: StyledLine)
    ensures
        lines_view(final(v)@) == lines_view(old(v)@).push(l@),
{
    let ghost old_v = v@;
    v.push(l);
    assert(lines_view(v@) == lines_view(old_v).push(l@));
}

impl StyledLine {
    /// A line of the given spans, with no line style.
    pub fn from_spans(spans: Vec<StyledSpan>) -> (r: StyledLine)
        ensures
            r@ == line_of(spans_view(spans@)),
    {
        StyledLine { spans, style: TextStyle::new() }
    }

    /// A line of the given spans, in the given line style.
    pub fn with_style(spans: Vec<StyledSpan>, style: TextStyle) -> (r: StyledLine)
        ensures
            r@ == (LineView { spans: spans_view(spans@), style }),
    {
        StyledLine { spans, style }
    }

    /// The empty line.
    pub fn empty() -> (r: StyledLine)
        ensures
            r@ == line_of(seq![]),
    {
        let r = StyledLine { spans: Vec::new(), style: TextStyle::new() };
        assert(r@.spans == Seq::<SpanView>::empty());
        r
    }

    /// A line made from `content` in the line style `style`.
    pub fn styled(content: &[char], style: TextStyle) -> (r: StyledLine)
        ensures
            r@ == styled_line(content@, style),
    {
        let pieces = split_lines_of(content);
        let mut spans: Vec<StyledSpan> = Vec::new();
        let mut i: usize = 0;
        let ghost want = split_lines(content@).map_values(|l: Seq<char>| span_v(l, plain_style()));
        while i < pieces.len()
            invariant
                i <= pieces@.len(),
                pieces@.map_values(|l: Vec<char>| l@) == split_lines(content@),
                want == split_lines(content@).map_values(|l: Seq<char>| span_v(l, plain_style())),
                spans_view(spans@) == want.take(i as int),
            decreases pieces@.len() - i,
        {
            let s = StyledSpan::raw(pieces[i].as_slice());
            proof {
                assert(pieces@.map_values(|l: Vec<char>| l@)[i as int] == pieces@[i as int]@);
            }
            push_span(&mut spans, s);
            i = i + 1;
            assert(want.take(i as int) == want.take(i - 1 as int).push(want[i - 1 as int]));
        }
        assert(want.take(pieces@.len() as int) == want);
        StyledLine { spans, style }
    }

    /// A copy of this line.
    pub fn duplicate(&self) -> (r: StyledLine)
        ensures
            r@ == self@,
    {
        let mut spans: Vec<StyledSpan> = Vec::new();
        let mut i: usize = 0;
        while i < self.spans.len()
            invariant
                i <= self.spans@.len(),
                spans_view(spans@) == spans_view(self.spans@).take(i as int),
            decreases self.spans@.len() - i,
        {
            push_span(&mut spans, self.spans[i].duplicate());
            i = i + 1;
            assert(spans_view(self.spans@).take(i as int)
                == spans_view(self.spans@).take(i - 1 as int).push(self.spans@[i - 1 as int]@));
        }
        assert(spans_view(self.spans@).take(self.spans@.len() as int) == spans_view(self.spans@));
        StyledLine { spans, style: self.style }
    }
}

/// Appends copies of `src` to `dst`.
pub fn extend_lines(dst: &mut Vec<StyledLine>, src: &Vec<StyledLine>)
    ensures
        lines_view(final(dst)@) == lines_view(old(dst)@) + lines_view(src@),
{
    let ghost d0 = lines_view(dst@);
    let mut i: usize = 0;
    while i < src.len()
        invariant
            i <= src@.len(),
            lines_view(dst@) == d0 + lines_view(src@).take(i as int),
        decreases src@.len() - i,
    {
        push_line(dst, src[i].duplicate());
        i = i + 1;
        assert(lines_view(src@).take(i as int)
            == lines_view(src@).take(i - 1 as int).push(src@[i - 1 as int]@));
    }
    assert(lines_view(src@).take(src@.len() as int) == lines_view(src@));
}

impl StyledText {
    /// A text of the given lines.
    pub fn from_lines(lines: Vec<StyledLine>) -> (r: StyledText)
        ensures
            r@ == lines_view(lines@),
    {
        StyledText { lines }
    }

    /// Number of lines, before any wrapping.
    pub fn height(&self) -> (r: usize)
        ensures
            r == self@.len(),
    {
        self.lines.len()
    }
}

} // verus!
