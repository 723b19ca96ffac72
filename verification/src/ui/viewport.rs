use vstd::prelude::*;
use crate::text::{text_contents, StyledText};
use ratatui::text::{Line, Span, Text};

verus! {

/// Name for the number of screen rows that ratatui's `Paragraph::line_count`
/// gives for a text word-wrapped, without trimming, at a given width. The text
/// enters by the characters of its spans, which are all that wrapping reads.
pub uninterp spec fn spec_wrapped_line_count(contents: Seq<Seq<Seq<char>>>, width: u16) -> usize;

/// Calls ratatui's `Paragraph::line_count` on the text with `Wrap { trim: false }`.
/// Claimed: the result is a function of the text's characters and the width
/// (named above), and is 0 for width 0 (`line_count` returns 0 for a width below 1).
#[verifier::external_body]
fn wrapped_line_count(text: &StyledText, width: u16) -> (r: usize)
    ensures
        r == spec_wrapped_line_count(text_contents(text@), width),
        width == 0 ==> r == 0,
{
    let lines: Vec<Line> = text.lines.iter().map(|l| {
        Line::from(l.spans.iter().map(|s| Span::raw(s.content.as_str())).collect::<Vec<Span>>())
    }).collect();
    let paragraph = ratatui::widgets::Paragraph::new(Text::from(lines))
        .wrap(ratatui::widgets::Wrap { trim: false });
    paragraph.line_count(width)
}

/// Scrollable content viewport. Tracks the scroll position and the content
/// height (in wrapped lines).
#[derive(Debug, Clone, PartialEq, Eq)]
pub struct Viewport {
    scroll_offset: u16,
    content_height: usize,
}

/// The state of a viewport.
pub struct ViewportView {
    pub scroll_offset: u16,
    pub content_height: usize,
}

impl View for Viewport {
    type V = ViewportView;

    closed spec fn view(&self) -> ViewportView {
        ViewportView { scroll_offset: self.scroll_offset, content_height: self.content_height }
    }
}

/// `a - b`, or 0 when `b > a`.
pub open spec fn sat_sub16(a: u16, b: u16) -> u16 {
    if a >= b { (a - b) as u16 } else { 0 }
}

/// `a + b`, or `u16::MAX` when that does not fit.
pub open spec fn sat_add16(a: u16, b: u16) -> u16 {
    if a + b <= u16::MAX { (a + b) as u16 } else { u16::MAX }
}

/// The largest scroll offset for a viewport of `viewport_height` rows: the content
/// height less the viewport height (0 when the content fits), at most `u16::MAX`
/// since offsets are 16-bit.
pub open spec fn max_scroll(content_height: usize, viewport_height: u16) -> u16 {
    if content_height <= viewport_height {
        0
    } else if content_height - viewport_height <= u16::MAX {
        (content_height - viewport_height) as u16
    } else {
        u16::MAX
    }
}

pub open spec fn scrolled_up(v: ViewportView, amount: u16) -> ViewportView {
    ViewportView { scroll_offset: sat_sub16(v.scroll_offset, amount), ..v }
}

pub open spec fn scrolled_down(v: ViewportView, amount: u16) -> ViewportView {
    ViewportView { scroll_offset: sat_add16(v.scroll_offset, amount), ..v }
}

pub open spec fn scrolled_to(v: ViewportView, line: u16) -> ViewportView {
    ViewportView { scroll_offset: line, ..v }
}

pub open spec fn clamped(v: ViewportView, viewport_height: u16) -> ViewportView {
    let m = max_scroll(v.content_height, viewport_height);
    ViewportView { scroll_offset: if v.scroll_offset <= m { v.scroll_offset } else { m }, ..v }
}

impl Viewport {
    /// A viewport at the top of content of the given height.
    pub fn new(content_height: usize) -> (r: Viewport)
        ensures
            r@ == (ViewportView { scroll_offset: 0, content_height }),
    {
        Viewport { scroll_offset: 0, content_height }
    }

    /// Recomputes the content height as the number of rows the text takes
    /// when word-wrapped at `inner_width`. The scroll position is kept.
    pub fn update_wrapped_height(&mut self, text: &StyledText, inner_width: u16)
        ensures
            final(self)@ == (ViewportView {
                content_height: spec_wrapped_line_count(text_contents(text@), inner_width),
                ..old(self)@
            }),
    {
        self.content_height = wrapped_line_count(text, inner_width);
    }

    pub fn scroll_up(&mut self, amount: u16)
        ensures
            final(self)@ == scrolled_up(old(self)@, amount),
    {
        self.scroll_offset = self.scroll_offset.saturating_sub(amount);
    }

    pub fn scroll_down(&mut self, amount: u16)
        ensures
            final(self)@ == scrolled_down(old(self)@, amount),
    {
        self.scroll_offset = self.scroll_offset.saturating_add(amount);
    }

    /// Scrolls up by half a page.
    pub fn page_up(&mut self, viewport_height: u16)
        ensures
            final(self)@ == scrolled_up(old(self)@, viewport_height / 2),
    {
        self.scroll_up(viewport_height / 2);
    }

    /// Scrolls down by half a page.
    pub fn page_down(&mut self, viewport_height: u16)
        ensures
            final(self)@ == scrolled_down(old(self)@, viewport_height / 2),
    {
        self.scroll_down(viewport_height / 2);
    }

    pub fn scroll_to_top(&mut self)
        ensures
            final(self)@ == scrolled_to(old(self)@, 0),
    {
        self.scroll_offset = 0;
    }

    pub fn scroll_to_bottom(&mut self, viewport_height: u16)
        ensures
            final(self)@ == scrolled_to(old(self)@, max_scroll(old(self)@.content_height, viewport_height)),
    {
        self.scroll_offset = self.max_scroll(viewport_height);
    }

    pub fn scroll_offset(&self) -> (r: u16)
        ensures
            r == self@.scroll_offset,
    {
        self.scroll_offset
    }

    pub fn content_height(&self) -> (r: usize)
        ensures
            r == self@.content_height,
    {
        self.content_height
    }

    pub fn scroll_to_line(&mut self, line: u16)
        ensures
            final(self)@ == scrolled_to(old(self)@, line),
    {
        self.scroll_offset = line;
    }

    /// Maximum scroll offset: `content_height - viewport_height` (clamped to 0),
    /// at most `u16::MAX`.
    fn max_scroll(&self, viewport_height: u16) -> (r: u16)
        ensures
            r == max_scroll(self@.content_height, viewport_height),
    {
        let m = self.content_height.saturating_sub(viewport_height as usize);
        if m <= u16::MAX as usize { m as u16 } else { u16::MAX }
    }

    /// Keeps the scroll offset within `0..=max_scroll`.
    pub fn clamp_scroll(&mut self, viewport_height: u16)
        ensures
            final(self)@ == clamped(old(self)@, viewport_height),
            final(self)@.scroll_offset <= max_scroll(final(self)@.content_height, viewport_height),
    {
        let max = self.max_scroll(viewport_height);
        self.scroll_offset = if self.scroll_offset <= max { self.scroll_offset } else { max };
    }
}

/// Clamping twice is clamping once.
pub proof fn law_clamp_idempotent(v: ViewportView, h: u16)
    ensures
        clamped(clamped(v, h), h) == clamped(v, h),
{
}

/// After jumping to the bottom, clamping moves nothing.
pub proof fn law_bottom_is_clamped(v: ViewportView, h: u16)
    ensures
        clamped(scrolled_to(v, max_scroll(v.content_height, h)), h)
            == scrolled_to(v, max_scroll(v.content_height, h)),
{
}

/// Scrolling down then up by the same amount returns to the start, as long as
/// the way down did not hit the 16-bit limit.
pub proof fn law_scroll_down_up(v: ViewportView, n: u16)
    requires
        v.scroll_offset + n <= u16::MAX,
    ensures
        scrolled_up(scrolled_down(v, n), n) == v,
{
}

/// Scrolling up then down by the same amount returns to the start, as long as
/// the way up did not stop at the top.
pub proof fn law_scroll_up_down(v: ViewportView, n: u16)
    requires
        n <= v.scroll_offset,
    ensures
        scrolled_down(scrolled_up(v, n), n) == v,
{
}

/// A clamped position is never past the bottom, and clamping leaves a position
/// that is already within range where it is.
pub proof fn law_clamp_bounds(v: ViewportView, h: u16)
    ensures
        clamped(v, h).scroll_offset <= max_scroll(v.content_height, h),
        v.scroll_offset <= max_scroll(v.content_height, h) ==> clamped(v, h) == v,
        clamped(v, h).content_height == v.content_height,
{
}

/// When the content fits in the viewport, every position clamps to the top.
pub proof fn law_short_content_stays_at_top(v: ViewportView, h: u16)
    requires
        v.content_height <= h,
    ensures
        clamped(v, h).scroll_offset == 0,
{
}

/// A scrolling call on a viewport, for stating what a run of them keeps.
pub enum ScrollStep {
    Up(u16),
    Down(u16),
    PageUp(u16),
    PageDown(u16),
    Top,
    Bottom(u16),
    ToLine(u16),
    Clamp(u16),
}

/// The viewport after one scrolling call, as the methods' contracts give it.
pub open spec fn stepped(v: ViewportView, s: ScrollStep) -> ViewportView {
    match s {
        ScrollStep::Up(n) => scrolled_up(v, n),
        ScrollStep::Down(n) => scrolled_down(v, n),
        ScrollStep::PageUp(h) => scrolled_up(v, h / 2),
        ScrollStep::PageDown(h) => scrolled_down(v, h / 2),
        ScrollStep::Top => scrolled_to(v, 0),
        ScrollStep::Bottom(h) => scrolled_to(v, max_scroll(v.content_height, h)),
        ScrollStep::ToLine(l) => scrolled_to(v, l),
        ScrollStep::Clamp(h) => clamped(v, h),
    }
}

/// The viewport after a run of scrolling calls, in order.
pub open spec fn steps_applied(v: ViewportView, steps: Seq<ScrollStep>) -> ViewportView
    decreases steps.len(),
{
    if steps.len() == 0 {
        v
    } else {
        stepped(steps_applied(v, steps.drop_last()), steps.last())
    }
}

/// Scrolling never changes the content height: after any run of scrolling calls
/// the viewport holds the height it was made with; only a new measurement
/// (`update_wrapped_height`) changes it.
pub proof fn law_scrolling_keeps_content_height(v: ViewportView, steps: Seq<ScrollStep>)
    ensures
        steps_applied(v, steps).content_height == v.content_height,
    decreases steps.len(),
{
    if steps.len() > 0 {
        law_scrolling_keeps_content_height(v, steps.drop_last());
    }
}

} // verus!
