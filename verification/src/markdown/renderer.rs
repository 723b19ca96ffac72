//! Turns markdown events into styled lines.
//!
//! The core is a state machine that walks the events in order and collects lines
//! and spans. Nested inline styles sit on a style stack; code blocks and tables
//! are collected in their own state until their closing tag renders them whole.
//! Its steps are stated as spec functions over [`CtxV`], and each executable step
//! is proved to follow them.
use vstd::prelude::*;
use crate::markdown::blocks::{
    code_block_lines, render_code_block, render_table, table_lines, CodeBlockState, CodeBlockV,
    TableRowState, TableState, TableV, RowV, cells_view, rows_view,
};
use crate::markdown::events::{
    events_view, markdown_events, spec_markdown_events, CodeKind, CodeKindV, EventV, HeadingLevel,
    MdEvent, MdTag, MdTagEnd, TagV,
};
use crate::markdown::theme::Theme;
use crate::markdown::properties::{headings_ok, law_headings_point_at_their_lines};
use crate::strings::{
    chars_of, decimal, decimal_of, push_all, repeat, repeat_chars, split_newline, split_newline_of,
    string_of, trim, trim_chars,
};
use crate::style::{patched, plain_style, Color, TextStyle, BOLD, CROSSED_OUT, ITALIC};
use crate::text::{
    extend_lines, line_chars, line_of, lines_view, push_line, push_span, span_v, spans_view,
    styled_line, LineView, SpanView, StyledLine, StyledSpan, StyledText,
};

verus! {

/// A heading found while rendering: the index of its line in the output, its level, its text.
#[derive(Debug, Clone, PartialEq, Eq)]
pub struct HeadingInfo {
    pub line: usize,
    pub level: HeadingLevel,
    pub text: String,
}

pub struct HeadingV {
    pub line: usize,
    pub level: HeadingLevel,
    pub text: Seq<char>,
}

impl View for HeadingInfo {
    type V = HeadingV;

    open spec fn view(&self) -> HeadingV {
        HeadingV { line: self.line, level: self.level, text: self.text@ }
    }
}

/// A link found while rendering: its destination and its text.
#[derive(Debug, Clone, PartialEq, Eq)]
pub struct LinkInfo {
    pub url: String,
    pub text: String,
}

pub struct LinkV {
    pub url: Seq<char>,
    pub text: Seq<char>,
}

impl View for LinkInfo {
    type V = LinkV;

    open spec fn view(&self) -> LinkV {
        LinkV { url: self.url@, text: self.text@ }
    }
}

pub open spec fn headings_view(v: Seq<HeadingInfo>) -> Seq<HeadingV> {
    v.map_values(|h: HeadingInfo| h@)
}

pub open spec fn links_view(v: Seq<LinkInfo>) -> Seq<LinkV> {
    v.map_values(|l: LinkInfo| l@)
}

/// What rendering produces: the styled text, and the headings and links in document order.
#[derive(Debug, Clone, PartialEq, Eq)]
pub struct RenderOutput {
    pub text: StyledText,
    pub headings: Vec<HeadingInfo>,
    pub links: Vec<LinkInfo>,
}

pub struct RenderOutputV {
    pub text: Seq<LineView>,
    pub headings: Seq<HeadingV>,
    pub links: Seq<LinkV>,
}

impl View for RenderOutput {
    type V = RenderOutputV;

    open spec fn view(&self) -> RenderOutputV {
        RenderOutputV {
            text: self.text@,
            headings: headings_view(self.headings@),
            links: links_view(self.links@),
        }
    }
}

/// An image that could be loaded, already rendered as lines, under its source as
/// written in the markdown.
#[derive(Debug, Clone, PartialEq, Eq)]
pub struct LoadedImage {
    pub url: String,
    pub lines: Vec<StyledLine>,
}

/// The images of a document that could be loaded.
#[derive(Debug, Clone, PartialEq, Eq)]
pub struct ImageSet {
    pub images: Vec<LoadedImage>,
}

impl View for ImageSet {
    type V = Seq<(Seq<char>, Seq<LineView>)>;

    open spec fn view(&self) -> Seq<(Seq<char>, Seq<LineView>)> {
        self.images@.map_values(|i: LoadedImage| (i.url@, lines_view(i.lines@)))
    }
}

impl ImageSet {
    /// No images.
    pub fn empty() -> (r: ImageSet)
        ensures
            r@ == Seq::<(Seq<char>, Seq<LineView>)>::empty(),
    {
        let r = ImageSet { images: Vec::new() };
        assert(r@ =~= Seq::<(Seq<char>, Seq<LineView>)>::empty());
        r
    }
}

/// The lines of the first image loaded under `url`, if any.
pub open spec fn image_for(imgs: Seq<(Seq<char>, Seq<LineView>)>, url: Seq<char>) -> Option<Seq<LineView>>
    decreases imgs.len(),
{
    if imgs.len() == 0 {
        None
    } else if imgs[0].0 == url {
        Some(imgs[0].1)
    } else {
        image_for(imgs.drop_first(), url)
    }
}

/// The kind of an open list, with the number of its next item when ordered.
#[derive(Debug, Clone, Copy, PartialEq, Eq, Structural)]
pub enum ListKind {
    Unordered,
    Ordered(u64),
}

/// The renderer's state.
#[verifier::ext_equal]
pub struct CtxV {
    pub lines: Seq<LineView>,
    /// Spans of the line being built.
    pub spans: Seq<SpanView>,
    /// Nested inline styles, applied in order.
    pub style_stack: Seq<TextStyle>,
    pub list_stack: Seq<ListKind>,
    pub blockquote_depth: usize,
    pub heading: Option<HeadingLevel>,
    pub code_block: Option<CodeBlockV>,
    pub table: Option<TableV>,
    pub pending_link_url: Option<Seq<char>>,
    pub pending_link_text: Seq<char>,
    /// The current image was rendered as lines (its alt text and source are skipped).
    pub image_rendered: bool,
    /// Inside YAML front matter: everything is skipped.
    pub in_metadata: bool,
    /// The next block element is separated by a blank line.
    pub needs_newline: bool,
    pub headings: Seq<HeadingV>,
    pub links: Seq<LinkV>,
}

pub open spec fn initial_ctx() -> CtxV {
    CtxV {
        lines: seq![],
        spans: seq![],
        style_stack: seq![],
        list_stack: seq![],
        blockquote_depth: 0,
        heading: None,
        code_block: None,
        table: None,
        pending_link_url: None,
        pending_link_text: seq![],
        image_rendered: false,
        in_metadata: false,
        needs_newline: false,
        headings: seq![],
        links: seq![],
    }
}

/// The styles of the stack applied one over the other, starting from no style.
pub open spec fn stack_style(s: Seq<TextStyle>) -> TextStyle
    decreases s.len(),
{
    if s.len() == 0 {
        plain_style()
    } else {
        patched(stack_style(s.drop_last()), s.last())
    }
}

/// The line being built, if it has spans, moved to the lines.
pub open spec fn flushed(st: CtxV) -> CtxV {
    if st.spans.len() > 0 {
        CtxV { lines: st.lines.push(line_of(st.spans)), spans: seq![], ..st }
    } else {
        st
    }
}

/// The line being built flushed, then an empty line.
pub open spec fn with_blank(st: CtxV) -> CtxV {
    let f = flushed(st);
    CtxV { lines: f.lines.push(line_of(seq![])), ..f }
}

pub open spec fn blank_if_needed(st: CtxV) -> CtxV {
    if st.needs_newline { with_blank(st) } else { st }
}

pub open spec fn dark_gray() -> TextStyle {
    TextStyle { fg: Some(Color::DarkGray), bg: None, add_modifier: 0, sub_modifier: 0 }
}

pub open spec fn modifier_style(m: u16) -> TextStyle {
    TextStyle { fg: None, bg: None, add_modifier: m, sub_modifier: 0 }
}

/// `"• "`
pub open spec fn bullet() -> Seq<char> {
    seq!['\u{2022}', ' ']
}

/// `"🖼 "`
pub open spec fn picture() -> Seq<char> {
    seq!['\u{1F5BC}', ' ']
}

/// `" (url)"`
pub open spec fn url_suffix(url: Seq<char>) -> Seq<char> {
    seq![' ', '('] + url + seq![')']
}

/// `"│ "` once per level of block quote.
pub open spec fn quote_prefix(depth: usize) -> Seq<char> {
    repeat(seq!['\u{2502}', ' '], depth as nat)
}

pub open spec fn next_number(n: u64) -> u64 {
    if n == u64::MAX { 0 } else { (n + 1) as u64 }
}

/// The language of a code block: the trimmed info string of a fenced block, if not empty.
pub open spec fn code_lang(k: CodeKindV) -> Option<Seq<char>> {
    match k {
        CodeKindV::Fenced(l) => if trim(l).len() == 0 { None } else { Some(trim(l)) },
        CodeKindV::Indented => None,
    }
}

pub open spec fn heading_style(theme: Theme, level: HeadingLevel) -> TextStyle {
    match level {
        HeadingLevel::H1 => theme.h1,
        HeadingLevel::H2 => theme.h2,
        HeadingLevel::H3 => theme.h3,
        HeadingLevel::H4 => theme.h4,
        HeadingLevel::H5 => theme.h5,
        HeadingLevel::H6 => theme.h6,
    }
}

/// The text of a heading's line: padded by two spaces on each side for H1.
pub open spec fn heading_line_text(level: HeadingLevel, text: Seq<char>) -> Seq<char> {
    if level == HeadingLevel::H1 { seq![' ', ' '] + text + seq![' ', ' '] } else { text }
}

/// A heading recorded at the next line's index, and its line added.
pub open spec fn with_heading(st: CtxV, level: HeadingLevel, text: Seq<char>, theme: Theme) -> CtxV {
    CtxV {
        headings: st.headings.push(HeadingV { line: st.lines.len() as usize, level, text }),
        lines: st.lines.push(styled_line(heading_line_text(level, text), heading_style(theme, level))),
        ..st
    }
}

pub open spec fn with_span(st: CtxV, s: SpanView) -> CtxV {
    CtxV { spans: st.spans.push(s), ..st }
}

pub open spec fn with_style(st: CtxV, s: TextStyle) -> CtxV {
    CtxV { style_stack: st.style_stack.push(s), ..st }
}

pub open spec fn style_popped(st: CtxV) -> CtxV {
    if st.style_stack.len() > 0 { CtxV { style_stack: st.style_stack.drop_last(), ..st } } else { st }
}

/// A list item: its indentation and its marker (a bullet, or the item's number).
pub open spec fn item_started(st: CtxV) -> CtxV {
    let n = st.list_stack.len();
    let depth = if n >= 1 { (n - 1) as nat } else { 0 };
    let indent = repeat(seq![' ', ' '], depth);
    let marker = if n == 0 { bullet() } else {
        match st.list_stack.last() {
            ListKind::Unordered => bullet(),
            ListKind::Ordered(k) => decimal(k as nat) + seq!['.', ' '],
        }
    };
    let stack = if n == 0 { st.list_stack } else {
        match st.list_stack.last() {
            ListKind::Unordered => st.list_stack,
            ListKind::Ordered(k) => st.list_stack.update(n - 1, ListKind::Ordered(next_number(k))),
        }
    };
    CtxV {
        spans: st.spans.push(span_v(indent, plain_style())).push(span_v(marker, dark_gray())),
        list_stack: stack,
        ..st
    }
}

/// An image: its loaded lines when there are any, else a picture marker; then,
/// like a link, the link style and the pending source.
pub open spec fn image_started(st: CtxV, url: Seq<char>, theme: Theme, imgs: Seq<(Seq<char>, Seq<LineView>)>) -> CtxV {
    let s0 = CtxV { image_rendered: false, ..st };
    let s1 = match image_for(imgs, url) {
        Some(ls) => {
            let f = flushed(s0);
            CtxV { lines: f.lines + ls, image_rendered: true, ..f }
        },
        None => s0,
    };
    let s2 = if !s1.image_rendered { with_span(s1, span_v(picture(), dark_gray())) } else { s1 };
    CtxV { pending_link_url: Some(url), ..with_style(s2, theme.link) }
}

pub open spec fn table_set(st: CtxV, t: TableV) -> CtxV {
    CtxV { table: Some(t), ..st }
}

/// The effect of the start of an element.
pub open spec fn started(st: CtxV, tag: TagV, theme: Theme, imgs: Seq<(Seq<char>, Seq<LineView>)>) -> CtxV {
    match tag {
        TagV::Paragraph => blank_if_needed(st),
        TagV::Heading(l) => CtxV { heading: Some(l), ..blank_if_needed(st) },
        TagV::BlockQuote => {
            let s1 = if st.blockquote_depth == 0 && st.needs_newline { with_blank(st) } else { st };
            CtxV { blockquote_depth: (s1.blockquote_depth + 1) as usize, ..s1 }
        },
        TagV::CodeBlock(k) => CtxV {
            code_block: Some(CodeBlockV { lang: code_lang(k), content: seq![] }),
            ..blank_if_needed(st)
        },
        TagV::List(n) => {
            let s1 = if st.list_stack.len() == 0 && st.needs_newline { with_blank(st) } else { st };
            let kind = match n { Some(k) => ListKind::Ordered(k), None => ListKind::Unordered };
            CtxV { list_stack: s1.list_stack.push(kind), ..s1 }
        },
        TagV::Item => item_started(st),
        TagV::Table => table_set(
            blank_if_needed(st),
            TableV { rows: seq![], current_cells: seq![], current_cell: seq![], in_header: false },
        ),
        TagV::TableHead => match st.table {
            Some(t) => table_set(st, TableV { in_header: true, current_cells: seq![], ..t }),
            None => st,
        },
        TagV::TableRow => match st.table {
            Some(t) => table_set(st, TableV { current_cells: seq![], ..t }),
            None => st,
        },
        TagV::TableCell => match st.table {
            Some(t) => table_set(st, TableV { current_cell: seq![], ..t }),
            None => st,
        },
        TagV::Emphasis => with_style(st, modifier_style(ITALIC)),
        TagV::Strong => with_style(st, modifier_style(BOLD)),
        TagV::Strikethrough => with_style(st, modifier_style(CROSSED_OUT)),
        TagV::Link(u) => CtxV { pending_link_url: Some(u), ..with_style(st, theme.link) },
        TagV::Image(u) => image_started(st, u, theme, imgs),
        _ => st,
    }
}

/// The effect of the end of an element.
pub open spec fn ended(st: CtxV, tag: MdTagEnd, theme: Theme) -> CtxV {
    match tag {
        MdTagEnd::Paragraph => {
            let f = flushed(st);
            if st.blockquote_depth > 0 { f } else { CtxV { needs_newline: true, ..f } }
        },
        MdTagEnd::Heading(l) => {
            let text = line_chars(st.spans);
            let s2 = with_heading(CtxV { spans: seq![], ..st }, l, text, theme);
            CtxV { heading: None, needs_newline: true, ..s2 }
        },
        MdTagEnd::BlockQuote => {
            let d = if st.blockquote_depth > 0 { (st.blockquote_depth - 1) as usize } else { 0 };
            CtxV { blockquote_depth: d, needs_newline: if d == 0 { true } else { st.needs_newline }, ..st }
        },
        MdTagEnd::CodeBlock => match st.code_block {
            Some(cb) => CtxV { lines: st.lines + code_block_lines(cb), code_block: None, needs_newline: true, ..st },
            None => CtxV { needs_newline: true, ..st },
        },
        MdTagEnd::List => {
            let ls = if st.list_stack.len() > 0 { st.list_stack.drop_last() } else { st.list_stack };
            CtxV { list_stack: ls, needs_newline: if ls.len() == 0 { true } else { st.needs_newline }, ..st }
        },
        MdTagEnd::Item => flushed(st),
        MdTagEnd::Table => match st.table {
            Some(t) => CtxV { lines: st.lines + table_lines(t, theme), table: None, needs_newline: true, ..st },
            None => CtxV { needs_newline: true, ..st },
        },
        MdTagEnd::TableHead => match st.table {
            Some(t) => table_set(st, TableV {
                rows: t.rows.push(RowV { cells: t.current_cells, is_header: true }),
                current_cells: seq![],
                in_header: false,
                ..t
            }),
            None => st,
        },
        MdTagEnd::TableRow => match st.table {
            Some(t) => if !t.in_header {
                table_set(st, TableV {
                    rows: t.rows.push(RowV { cells: t.current_cells, is_header: false }),
                    current_cells: seq![],
                    ..t
                })
            } else {
                st
            },
            None => st,
        },
        MdTagEnd::TableCell => match st.table {
            Some(t) => table_set(st, TableV {
                current_cells: t.current_cells.push(t.current_cell),
                current_cell: seq![],
                ..t
            }),
            None => st,
        },
        MdTagEnd::Emphasis | MdTagEnd::Strong | MdTagEnd::Strikethrough => style_popped(st),
        MdTagEnd::Link => {
            let s1 = style_popped(st);
            match s1.pending_link_url {
                Some(url) => CtxV {
                    pending_link_url: None,
                    pending_link_text: seq![],
                    links: s1.links.push(LinkV { url, text: s1.pending_link_text }),
                    spans: s1.spans.push(span_v(url_suffix(url), dark_gray())),
                    ..s1
                },
                None => s1,
            }
        },
        MdTagEnd::Image => {
            let s1 = style_popped(st);
            if s1.image_rendered {
                CtxV { pending_link_url: None, image_rendered: false, ..s1 }
            } else {
                match s1.pending_link_url {
                    Some(url) => CtxV {
                        pending_link_url: None,
                        spans: s1.spans.push(span_v(url_suffix(url), dark_gray())),
                        ..s1
                    },
                    None => s1,
                }
            }
        },
        _ => st,
    }
}

/// After a line break inside a text: flush, then the quote prefix inside a block quote.
pub open spec fn broken_in_text(st: CtxV, theme: Theme) -> CtxV {
    let f = flushed(st);
    if f.blockquote_depth > 0 { with_span(f, span_v(quote_prefix(f.blockquote_depth), theme.blockquote)) } else { f }
}

/// The pieces of a text between its newlines: each newline breaks the line, and
/// each non-empty piece becomes a span in `style`.
pub open spec fn emit_parts(st: CtxV, parts: Seq<Seq<char>>, style: TextStyle, theme: Theme) -> CtxV
    decreases parts.len(),
{
    if parts.len() == 0 {
        st
    } else {
        let prev = emit_parts(st, parts.drop_last(), style, theme);
        let s1 = if parts.len() > 1 { broken_in_text(prev, theme) } else { prev };
        if parts.last().len() > 0 { with_span(s1, span_v(parts.last(), style)) } else { s1 }
    }
}

/// The effect of a text event.
pub open spec fn texted(st: CtxV, t: Seq<char>, theme: Theme) -> CtxV {
    match st.code_block {
        Some(cb) => CtxV { code_block: Some(CodeBlockV { content: cb.content + t, ..cb }), ..st },
        None => if st.image_rendered {
            st
        } else {
            let s1 = if st.pending_link_url is Some {
                CtxV { pending_link_text: st.pending_link_text + t, ..st }
            } else {
                st
            };
            let style = stack_style(s1.style_stack);
            match s1.table {
                Some(tb) => table_set(s1, TableV { current_cell: tb.current_cell.push(span_v(t, style)), ..tb }),
                None => if s1.heading is Some {
                    with_span(s1, span_v(t, plain_style()))
                } else {
                    let s2 = if s1.blockquote_depth > 0 && s1.spans.len() == 0 {
                        with_span(s1, span_v(quote_prefix(s1.blockquote_depth), theme.blockquote))
                    } else {
                        s1
                    };
                    emit_parts(s2, split_newline(t), style, theme)
                },
            }
        },
    }
}

/// The effect of inline code: the code between spaces, in the inline code style.
pub open spec fn coded(st: CtxV, c: Seq<char>, theme: Theme) -> CtxV {
    let s = span_v(seq![' '] + c + seq![' '], theme.code_inline);
    match st.table {
        Some(tb) => table_set(st, TableV { current_cell: tb.current_cell.push(s), ..tb }),
        None => with_span(st, s),
    }
}

pub open spec fn soft_broken(st: CtxV) -> CtxV {
    if st.code_block is Some || st.table is Some { st } else { with_span(st, span_v(seq![' '], plain_style())) }
}

/// A horizontal rule: 80 `─` in the rule style.
pub open spec fn ruled(st: CtxV, theme: Theme) -> CtxV {
    let s1 = blank_if_needed(st);
    CtxV {
        lines: s1.lines.push(styled_line(repeat(seq!['\u{2500}'], 80), theme.hr)),
        needs_newline: true,
        ..s1
    }
}

/// A task checkbox replaces the last span (the list marker) in its style.
pub open spec fn task_marked(st: CtxV, checked: bool) -> CtxV {
    let marker = if checked { seq!['\u{2611}', ' '] } else { seq!['\u{2610}', ' '] };
    if st.spans.len() > 0 {
        CtxV { spans: st.spans.update(st.spans.len() - 1, span_v(marker, st.spans.last().style)), ..st }
    } else {
        st
    }
}

/// The effect of one event. Inside front matter only the end of the front matter counts.
pub open spec fn pushed(st: CtxV, e: EventV, theme: Theme, imgs: Seq<(Seq<char>, Seq<LineView>)>) -> CtxV {
    if st.in_metadata {
        if e == EventV::End(MdTagEnd::MetadataBlock) { CtxV { in_metadata: false, ..st } } else { st }
    } else {
        match e {
            EventV::Start(TagV::MetadataBlock) => CtxV { in_metadata: true, ..st },
            EventV::Start(tag) => started(st, tag, theme, imgs),
            EventV::End(tag) => ended(st, tag, theme),
            EventV::Text(t) => texted(st, t, theme),
            EventV::Code(c) => coded(st, c, theme),
            EventV::SoftBreak => soft_broken(st),
            EventV::HardBreak => flushed(st),
            EventV::Rule => ruled(st, theme),
            EventV::TaskListMarker(b) => task_marked(st, b),
            EventV::Other => st,
        }
    }
}

/// The state after the events, in order.
pub open spec fn run_events(events: Seq<EventV>, theme: Theme, imgs: Seq<(Seq<char>, Seq<LineView>)>) -> CtxV
    decreases events.len(),
{
    if events.len() == 0 {
        initial_ctx()
    } else {
        pushed(run_events(events.drop_last(), theme, imgs), events.last(), theme, imgs)
    }
}

/// What rendering the events gives: the last line flushed, then the lines, headings and links.
pub open spec fn rendered(events: Seq<EventV>, theme: Theme, imgs: Seq<(Seq<char>, Seq<LineView>)>) -> RenderOutputV {
    let f = flushed(run_events(events, theme, imgs));
    RenderOutputV { text: f.lines, headings: f.headings, links: f.links }
}

// ---------------------------------------------------------------------------
// The executable renderer.

struct Context {
    lines: Vec<StyledLine>,
    spans: Vec<StyledSpan>,
    style_stack: Vec<TextStyle>,
    list_stack: Vec<ListKind>,
    blockquote_depth: usize,
    heading: Option<HeadingLevel>,
    code_block: Option<CodeBlockState>,
    table: Option<TableState>,
    pending_link_url: Option<Vec<char>>,
    pending_link_text: Vec<char>,
    image_rendered: bool,
    in_metadata: bool,
    needs_newline: bool,
    headings: Vec<HeadingInfo>,
    links: Vec<LinkInfo>,
}

impl View for Context {
    type V = CtxV;

    closed spec fn view(&self) -> CtxV {
        CtxV {
            lines: lines_view(self.lines@),
            spans: spans_view(self.spans@),
            style_stack: self.style_stack@,
            list_stack: self.list_stack@,
            blockquote_depth: self.blockquote_depth,
            heading: self.heading,
            code_block: match self.code_block { Some(c) => Some(c@), None => None },
            table: match self.table { Some(t) => Some(t@), None => None },
            pending_link_url: match self.pending_link_url { Some(u) => Some(u@), None => None },
            pending_link_text: self.pending_link_text@,
            image_rendered: self.image_rendered,
            in_metadata: self.in_metadata,
            needs_newline: self.needs_newline,
            headings: headings_view(self.headings@),
            links: links_view(self.links@),
        }
    }
}

fn dark_gray_style() -> (r: TextStyle)
    ensures
        r == dark_gray(),
{
    TextStyle { fg: Some(Color::DarkGray), bg: None, add_modifier: 0, sub_modifier: 0 }
}

fn url_suffix_of(url: &Vec<char>) -> (r: Vec<char>)
    ensures
        r@ == url_suffix(url@),
{
    let mut v = Vec::new();
    v.push(' ');
    v.push('(');
    push_all(&mut v, url.as_slice());
    v.push(')');
    assert(v@ =~= url_suffix(url@));
    v
}

fn quote_prefix_of(depth: usize) -> (r: Vec<char>)
    ensures
        r@ == quote_prefix(depth),
{
    let unit = vec!['\u{2502}', ' '];
    assert(unit@ =~= seq!['\u{2502}', ' ']);
    repeat_chars(unit.as_slice(), depth)
}

/// The lines of the first image loaded under `url`.
fn find_image<'a>(images: &'a ImageSet, url: &Vec<char>) -> (r: Option<&'a Vec<StyledLine>>)
    ensures
        match r {
            Some(ls) => image_for(images@, url@) == Some(lines_view(ls@)),
            None => image_for(images@, url@) is None,
        },
{
    let u = string_of(url.as_slice());
    let mut k: usize = 0;
    assert(images@.skip(0) == images@);
    while k < images.images.len()
        invariant
            k <= images.images@.len(),
            u@ == url@,
            image_for(images@, url@) == image_for(images@.skip(k as int), url@),
        decreases images.images@.len() - k,
    {
        let ghost rest = images@.skip(k as int);
        assert(rest[0] == (images.images@[k as int].url@, lines_view(images.images@[k as int].lines@)));
        assert(rest.drop_first() == images@.skip(k + 1 as int));
        if images.images[k].url == u {
            return Some(&images.images[k].lines);
        }
        k = k + 1;
    }
    assert(images@.skip(k as int).len() == 0);
    None
}

impl Context {
    fn new() -> (r: Context)
        ensures
            r@ == initial_ctx(),
    {
        let r = Context {
            lines: Vec::new(),
            spans: Vec::new(),
            style_stack: Vec::new(),
            list_stack: Vec::new(),
            blockquote_depth: 0,
            heading: None,
            code_block: None,
            table: None,
            pending_link_url: None,
            pending_link_text: Vec::new(),
            image_rendered: false,
            in_metadata: false,
            needs_newline: false,
            headings: Vec::new(),
            links: Vec::new(),
        };
        assert(r@ =~= initial_ctx());
        r
    }

    fn current_style(&self) -> (r: TextStyle)
        ensures
            r == stack_style(self@.style_stack),
    {
        let mut style = TextStyle::new();
        let mut i: usize = 0;
        while i < self.style_stack.len()
            invariant
                i <= self.style_stack@.len(),
                style == stack_style(self.style_stack@.take(i as int)),
            decreases self.style_stack@.len() - i,
        {
            assert(self.style_stack@.take(i + 1 as int).drop_last() == self.style_stack@.take(i as int));
            style = style.patch(self.style_stack[i]);
            i = i + 1;
        }
        assert(self.style_stack@.take(self.style_stack@.len() as int) == self.style_stack@);
        style
    }

    fn flush_line(&mut self)
        ensures
            final(self)@ == flushed(old(self)@),
    {
        if self.spans.len() > 0 {
            let mut spans: Vec<StyledSpan> = Vec::new();
            std::mem::swap(&mut spans, &mut self.spans);
            push_line(&mut self.lines, StyledLine::from_spans(spans));
            assert(spans_view(self.spans@) =~= Seq::<SpanView>::empty());
        }
    }

    fn push_blank(&mut self)
        ensures
            final(self)@ == with_blank(old(self)@),
    {
        self.flush_line();
        push_line(&mut self.lines, StyledLine::empty());
    }

    fn blank_if_needed(&mut self)
        ensures
            final(self)@ == blank_if_needed(old(self)@),
    {
        if self.needs_newline {
            self.push_blank();
        }
    }

    fn add_span(&mut self, s: StyledSpan)
        ensures
            final(self)@ == with_span(old(self)@, s@),
    {
        push_span(&mut self.spans, s);
    }

    fn push_style(&mut self, s: TextStyle)
        ensures
            final(self)@ == with_style(old(self)@, s),
    {
        self.style_stack.push(s);
    }

    fn pop_style(&mut self)
        ensures
            final(self)@ == style_popped(old(self)@),
    {
        if self.style_stack.len() > 0 {
            self.style_stack.pop();
        }
    }

    fn push_event(&mut self, event: &MdEvent, theme: &Theme, images: &ImageSet)
        requires
            old(self)@.blockquote_depth < usize::MAX,
        ensures
            final(self)@ == pushed(old(self)@, event@, *theme, images@),
    {
        if self.in_metadata {
            match event {
                MdEvent::End(MdTagEnd::MetadataBlock) => {
                    self.in_metadata = false;
                },
                _ => {},
            }
            return;
        }
        match event {
            MdEvent::Start(MdTag::MetadataBlock) => {
                self.in_metadata = true;
            },
            MdEvent::Start(tag) => self.start_tag(tag, theme, images),
            MdEvent::End(tag) => self.end_tag(*tag, theme),
            MdEvent::Text(t) => {
                let cs = chars_of(t.as_str());
                self.text(&cs, theme);
            },
            MdEvent::Code(c) => {
                let cs = chars_of(c.as_str());
                self.inline_code(&cs, theme);
            },
            MdEvent::SoftBreak => self.soft_break(),
            MdEvent::HardBreak => self.flush_line(),
            MdEvent::Rule => self.rule(theme),
            MdEvent::TaskListMarker(checked) => self.task_list_marker(*checked),
            MdEvent::Other => {},
        }
    }

    fn start_tag(&mut self, tag: &MdTag, theme: &Theme, images: &ImageSet)
        requires
            old(self)@.blockquote_depth < usize::MAX,
            tag@ != TagV::MetadataBlock,
        ensures
            final(self)@ == started(old(self)@, tag@, *theme, images@),
    {
        match tag {
            MdTag::Paragraph => {
                self.blank_if_needed();
            },
            MdTag::Heading(level) => {
                self.blank_if_needed();
                self.heading = Some(*level);
            },
            MdTag::BlockQuote => {
                if self.blockquote_depth == 0 && self.needs_newline {
                    self.push_blank();
                }
                self.blockquote_depth = self.blockquote_depth + 1;
            },
            MdTag::CodeBlock(kind) => {
                self.blank_if_needed();
                let lang = match kind {
                    CodeKind::Fenced(l) => {
                        let t = trim_chars(chars_of(l.as_str()).as_slice());
                        if t.len() == 0 { None } else { Some(t) }
                    },
                    CodeKind::Indented => None,
                };
                self.code_block = Some(CodeBlockState { lang, content: Vec::new() });
            },
            MdTag::List(start) => {
                if self.list_stack.len() == 0 && self.needs_newline {
                    self.push_blank();
                }
                let kind = match start {
                    Some(n) => ListKind::Ordered(*n),
                    None => ListKind::Unordered,
                };
                self.list_stack.push(kind);
            },
            MdTag::Item => {
                self.start_item();
            },
            MdTag::Table => {
                self.blank_if_needed();
                self.table = Some(TableState {
                    rows: Vec::new(),
                    current_cells: Vec::new(),
                    current_cell: Vec::new(),
                    in_header: false,
                });
                proof {
                    let t = self.table.unwrap();
                    assert(t@ =~= TableV { rows: seq![], current_cells: seq![], current_cell: seq![], in_header: false });
                }
            },
            MdTag::TableHead => {
                match &mut self.table {
                    Some(table) => {
                        table.in_header = true;
                        table.current_cells = Vec::new();
                        assert(cells_view(table.current_cells@) =~= Seq::<Seq<SpanView>>::empty());
                    },
                    None => {},
                }
            },
            MdTag::TableRow => {
                match &mut self.table {
                    Some(table) => {
                        table.current_cells = Vec::new();
                        assert(cells_view(table.current_cells@) =~= Seq::<Seq<SpanView>>::empty());
                    },
                    None => {},
                }
            },
            MdTag::TableCell => {
                match &mut self.table {
                    Some(table) => {
                        table.current_cell = Vec::new();
                        assert(spans_view(table.current_cell@) =~= Seq::<SpanView>::empty());
                    },
                    None => {},
                }
            },
            MdTag::Emphasis => {
                self.push_style(TextStyle { fg: None, bg: None, add_modifier: ITALIC, sub_modifier: 0 });
            },
            MdTag::Strong => {
                self.push_style(TextStyle { fg: None, bg: None, add_modifier: BOLD, sub_modifier: 0 });
            },
            MdTag::Strikethrough => {
                self.push_style(TextStyle { fg: None, bg: None, add_modifier: CROSSED_OUT, sub_modifier: 0 });
            },
            MdTag::Link(url) => {
                self.push_style(theme.link);
                self.pending_link_url = Some(chars_of(url.as_str()));
            },
            MdTag::Image(url) => {
                let u = chars_of(url.as_str());
                self.start_image(u, theme, images);
            },
            MdTag::MetadataBlock => {},
            MdTag::Other => {},
        }
    }

    fn start_item(&mut self)
        ensures
            final(self)@ == item_started(old(self)@),
    {
        let n = self.list_stack.len();
        let depth = if n >= 1 { n - 1 } else { 0 };
        let two = vec![' ', ' '];
        assert(two@ =~= seq![' ', ' ']);
        let indent = repeat_chars(two.as_slice(), depth);
        let marker: Vec<char> = if n == 0 {
            vec!['\u{2022}', ' ']
        } else {
            match self.list_stack[n - 1] {
                ListKind::Unordered => vec!['\u{2022}', ' '],
                ListKind::Ordered(k) => {
                    let mut m = decimal_of(k);
                    m.push('.');
                    m.push(' ');
                    let next = if k == u64::MAX { 0 } else { k + 1 };
                    self.list_stack.set(n - 1, ListKind::Ordered(next));
                    m
                },
            }
        };
        assert(marker@ =~= (if n == 0 { bullet() } else {
            match old(self)@.list_stack.last() {
                ListKind::Unordered => bullet(),
                ListKind::Ordered(k) => decimal(k as nat) + seq!['.', ' '],
            }
        }));
        self.add_span(StyledSpan::raw(indent.as_slice()));
        self.add_span(StyledSpan::styled(marker.as_slice(), dark_gray_style()));
    }

    fn start_image(&mut self, url: Vec<char>, theme: &Theme, images: &ImageSet)
        ensures
            final(self)@ == image_started(old(self)@, url@, *theme, images@),
    {
        self.image_rendered = false;
        match find_image(images, &url) {
            Some(ls) => {
                self.flush_line();
                extend_lines(&mut self.lines, ls);
                self.image_rendered = true;
            },
            None => {},
        }
        if !self.image_rendered {
            let pic = vec!['\u{1F5BC}', ' '];
            assert(pic@ =~= picture());
            self.add_span(StyledSpan::styled(pic.as_slice(), dark_gray_style()));
        }
        self.push_style(theme.link);
        self.pending_link_url = Some(url);
    }

    fn end_tag(&mut self, tag: MdTagEnd, theme: &Theme)
        ensures
            final(self)@ == ended(old(self)@, tag, *theme),
    {
        match tag {
            MdTagEnd::Paragraph => {
                self.flush_line();
                if self.blockquote_depth == 0 {
                    self.needs_newline = true;
                }
            },
            MdTagEnd::Heading(level) => {
                let mut text: Vec<char> = Vec::new();
                let mut i: usize = 0;
                while i < self.spans.len()
                    invariant
                        i <= self.spans@.len(),
                        text@ == line_chars(spans_view(self.spans@).take(i as int)),
                    decreases self.spans@.len() - i,
                {
                    let cs = chars_of(self.spans[i].content.as_str());
                    push_all(&mut text, cs.as_slice());
                    proof {
                        assert(spans_view(self.spans@).take(i + 1 as int).drop_last() == spans_view(self.spans@).take(i as int));
                    }
                    i = i + 1;
                }
                assert(spans_view(self.spans@).take(self.spans@.len() as int) == spans_view(self.spans@));
                self.spans = Vec::new();
                assert(spans_view(self.spans@) =~= Seq::<SpanView>::empty());
                self.render_heading(level, text, theme);
                self.heading = None;
                self.needs_newline = true;
            },
            MdTagEnd::BlockQuote => {
                self.blockquote_depth = if self.blockquote_depth > 0 { self.blockquote_depth - 1 } else { 0 };
                if self.blockquote_depth == 0 {
                    self.needs_newline = true;
                }
            },
            MdTagEnd::CodeBlock => {
                match self.code_block.take() {
                    Some(cb) => {
                        let ls = render_code_block(&cb);
                        extend_lines(&mut self.lines, &ls);
                    },
                    None => {},
                }
                self.needs_newline = true;
            },
            MdTagEnd::List => {
                if self.list_stack.len() > 0 {
                    self.list_stack.pop();
                }
                if self.list_stack.len() == 0 {
                    self.needs_newline = true;
                }
            },
            MdTagEnd::Item => {
                self.flush_line();
            },
            MdTagEnd::Table => {
                match self.table.take() {
                    Some(t) => {
                        let ls = render_table(&t, theme);
                        extend_lines(&mut self.lines, &ls);
                    },
                    None => {},
                }
                self.needs_newline = true;
            },
            MdTagEnd::TableHead => {
                match &mut self.table {
                    Some(table) => {
                        let mut cells: Vec<Vec<StyledSpan>> = Vec::new();
                        std::mem::swap(&mut cells, &mut table.current_cells);
                        let ghost old_rows = rows_view(table.rows@);
                        let row = TableRowState { cells, is_header: true };
                        table.rows.push(row);
                        assert(rows_view(table.rows@) =~= old_rows.push(row@));
                        assert(cells_view(table.current_cells@) =~= Seq::<Seq<SpanView>>::empty());
                        table.in_header = false;
                    },
                    None => {},
                }
            },
            MdTagEnd::TableRow => {
                match &mut self.table {
                    Some(table) => {
                        if !table.in_header {
                            let mut cells: Vec<Vec<StyledSpan>> = Vec::new();
                            std::mem::swap(&mut cells, &mut table.current_cells);
                            let ghost old_rows = rows_view(table.rows@);
                            let row = TableRowState { cells, is_header: false };
                            table.rows.push(row);
                            assert(rows_view(table.rows@) =~= old_rows.push(row@));
                            assert(cells_view(table.current_cells@) =~= Seq::<Seq<SpanView>>::empty());
                        }
                    },
                    None => {},
                }
            },
            MdTagEnd::TableCell => {
                match &mut self.table {
                    Some(table) => {
                        let mut cell: Vec<StyledSpan> = Vec::new();
                        std::mem::swap(&mut cell, &mut table.current_cell);
                        let ghost old_cells = cells_view(table.current_cells@);
                        let ghost cv = spans_view(cell@);
                        table.current_cells.push(cell);
                        assert(cells_view(table.current_cells@) =~= old_cells.push(cv));
                        assert(spans_view(table.current_cell@) =~= Seq::<SpanView>::empty());
                    },
                    None => {},
                }
            },
            MdTagEnd::Emphasis | MdTagEnd::Strong | MdTagEnd::Strikethrough => {
                self.pop_style();
            },
            MdTagEnd::Link => {
                self.pop_style();
                match self.pending_link_url.take() {
                    Some(url) => {
                        let mut link_text: Vec<char> = Vec::new();
                        std::mem::swap(&mut link_text, &mut self.pending_link_text);
                        let ghost old_links = links_view(self.links@);
                        let info = LinkInfo { url: string_of(url.as_slice()), text: string_of(link_text.as_slice()) };
                        self.links.push(info);
                        assert(links_view(self.links@) =~= old_links.push(info@));
                        self.add_span(StyledSpan::styled(url_suffix_of(&url).as_slice(), dark_gray_style()));
                    },
                    None => {},
                }
            },
            MdTagEnd::Image => {
                self.pop_style();
                if self.image_rendered {
                    self.pending_link_url = None;
                    self.image_rendered = false;
                } else {
                    match self.pending_link_url.take() {
                        Some(url) => {
                            self.add_span(StyledSpan::styled(url_suffix_of(&url).as_slice(), dark_gray_style()));
                        },
                        None => {},
                    }
                }
            },
            MdTagEnd::MetadataBlock => {},
            MdTagEnd::Other => {},
        }
    }

    fn render_heading(&mut self, level: HeadingLevel, text: Vec<char>, theme: &Theme)
        ensures
            final(self)@ == with_heading(old(self)@, level, text@, *theme),
    {
        let style = match level {
            HeadingLevel::H1 => theme.h1,
            HeadingLevel::H2 => theme.h2,
            HeadingLevel::H3 => theme.h3,
            HeadingLevel::H4 => theme.h4,
            HeadingLevel::H5 => theme.h5,
            HeadingLevel::H6 => theme.h6,
        };
        let ghost old_h = headings_view(self.headings@);
        let info = HeadingInfo { line: self.lines.len(), level, text: string_of(text.as_slice()) };
        self.headings.push(info);
        assert(headings_view(self.headings@) =~= old_h.push(info@));
        let padded = match level {
            HeadingLevel::H1 => {
                let mut p = vec![' ', ' '];
                push_all(&mut p, text.as_slice());
                p.push(' ');
                p.push(' ');
                p
            },
            _ => text,
        };
        assert(padded@ =~= heading_line_text(level, text@));
        push_line(&mut self.lines, StyledLine::styled(padded.as_slice(), style));
    }

    fn text(&mut self, t: &Vec<char>, theme: &Theme)
        ensures
            final(self)@ == texted(old(self)@, t@, *theme),
    {
        match &mut self.code_block {
            Some(cb) => {
                push_all(&mut cb.content, t.as_slice());
                return;
            },
            None => {},
        }
        if self.image_rendered {
            return;
        }
        if self.pending_link_url.is_some() {
            push_all(&mut self.pending_link_text, t.as_slice());
        }
        let style = self.current_style();
        match &mut self.table {
            Some(table) => {
                push_span(&mut table.current_cell, StyledSpan::styled(t.as_slice(), style));
                return;
            },
            None => {},
        }
        if self.heading.is_some() {
            self.add_span(StyledSpan::raw(t.as_slice()));
            return;
        }
        if self.blockquote_depth > 0 && self.spans.len() == 0 {
            let prefix = quote_prefix_of(self.blockquote_depth);
            self.add_span(StyledSpan::styled(prefix.as_slice(), theme.blockquote));
        }
        let parts = split_newline_of(t.as_slice());
        let ghost pv = parts@.map_values(|l: Vec<char>| l@);
        let ghost s2 = self@;
        let mut i: usize = 0;
        while i < parts.len()
            invariant
                i <= parts@.len(),
                pv == parts@.map_values(|l: Vec<char>| l@),
                self@ == emit_parts(s2, pv.take(i as int), style, *theme),
            decreases parts@.len() - i,
        {
            proof {
                assert(pv.take(i + 1 as int).drop_last() == pv.take(i as int));
                assert(pv.take(i + 1 as int).last() == parts@[i as int]@);
            }
            if i > 0 {
                self.flush_line();
                if self.blockquote_depth > 0 {
                    let prefix = quote_prefix_of(self.blockquote_depth);
                    self.add_span(StyledSpan::styled(prefix.as_slice(), theme.blockquote));
                }
            }
            if parts[i].len() > 0 {
                self.add_span(StyledSpan::styled(parts[i].as_slice(), style));
            }
            i = i + 1;
        }
        assert(pv.take(parts@.len() as int) == pv);
    }

    fn inline_code(&mut self, code: &Vec<char>, theme: &Theme)
        ensures
            final(self)@ == coded(old(self)@, code@, *theme),
    {
        let mut c = vec![' '];
        push_all(&mut c, code.as_slice());
        c.push(' ');
        assert(c@ =~= seq![' '] + code@ + seq![' ']);
        let styled = StyledSpan::styled(c.as_slice(), theme.code_inline);
        match &mut self.table {
            Some(table) => {
                push_span(&mut table.current_cell, styled);
            },
            None => {
                self.add_span(styled);
            },
        }
    }

    fn soft_break(&mut self)
        ensures
            final(self)@ == soft_broken(old(self)@),
    {
        if self.code_block.is_some() || self.table.is_some() {
            return;
        }
        let sp = vec![' '];
        assert(sp@ =~= seq![' ']);
        self.add_span(StyledSpan::raw(sp.as_slice()));
    }

    fn rule(&mut self, theme: &Theme)
        ensures
            final(self)@ == ruled(old(self)@, *theme),
    {
        self.blank_if_needed();
        let one = vec!['\u{2500}'];
        assert(one@ =~= seq!['\u{2500}']);
        let line = repeat_chars(one.as_slice(), 80);
        push_line(&mut self.lines, StyledLine::styled(line.as_slice(), theme.hr));
        self.needs_newline = true;
    }

    fn task_list_marker(&mut self, checked: bool)
        ensures
            final(self)@ == task_marked(old(self)@, checked),
    {
        let marker = if checked { vec!['\u{2611}', ' '] } else { vec!['\u{2610}', ' '] };
        let n = self.spans.len();
        if n > 0 {
            let style = self.spans[n - 1].style;
            let ghost old_spans = spans_view(self.spans@);
            let s = StyledSpan::styled(marker.as_slice(), style);
            self.spans.set(n - 1, s);
            assert(spans_view(self.spans@) =~= old_spans.update(n - 1, s@));
            assert(marker@ =~= (if checked { seq!['\u{2611}', ' '] } else { seq!['\u{2610}', ' '] }));
        }
    }

    fn into_output(self) -> (r: RenderOutput)
        ensures
            r@ == (RenderOutputV {
                text: flushed(self@).lines,
                headings: flushed(self@).headings,
                links: flushed(self@).links,
            }),
    {
        let mut ctx = self;
        ctx.flush_line();
        RenderOutput { text: StyledText::from_lines(ctx.lines), headings: ctx.headings, links: ctx.links }
    }
}

pub proof fn lemma_emit_parts_depth(st: CtxV, parts: Seq<Seq<char>>, style: TextStyle, theme: Theme)
    ensures
        emit_parts(st, parts, style, theme).blockquote_depth == st.blockquote_depth,
    decreases parts.len(),
{
    if parts.len() > 0 {
        lemma_emit_parts_depth(st, parts.drop_last(), style, theme);
    }
}

/// One event deepens the block quote nesting by at most one level.
pub proof fn lemma_depth_step(st: CtxV, e: EventV, theme: Theme, imgs: Seq<(Seq<char>, Seq<LineView>)>)
    requires
        st.blockquote_depth < usize::MAX,
    ensures
        pushed(st, e, theme, imgs).blockquote_depth <= st.blockquote_depth + 1,
{
    if !st.in_metadata {
        match e {
            EventV::Start(tag) => {
                match tag {
                    TagV::Item => {},
                    TagV::Image(u) => {},
                    _ => {},
                }
            },
            EventV::End(tag) => {},
            EventV::Text(t) => {
                if st.code_block is None && !st.image_rendered && st.table is None {
                    let s1 = if st.pending_link_url is Some {
                        CtxV { pending_link_text: st.pending_link_text + t, ..st }
                    } else {
                        st
                    };
                    let s2 = if s1.blockquote_depth > 0 && s1.spans.len() == 0 {
                        with_span(s1, span_v(quote_prefix(s1.blockquote_depth), theme.blockquote))
                    } else {
                        s1
                    };
                    lemma_emit_parts_depth(s2, split_newline(t), stack_style(s1.style_stack), theme);
                }
            },
            _ => {},
        }
    }
}

/// Renders events to styled lines, collecting headings and links.
pub fn render_events(events: &Vec<MdEvent>, theme: &Theme, images: &ImageSet) -> (r: RenderOutput)
    ensures
        r@ == rendered(events_view(events@), *theme, images@),
        headings_ok(r@.text, r@.headings, *theme),
{
    let mut ctx = Context::new();
    let ghost ev = events_view(events@);
    let mut i: usize = 0;
    while i < events.len()
        invariant
            i <= events@.len(),
            ev == events_view(events@),
            ctx@ == run_events(ev.take(i as int), *theme, images@),
            ctx@.blockquote_depth <= i,
        decreases events@.len() - i,
    {
        proof {
            assert(ev.take(i + 1 as int).drop_last() == ev.take(i as int));
            assert(ev.take(i + 1 as int).last() == events@[i as int]@);
            lemma_depth_step(ctx@, events@[i as int]@, *theme, images@);
        }
        ctx.push_event(&events[i], theme, images);
        i = i + 1;
    }
    assert(ev.take(events@.len() as int) == ev);
    let out = ctx.into_output();
    proof {
        vstd::std_specs::vec::axiom_spec_len(&out.text.lines);
        law_headings_point_at_their_lines(ev, *theme, images@);
    }
    out
}

/// Renders markdown text to styled lines: H1 headings on a padded line with a
/// background, code blocks in bordered boxes with syntax highlighting, tables with
/// box-drawing borders, lists, block quotes, links with their URL after them, and
/// inline formatting. Front matter is skipped. `images` holds the images that could
/// be loaded; the others show as a marker with their source.
pub fn render(content: &str, theme: &Theme, images: &ImageSet) -> (r: RenderOutput)
    ensures
        r@ == rendered(spec_markdown_events(content@), *theme, images@),
        headings_ok(r@.text, r@.headings, *theme),
{
    let events = markdown_events(content);
    render_events(&events, theme, images)
}

} // verus!
