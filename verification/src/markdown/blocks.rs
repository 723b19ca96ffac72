//! Block rendering: fenced code blocks in a bordered box, and tables with
//! box-drawing borders and display-width-aware columns.
use vstd::prelude::*;
use syntect::easy::HighlightLines;
use syntect::highlighting::ThemeSet;
use syntect::highlighting::Style as SyntectStyle;
use syntect::parsing::SyntaxSet;
use crate::markdown::theme::Theme;
use crate::strings::{str_len, repeat, split_lines, split_lines_of, string_of, repeat_char, push_all};
use crate::style::{Color, TextStyle, plain_style};
use crate::text::{
    line_chars, line_of, lines_view, push_line, push_span, span_v, spans_view, styled_line,
    LineView, SpanView, StyledLine, StyledSpan,
};

verus! {

/// `a + b`, cut at `usize::MAX`.
pub open spec fn sat_add(a: int, b: int) -> usize {
    if a + b <= usize::MAX { (a + b) as usize } else { usize::MAX }
}

/// `a - b`, or 0 when `b > a`.
pub open spec fn sat_sub(a: int, b: int) -> usize {
    if a >= b { (a - b) as usize } else { 0 }
}

pub open spec fn max_nat(a: int, b: int) -> int {
    if a >= b { a } else { b }
}

// ---------------------------------------------------------------------------
// Syntax highlighting.

/// One highlighted piece of a code line: its foreground color and its text.
#[derive(Debug)]
pub struct HighlightRange {
    pub fg: (u8, u8, u8),
    pub text: String,
}

/// The highlighting of one code line; `ok` is false when the highlighter failed on it.
#[derive(Debug)]
pub struct HighlightedLine {
    pub ok: bool,
    pub ranges: Vec<HighlightRange>,
}

/// What syntect makes of a code block: the theme background, whether a syntax
/// was found for the block's language, and the highlighting of each line.
#[derive(Debug)]
pub struct CodeHighlight {
    pub background: Option<(u8, u8, u8)>,
    pub found: bool,
    pub lines: Vec<HighlightedLine>,
}

pub struct HighlightedLineV {
    pub ok: bool,
    pub ranges: Seq<((u8, u8, u8), Seq<char>)>,
}

pub struct CodeHighlightV {
    pub background: Option<(u8, u8, u8)>,
    pub found: bool,
    pub lines: Seq<HighlightedLineV>,
}

pub open spec fn ranges_view(v: Seq<HighlightRange>) -> Seq<((u8, u8, u8), Seq<char>)> {
    v.map_values(|r: HighlightRange| (r.fg, r.text@))
}

impl View for CodeHighlight {
    type V = CodeHighlightV;

    open spec fn view(&self) -> CodeHighlightV {
        CodeHighlightV {
            background: self.background,
            found: self.found,
            lines: self.lines@.map_values(|l: HighlightedLine| HighlightedLineV { ok: l.ok, ranges: ranges_view(l.ranges@) }),
        }
    }
}

/// The texts of highlighted ranges, put together.
pub open spec fn ranges_text(rs: Seq<((u8, u8, u8), Seq<char>)>) -> Seq<char>
    decreases rs.len(),
{
    if rs.len() == 0 {
        seq![]
    } else {
        ranges_text(rs.drop_last()) + rs.last().1
    }
}

/// Each line highlighted without error is cut into ranges that give it back.
pub open spec fn ranges_cover(hl: CodeHighlightV, ls: Seq<Seq<char>>) -> bool {
    forall|i: int| 0 <= i < ls.len() && i < hl.lines.len() && (#[trigger] hl.lines[i]).ok
        ==> ranges_text(hl.lines[i].ranges) == ls[i]
}

pub open spec fn deep_lines(v: Seq<Vec<char>>) -> Seq<Seq<char>> {
    v.map_values(|l: Vec<char>| l@)
}

/// Name for what syntect makes of the lines of a code block in the given language
/// (with its default syntaxes and the "base16-ocean.dark" theme).
pub uninterp spec fn spec_highlight(lang: Option<Seq<char>>, lines: Seq<Seq<char>>) -> CodeHighlightV;

/// Highlights code with syntect: finds the syntax by `SyntaxSet::find_syntax_by_token`
/// on the language, runs `HighlightLines::highlight_line` on each line in turn, and
/// reads the background of the "base16-ocean.dark" theme. Claimed: the result is a
/// function of the language and the lines (named above), with one entry per line,
/// and the ranges of a line highlighted without error put together give the line
/// back (syntect's highlighting iterator cuts the line into consecutive pieces).
/// Without a language no syntax is looked up, so nothing is found and no line is
/// highlighted.
#[verifier::external_body]
fn highlight_code(lang: &Option<Vec<char>>, lines: &Vec<Vec<char>>) -> (r: CodeHighlight)
    ensures
        r@ == spec_highlight(match lang { Some(l) => Some(l@), None => None }, deep_lines(lines@)),
        r@.lines.len() == lines@.len(),
        ranges_cover(r@, deep_lines(lines@)),
        lang is None ==> !r@.found && forall|i: int| 0 <= i < r@.lines.len() ==> !(#[trigger] r@.lines[i]).ok,
{
    let ss = SyntaxSet::load_defaults_newlines();
    let themes = ThemeSet::load_defaults();
    let theme = &themes.themes["base16-ocean.dark"];
    let syntax = lang.as_ref().and_then(|l| ss.find_syntax_by_token(&String::from_iter(l)));
    let mut hl = syntax.map(|s| HighlightLines::new(s, theme));
    let strs: Vec<String> = lines.iter().map(String::from_iter).collect();
    let lines = strs.iter().map(|l| line_from_syntect(hl.as_mut().map(|h| h.highlight_line(l, &ss)))).collect();
    CodeHighlight { background: theme.settings.background.map(|c| (c.r, c.g, c.b)), found: syntax.is_some(), lines }
}

// syntect's style and error types, opaque here: they only pass from the
// highlighter to the converter below.
#[verifier::external_type_specification]
#[verifier::external_body]
pub struct ExSyntectStyle(SyntectStyle);

#[verifier::external_type_specification]
#[verifier::external_body]
pub struct ExSyntectError(syntect::Error);

/// Converts what `HighlightLines::highlight_line` gave for one line, range for
/// range (foreground color and text); no highlighter, or an error, gives a line
/// marked as not highlighted. Used by `highlight_code` alone.
#[verifier::external_body]
fn line_from_syntect(r: Option<Result<Vec<(SyntectStyle, &str)>, syntect::Error>>) -> HighlightedLine {
    match r {
        Some(Ok(rs)) => HighlightedLine { ok: true, ranges: rs.iter().map(|(st, t)| HighlightRange {
            fg: (st.foreground.r, st.foreground.g, st.foreground.b), text: t.to_string() }).collect() },
        Some(Err(_)) => HighlightedLine { ok: false, ranges: Vec::new() },
        None => HighlightedLine { ok: false, ranges: Vec::new() },
    }
}

// ---------------------------------------------------------------------------
// Code blocks.

/// A fenced or indented code block being collected.
pub struct CodeBlockState {
    pub lang: Option<Vec<char>>,
    pub content: Vec<char>,
}

pub struct CodeBlockV {
    pub lang: Option<Seq<char>>,
    pub content: Seq<char>,
}

impl View for CodeBlockState {
    type V = CodeBlockV;

    open spec fn view(&self) -> CodeBlockV {
        CodeBlockV {
            lang: match self.lang { Some(l) => Some(l@), None => None },
            content: self.content@,
        }
    }
}

/// `str::trim_end_matches('\n')`.
pub open spec fn trim_trailing_newlines(s: Seq<char>) -> Seq<char>
    decreases s.len(),
{
    if s.len() > 0 && s.last() == '\n' {
        trim_trailing_newlines(s.drop_last())
    } else {
        s
    }
}

/// The longest byte length among `ls` (0 when there is none).
pub open spec fn max_byte_len(ls: Seq<Seq<char>>) -> usize
    decreases ls.len(),
{
    if ls.len() == 0 {
        0
    } else {
        max_nat(max_byte_len(ls.drop_last()) as int, str_len(ls.last()) as int) as usize
    }
}

/// The sum of the byte lengths of the spans' texts, cut at `usize::MAX`.
pub open spec fn spans_byte_len(s: Seq<SpanView>) -> usize
    decreases s.len(),
{
    if s.len() == 0 {
        0
    } else {
        sat_add(spans_byte_len(s.drop_last()) as int, str_len(s.last().content) as int)
    }
}

pub open spec fn dashes(n: nat) -> Seq<char> {
    repeat(seq!['\u{2500}'], n)
}

pub open spec fn spaces(n: nat) -> Seq<char> {
    repeat(seq![' '], n)
}

/// The lines of a code block's content, trailing newlines dropped.
pub open spec fn code_lines(cb: CodeBlockV) -> Seq<Seq<char>> {
    split_lines(trim_trailing_newlines(cb.content))
}

/// Inner width of the box: the longest line (at least 20 bytes) plus 4.
pub open spec fn box_width(cb: CodeBlockV) -> usize {
    sat_add(max_nat(max_byte_len(code_lines(cb)) as int, 20), 4)
}

pub open spec fn code_bg(hl: CodeHighlightV) -> Color {
    match hl.background {
        Some(c) => Color::Rgb(c.0, c.1, c.2),
        None => Color::Rgb(43, 48, 59),
    }
}

pub open spec fn bg_only(c: Color) -> TextStyle {
    TextStyle { fg: None, bg: Some(c), add_modifier: 0, sub_modifier: 0 }
}

pub open spec fn fg_bg(fg: Color, bg: Color) -> TextStyle {
    TextStyle { fg: Some(fg), bg: Some(bg), add_modifier: 0, sub_modifier: 0 }
}

pub open spec fn border_style(hl: CodeHighlightV) -> TextStyle {
    fg_bg(Color::Rgb(80, 80, 80), code_bg(hl))
}

/// `"  │ "`, the left border of a code line.
pub open spec fn left_bar() -> Seq<char> {
    seq![' ', ' ', '\u{2502}', ' ']
}

/// `" │"`, the right border of a code line.
pub open spec fn right_bar() -> Seq<char> {
    seq![' ', '\u{2502}']
}

/// The highlighted pieces of a line as spans on the block background.
pub open spec fn range_spans(rs: Seq<((u8, u8, u8), Seq<char>)>, bg: Color) -> Seq<SpanView> {
    rs.map_values(|r: ((u8, u8, u8), Seq<char>)| span_v(r.1, fg_bg(Color::Rgb(r.0.0, r.0.1, r.0.2), bg)))
}

/// The code text of line `i`: highlighted when a syntax was found and the line
/// highlighted without error, in the plain code color otherwise.
pub open spec fn code_body(line: Seq<char>, i: int, hl: CodeHighlightV) -> Seq<SpanView> {
    if hl.found && 0 <= i < hl.lines.len() && hl.lines[i].ok {
        range_spans(hl.lines[i].ranges, code_bg(hl))
    } else {
        seq![span_v(line, fg_bg(Color::Rgb(192, 197, 206), code_bg(hl)))]
    }
}

/// One boxed code line: left border, code text, padding to the box width, right border.
pub open spec fn code_line(line: Seq<char>, i: int, width: usize, hl: CodeHighlightV) -> LineView {
    let body = code_body(line, i, hl);
    let pad = sat_sub(width as int, sat_add(spans_byte_len(body) as int, 2) as int);
    LineView {
        spans: seq![span_v(left_bar(), border_style(hl))] + body
            + seq![span_v(spaces(pad as nat) + right_bar(), border_style(hl))],
        style: bg_only(code_bg(hl)),
    }
}

pub open spec fn code_lines_boxed(ls: Seq<Seq<char>>, width: usize, hl: CodeHighlightV) -> Seq<LineView>
    decreases ls.len(),
{
    if ls.len() == 0 {
        seq![]
    } else {
        code_lines_boxed(ls.drop_last(), width, hl).push(code_line(ls.last(), ls.len() - 1, width, hl))
    }
}

/// The line that names the block's language.
pub open spec fn label_line(lang: Seq<char>, width: usize, hl: CodeHighlightV) -> LineView {
    let pad = sat_sub(width as int, sat_add(str_len(lang) as int, 2) as int);
    LineView {
        spans: seq![
            span_v(left_bar(), border_style(hl)),
            span_v(lang, fg_bg(Color::Rgb(120, 120, 120), code_bg(hl))),
            span_v(spaces(pad as nat) + right_bar(), border_style(hl)),
        ],
        style: bg_only(code_bg(hl)),
    }
}

/// The lines of a rendered code block: a rounded box, the language label when the
/// block has one, then each code line (or one blank line for empty content).
pub open spec fn code_block_lines(cb: CodeBlockV) -> Seq<LineView> {
    let ls = code_lines(cb);
    let hl = spec_highlight(cb.lang, ls);
    let w = box_width(cb);
    let top = styled_line(seq![' ', ' ', '\u{256D}'] + dashes(w as nat) + seq!['\u{256E}'], border_style(hl));
    let bottom = styled_line(seq![' ', ' ', '\u{2570}'] + dashes(w as nat) + seq!['\u{256F}'], border_style(hl));
    let label = match cb.lang {
        Some(l) => seq![label_line(l, w, hl)],
        None => seq![],
    };
    let body = if trim_trailing_newlines(cb.content).len() == 0 {
        seq![LineView {
            spans: seq![
                span_v(left_bar(), border_style(hl)),
                span_v(spaces((w - 2) as nat), bg_only(code_bg(hl))),
                span_v(right_bar(), border_style(hl)),
            ],
            style: bg_only(code_bg(hl)),
        }]
    } else {
        code_lines_boxed(ls, w, hl)
    };
    seq![top] + label + body + seq![bottom]
}

fn chars2(a: char, b: char) -> (r: Vec<char>)
    ensures
        r@ == seq![a, b],
{
    let mut v = Vec::new();
    v.push(a);
    v.push(b);
    v
}

fn chars3(a: char, b: char, c: char) -> (r: Vec<char>)
    ensures
        r@ == seq![a, b, c],
{
    let mut v = chars2(a, b);
    v.push(c);
    v
}

fn chars4(a: char, b: char, c: char, d: char) -> (r: Vec<char>)
    ensures
        r@ == seq![a, b, c, d],
{
    let mut v = chars3(a, b, c);
    v.push(d);
    v
}

/// Byte length of the UTF-8 encoding of `s`.
fn byte_len_of(s: &[char]) -> (r: usize)
    ensures
        r == str_len(s@),
{
    let st = string_of(s);
    st.as_str().len()
}

fn sat_add_exec(a: usize, b: usize) -> (r: usize)
    ensures
        r == sat_add(a as int, b as int),
{
    a.saturating_add(b)
}

fn sat_sub_exec(a: usize, b: usize) -> (r: usize)
    ensures
        r == sat_sub(a as int, b as int),
{
    a.saturating_sub(b)
}

/// Removes the newlines at the end.
fn trim_trailing_newlines_of(s: &Vec<char>) -> (r: Vec<char>)
    ensures
        r@ == trim_trailing_newlines(s@),
{
    let mut r: Vec<char> = Vec::new();
    let mut k: usize = s.len();
    assert(s@.take(s@.len() as int) == s@);
    while k > 0 && s[k - 1] == '\n'
        invariant
            k <= s@.len(),
            trim_trailing_newlines(s@) == trim_trailing_newlines(s@.take(k as int)),
        decreases k,
    {
        assert(s@.take(k as int).drop_last() == s@.take(k - 1 as int));
        k = k - 1;
    }
    assert(s@.take(s@.len() as int) == s@);
    let mut i: usize = 0;
    while i < k
        invariant
            i <= k <= s@.len(),
            r@ == s@.take(i as int),
        decreases k - i,
    {
        r.push(s[i]);
        i = i + 1;
        assert(s@.take(i as int) == s@.take(i - 1 as int).push(s@[i - 1 as int]));
    }
    r
}

fn max_byte_len_of(ls: &Vec<Vec<char>>) -> (r: usize)
    ensures
        r == max_byte_len(deep_lines(ls@)),
{
    let mut m: usize = 0;
    let mut i: usize = 0;
    while i < ls.len()
        invariant
            i <= ls@.len(),
            m == max_byte_len(deep_lines(ls@).take(i as int)),
        decreases ls@.len() - i,
    {
        let b = byte_len_of(ls[i].as_slice());
        proof {
            assert(deep_lines(ls@).take(i + 1 as int).drop_last() == deep_lines(ls@).take(i as int));
            assert(deep_lines(ls@)[i as int] == ls@[i as int]@);
        }
        if b > m {
            m = b;
        }
        i = i + 1;
    }
    assert(deep_lines(ls@).take(ls@.len() as int) == deep_lines(ls@));
    m
}

fn spans_byte_len_of(s: &Vec<StyledSpan>) -> (r: usize)
    ensures
        r == spans_byte_len(spans_view(s@)),
{
    let mut t: usize = 0;
    let mut i: usize = 0;
    while i < s.len()
        invariant
            i <= s@.len(),
            t == spans_byte_len(spans_view(s@).take(i as int)),
        decreases s@.len() - i,
    {
        let b = s[i].content.as_str().len();
        proof {
            assert(spans_view(s@)[i as int].content == s@[i as int].content@);
            assert(spans_view(s@).take(i + 1 as int).drop_last() == spans_view(s@).take(i as int));
        }
        t = sat_add_exec(t, b);
        i = i + 1;
    }
    assert(spans_view(s@).take(s@.len() as int) == spans_view(s@));
    t
}

fn code_bg_exec(hl: &CodeHighlight) -> (r: Color)
    ensures
        r == code_bg(hl@),
{
    match hl.background {
        Some(c) => Color::Rgb(c.0, c.1, c.2),
        None => Color::Rgb(43, 48, 59),
    }
}

fn style_fg_bg(fg: Color, bg: Color) -> (r: TextStyle)
    ensures
        r == fg_bg(fg, bg),
{
    TextStyle { fg: Some(fg), bg: Some(bg), add_modifier: 0, sub_modifier: 0 }
}

fn code_body_of(line: &Vec<char>, i: usize, hl: &CodeHighlight) -> (r: Vec<StyledSpan>)
    ensures
        spans_view(r@) == code_body(line@, i as int, hl@),
{
    let bg = code_bg_exec(hl);
    let mut r: Vec<StyledSpan> = Vec::new();
    if hl.found && i < hl.lines.len() && hl.lines[i].ok {
        let rs = &hl.lines[i].ranges;
        let ghost want = range_spans(hl@.lines[i as int].ranges, bg);
        assert(hl@.lines[i as int].ranges == ranges_view(rs@));
        let mut k: usize = 0;
        while k < rs.len()
            invariant
                k <= rs@.len(),
                want == range_spans(ranges_view(rs@), bg),
                spans_view(r@) == want.take(k as int),
            decreases rs@.len() - k,
        {
            let fg = rs[k].fg;
            let s = StyledSpan { content: rs[k].text.clone(), style: style_fg_bg(Color::Rgb(fg.0, fg.1, fg.2), bg) };
            push_span(&mut r, s);
            k = k + 1;
            assert(want.take(k as int) == want.take(k - 1 as int).push(want[k - 1 as int]));
        }
        assert(want.take(rs@.len() as int) == want);
    } else {
        push_span(&mut r, StyledSpan::styled(line.as_slice(), style_fg_bg(Color::Rgb(192, 197, 206), bg)));
    }
    r
}

/// The spaces of the padding followed by `" │"`.
fn pad_then_bar(pad: usize) -> (r: Vec<char>)
    ensures
        r@ == spaces(pad as nat) + right_bar(),
{
    let mut r = repeat_char(' ', pad);
    r.push(' ');
    r.push('\u{2502}');
    r
}

/// Renders a completed code block as a bordered box with syntax highlighting;
/// lines that cannot be highlighted are shown in a plain code color.
pub fn render_code_block(cb: &CodeBlockState) -> (r: Vec<StyledLine>)
    ensures
        lines_view(r@) == code_block_lines(cb@),
        ranges_cover(spec_highlight(cb@.lang, code_lines(cb@)), code_lines(cb@)),
        cb@.lang is None ==> !spec_highlight(cb@.lang, code_lines(cb@)).found,
{
    let content = trim_trailing_newlines_of(&cb.content);
    let ls = split_lines_of(content.as_slice());
    let hl = highlight_code(&cb.lang, &ls);
    let ghost hv = spec_highlight(cb@.lang, code_lines(cb@));
    assert(deep_lines(ls@) == code_lines(cb@));
    let bg = code_bg_exec(&hl);
    let border = style_fg_bg(Color::Rgb(80, 80, 80), bg);
    let bgs = TextStyle { fg: None, bg: Some(bg), add_modifier: 0, sub_modifier: 0 };
    let m = max_byte_len_of(&ls);
    let w = sat_add_exec(if m >= 20 { m } else { 20 }, 4);
    let mut out: Vec<StyledLine> = Vec::new();

    let mut top = chars3(' ', ' ', '\u{256D}');
    let d = repeat_char('\u{2500}', w);
    push_all(&mut top, d.as_slice());
    top.push('\u{256E}');
    push_line(&mut out, StyledLine::styled(top.as_slice(), border));
    let ghost top_v = styled_line(seq![' ', ' ', '\u{256D}'] + dashes(w as nat) + seq!['\u{256E}'], border_style(hv));
    assert(top@ =~= seq![' ', ' ', '\u{256D}'] + dashes(w as nat) + seq!['\u{256E}']);
    let ghost label_v = match cb@.lang {
        Some(l) => seq![label_line(l, w, hv)],
        None => Seq::<LineView>::empty(),
    };

    match &cb.lang {
        Some(lang) => {
            let pad = sat_sub_exec(w, sat_add_exec(byte_len_of(lang.as_slice()), 2));
            let mut spans: Vec<StyledSpan> = Vec::new();
            push_span(&mut spans, StyledSpan::styled(chars4(' ', ' ', '\u{2502}', ' ').as_slice(), border));
            push_span(&mut spans, StyledSpan::styled(lang.as_slice(), style_fg_bg(Color::Rgb(120, 120, 120), bg)));
            push_span(&mut spans, StyledSpan::styled(pad_then_bar(pad).as_slice(), border));
            assert(spans_view(spans@) =~= label_line(lang@, w, hv).spans);
            push_line(&mut out, StyledLine::with_style(spans, bgs));
        },
        None => {},
    }
    assert(lines_view(out@) =~= seq![top_v] + label_v);

    if content.len() == 0 {
        let mut spans: Vec<StyledSpan> = Vec::new();
        push_span(&mut spans, StyledSpan::styled(chars4(' ', ' ', '\u{2502}', ' ').as_slice(), border));
        push_span(&mut spans, StyledSpan::styled(repeat_char(' ', w - 2).as_slice(), bgs));
        push_span(&mut spans, StyledSpan::styled(chars2(' ', '\u{2502}').as_slice(), border));
        assert(spans_view(spans@) =~= seq![
            span_v(left_bar(), border_style(hv)),
            span_v(spaces((w - 2) as nat), bg_only(code_bg(hv))),
            span_v(right_bar(), border_style(hv)),
        ]);
        push_line(&mut out, StyledLine::with_style(spans, bgs));
    } else {
        let ghost before = lines_view(out@);
        let mut i: usize = 0;
        while i < ls.len()
            invariant
                i <= ls@.len(),
                hl@ == hv,
                hl@.lines.len() == ls@.len(),
                deep_lines(ls@) == code_lines(cb@),
                bg == code_bg(hv),
                border == border_style(hv),
                bgs == bg_only(code_bg(hv)),
                w == box_width(cb@),
                lines_view(out@) == before + code_lines_boxed(deep_lines(ls@).take(i as int), w, hv),
            decreases ls@.len() - i,
        {
            let body = code_body_of(&ls[i], i, &hl);
            let rendered = spans_byte_len_of(&body);
            let pad = sat_sub_exec(w, sat_add_exec(rendered, 2));
            let mut spans: Vec<StyledSpan> = Vec::new();
            push_span(&mut spans, StyledSpan::styled(chars4(' ', ' ', '\u{2502}', ' ').as_slice(), border));
            let ghost s1 = spans_view(spans@);
            let mut k: usize = 0;
            while k < body.len()
                invariant
                    k <= body@.len(),
                    spans_view(spans@) == s1 + spans_view(body@).take(k as int),
                decreases body@.len() - k,
            {
                push_span(&mut spans, body[k].duplicate());
                k = k + 1;
                assert(spans_view(body@).take(k as int) == spans_view(body@).take(k - 1 as int).push(body@[k - 1 as int]@));
            }
            assert(spans_view(body@).take(body@.len() as int) == spans_view(body@));
            push_span(&mut spans, StyledSpan::styled(pad_then_bar(pad).as_slice(), border));
            assert(spans_view(spans@) =~= seq![span_v(left_bar(), border)] + code_body(ls@[i as int]@, i as int, hv)
                + seq![span_v(spaces(pad as nat) + right_bar(), border)]);
            let line = StyledLine::with_style(spans, bgs);
            proof {
                let tk = deep_lines(ls@).take(i + 1 as int);
                assert(deep_lines(ls@)[i as int] == ls@[i as int]@);
                assert(tk.drop_last() == deep_lines(ls@).take(i as int));
                assert(tk.last() == ls@[i as int]@);
                assert(line@ == code_line(ls@[i as int]@, i as int, w, hv));
                assert(code_lines_boxed(tk, w, hv) == code_lines_boxed(deep_lines(ls@).take(i as int), w, hv).push(line@));
            }
            push_line(&mut out, line);
            i = i + 1;
        }
        assert(deep_lines(ls@).take(ls@.len() as int) == deep_lines(ls@));
    }

    let mut bottom = chars3(' ', ' ', '\u{2570}');
    push_all(&mut bottom, d.as_slice());
    bottom.push('\u{256F}');
    assert(bottom@ =~= seq![' ', ' ', '\u{2570}'] + dashes(w as nat) + seq!['\u{256F}']);
    push_line(&mut out, StyledLine::styled(bottom.as_slice(), border));
    assert(lines_view(out@) =~= code_block_lines(cb@));
    out
}

// ---------------------------------------------------------------------------
// Tables.

/// Name for the display width (in terminal columns) that ratatui's `Span::width`
/// gives for a text.
pub uninterp spec fn spec_display_width(s: Seq<char>) -> usize;

/// Calls ratatui's `Span::width` (the Unicode display width of the text).
/// Claimed: the width is a function of the text (named above).
#[verifier::external_body]
pub(crate) fn display_width(s: &String) -> (r: usize)
    ensures
        r == spec_display_width(s@),
{
    ratatui::text::Span::raw(s.as_str()).width()
}

/// A table row: its cells (each a run of spans) and whether it is the header.
pub struct TableRowState {
    pub cells: Vec<Vec<StyledSpan>>,
    pub is_header: bool,
}

/// A table being collected.
pub struct TableState {
    pub rows: Vec<TableRowState>,
    pub current_cells: Vec<Vec<StyledSpan>>,
    pub current_cell: Vec<StyledSpan>,
    pub in_header: bool,
}

pub struct RowV {
    pub cells: Seq<Seq<SpanView>>,
    pub is_header: bool,
}

#[verifier::ext_equal]
pub struct TableV {
    pub rows: Seq<RowV>,
    pub current_cells: Seq<Seq<SpanView>>,
    pub current_cell: Seq<SpanView>,
    pub in_header: bool,
}

pub open spec fn cells_view(v: Seq<Vec<StyledSpan>>) -> Seq<Seq<SpanView>> {
    v.map_values(|c: Vec<StyledSpan>| spans_view(c@))
}

pub open spec fn rows_view(v: Seq<TableRowState>) -> Seq<RowV> {
    v.map_values(|r: TableRowState| r@)
}

impl View for TableRowState {
    type V = RowV;

    open spec fn view(&self) -> RowV {
        RowV { cells: cells_view(self.cells@), is_header: self.is_header }
    }
}

impl View for TableState {
    type V = TableV;

    open spec fn view(&self) -> TableV {
        TableV {
            rows: rows_view(self.rows@),
            current_cells: cells_view(self.current_cells@),
            current_cell: spans_view(self.current_cell@),
            in_header: self.in_header,
        }
    }
}

/// Display width of a cell: the sum of the widths of its spans (cut at `usize::MAX`).
pub open spec fn cell_width(c: Seq<SpanView>) -> usize
    decreases c.len(),
{
    if c.len() == 0 {
        0
    } else {
        sat_add(cell_width(c.drop_last()) as int, spec_display_width(c.last().content) as int)
    }
}

/// The number of columns: the most cells in any row.
pub open spec fn num_cols(rows: Seq<RowV>) -> usize
    decreases rows.len(),
{
    if rows.len() == 0 {
        0
    } else {
        max_nat(num_cols(rows.drop_last()) as int, rows.last().cells.len() as int) as usize
    }
}

/// The widest cell of column `i` over the rows (0 when no row has that cell).
pub open spec fn widest_cell(rows: Seq<RowV>, i: int) -> usize
    decreases rows.len(),
{
    if rows.len() == 0 {
        0
    } else {
        let w = if i < rows.last().cells.len() { cell_width(rows.last().cells[i]) } else { 0 };
        max_nat(widest_cell(rows.drop_last(), i) as int, w as int) as usize
    }
}

/// Width of column `i`: its widest cell, and at least 3.
pub open spec fn col_width(rows: Seq<RowV>, i: int) -> usize {
    max_nat(widest_cell(rows, i) as int, 3) as usize
}

pub open spec fn col_widths(rows: Seq<RowV>) -> Seq<usize> {
    Seq::new(num_cols(rows) as nat, |i: int| col_width(rows, i))
}

/// The border segments after the left corner: each column's run of `─` (width + 2),
/// then the junction `mid`, or the corner `right` after the last column.
pub open spec fn border_segments(widths: Seq<usize>, mid: char, right: char, k: nat) -> Seq<char>
    decreases k,
{
    if k == 0 {
        seq![]
    } else {
        border_segments(widths, mid, right, (k - 1) as nat)
            + dashes(sat_add(widths[k - 1] as int, 2) as nat)
            + seq![if k - 1 < widths.len() - 1 { mid } else { right }]
    }
}

/// A horizontal table border such as `┌────┬────┐`.
pub open spec fn table_border(widths: Seq<usize>, left: char, mid: char, right: char) -> Seq<char> {
    seq![left] + border_segments(widths, mid, right, widths.len())
}

/// Text of cell `i` of a row (empty when the row has no such cell).
pub open spec fn cell_text(row: RowV, i: int) -> Seq<char> {
    if i < row.cells.len() { line_chars(row.cells[i]) } else { seq![] }
}

/// Display width of cell `i` of a row (0 when the row has no such cell).
pub open spec fn row_cell_width(row: RowV, i: int) -> usize {
    if i < row.cells.len() { cell_width(row.cells[i]) } else { 0 }
}

/// A cell padded to its column: a space, the text, spaces up to the column width, a space.
pub open spec fn padded_cell(row: RowV, i: int, w: usize) -> Seq<char> {
    seq![' '] + cell_text(row, i) + spaces(sat_sub(w as int, row_cell_width(row, i) as int) as nat) + seq![' ']
}

pub open spec fn row_cells(row: RowV, widths: Seq<usize>, k: nat, theme: Theme) -> Seq<SpanView>
    decreases k,
{
    if k == 0 {
        seq![]
    } else {
        let i = k - 1;
        row_cells(row, widths, (k - 1) as nat, theme)
            + seq![
                span_v(padded_cell(row, i, widths[i]), if row.is_header { theme.table_header } else { plain_style() }),
                span_v(seq!['\u{2502}'], theme.table_border),
            ]
    }
}

/// The line of a row: `│`, then each padded cell followed by `│`.
pub open spec fn row_line(row: RowV, widths: Seq<usize>, theme: Theme) -> LineView {
    line_of(seq![span_v(seq!['\u{2502}'], theme.table_border)] + row_cells(row, widths, widths.len(), theme))
}

pub open spec fn rows_lines(rows: Seq<RowV>, widths: Seq<usize>, theme: Theme) -> Seq<LineView>
    decreases rows.len(),
{
    if rows.len() == 0 {
        seq![]
    } else {
        let r = rows.last();
        rows_lines(rows.drop_last(), widths, theme) + seq![row_line(r, widths, theme)] + if r.is_header {
            seq![styled_line(table_border(widths, '\u{251C}', '\u{253C}', '\u{2524}'), theme.table_border)]
        } else {
            seq![]
        }
    }
}

/// The lines of a rendered table: nothing for a table without rows or columns;
/// otherwise a top border, each row (a separator under header rows), a bottom border.
pub open spec fn table_lines(t: TableV, theme: Theme) -> Seq<LineView> {
    if t.rows.len() == 0 || num_cols(t.rows) == 0 {
        seq![]
    } else {
        let ws = col_widths(t.rows);
        seq![styled_line(table_border(ws, '\u{250C}', '\u{252C}', '\u{2510}'), theme.table_border)]
            + rows_lines(t.rows, ws, theme)
            + seq![styled_line(table_border(ws, '\u{2514}', '\u{2534}', '\u{2518}'), theme.table_border)]
    }
}

fn cell_width_of(c: &Vec<StyledSpan>) -> (r: usize)
    ensures
        r == cell_width(spans_view(c@)),
{
    let mut t: usize = 0;
    let mut i: usize = 0;
    while i < c.len()
        invariant
            i <= c@.len(),
            t == cell_width(spans_view(c@).take(i as int)),
        decreases c@.len() - i,
    {
        let w = display_width(&c[i].content);
        proof {
            assert(spans_view(c@).take(i + 1 as int).drop_last() == spans_view(c@).take(i as int));
            assert(spans_view(c@)[i as int].content == c@[i as int].content@);
        }
        t = sat_add_exec(t, w);
        i = i + 1;
    }
    assert(spans_view(c@).take(c@.len() as int) == spans_view(c@));
    t
}

fn cell_text_of(c: &Vec<StyledSpan>) -> (r: Vec<char>)
    ensures
        r@ == line_chars(spans_view(c@)),
{
    let mut t: Vec<char> = Vec::new();
    let mut i: usize = 0;
    while i < c.len()
        invariant
            i <= c@.len(),
            t@ == line_chars(spans_view(c@).take(i as int)),
        decreases c@.len() - i,
    {
        let cs = crate::strings::chars_of(c[i].content.as_str());
        push_all(&mut t, cs.as_slice());
        proof {
            assert(spans_view(c@).take(i + 1 as int).drop_last() == spans_view(c@).take(i as int));
            assert(spans_view(c@)[i as int].content == c@[i as int].content@);
        }
        i = i + 1;
    }
    assert(spans_view(c@).take(c@.len() as int) == spans_view(c@));
    t
}

fn border_of(widths: &Vec<usize>, left: char, mid: char, right: char) -> (r: Vec<char>)
    requires
        widths@.len() > 0,
    ensures
        r@ == table_border(widths@, left, mid, right),
{
    let mut s: Vec<char> = Vec::new();
    s.push(left);
    let n = widths.len();
    let mut i: usize = 0;
    while i < n
        invariant
            n == widths@.len(),
            n > 0,
            i <= n,
            s@ == seq![left] + border_segments(widths@, mid, right, i as nat),
        decreases n - i,
    {
        let d = repeat_char('\u{2500}', sat_add_exec(widths[i], 2));
        push_all(&mut s, d.as_slice());
        if i < n - 1 {
            s.push(mid);
        } else {
            s.push(right);
        }
        i = i + 1;
    }
    s
}

/// The column widths of a table.
fn col_widths_of(rows: &Vec<TableRowState>, n: usize) -> (r: Vec<usize>)
    requires
        n == num_cols(rows_view(rows@)),
    ensures
        r@ == col_widths(rows_view(rows@)),
{
    let ghost rv = rows_view(rows@);
    let mut ws: Vec<usize> = Vec::new();
    let mut k: usize = 0;
    while k < n
        invariant
            k <= n,
            ws@.len() == k,
            forall|i: int| 0 <= i < k ==> ws@[i] == 0,
        decreases n - k,
    {
        ws.push(0);
        k = k + 1;
    }
    let mut j: usize = 0;
    while j < rows.len()
        invariant
            j <= rows@.len(),
            rv == rows_view(rows@),
            ws@.len() == n,
            forall|i: int| 0 <= i < n ==> ws@[i] == widest_cell(rv.take(j as int), i),
        decreases rows@.len() - j,
    {
        let cells = &rows[j].cells;
        let ghost tk = rv.take(j + 1 as int);
        proof {
            assert(tk.drop_last() == rv.take(j as int));
            assert(tk.last() == rows@[j as int]@);
        }
        let mut i: usize = 0;
        while i < cells.len()
            invariant
                rv == rows_view(rows@),
                tk == rv.take(j + 1 as int),
                tk.drop_last() == rv.take(j as int),
                tk.last() == rows@[j as int]@,
                cells == &rows@[j as int].cells,
                j < rows@.len(),
                i <= cells@.len(),
                ws@.len() == n,
                forall|m: int| 0 <= m < n && m < i ==> ws@[m] == widest_cell(tk, m),
                forall|m: int| 0 <= m < n && m >= i ==> ws@[m] == widest_cell(rv.take(j as int), m),
            decreases cells@.len() - i,
        {
            if i < n {
                let w = cell_width_of(&cells[i]);
                proof {
                    assert(cells_view(cells@)[i as int] == spans_view(cells@[i as int]@));
                    assert(tk.last().cells == cells_view(cells@));
                    assert(widest_cell(tk, i as int)
                        == max_nat(widest_cell(rv.take(j as int), i as int) as int, w as int) as usize);
                }
                if w > ws[i] {
                    ws.set(i, w);
                }
            }
            i = i + 1;
        }
        j = j + 1;
    }
    assert(rv.take(rows@.len() as int) == rv);
    let mut m: usize = 0;
    while m < n
        invariant
            m <= n,
            ws@.len() == n,
            forall|i: int| 0 <= i < m ==> ws@[i] == col_width(rv, i),
            forall|i: int| m <= i < n ==> ws@[i] == widest_cell(rv, i),
        decreases n - m,
    {
        if ws[m] < 3 {
            ws.set(m, 3);
        }
        m = m + 1;
    }
    assert(ws@ =~= col_widths(rv));
    ws
}

fn num_cols_of(rows: &Vec<TableRowState>) -> (r: usize)
    ensures
        r == num_cols(rows_view(rows@)),
{
    let ghost rv = rows_view(rows@);
    let mut n: usize = 0;
    let mut j: usize = 0;
    while j < rows.len()
        invariant
            j <= rows@.len(),
            rv == rows_view(rows@),
            n == num_cols(rv.take(j as int)),
        decreases rows@.len() - j,
    {
        proof {
            assert(rv.take(j + 1 as int).drop_last() == rv.take(j as int));
        }
        if rows[j].cells.len() > n {
            n = rows[j].cells.len();
        }
        j = j + 1;
    }
    assert(rv.take(rows@.len() as int) == rv);
    n
}

fn row_line_of(row: &TableRowState, widths: &Vec<usize>, theme: &Theme) -> (r: StyledLine)
    ensures
        r@ == row_line(row@, widths@, *theme),
{
    let bs = theme.table_border;
    let bar = vec!['\u{2502}'];
    let mut spans: Vec<StyledSpan> = Vec::new();
    push_span(&mut spans, StyledSpan::styled(bar.as_slice(), bs));
    let cell_style = if row.is_header { theme.table_header } else { TextStyle::new() };
    let mut i: usize = 0;
    assert(bar@ =~= seq!['\u{2502}']);
    assert(row_cells(row@, widths@, 0, *theme) =~= Seq::<SpanView>::empty());
    assert(spans_view(spans@) =~= seq![span_v(seq!['\u{2502}'], bs)] + row_cells(row@, widths@, 0, *theme));
    while i < widths.len()
        invariant
            i <= widths@.len(),
            bar@ == seq!['\u{2502}'],
            bs == theme.table_border,
            cell_style == (if row@.is_header { theme.table_header } else { plain_style() }),
            spans_view(spans@) == seq![span_v(seq!['\u{2502}'], bs)] + row_cells(row@, widths@, i as nat, *theme),
        decreases widths@.len() - i,
    {
        let (text, cw) = if i < row.cells.len() {
            proof {
                assert(cells_view(row.cells@)[i as int] == spans_view(row.cells@[i as int]@));
            }
            (cell_text_of(&row.cells[i]), cell_width_of(&row.cells[i]))
        } else {
            (Vec::new(), 0)
        };
        let mut padded = vec![' '];
        push_all(&mut padded, text.as_slice());
        let pad = repeat_char(' ', sat_sub_exec(widths[i], cw));
        push_all(&mut padded, pad.as_slice());
        padded.push(' ');
        assert(padded@ =~= padded_cell(row@, i as int, widths@[i as int]));
        push_span(&mut spans, StyledSpan::styled(padded.as_slice(), cell_style));
        push_span(&mut spans, StyledSpan::styled(bar.as_slice(), bs));
        i = i + 1;
    }
    StyledLine::from_spans(spans)
}

/// Renders a completed table with box-drawing borders. Column widths are the
/// display widths of the widest cells (at least 3).
pub fn render_table(table: &TableState, theme: &Theme) -> (r: Vec<StyledLine>)
    ensures
        lines_view(r@) == table_lines(table@, *theme),
{
    let mut out: Vec<StyledLine> = Vec::new();
    if table.rows.len() == 0 {
        return out;
    }
    let n = num_cols_of(&table.rows);
    if n == 0 {
        return out;
    }
    let ws = col_widths_of(&table.rows, n);
    let bs = theme.table_border;
    let ghost rv = rows_view(table.rows@);
    push_line(&mut out, StyledLine::styled(border_of(&ws, '\u{250C}', '\u{252C}', '\u{2510}').as_slice(), bs));
    let ghost first = lines_view(out@);
    let mut j: usize = 0;
    while j < table.rows.len()
        invariant
            j <= table.rows@.len(),
            rv == rows_view(table.rows@),
            ws@ == col_widths(rv),
            ws@.len() == n,
            n > 0,
            bs == theme.table_border,
            lines_view(out@) == first + rows_lines(rv.take(j as int), ws@, *theme),
        decreases table.rows@.len() - j,
    {
        let row = &table.rows[j];
        let line = row_line_of(row, &ws, theme);
        let ghost before = lines_view(out@);
        push_line(&mut out, line);
        if row.is_header {
            push_line(&mut out, StyledLine::styled(border_of(&ws, '\u{251C}', '\u{253C}', '\u{2524}').as_slice(), bs));
        }
        proof {
            let tk = rv.take(j + 1 as int);
            assert(tk.drop_last() == rv.take(j as int));
            assert(tk.last() == table.rows@[j as int]@);
            assert(lines_view(out@) =~= first + rows_lines(tk, ws@, *theme));
        }
        j = j + 1;
    }
    assert(rv.take(table.rows@.len() as int) == rv);
    push_line(&mut out, StyledLine::styled(border_of(&ws, '\u{2514}', '\u{2534}', '\u{2518}').as_slice(), bs));
    assert(lines_view(out@) =~= table_lines(table@, *theme));
    out
}

} // verus!
