//! What the status bar and the popups show, computed as styled lines and sizes;
//! drawing them on the terminal is left to the caller.
use vstd::prelude::*;
use crate::markdown::blocks::{display_width, sat_add, sat_sub, spaces, spec_display_width};
use crate::markdown::events::HeadingLevel;
use crate::markdown::renderer::{headings_view, links_view, HeadingInfo, HeadingV, LinkInfo, LinkV};
use crate::strings::{chars_of, decimal, decimal_of, push_all, repeat_char, str_len, string_of};
use crate::style::{Color, TextStyle, BOLD};
use crate::text::{line_of, push_line, push_span, span_v, spans_view, lines_view, LineView, SpanView, StyledLine, StyledSpan};

verus! {

pub open spec fn fg(c: Color) -> TextStyle {
    TextStyle { fg: Some(c), bg: None, add_modifier: 0, sub_modifier: 0 }
}

pub open spec fn on_dark_gray() -> TextStyle {
    TextStyle { fg: None, bg: Some(Color::DarkGray), add_modifier: 0, sub_modifier: 0 }
}

pub open spec fn cyan_bold() -> TextStyle {
    TextStyle { fg: Some(Color::Cyan), bg: None, add_modifier: BOLD, sub_modifier: 0 }
}

// ---------------------------------------------------------------------------
// Status bar.

/// Where the viewport stands: the first and last lines shown (counting from 1),
/// the number of lines, and how far down the view is, in percent.
#[derive(Debug, Clone, Copy, PartialEq, Eq, Structural)]
pub struct StatusPosition {
    pub current_line: usize,
    pub end_line: usize,
    pub total: usize,
    pub percent: usize,
}

pub open spec fn min_int(a: int, b: int) -> int {
    if a <= b { a } else { b }
}

/// The position shown for a scroll offset, content height and viewport height.
/// The percentage is 100 when everything fits, 0 at the top, and otherwise the
/// scroll offset over the largest scroll offset (at most 100).
pub open spec fn status_of(scroll: u16, content_height: usize, vh: u16) -> StatusPosition {
    let total: int = if content_height >= 1 { content_height as int } else { 1 };
    StatusPosition {
        current_line: (scroll + 1) as usize,
        end_line: min_int(scroll + vh, total) as usize,
        total: total as usize,
        percent: if total <= vh {
            100
        } else if scroll == 0 {
            0
        } else {
            min_int((scroll * 100) / (total - vh), 100) as usize
        },
    }
}

pub fn status_position(scroll_offset: u16, content_height: usize, viewport_height: u16) -> (r: StatusPosition)
    ensures
        r == status_of(scroll_offset, content_height, viewport_height),
{
    let current_line = scroll_offset as usize + 1;
    let total = if content_height >= 1 { content_height } else { 1 };
    let reach = scroll_offset as usize + viewport_height as usize;
    let end_line = if reach <= total { reach } else { total };
    let percent = if total <= viewport_height as usize {
        100
    } else if scroll_offset == 0 {
        0
    } else {
        let p = (scroll_offset as usize * 100) / (total - viewport_height as usize);
        if p <= 100 { p } else { 100 }
    };
    StatusPosition { current_line, end_line, total, percent }
}

/// `" ? help "`
pub open spec fn help_hint() -> Seq<char> {
    seq![' ', '?', ' ', 'h', 'e', 'l', 'p', ' ']
}

/// The status bar: the file name in bold, padding, the line range, the percentage
/// and a help hint, on a dark gray line.
pub open spec fn status_line(filename: Seq<char>, pos: StatusPosition, width: u16) -> LineView {
    let left = seq![' '] + filename + seq![' '];
    let position = seq![' '] + decimal(pos.current_line as nat) + seq!['-'] + decimal(pos.end_line as nat)
        + seq!['/'] + decimal(pos.total as nat) + seq![' '];
    let percentage = seq![' '] + decimal(pos.percent as nat) + seq!['%', ' '];
    let used = sat_add(
        sat_add(sat_add(spec_display_width(left) as int, spec_display_width(position) as int) as int,
            spec_display_width(percentage) as int) as int,
        spec_display_width(help_hint()) as int);
    LineView {
        spans: seq![
            span_v(left, TextStyle { fg: None, bg: None, add_modifier: BOLD, sub_modifier: 0 }),
            span_v(spaces(sat_sub(width as int, used as int) as nat), TextStyle { fg: None, bg: None, add_modifier: 0, sub_modifier: 0 }),
            span_v(position, TextStyle { fg: None, bg: None, add_modifier: 0, sub_modifier: 0 }),
            span_v(percentage, fg(Color::Cyan)),
            span_v(help_hint(), fg(Color::DarkGray)),
        ],
        style: on_dark_gray(),
    }
}

/// While searching, the status bar shows the query after a `/` and a block cursor.
pub open spec fn search_line(query: Seq<char>) -> LineView {
    LineView {
        spans: seq![
            span_v(seq![' ', '/'], fg(Color::Yellow)),
            span_v(query, TextStyle { fg: None, bg: None, add_modifier: 0, sub_modifier: 0 }),
            span_v(seq!['\u{2588}'], fg(Color::Yellow)),
        ],
        style: on_dark_gray(),
    }
}

fn fg_style(c: Color) -> (r: TextStyle)
    ensures
        r == fg(c),
{
    TextStyle { fg: Some(c), bg: None, add_modifier: 0, sub_modifier: 0 }
}

fn width_of(s: &Vec<char>) -> (r: usize)
    ensures
        r == spec_display_width(s@),
{
    display_width(&string_of(s.as_slice()))
}

/// The status bar line for a terminal `width` columns wide; with a search query
/// it shows the query instead.
pub fn status_bar(
    filename: &str,
    scroll_offset: u16,
    content_height: usize,
    viewport_height: u16,
    width: u16,
    search_query: Option<&str>,
) -> (r: StyledLine)
    ensures
        r@ == match search_query {
            Some(q) => search_line(q@),
            None => status_line(filename@, status_of(scroll_offset, content_height, viewport_height), width),
        },
{
    let bg = TextStyle { fg: None, bg: Some(Color::DarkGray), add_modifier: 0, sub_modifier: 0 };
    match search_query {
        Some(q) => {
            let slash = vec![' ', '/'];
            let block = vec!['\u{2588}'];
            assert(slash@ =~= seq![' ', '/']);
            assert(block@ =~= seq!['\u{2588}']);
            let mut spans: Vec<StyledSpan> = Vec::new();
            push_span(&mut spans, StyledSpan::styled(slash.as_slice(), fg_style(Color::Yellow)));
            push_span(&mut spans, StyledSpan::raw(chars_of(q).as_slice()));
            push_span(&mut spans, StyledSpan::styled(block.as_slice(), fg_style(Color::Yellow)));
            assert(spans_view(spans@) =~= search_line(q@).spans);
            StyledLine::with_style(spans, bg)
        },
        None => {
            let pos = status_position(scroll_offset, content_height, viewport_height);
            let mut left = vec![' '];
            push_all(&mut left, chars_of(filename).as_slice());
            left.push(' ');
            let mut position = vec![' '];
            push_all(&mut position, decimal_of(pos.current_line as u64).as_slice());
            position.push('-');
            push_all(&mut position, decimal_of(pos.end_line as u64).as_slice());
            position.push('/');
            push_all(&mut position, decimal_of(pos.total as u64).as_slice());
            position.push(' ');
            let mut percentage = vec![' '];
            push_all(&mut percentage, decimal_of(pos.percent as u64).as_slice());
            percentage.push('%');
            percentage.push(' ');
            let hint = vec![' ', '?', ' ', 'h', 'e', 'l', 'p', ' '];
            let w1 = width_of(&left);
            let w2 = width_of(&position);
            let w3 = width_of(&percentage);
            let w4 = width_of(&hint);
            let used = w1.saturating_add(w2).saturating_add(w3).saturating_add(w4);
            assert(used == sat_add(sat_add(sat_add(w1 as int, w2 as int) as int, w3 as int) as int, w4 as int));
            let pad = (width as usize).saturating_sub(used);
            assert(pad == sat_sub(width as int, used as int));
            let mut spans: Vec<StyledSpan> = Vec::new();
            push_span(&mut spans, StyledSpan::styled(left.as_slice(), TextStyle { fg: None, bg: None, add_modifier: BOLD, sub_modifier: 0 }));
            push_span(&mut spans, StyledSpan::raw(repeat_char(' ', pad).as_slice()));
            push_span(&mut spans, StyledSpan::raw(position.as_slice()));
            push_span(&mut spans, StyledSpan::styled(percentage.as_slice(), fg_style(Color::Cyan)));
            push_span(&mut spans, StyledSpan::styled(hint.as_slice(), fg_style(Color::DarkGray)));
            assert(left@ =~= seq![' '] + filename@ + seq![' ']);
            assert(hint@ =~= help_hint());
            assert(position@ =~= seq![' '] + decimal(pos.current_line as nat) + seq!['-'] + decimal(pos.end_line as nat)
                + seq!['/'] + decimal(pos.total as nat) + seq![' ']);
            assert(percentage@ =~= seq![' '] + decimal(pos.percent as nat) + seq!['%', ' ']);
            assert(spans_view(spans@) =~= status_line(filename@, pos, width).spans);
            StyledLine::with_style(spans, bg)
        },
    }
}

// ---------------------------------------------------------------------------
// Popups.

/// Size and scroll of a list popup.
#[derive(Debug, Clone, Copy, PartialEq, Eq, Structural)]
pub struct PopupGeometry {
    pub width: u16,
    pub height: u16,
    /// Number of entries that fit inside the borders.
    pub visible: usize,
    /// Index of the first entry shown, so that the selected one is visible.
    pub scroll: usize,
}

/// A list popup: 6 columns wider than its widest entry, 4 rows taller than its
/// entries, both within the screen (4 columns and 2 rows left free); scrolled so
/// that the selected entry is the last one shown once it is past the first page.
pub open spec fn popup_of(content_width: usize, entries: u16, area_width: u16, area_height: u16, selected: usize) -> PopupGeometry {
    let w = min_int(sat_add(content_width as int, 6) as int, area_width - 4) as u16;
    let h = min_int(entries + 4, area_height - 2) as u16;
    let visible = sat_sub(h as int, 4);
    PopupGeometry {
        width: w,
        height: h,
        visible,
        scroll: if selected >= visible { (selected - visible + 1) as usize } else { 0 },
    }
}

/// Size and scroll of a list popup of `entries` entries whose widest entry is
/// `content_width` columns, on a screen area of the given size.
pub fn popup_geometry(content_width: usize, entries: u16, area_width: u16, area_height: u16, selected: usize) -> (r: PopupGeometry)
    requires
        area_width >= 4,
        area_height >= 2,
        entries + 4 <= u16::MAX,
        selected < usize::MAX || (entries > 0 && area_height > 6),
    ensures
        r == popup_of(content_width, entries, area_width, area_height, selected),
{
    let cw = content_width.saturating_add(6);
    let aw = (area_width - 4) as usize;
    let width = if cw <= aw { cw as u16 } else { aw as u16 };
    let eh = entries + 4;
    let ah = area_height - 2;
    let height = if eh <= ah { eh } else { ah };
    let visible = (height as usize).saturating_sub(4);
    let scroll = if selected >= visible { selected - visible + 1 } else { 0 };
    PopupGeometry { width, height, visible, scroll }
}

/// Indentation of a heading in the table of contents: two columns per level below H1.
pub open spec fn indent_of(level: HeadingLevel) -> usize {
    match level {
        HeadingLevel::H1 => 0,
        HeadingLevel::H2 => 2,
        HeadingLevel::H3 => 4,
        HeadingLevel::H4 => 6,
        HeadingLevel::H5 => 8,
        HeadingLevel::H6 => 10,
    }
}

pub fn indent_for(level: HeadingLevel) -> (r: usize)
    ensures
        r == indent_of(level),
{
    match level {
        HeadingLevel::H1 => 0,
        HeadingLevel::H2 => 2,
        HeadingLevel::H3 => 4,
        HeadingLevel::H4 => 6,
        HeadingLevel::H5 => 8,
        HeadingLevel::H6 => 10,
    }
}

/// Style of a heading entry in the table of contents.
pub open spec fn level_style_of(level: HeadingLevel) -> TextStyle {
    match level {
        HeadingLevel::H1 => TextStyle { fg: Some(Color::White), bg: None, add_modifier: BOLD, sub_modifier: 0 },
        HeadingLevel::H2 => fg(Color::Yellow),
        HeadingLevel::H3 => fg(Color::Green),
        HeadingLevel::H4 => fg(Color::Blue),
        HeadingLevel::H5 => fg(Color::Magenta),
        HeadingLevel::H6 => fg(Color::DarkGray),
    }
}

pub fn level_style(level: HeadingLevel) -> (r: TextStyle)
    ensures
        r == level_style_of(level),
{
    match level {
        HeadingLevel::H1 => TextStyle { fg: Some(Color::White), bg: None, add_modifier: BOLD, sub_modifier: 0 },
        HeadingLevel::H2 => fg_style(Color::Yellow),
        HeadingLevel::H3 => fg_style(Color::Green),
        HeadingLevel::H4 => fg_style(Color::Blue),
        HeadingLevel::H5 => fg_style(Color::Magenta),
        HeadingLevel::H6 => fg_style(Color::DarkGray),
    }
}

/// The widest entry of the table of contents: indentation plus text length in bytes (20 when empty).
pub open spec fn toc_width(hs: Seq<HeadingV>) -> usize
    decreases hs.len(),
{
    if hs.len() == 0 {
        20
    } else {
        let w = sat_add(indent_of(hs.last().level) as int, str_len(hs.last().text) as int);
        if hs.len() == 1 { w } else {
            let rest = toc_width(hs.drop_last());
            if rest >= w { rest } else { w }
        }
    }
}

/// The widest entry of the link picker: text and URL lengths in bytes, plus 5 (30 when empty).
pub open spec fn links_width(ls: Seq<LinkV>) -> usize
    decreases ls.len(),
{
    if ls.len() == 0 {
        30
    } else {
        let w = sat_add(sat_add(str_len(ls.last().text) as int, str_len(ls.last().url) as int) as int, 5);
        if ls.len() == 1 { w } else {
            let rest = links_width(ls.drop_last());
            if rest >= w { rest } else { w }
        }
    }
}

pub fn toc_content_width(headings: &Vec<HeadingInfo>) -> (r: usize)
    ensures
        r == toc_width(headings_view(headings@)),
{
    let ghost hv = headings_view(headings@);
    let mut m: usize = 20;
    let mut i: usize = 0;
    while i < headings.len()
        invariant
            i <= headings@.len(),
            hv == headings_view(headings@),
            i > 0 ==> m == toc_width(hv.take(i as int)),
            i == 0 ==> m == 20,
        decreases headings@.len() - i,
    {
        let w = indent_for(headings[i].level).saturating_add(headings[i].text.as_str().len());
        proof {
            assert(hv.take(i + 1 as int).drop_last() == hv.take(i as int));
            assert(hv.take(i + 1 as int).last() == headings@[i as int]@);
        }
        if i == 0 || w > m {
            m = w;
        }
        i = i + 1;
    }
    assert(hv.take(headings@.len() as int) == hv);
    m
}

pub fn links_content_width(links: &Vec<LinkInfo>) -> (r: usize)
    ensures
        r == links_width(links_view(links@)),
{
    let ghost lv = links_view(links@);
    let mut m: usize = 30;
    let mut i: usize = 0;
    while i < links.len()
        invariant
            i <= links@.len(),
            lv == links_view(links@),
            i > 0 ==> m == links_width(lv.take(i as int)),
            i == 0 ==> m == 30,
        decreases links@.len() - i,
    {
        let w = links[i].text.as_str().len().saturating_add(links[i].url.as_str().len()).saturating_add(5);
        proof {
            assert(lv.take(i + 1 as int).drop_last() == lv.take(i as int));
            assert(lv.take(i + 1 as int).last() == links@[i as int]@);
        }
        if i == 0 || w > m {
            m = w;
        }
        i = i + 1;
    }
    assert(lv.take(links@.len() as int) == lv);
    m
}

/// `"▸ "` before the selected entry, two spaces before the others.
pub open spec fn marker(selected: bool) -> Seq<char> {
    if selected { seq!['\u{25B8}', ' '] } else { seq![' ', ' '] }
}

pub open spec fn toc_entry(h: HeadingV, selected: bool) -> LineView {
    line_of(seq![
        span_v(spaces(indent_of(h.level) as nat) + marker(selected), TextStyle { fg: None, bg: None, add_modifier: 0, sub_modifier: 0 }),
        span_v(h.text, if selected { cyan_bold() } else { level_style_of(h.level) }),
    ])
}

pub open spec fn link_entry(l: LinkV, selected: bool) -> LineView {
    line_of(seq![
        span_v(marker(selected), TextStyle { fg: None, bg: None, add_modifier: 0, sub_modifier: 0 }),
        span_v(l.text, if selected { cyan_bold() } else { fg(Color::White) }),
        span_v(seq![' ', ' '] + l.url, fg(Color::DarkGray)),
    ])
}

/// The entries shown: those from `scroll`, at most `visible` of them.
pub open spec fn shown_range(len: nat, scroll: usize, visible: usize) -> (int, int) {
    let from = min_int(scroll as int, len as int);
    (from, min_int(from + visible, len as int))
}

pub open spec fn toc_lines_spec(hs: Seq<HeadingV>, selected: usize, scroll: usize, visible: usize) -> Seq<LineView> {
    let (from, to) = shown_range(hs.len(), scroll, visible);
    Seq::new((to - from) as nat, |k: int| toc_entry(hs[from + k], from + k == selected))
}

pub open spec fn link_lines_spec(ls: Seq<LinkV>, selected: usize, scroll: usize, visible: usize) -> Seq<LineView> {
    let (from, to) = shown_range(ls.len(), scroll, visible);
    Seq::new((to - from) as nat, |k: int| link_entry(ls[from + k], from + k == selected))
}

fn marker_of(selected: bool) -> (r: Vec<char>)
    ensures
        r@ == marker(selected),
{
    if selected {
        let v = vec!['\u{25B8}', ' '];
        assert(v@ =~= marker(true));
        v
    } else {
        let v = vec![' ', ' '];
        assert(v@ =~= marker(false));
        v
    }
}

/// The lines of the table of contents popup.
pub fn toc_lines(headings: &Vec<HeadingInfo>, selected: usize, scroll: usize, visible: usize) -> (r: Vec<StyledLine>)
    ensures
        lines_view(r@) == toc_lines_spec(headings_view(headings@), selected, scroll, visible),
{
    let ghost hv = headings_view(headings@);
    let len = headings.len();
    let from = if scroll <= len { scroll } else { len };
    let to = if visible <= len - from { from + visible } else { len };
    let mut out: Vec<StyledLine> = Vec::new();
    let mut i = from;
    while i < to
        invariant
            from <= i <= to <= len,
            len == headings@.len(),
            hv == headings_view(headings@),
            (from as int, to as int) == shown_range(hv.len(), scroll, visible),
            lines_view(out@) == toc_lines_spec(hv, selected, scroll, visible).take(i - from),
        decreases to - i,
    {
        let h = &headings[i];
        let mut pre = repeat_char(' ', indent_for(h.level));
        push_all(&mut pre, marker_of(i == selected).as_slice());
        let style = if i == selected { TextStyle { fg: Some(Color::Cyan), bg: None, add_modifier: BOLD, sub_modifier: 0 } } else { level_style(h.level) };
        let mut spans: Vec<StyledSpan> = Vec::new();
        push_span(&mut spans, StyledSpan::raw(pre.as_slice()));
        push_span(&mut spans, StyledSpan::styled(chars_of(h.text.as_str()).as_slice(), style));
        let line = StyledLine::from_spans(spans);
        proof {
            assert(hv[i as int] == headings@[i as int]@);
            assert(line@ =~= toc_entry(hv[i as int], i == selected));
            assert(toc_lines_spec(hv, selected, scroll, visible).take(i + 1 - from)
                =~= toc_lines_spec(hv, selected, scroll, visible).take(i - from).push(line@));
        }
        push_line(&mut out, line);
        i = i + 1;
    }
    assert(toc_lines_spec(hv, selected, scroll, visible).take(to - from) =~= toc_lines_spec(hv, selected, scroll, visible));
    out
}

/// The lines of the link picker popup.
pub fn link_lines(links: &Vec<LinkInfo>, selected: usize, scroll: usize, visible: usize) -> (r: Vec<StyledLine>)
    ensures
        lines_view(r@) == link_lines_spec(links_view(links@), selected, scroll, visible),
{
    let ghost lv = links_view(links@);
    let len = links.len();
    let from = if scroll <= len { scroll } else { len };
    let to = if visible <= len - from { from + visible } else { len };
    let mut out: Vec<StyledLine> = Vec::new();
    let mut i = from;
    while i < to
        invariant
            from <= i <= to <= len,
            len == links@.len(),
            lv == links_view(links@),
            (from as int, to as int) == shown_range(lv.len(), scroll, visible),
            lines_view(out@) == link_lines_spec(lv, selected, scroll, visible).take(i - from),
        decreases to - i,
    {
        let l = &links[i];
        let style = if i == selected { TextStyle { fg: Some(Color::Cyan), bg: None, add_modifier: BOLD, sub_modifier: 0 } } else { fg_style(Color::White) };
        let mut url = vec![' ', ' '];
        push_all(&mut url, chars_of(l.url.as_str()).as_slice());
        let mut spans: Vec<StyledSpan> = Vec::new();
        push_span(&mut spans, StyledSpan::raw(marker_of(i == selected).as_slice()));
        push_span(&mut spans, StyledSpan::styled(chars_of(l.text.as_str()).as_slice(), style));
        push_span(&mut spans, StyledSpan::styled(url.as_slice(), fg_style(Color::DarkGray)));
        let line = StyledLine::from_spans(spans);
        proof {
            assert(lv[i as int] == links@[i as int]@);
            assert(line@ =~= link_entry(lv[i as int], i == selected));
            assert(link_lines_spec(lv, selected, scroll, visible).take(i + 1 - from)
                =~= link_lines_spec(lv, selected, scroll, visible).take(i - from).push(line@));
        }
        push_line(&mut out, line);
        i = i + 1;
    }
    assert(link_lines_spec(lv, selected, scroll, visible).take(to - from) =~= link_lines_spec(lv, selected, scroll, visible));
    out
}

/// The popup of the table of contents keeps the selected entry in view.
pub proof fn law_popup_shows_selected(content_width: usize, entries: u16, aw: u16, ah: u16, selected: usize)
    requires
        aw >= 4,
        ah >= 7,
        entries >= 1,
        entries + 4 <= u16::MAX,
    ensures
        ({
            let g = popup_of(content_width, entries, aw, ah, selected);
            g.visible >= 1 && g.scroll <= selected && selected < g.scroll + g.visible
        }),
{
}

// ---------------------------------------------------------------------------
// Help.

/// The keybinding reference: the keys and what they do.
pub open spec fn help_entries() -> Seq<(Seq<char>, Seq<char>)> {
    seq![
        ("j / \u{2193}"@, "Scroll down"@),
        ("k / \u{2191}"@, "Scroll up"@),
        ("Ctrl-d / PgDn"@, "Half-page down"@),
        ("Ctrl-u / PgUp"@, "Half-page up"@),
        ("g / Home"@, "Top"@),
        ("G / End"@, "Bottom"@),
        ("Tab / Shift-Tab"@, "Next / prev heading"@),
        ("t"@, "Table of contents"@),
        ("o"@, "Open link picker"@),
        ("Backspace"@, "Go back (after link follow)"@),
        ("/ "@, "Search"@),
        ("n / N"@, "Next / prev match"@),
        ("?"@, "Toggle this help"@),
        ("q / Esc"@, "Quit"@),
    ]
}

/// The keybinding reference.
pub fn help_bindings() -> (r: Vec<(&'static str, &'static str)>)
    ensures
        r@.map_values(|p: (&str, &str)| (p.0@, p.1@)) == help_entries(),
{
    let r = vec![
        ("j / \u{2193}", "Scroll down"),
        ("k / \u{2191}", "Scroll up"),
        ("Ctrl-d / PgDn", "Half-page down"),
        ("Ctrl-u / PgUp", "Half-page up"),
        ("g / Home", "Top"),
        ("G / End", "Bottom"),
        ("Tab / Shift-Tab", "Next / prev heading"),
        ("t", "Table of contents"),
        ("o", "Open link picker"),
        ("Backspace", "Go back (after link follow)"),
        ("/ ", "Search"),
        ("n / N", "Next / prev match"),
        ("?", "Toggle this help"),
        ("q / Esc", "Quit"),
    ];
    assert(r@.map_values(|p: (&str, &str)| (p.0@, p.1@)) =~= help_entries());
    r
}

/// One line of the reference: the keys after a space, padded to 16 characters, in
/// bold yellow; then the description and a space.
pub open spec fn help_line(key: Seq<char>, desc: Seq<char>) -> LineView {
    line_of(seq![
        span_v(seq![' '] + key + spaces(sat_sub(16, key.len() as int) as nat),
            TextStyle { fg: Some(Color::Yellow), bg: None, add_modifier: BOLD, sub_modifier: 0 }),
        span_v(desc + seq![' '], TextStyle { fg: None, bg: None, add_modifier: 0, sub_modifier: 0 }),
    ])
}

pub open spec fn help_lines_spec() -> Seq<LineView> {
    help_entries().map_values(|p: (Seq<char>, Seq<char>)| help_line(p.0, p.1))
}

/// Width of the help popup.
pub const HELP_WIDTH: u16 = 38;

/// The lines of the help popup, one per binding.
pub fn help_lines() -> (r: Vec<StyledLine>)
    ensures
        lines_view(r@) == help_lines_spec(),
{
    let entries = help_bindings();
    let mut out: Vec<StyledLine> = Vec::new();
    let mut i: usize = 0;
    while i < entries.len()
        invariant
            i <= entries@.len(),
            entries@.map_values(|p: (&str, &str)| (p.0@, p.1@)) == help_entries(),
            lines_view(out@) == help_lines_spec().take(i as int),
        decreases entries@.len() - i,
    {
        let (k, d) = entries[i];
        let kc = chars_of(k);
        let mut key = vec![' '];
        assert(key@ =~= seq![' ']);
        push_all(&mut key, kc.as_slice());
        let pad = if kc.len() < 16 { 16 - kc.len() } else { 0 };
        push_all(&mut key, repeat_char(' ', pad).as_slice());
        let mut desc = chars_of(d);
        desc.push(' ');
        let mut spans: Vec<StyledSpan> = Vec::new();
        push_span(&mut spans, StyledSpan::styled(key.as_slice(), TextStyle { fg: Some(Color::Yellow), bg: None, add_modifier: BOLD, sub_modifier: 0 }));
        push_span(&mut spans, StyledSpan::raw(desc.as_slice()));
        let line = StyledLine::from_spans(spans);
        proof {
            let e = help_entries()[i as int];
            assert(e == (k@, d@));
            assert(key@ =~= seq![' '] + k@ + spaces(sat_sub(16, k@.len() as int) as nat));
            assert(desc@ =~= d@ + seq![' ']);
            assert(line@ =~= help_line(k@, d@));
            assert(help_lines_spec().take(i + 1 as int) =~= help_lines_spec().take(i as int).push(line@));
        }
        push_line(&mut out, line);
        i = i + 1;
    }
    assert(help_lines_spec().take(entries@.len() as int) =~= help_lines_spec());
    out
}

} // verus!
