//! Properties of the renderer that hold for every markdown text.
use vstd::prelude::*;
use crate::markdown::blocks::{
    border_segments, table_border,
    box_width, code_bg, code_body, code_lines, col_width, max_byte_len, max_nat, num_cols, range_spans,
    ranges_cover, ranges_text, row_cell_width, sat_add, sat_sub, spans_byte_len, spec_highlight, widest_cell,
    CodeBlockV, RowV,
};
use crate::markdown::events::{EventV, MdTagEnd, TagV};
use crate::markdown::renderer::{
    blank_if_needed, emit_parts, ended, flushed, heading_line_text, heading_style, image_for, pushed,
    quote_prefix, rendered, ruled, run_events, started, stack_style, texted, with_blank, with_heading,
    with_span, CtxV, HeadingV,
};
use crate::markdown::theme::Theme;
use crate::strings::{lemma_encode_utf8_concat, split_newline, str_len};
use crate::style::{Color, TextStyle};
use vstd::utf8::encode_utf8;
use crate::text::{span_v, styled_line, LineView, SpanView};

verus! {

/// `b` keeps the lines of `a` as its first lines, and the same headings.
pub open spec fn grows(a: CtxV, b: CtxV) -> bool {
    &&& a.lines.len() <= b.lines.len()
    &&& b.lines.take(a.lines.len() as int) == a.lines
    &&& b.headings == a.headings
}

/// Each recorded heading points at its own line, and the headings come in the
/// order of their lines.
pub open spec fn headings_ok(lines: Seq<LineView>, hs: Seq<HeadingV>, theme: Theme) -> bool {
    forall|i: int| 0 <= i < hs.len() ==> {
        &&& (#[trigger] hs[i]).line < lines.len()
        &&& lines[hs[i].line as int] == styled_line(heading_line_text(hs[i].level, hs[i].text), heading_style(theme, hs[i].level))
        &&& i > 0 ==> hs[i - 1].line < hs[i].line
    }
}

proof fn lemma_grows_trans(a: CtxV, b: CtxV, c: CtxV)
    requires
        grows(a, b),
        grows(b, c),
    ensures
        grows(a, c),
{
    assert(c.lines.take(a.lines.len() as int) =~= c.lines.take(b.lines.len() as int).take(a.lines.len() as int));
}

proof fn lemma_grows_refl(a: CtxV)
    ensures
        grows(a, a),
{
    assert(a.lines.take(a.lines.len() as int) =~= a.lines);
}

proof fn lemma_flushed_grows(st: CtxV)
    ensures
        grows(st, flushed(st)),
        grows(st, with_blank(st)),
        grows(st, blank_if_needed(st)),
{
    lemma_grows_refl(st);
    let f = flushed(st);
    assert(f.lines.take(st.lines.len() as int) =~= st.lines);
    let b = with_blank(st);
    assert(b.lines.take(f.lines.len() as int) =~= f.lines);
    lemma_grows_trans(st, f, b);
}

proof fn lemma_append_grows(st: CtxV, b: CtxV, extra: Seq<LineView>)
    requires
        b.lines == st.lines + extra,
        b.headings == st.headings,
    ensures
        grows(st, b),
{
    assert(b.lines.take(st.lines.len() as int) =~= st.lines);
}

proof fn lemma_emit_parts_grows(st: CtxV, parts: Seq<Seq<char>>, style: TextStyle, theme: Theme)
    ensures
        grows(st, emit_parts(st, parts, style, theme)),
    decreases parts.len(),
{
    if parts.len() == 0 {
        lemma_grows_refl(st);
    } else {
        lemma_emit_parts_grows(st, parts.drop_last(), style, theme);
        let prev = emit_parts(st, parts.drop_last(), style, theme);
        lemma_flushed_grows(prev);
        let f = flushed(prev);
        lemma_grows_trans(st, prev, f);
    }
}

proof fn lemma_started_grows(st: CtxV, tag: TagV, theme: Theme, imgs: Seq<(Seq<char>, Seq<LineView>)>)
    ensures
        grows(st, started(st, tag, theme, imgs)),
{
    lemma_flushed_grows(st);
    lemma_grows_refl(st);
    match tag {
        TagV::Image(u) => {
            let s0 = CtxV { image_rendered: false, ..st };
            lemma_flushed_grows(s0);
            match image_for(imgs, u) {
                Some(ls) => {
                    let f = flushed(s0);
                    let s1 = CtxV { lines: f.lines + ls, image_rendered: true, ..f };
                    lemma_append_grows(f, s1, ls);
                    lemma_grows_trans(s0, f, s1);
                },
                None => {},
            }
        },
        _ => {},
    }
}

proof fn lemma_ended_grows(st: CtxV, tag: MdTagEnd, theme: Theme)
    requires
        !(tag is Heading),
    ensures
        grows(st, ended(st, tag, theme)),
{
    lemma_flushed_grows(st);
    lemma_grows_refl(st);
    match tag {
        MdTagEnd::CodeBlock => {
            match st.code_block {
                Some(cb) => lemma_append_grows(st, ended(st, tag, theme), crate::markdown::blocks::code_block_lines(cb)),
                None => {},
            }
        },
        MdTagEnd::Table => {
            match st.table {
                Some(t) => lemma_append_grows(st, ended(st, tag, theme), crate::markdown::blocks::table_lines(t, theme)),
                None => {},
            }
        },
        _ => {},
    }
}

proof fn lemma_texted_grows(st: CtxV, t: Seq<char>, theme: Theme)
    ensures
        grows(st, texted(st, t, theme)),
{
    lemma_grows_refl(st);
    if st.code_block is None && !st.image_rendered {
        let s1 = if st.pending_link_url is Some {
            CtxV { pending_link_text: st.pending_link_text + t, ..st }
        } else {
            st
        };
        let style = stack_style(s1.style_stack);
        if s1.table is None && s1.heading is None {
            let s2 = if s1.blockquote_depth > 0 && s1.spans.len() == 0 {
                with_span(s1, span_v(quote_prefix(s1.blockquote_depth), theme.blockquote))
            } else {
                s1
            };
            lemma_emit_parts_grows(s2, split_newline(t), style, theme);
        }
    }
}

/// One event only adds lines after the existing ones and keeps the recorded
/// headings, except the end of a heading, which records it.
pub proof fn lemma_step_grows(st: CtxV, e: EventV, theme: Theme, imgs: Seq<(Seq<char>, Seq<LineView>)>)
    requires
        st.in_metadata || !(e is End && e->End_0 is Heading),
    ensures
        grows(st, pushed(st, e, theme, imgs)),
{
    lemma_grows_refl(st);
    lemma_flushed_grows(st);
    if !st.in_metadata {
        match e {
            EventV::Start(tag) => lemma_started_grows(st, tag, theme, imgs),
            EventV::End(tag) => lemma_ended_grows(st, tag, theme),
            EventV::Text(t) => lemma_texted_grows(st, t, theme),
            EventV::Rule => {
                let s1 = blank_if_needed(st);
                let r = ruled(st, theme);
                assert(r.lines.take(s1.lines.len() as int) =~= s1.lines);
                lemma_grows_trans(st, s1, r);
            },
            _ => {},
        }
    }
}

proof fn lemma_headings_ok_grows(a: CtxV, b: CtxV, theme: Theme)
    requires
        grows(a, b),
        headings_ok(a.lines, a.headings, theme),
    ensures
        headings_ok(b.lines, b.headings, theme),
{
    assert forall|i: int| 0 <= i < b.headings.len() implies {
        &&& (#[trigger] b.headings[i]).line < b.lines.len()
        &&& b.lines[b.headings[i].line as int] == styled_line(heading_line_text(b.headings[i].level, b.headings[i].text), heading_style(theme, b.headings[i].level))
        &&& i > 0 ==> b.headings[i - 1].line < b.headings[i].line
    } by {
        let h = a.headings[i];
        assert(b.lines.take(a.lines.len() as int)[h.line as int] == b.lines[h.line as int]);
    }
}

proof fn lemma_step_headings_ok(st: CtxV, e: EventV, theme: Theme, imgs: Seq<(Seq<char>, Seq<LineView>)>)
    requires
        headings_ok(st.lines, st.headings, theme),
        pushed(st, e, theme, imgs).lines.len() <= usize::MAX,
    ensures
        headings_ok(pushed(st, e, theme, imgs).lines, pushed(st, e, theme, imgs).headings, theme),
{
    if !st.in_metadata && e is End && e->End_0 is Heading {
        let l = e->End_0->Heading_0;
        let s1 = CtxV { spans: seq![], ..st };
        let text = crate::text::line_chars(st.spans);
        let s2 = with_heading(s1, l, text, theme);
        let r = pushed(st, e, theme, imgs);
        assert(r.lines == s2.lines && r.headings == s2.headings);
        assert(r.lines.len() == st.lines.len() + 1);
        let n = st.headings.len();
        assert forall|i: int| 0 <= i < r.headings.len() implies {
            &&& (#[trigger] r.headings[i]).line < r.lines.len()
            &&& r.lines[r.headings[i].line as int] == styled_line(heading_line_text(r.headings[i].level, r.headings[i].text), heading_style(theme, r.headings[i].level))
            &&& i > 0 ==> r.headings[i - 1].line < r.headings[i].line
        } by {
            if i < n {
                assert(r.headings[i] == st.headings[i]);
                if i > 0 {
                    assert(r.headings[i - 1] == st.headings[i - 1]);
                }
            } else {
                assert(r.headings[i].line == st.lines.len());
                if i > 0 {
                    assert(r.headings[i - 1] == st.headings[i - 1]);
                }
            }
        }
    } else {
        lemma_step_grows(st, e, theme, imgs);
        lemma_headings_ok_grows(st, pushed(st, e, theme, imgs), theme);
    }
}

/// Every event adds at most a bounded number of lines, so the line count of a
/// rendering is a function of the events; this lemma only states that the
/// recorded heading lines are valid for any prefix of the events.
proof fn lemma_run_headings_ok(events: Seq<EventV>, theme: Theme, imgs: Seq<(Seq<char>, Seq<LineView>)>)
    requires
        run_events(events, theme, imgs).lines.len() <= usize::MAX,
    ensures
        headings_ok(run_events(events, theme, imgs).lines, run_events(events, theme, imgs).headings, theme),
    decreases events.len(),
{
    if events.len() > 0 {
        let prev = run_events(events.drop_last(), theme, imgs);
        let e = events.last();
        if prev.in_metadata || !(e is End && e->End_0 is Heading) {
            lemma_step_grows(prev, e, theme, imgs);
        } else {
            assert(pushed(prev, e, theme, imgs).lines.len() == prev.lines.len() + 1);
        }
        lemma_run_headings_ok(events.drop_last(), theme, imgs);
        lemma_step_headings_ok(prev, e, theme, imgs);
    }
}

/// Headings point at their lines: in a rendering, each recorded heading's line
/// index lies within the text, the line there is the heading's own line (its text,
/// padded for H1, in its level's style), and the headings come in the order of
/// their lines. Next/previous heading and the table of contents rely on it.
pub proof fn law_headings_point_at_their_lines(events: Seq<EventV>, theme: Theme, imgs: Seq<(Seq<char>, Seq<LineView>)>)
    requires
        rendered(events, theme, imgs).text.len() <= usize::MAX,
    ensures
        headings_ok(rendered(events, theme, imgs).text, rendered(events, theme, imgs).headings, theme),
{
    let st = run_events(events, theme, imgs);
    lemma_flushed_grows(st);
    lemma_run_headings_ok(events, theme, imgs);
    lemma_headings_ok_grows(st, flushed(st), theme);
}

/// Front matter is skipped: inside it, every event but its end leaves the
/// renderer's state unchanged.
pub proof fn law_front_matter_skipped(st: CtxV, e: EventV, theme: Theme, imgs: Seq<(Seq<char>, Seq<LineView>)>)
    requires
        st.in_metadata,
        e != EventV::End(MdTagEnd::MetadataBlock),
    ensures
        pushed(st, e, theme, imgs) == st,
{
}

proof fn lemma_widest_cell_bound(rows: Seq<RowV>, j: int, i: int)
    requires
        0 <= j < rows.len(),
    ensures
        row_cell_width(rows[j], i) <= widest_cell(rows, i),
    decreases rows.len(),
{
    if j < rows.len() - 1 {
        lemma_widest_cell_bound(rows.drop_last(), j, i);
        assert(rows.drop_last()[j] == rows[j]);
    }
}

/// Table columns line up: in every row, each cell's display width fits its
/// column, so the cell and its padding fill the column exactly.
pub proof fn law_table_cells_fill_columns(rows: Seq<RowV>, j: int, i: int)
    requires
        0 <= j < rows.len(),
        0 <= i < num_cols(rows),
    ensures
        row_cell_width(rows[j], i) <= col_width(rows, i),
        row_cell_width(rows[j], i) + sat_sub(col_width(rows, i) as int, row_cell_width(rows[j], i) as int)
            == col_width(rows, i),
{
    lemma_widest_cell_bound(rows, j, i);
}

proof fn lemma_max_byte_len_bound(ls: Seq<Seq<char>>, i: int)
    requires
        0 <= i < ls.len(),
    ensures
        str_len(ls[i]) <= max_byte_len(ls),
    decreases ls.len(),
{
    if i < ls.len() - 1 {
        lemma_max_byte_len_bound(ls.drop_last(), i);
        assert(ls.drop_last()[i] == ls[i]);
    }
}

/// The byte lengths of highlighted ranges add up to the byte length of their text.
proof fn lemma_ranges_byte_len(rs: Seq<((u8, u8, u8), Seq<char>)>, bg: Color)
    requires
        encode_utf8(ranges_text(rs)).len() <= usize::MAX,
    ensures
        spans_byte_len(range_spans(rs, bg)) == encode_utf8(ranges_text(rs)).len(),
    decreases rs.len(),
{
    if rs.len() > 0 {
        let prefix = rs.drop_last();
        lemma_encode_utf8_concat(ranges_text(prefix), rs.last().1);
        lemma_ranges_byte_len(prefix, bg);
        assert(range_spans(rs, bg).drop_last() =~= range_spans(prefix, bg));
        assert(range_spans(rs, bg).last().content == rs.last().1);
    }
}

/// Code boxes line up: a code line is never longer than the box, so the line, its
/// padding and the two border characters fill the box width exactly (as long as the
/// box width did not hit `usize::MAX`). This rests on syntect's highlighting giving
/// each line back in its ranges, which `render_code_block` states of the blocks it
/// renders.
pub proof fn law_code_box_lines_fill_box(cb: CodeBlockV, i: int)
    requires
        0 <= i < code_lines(cb).len(),
        max_byte_len(code_lines(cb)) + 4 < usize::MAX,
        encode_utf8(code_lines(cb)[i]).len() <= usize::MAX,
        ranges_cover(spec_highlight(cb.lang, code_lines(cb)), code_lines(cb)),
    ensures
        ({
            let body = code_body(code_lines(cb)[i], i, spec_highlight(cb.lang, code_lines(cb)));
            let w = box_width(cb);
            spans_byte_len(body) + 2 <= w
                && spans_byte_len(body) + 2 + sat_sub(w as int, sat_add(spans_byte_len(body) as int, 2) as int) == w
        }),
{
    let ls = code_lines(cb);
    let hl = spec_highlight(cb.lang, ls);
    let body = code_body(ls[i], i, hl);
    lemma_max_byte_len_bound(ls, i);
    if hl.found && i < hl.lines.len() && hl.lines[i].ok {
        assert(ranges_text(hl.lines[i].ranges) == ls[i]);
        lemma_ranges_byte_len(hl.lines[i].ranges, code_bg(hl));
    } else {
        assert(body.drop_last().len() == 0);
        assert(spans_byte_len(body.drop_last()) == 0);
        assert(body.last().content == ls[i]);
    }
}

/// A hard line break ends the line being built: its spans become a line of their
/// own (when there are any), nothing is left pending, and nothing else changes.
pub proof fn law_hard_break_ends_the_line(st: CtxV, theme: Theme, imgs: Seq<(Seq<char>, Seq<LineView>)>)
    requires
        !st.in_metadata,
    ensures
        ({
            let r = pushed(st, EventV::HardBreak, theme, imgs);
            &&& r.spans.len() == 0
            &&& st.spans.len() > 0 ==> r.lines == st.lines.push(LineView { spans: st.spans, style: TextStyle { fg: None, bg: None, add_modifier: 0, sub_modifier: 0 } })
            &&& st.spans.len() == 0 ==> r.lines == st.lines
            &&& r == CtxV { lines: r.lines, spans: r.spans, ..st }
        }),
{
}

/// A text without line endings is one piece.
proof fn lemma_split_newline_single(t: Seq<char>)
    requires
        forall|k: int| 0 <= k < t.len() ==> #[trigger] t[k] != '\n',
    ensures
        split_newline(t) == seq![t],
{
    crate::strings::lemma_first_newline_at(t, t.len() as int);
}

/// A paragraph of two texts around a hard line break renders as two lines, the
/// first text and the second, each one unstyled span.
pub proof fn law_hard_break_splits_a_paragraph(a: Seq<char>, b: Seq<char>, theme: Theme, imgs: Seq<(Seq<char>, Seq<LineView>)>)
    requires
        a.len() > 0,
        b.len() > 0,
        forall|k: int| 0 <= k < a.len() ==> #[trigger] a[k] != '\n',
        forall|k: int| 0 <= k < b.len() ==> #[trigger] b[k] != '\n',
    ensures
        rendered(seq![
            EventV::Start(TagV::Paragraph),
            EventV::Text(a),
            EventV::HardBreak,
            EventV::Text(b),
            EventV::End(MdTagEnd::Paragraph),
        ], theme, imgs).text == seq![
            LineView { spans: seq![span_v(a, TextStyle { fg: None, bg: None, add_modifier: 0, sub_modifier: 0 })], style: TextStyle { fg: None, bg: None, add_modifier: 0, sub_modifier: 0 } },
            LineView { spans: seq![span_v(b, TextStyle { fg: None, bg: None, add_modifier: 0, sub_modifier: 0 })], style: TextStyle { fg: None, bg: None, add_modifier: 0, sub_modifier: 0 } },
        ],
{
    let evs = seq![
        EventV::Start(TagV::Paragraph),
        EventV::Text(a),
        EventV::HardBreak,
        EventV::Text(b),
        EventV::End(MdTagEnd::Paragraph),
    ];
    lemma_split_newline_single(a);
    lemma_split_newline_single(b);
    let s0 = crate::markdown::renderer::initial_ctx();
    assert(run_events(evs.take(0), theme, imgs) == s0);
    assert(evs.take(1).drop_last() =~= evs.take(0));
    let s1 = run_events(evs.take(1), theme, imgs);
    assert(s1 == s0);
    assert(evs.take(2).drop_last() =~= evs.take(1));
    let s2 = run_events(evs.take(2), theme, imgs);
    let plain = TextStyle { fg: None, bg: None, add_modifier: 0, sub_modifier: 0 };
    assert(stack_style(s1.style_stack) == plain);
    assert(evs.take(2).last() == EventV::Text(a));
    assert(seq![a].drop_last() =~= Seq::<Seq<char>>::empty());
    assert(emit_parts(s1, Seq::<Seq<char>>::empty(), plain, theme) == s1);
    assert(seq![a].last() == a);
    assert(emit_parts(s1, seq![a], plain, theme) == with_span(s1, span_v(a, plain)));
    assert(s2 == with_span(s1, span_v(a, plain)));
    assert(s2.spans =~= seq![span_v(a, plain)]);
    assert(evs.take(3).drop_last() =~= evs.take(2));
    let s3 = run_events(evs.take(3), theme, imgs);
    assert(s3.spans.len() == 0);
    assert(evs.take(4).drop_last() =~= evs.take(3));
    assert(evs.take(3).last() == EventV::HardBreak);
    assert(s3 == CtxV { lines: s2.lines.push(crate::text::line_of(s2.spans)), spans: seq![], ..s2 });
    let s4 = run_events(evs.take(4), theme, imgs);
    assert(evs.take(4).last() == EventV::Text(b));
    assert(stack_style(s3.style_stack) == plain);
    assert(seq![b].drop_last() =~= Seq::<Seq<char>>::empty());
    assert(emit_parts(s3, Seq::<Seq<char>>::empty(), plain, theme) == s3);
    assert(seq![b].last() == b);
    assert(emit_parts(s3, seq![b], plain, theme) == with_span(s3, span_v(b, plain)));
    assert(s4 == with_span(s3, span_v(b, plain)));
    assert(s4.spans =~= seq![span_v(b, plain)]);
    assert(evs.take(5).last() == EventV::End(MdTagEnd::Paragraph));
    assert(evs.take(5).drop_last() =~= evs.take(4));
    assert(evs.take(5) =~= evs);
}

/// Where column `k` of a table border ends: the index of the junction (or corner)
/// that follows its run of dashes, counting the left corner as index 0.
#[verifier::opaque]
pub open spec fn border_stop(widths: Seq<usize>, k: nat) -> int
    decreases k,
{
    let run = sat_add(widths[k as int] as int, 2) as int;
    if k == 0 { 1 + run } else { border_stop(widths, (k - 1) as nat) + 1 + run }
}

/// Where column `k`'s run of dashes starts.
pub open spec fn border_start(widths: Seq<usize>, k: nat) -> int {
    if k == 0 { 1 } else { border_stop(widths, (k - 1) as nat) + 1 }
}

/// The border up to and including column `k - 1`.
pub open spec fn border_prefix(widths: Seq<usize>, left: char, mid: char, right: char, k: nat) -> Seq<char> {
    seq![left] + border_segments(widths, mid, right, k)
}

/// What the border up to column `k - 1` holds, position by position.
pub open spec fn border_prefix_ok(widths: Seq<usize>, left: char, mid: char, right: char, k: nat) -> bool {
    let b = border_prefix(widths, left, mid, right, k);
    &&& b.len() == border_stop(widths, (k - 1) as nat) + 1
    &&& b[0] == left
    &&& forall|j: nat| j < k ==> b[#[trigger] border_stop(widths, j)] == (if j < widths.len() - 1 { mid } else { right })
    &&& forall|j: nat, p: int| #![trigger border_stop(widths, j), b[p]] j < k && border_start(widths, j) <= p < border_stop(widths, j) ==> b[p] == '\u{2500}'
}

proof fn lemma_border_first(widths: Seq<usize>, left: char, mid: char, right: char)
    requires
        0 < widths.len(),
    ensures
        border_prefix_ok(widths, left, mid, right, 1),
{
    let b = border_prefix(widths, left, mid, right, 1);
    let run = sat_add(widths[0] as int, 2) as nat;
    let c = if 0 < widths.len() - 1 { mid } else { right };
    let d = crate::markdown::blocks::dashes(run);
    lemma_dashes(run);
    assert(border_segments(widths, mid, right, 0) =~= Seq::<char>::empty());
    assert(b =~= seq![left] + d + seq![c]);
    lemma_border_stop_step(widths, 0);
    assert forall|j: nat, p: int| #![trigger border_stop(widths, j), b[p]]
        j < 1 && border_start(widths, j) <= p < border_stop(widths, j) implies b[p] == '\u{2500}' by {
        assert(b[p] == d[p - 1]);
    }
}

#[verifier::spinoff_prover]
#[verifier::rlimit(40)]
proof fn lemma_border_next(widths: Seq<usize>, left: char, mid: char, right: char, k: nat)
    requires
        1 < k <= widths.len(),
        border_prefix_ok(widths, left, mid, right, (k - 1) as nat),
    ensures
        border_prefix_ok(widths, left, mid, right, k),
{
    let a = border_prefix(widths, left, mid, right, (k - 1) as nat);
    let b = border_prefix(widths, left, mid, right, k);
    let run = sat_add(widths[k - 1] as int, 2) as nat;
    let c = if k - 1 < widths.len() - 1 { mid } else { right };
    let d = crate::markdown::blocks::dashes(run);
    lemma_dashes(run);
    assert(b =~= a + d + seq![c]);
    assert forall|i: int| 0 <= i < a.len() implies b[i] == a[i] by {
        assert((a + d)[i] == a[i]);
    }
    lemma_border_stop_mono(widths, (k - 1) as nat, (k - 1) as nat);
    lemma_border_stop_step(widths, (k - 1) as nat);
    assert forall|j: nat| j < k implies b[#[trigger] border_stop(widths, j)] == (if j < widths.len() - 1 { mid } else { right }) by {
        if j < k - 1 {
            lemma_border_stop_mono(widths, j, (k - 2) as nat);
            assert(b[border_stop(widths, j)] == a[border_stop(widths, j)]);
        }
    }
    assert forall|j: nat, p: int| #![trigger border_stop(widths, j), b[p]]
        j < k && border_start(widths, j) <= p < border_stop(widths, j) implies b[p] == '\u{2500}' by {
        if j < k - 1 {
            lemma_border_stop_mono(widths, j, (k - 2) as nat);
            assert(b[p] == a[p]);
            assert(a[p] == '\u{2500}');
        } else {
            assert(b[p] == d[p - a.len()]);
        }
    }
}

proof fn lemma_border_prefix(widths: Seq<usize>, left: char, mid: char, right: char, k: nat)
    requires
        0 < k <= widths.len(),
    ensures
        border_prefix_ok(widths, left, mid, right, k),
    decreases k,
{
    if k == 1 {
        lemma_border_first(widths, left, mid, right);
    } else {
        lemma_border_prefix(widths, left, mid, right, (k - 1) as nat);
        lemma_border_next(widths, left, mid, right, k);
    }
}

proof fn lemma_dashes(n: nat)
    ensures
        crate::markdown::blocks::dashes(n).len() == n,
        forall|q: int| 0 <= q < n ==> #[trigger] crate::markdown::blocks::dashes(n)[q] == '\u{2500}',
    decreases n,
{
    if n > 0 {
        lemma_dashes((n - 1) as nat);
        let prev = crate::markdown::blocks::dashes((n - 1) as nat);
        assert(crate::markdown::blocks::dashes(n) == prev + seq!['\u{2500}']);
        assert forall|q: int| 0 <= q < n implies #[trigger] crate::markdown::blocks::dashes(n)[q] == '\u{2500}' by {
            if q < n - 1 {
                assert(crate::markdown::blocks::dashes(n)[q] == prev[q]);
            }
        }
    }
}

proof fn lemma_border_stop_step(widths: Seq<usize>, k: nat)
    ensures
        border_stop(widths, k) == (if k == 0 { 1 } else { border_stop(widths, (k - 1) as nat) + 1 })
            + sat_add(widths[k as int] as int, 2) as int,
{
    reveal(border_stop);
}

proof fn lemma_border_stop_mono(widths: Seq<usize>, j: nat, k: nat)
    requires
        j <= k,
        k < widths.len(),
    ensures
        border_stop(widths, j) <= border_stop(widths, k),
        1 <= border_start(widths, j) <= border_stop(widths, j),
    decreases k,
{
    lemma_border_stop_step(widths, k);
    lemma_border_stop_step(widths, j);
    if j < k {
        lemma_border_stop_mono(widths, j, (k - 1) as nat);
    } else if j > 0 {
        lemma_border_stop_mono(widths, (j - 1) as nat, (j - 1) as nat);
    }
}

/// Table borders join their columns: for `n` columns, the left corner, then each
/// column's run of dashes followed by the junction, except after the last column,
/// which the right corner closes, and which ends the border.
pub proof fn law_table_border_junctions(widths: Seq<usize>, left: char, mid: char, right: char)
    requires
        widths.len() > 0,
    ensures
        ({
            let b = table_border(widths, left, mid, right);
            let n = widths.len();
            &&& b[0] == left
            &&& b.len() == border_stop(widths, (n - 1) as nat) + 1
            &&& b[b.len() - 1] == right
            &&& forall|j: nat| j < n - 1 ==> b[#[trigger] border_stop(widths, j)] == mid
            &&& forall|j: nat, p: int| #![trigger border_stop(widths, j), b[p]] j < n && border_start(widths, j) <= p < border_stop(widths, j) ==> b[p] == '\u{2500}'
        }),
{
    lemma_border_prefix(widths, left, mid, right, widths.len());
}

} // verus!
