use melo::markdown::events::{markdown_events, HeadingLevel, MdEvent, MdTag, MdTagEnd};
use melo::markdown::parser::{extract_first_heading, image_sources, image_sources_of, parse};
use melo::markdown::renderer::{render, render_events, ImageSet, LoadedImage, RenderOutput};
use melo::markdown::theme::Theme;
use melo::style::{Color, TextStyle};
use melo::text::{StyledLine, StyledSpan};

fn line_string(line: &StyledLine) -> String {
    line.spans.iter().map(|s| s.content.as_str()).collect()
}

fn rendered(md: &str) -> RenderOutput {
    render(md, &Theme::default(), &ImageSet::empty())
}

fn lines_of(md: &str) -> Vec<String> {
    rendered(md).text.lines.iter().map(line_string).collect()
}

#[test]
fn h1_is_padded_and_recorded() {
    let out = rendered("# Title");
    assert_eq!(out.text.lines.len(), 1);
    assert_eq!(line_string(&out.text.lines[0]), "  Title  ");
    assert_eq!(out.text.lines[0].style, Theme::default().h1);
    assert_eq!(out.headings.len(), 1);
    assert_eq!(out.headings[0].line, 0);
    assert_eq!(out.headings[0].level, HeadingLevel::H1);
    assert_eq!(out.headings[0].text, "Title");
}

#[test]
fn lower_headings_are_plain_text_in_their_style() {
    let out = rendered("## Two\n\n### Three");
    assert_eq!(lines_of("## Two\n\n### Three"), vec!["Two", "", "Three"]);
    assert_eq!(out.text.lines[0].style, Theme::default().h2);
    assert_eq!(out.text.lines[2].style, Theme::default().h3);
    assert_eq!(out.headings[1].line, 2);
    assert_eq!(out.headings[1].level, HeadingLevel::H3);
}

#[test]
fn paragraphs_are_separated_by_a_blank_line() {
    assert_eq!(lines_of("first\n\nsecond"), vec!["first", "", "second"]);
}

#[test]
fn soft_break_becomes_a_space() {
    assert_eq!(lines_of("one\ntwo"), vec!["one two"]);
}

#[test]
fn unordered_list_items_get_bullets() {
    assert_eq!(lines_of("- one\n- two"), vec!["\u{2022} one", "\u{2022} two"]);
}

#[test]
fn ordered_list_counts_from_its_start() {
    assert_eq!(lines_of("3. a\n4. b\n5. c"), vec!["3. a", "4. b", "5. c"]);
}

#[test]
fn task_list_markers_replace_the_bullet() {
    assert_eq!(lines_of("- [x] done\n- [ ] todo"), vec!["\u{2611} done", "\u{2610} todo"]);
}

#[test]
fn link_shows_its_url_and_is_recorded() {
    let out = rendered("see [docs](https://example.com) now");
    assert_eq!(line_string(&out.text.lines[0]), "see docs (https://example.com) now");
    assert_eq!(out.links.len(), 1);
    assert_eq!(out.links[0].url, "https://example.com");
    assert_eq!(out.links[0].text, "docs");
    let link_span = &out.text.lines[0].spans[1];
    assert_eq!(link_span.content, "docs");
    assert_eq!(link_span.style, Theme::default().link);
}

#[test]
fn inline_code_is_padded_with_spaces() {
    let out = rendered("use `x` here");
    assert_eq!(line_string(&out.text.lines[0]), "use  x  here");
    assert_eq!(out.text.lines[0].spans[1].content, " x ");
    assert_eq!(out.text.lines[0].spans[1].style, Theme::default().code_inline);
}

#[test]
fn emphasis_and_strong_stack_their_modifiers() {
    let out = rendered("***both***");
    let span = &out.text.lines[0].spans[0];
    assert_eq!(span.content, "both");
    assert_eq!(span.style.add_modifier, melo::style::BOLD | melo::style::ITALIC);
}

#[test]
fn strikethrough_is_crossed_out() {
    let out = rendered("~~gone~~");
    assert_eq!(out.text.lines[0].spans[0].style.add_modifier, melo::style::CROSSED_OUT);
}

#[test]
fn blockquote_lines_are_prefixed() {
    assert_eq!(lines_of("> quoted"), vec!["\u{2502} quoted"]);
    assert_eq!(lines_of("> > deep"), vec!["\u{2502} \u{2502} deep"]);
}

#[test]
fn rule_is_eighty_box_dashes() {
    let lines = lines_of("---");
    assert_eq!(lines.len(), 1);
    assert_eq!(lines[0], "\u{2500}".repeat(80));
}

#[test]
fn front_matter_is_skipped() {
    let out = rendered("---\ntitle: x\n---\n# Heading");
    assert_eq!(out.text.lines.len(), 1);
    assert_eq!(line_string(&out.text.lines[0]), "  Heading  ");
    assert_eq!(out.headings[0].line, 0);
}

#[test]
fn plain_code_block_is_boxed_at_least_twenty_wide() {
    let lines = lines_of("```\nlet x = 1;\n```");
    let dashes = "\u{2500}".repeat(24);
    assert_eq!(
        lines,
        vec![
            format!("  \u{256d}{}\u{256e}", dashes),
            format!("  \u{2502} let x = 1;{} \u{2502}", " ".repeat(12)),
            format!("  \u{2570}{}\u{256f}", dashes),
        ]
    );
}

#[test]
fn code_block_with_unknown_language_shows_its_label() {
    let lines = lines_of("```zzz\nab\n```");
    assert_eq!(lines.len(), 4);
    assert_eq!(lines[1], format!("  \u{2502} zzz{} \u{2502}", " ".repeat(19)));
    assert_eq!(lines[2], format!("  \u{2502} ab{} \u{2502}", " ".repeat(20)));
}

#[test]
fn empty_code_block_has_one_blank_row() {
    let lines = lines_of("```\n```");
    assert_eq!(lines.len(), 3);
    assert_eq!(lines[1], format!("  \u{2502} {} \u{2502}", " ".repeat(22)));
}

#[test]
fn long_code_line_widens_the_box() {
    let code = "x".repeat(30);
    let lines = lines_of(&format!("```\n{}\n```", code));
    assert_eq!(lines[0], format!("  \u{256d}{}\u{256e}", "\u{2500}".repeat(34)));
    assert_eq!(lines[1], format!("  \u{2502} {}   \u{2502}", code));
}

#[test]
fn known_language_is_highlighted_in_several_colours() {
    let out = rendered("```rust\nfn main() { let x = 1; }\n```");
    let code_line = &out.text.lines[2];
    let text = line_string(code_line);
    assert!(text.starts_with("  \u{2502} fn main() { let x = 1; }"));
    assert!(text.ends_with(" \u{2502}"));
    // border, several highlighted ranges, closing border
    assert!(code_line.spans.len() > 3);
    let colours: Vec<Option<Color>> = code_line.spans[1..code_line.spans.len() - 1].iter().map(|s| s.style.fg).collect();
    assert!(colours.iter().any(|c| *c != colours[0]));
}

#[test]
fn table_is_drawn_with_box_characters() {
    let lines = lines_of("| a | bb |\n|---|---|\n| 1 | 2 |");
    assert_eq!(
        lines,
        vec![
            "\u{250c}\u{2500}\u{2500}\u{2500}\u{2500}\u{2500}\u{252c}\u{2500}\u{2500}\u{2500}\u{2500}\u{2500}\u{2510}",
            "\u{2502} a   \u{2502} bb  \u{2502}",
            "\u{251c}\u{2500}\u{2500}\u{2500}\u{2500}\u{2500}\u{253c}\u{2500}\u{2500}\u{2500}\u{2500}\u{2500}\u{2524}",
            "\u{2502} 1   \u{2502} 2   \u{2502}",
            "\u{2514}\u{2500}\u{2500}\u{2500}\u{2500}\u{2500}\u{2534}\u{2500}\u{2500}\u{2500}\u{2500}\u{2500}\u{2518}",
        ]
    );
}

#[test]
fn table_columns_use_display_width() {
    let lines = lines_of("| \u{65e5}\u{672c} |\n|---|\n| x |");
    assert_eq!(lines[1], "\u{2502} \u{65e5}\u{672c} \u{2502}");
    assert_eq!(lines[3], "\u{2502} x    \u{2502}");
    assert_eq!(lines[0], format!("\u{250c}{}\u{2510}", "\u{2500}".repeat(6)));
}

#[test]
fn table_header_cells_use_the_header_style() {
    let out = rendered("| h |\n|---|\n| v |");
    assert_eq!(out.text.lines[1].spans[1].style, Theme::default().table_header);
    assert_eq!(out.text.lines[3].spans[1].style, TextStyle::new());
}

#[test]
fn image_without_file_shows_its_source() {
    assert_eq!(lines_of("![alt](pic.png)"), vec!["\u{1f5bc} alt (pic.png)"]);
}

#[test]
fn loaded_image_replaces_the_alt_text() {
    let pixel = StyledLine::from_spans(vec![StyledSpan::raw(&['\u{2584}', '\u{2584}'])]);
    let images = ImageSet { images: vec![LoadedImage { url: "pic.png".to_string(), lines: vec![pixel.clone(), pixel] }] };
    let out = render("before\n\n![alt](pic.png)", &Theme::default(), &images);
    let lines: Vec<String> = out.text.lines.iter().map(line_string).collect();
    assert_eq!(lines, vec!["before", "", "\u{2584}\u{2584}", "\u{2584}\u{2584}"]);
}

#[test]
fn image_sources_lists_every_image() {
    assert_eq!(image_sources("![a](x.png) and ![b](dir/y.gif)"), vec!["x.png", "dir/y.gif"]);
    assert!(image_sources("no images").is_empty());
}

#[test]
fn first_heading_is_the_title() {
    assert_eq!(extract_first_heading("intro\n# Hello World\n# Other"), Some("Hello World".to_string()));
    assert_eq!(extract_first_heading("   # Indented  "), Some("Indented".to_string()));
    assert_eq!(extract_first_heading("## Sub only"), None);
    assert_eq!(extract_first_heading("no heading here"), None);
    assert_eq!(extract_first_heading(""), None);
}

#[test]
fn parse_keeps_source_title_headings_and_links() {
    let src = "# Doc\n\n[a](b.md)";
    let doc = parse(src, &Theme::default(), &ImageSet::empty());
    assert_eq!(doc.source, src);
    assert_eq!(doc.title, Some("Doc".to_string()));
    assert_eq!(doc.headings.len(), 1);
    assert_eq!(doc.links.len(), 1);
    assert_eq!(doc.links[0].url, "b.md");
    assert_eq!(doc.text.height(), 3);
}

#[test]
fn headings_point_at_their_rendered_lines() {
    let out = rendered("# A\n\ntext\n\n## B\n\n```\ncode\n```\n\n### C");
    for h in &out.headings {
        let line = line_string(&out.text.lines[h.line]);
        assert!(line.contains(&h.text));
    }
    assert_eq!(out.headings.len(), 3);
}

#[test]
fn code_box_lines_all_have_the_box_width() {
    let lines = lines_of("```\nshort\na much longer line of code here\n\nx\n```");
    let widths: Vec<usize> = lines.iter().map(|l| l.chars().count()).collect();
    assert!(widths.iter().all(|w| *w == widths[0]));
    assert_eq!(widths[0], 2 + 1 + 31 + 4 + 1);
}

#[test]
fn table_rows_all_have_the_same_width() {
    let lines = lines_of("| a | long header |\n|---|---|\n| wide cell | b |\n| c |  |");
    let widths: Vec<usize> = lines.iter().map(|l| l.chars().count()).collect();
    assert!(widths.iter().all(|w| *w == widths[0]));
}

#[test]
fn style_patch_overrides_colours_and_merges_modifiers() {
    let base = TextStyle::new().fg(Color::Red).add_modifier(melo::style::ITALIC);
    let over = TextStyle::new().bg(Color::Blue).add_modifier(melo::style::BOLD);
    let p = base.patch(over);
    assert_eq!(p.fg, Some(Color::Red));
    assert_eq!(p.bg, Some(Color::Blue));
    assert_eq!(p.add_modifier, melo::style::ITALIC | melo::style::BOLD);
    assert_eq!(TextStyle::new().patch(base), base);
}

#[test]
fn image_sources_of_events_picks_image_starts() {
    let events = vec![
        MdEvent::Start(MdTag::Paragraph),
        MdEvent::Start(MdTag::Image("a.png".to_string())),
        MdEvent::Text("alt".to_string()),
        MdEvent::End(MdTagEnd::Image),
        MdEvent::Start(MdTag::Link("b.png".to_string())),
        MdEvent::End(MdTagEnd::Link),
        MdEvent::Start(MdTag::Image("c.gif".to_string())),
        MdEvent::End(MdTagEnd::Image),
    ];
    assert_eq!(image_sources_of(&events), vec!["a.png", "c.gif"]);
}

#[test]
fn markdown_events_come_from_pulldown_cmark() {
    let events = markdown_events("# Hi\n\n*x*");
    assert_eq!(
        events,
        vec![
            MdEvent::Start(MdTag::Heading(HeadingLevel::H1)),
            MdEvent::Text("Hi".to_string()),
            MdEvent::End(MdTagEnd::Heading(HeadingLevel::H1)),
            MdEvent::Start(MdTag::Paragraph),
            MdEvent::Start(MdTag::Emphasis),
            MdEvent::Text("x".to_string()),
            MdEvent::End(MdTagEnd::Emphasis),
            MdEvent::End(MdTagEnd::Paragraph),
        ]
    );
}

#[test]
fn render_events_builds_lines_from_given_events() {
    let events = vec![
        MdEvent::Start(MdTag::Heading(HeadingLevel::H2)),
        MdEvent::Text("Sub".to_string()),
        MdEvent::End(MdTagEnd::Heading(HeadingLevel::H2)),
        MdEvent::Start(MdTag::Paragraph),
        MdEvent::Text("a\nb".to_string()),
        MdEvent::End(MdTagEnd::Paragraph),
        MdEvent::Rule,
    ];
    let out = render_events(&events, &Theme::default(), &ImageSet::empty());
    let lines: Vec<String> = out.text.lines.iter().map(line_string).collect();
    assert_eq!(lines, vec!["Sub".to_string(), "".to_string(), "a".to_string(), "b".to_string(), "".to_string(), "\u{2500}".repeat(80)]);
    assert_eq!(out.headings[0].level, HeadingLevel::H2);
}
