use melo::markdown::events::HeadingLevel;
use melo::markdown::renderer::{HeadingInfo, LinkInfo};
use melo::style::{Color, TextStyle, BOLD};
use melo::text::StyledLine;
use melo::ui::layout::{
    help_bindings, help_lines, indent_for, level_style, links_content_width, link_lines, popup_geometry,
    status_bar, status_position, toc_content_width, toc_lines, PopupGeometry, StatusPosition,
};

fn line_string(line: &StyledLine) -> String {
    line.spans.iter().map(|s| s.content.as_str()).collect()
}

fn heading(line: usize, level: HeadingLevel, text: &str) -> HeadingInfo {
    HeadingInfo { line, level, text: text.to_string() }
}

#[test]
fn status_position_at_top_middle_and_bottom() {
    assert_eq!(
        status_position(0, 100, 20),
        StatusPosition { current_line: 1, end_line: 20, total: 100, percent: 0 }
    );
    assert_eq!(
        status_position(40, 100, 20),
        StatusPosition { current_line: 41, end_line: 60, total: 100, percent: 50 }
    );
    assert_eq!(
        status_position(80, 100, 20),
        StatusPosition { current_line: 81, end_line: 100, total: 100, percent: 100 }
    );
}

#[test]
fn status_position_of_content_that_fits_is_full() {
    assert_eq!(
        status_position(0, 5, 20),
        StatusPosition { current_line: 1, end_line: 5, total: 5, percent: 100 }
    );
    assert_eq!(status_position(0, 0, 20).total, 1);
}

#[test]
fn status_percentage_is_capped_at_100() {
    assert_eq!(status_position(200, 100, 20).percent, 100);
}

#[test]
fn status_bar_lays_out_name_position_and_hint() {
    let line = status_bar("a.md", 0, 100, 20, 60, None);
    assert_eq!(line.spans.len(), 5);
    assert_eq!(line.spans[0].content, " a.md ");
    assert_eq!(line.spans[0].style.add_modifier, BOLD);
    assert_eq!(line.spans[2].content, " 1-20/100 ");
    assert_eq!(line.spans[3].content, " 0% ");
    assert_eq!(line.spans[4].content, " ? help ");
    assert_eq!(line_string(&line).chars().count(), 60);
    assert_eq!(line.style.bg, Some(Color::DarkGray));
}

#[test]
fn status_bar_padding_counts_display_columns() {
    let line = status_bar("\u{6587}.md", 0, 1, 1, 40, None);
    // " 文.md " takes 7 columns (the wide character two), " 1-1/1 " 7, " 100% " 6, " ? help " 8
    assert_eq!(line.spans[1].content, " ".repeat(40 - (7 + 7 + 6 + 8)));
}

#[test]
fn status_bar_while_searching_shows_the_query() {
    let line = status_bar("a.md", 0, 100, 20, 60, Some("needle"));
    assert_eq!(line_string(&line), " /needle\u{2588}");
    assert_eq!(line.spans[0].style.fg, Some(Color::Yellow));
}

#[test]
fn popup_fits_its_content_and_the_screen() {
    assert_eq!(
        popup_geometry(20, 3, 100, 40, 0),
        PopupGeometry { width: 26, height: 7, visible: 3, scroll: 0 }
    );
    assert_eq!(
        popup_geometry(200, 100, 80, 24, 0),
        PopupGeometry { width: 76, height: 22, visible: 18, scroll: 0 }
    );
}

#[test]
fn popup_scrolls_to_keep_the_selection_visible() {
    let g = popup_geometry(10, 100, 80, 24, 50);
    assert_eq!(g.visible, 18);
    assert_eq!(g.scroll, 33);
    assert!(g.scroll <= 50 && 50 < g.scroll + g.visible);
}

#[test]
fn toc_indents_by_level() {
    assert_eq!(indent_for(HeadingLevel::H1), 0);
    assert_eq!(indent_for(HeadingLevel::H2), 2);
    assert_eq!(indent_for(HeadingLevel::H6), 10);
    assert_eq!(level_style(HeadingLevel::H1), TextStyle::new().fg(Color::White).add_modifier(BOLD));
    assert_eq!(level_style(HeadingLevel::H4), TextStyle::new().fg(Color::Blue));
}

#[test]
fn toc_width_is_the_widest_indented_entry() {
    let hs = vec![heading(0, HeadingLevel::H1, "Intro"), heading(5, HeadingLevel::H3, "Details")];
    assert_eq!(toc_content_width(&hs), 4 + 7);
    assert_eq!(toc_content_width(&Vec::new()), 20);
}

#[test]
fn toc_lines_mark_the_selected_heading() {
    let hs = vec![
        heading(0, HeadingLevel::H1, "A"),
        heading(3, HeadingLevel::H2, "B"),
        heading(6, HeadingLevel::H2, "C"),
    ];
    let lines = toc_lines(&hs, 1, 1, 5);
    let texts: Vec<String> = lines.iter().map(line_string).collect();
    assert_eq!(texts, vec!["  \u{25b8} B", "    C"]);
    assert_eq!(lines[0].spans[1].style, TextStyle::new().fg(Color::Cyan).add_modifier(BOLD));
}

#[test]
fn link_lines_show_text_and_url() {
    let ls = vec![
        LinkInfo { url: "https://a".to_string(), text: "A".to_string() },
        LinkInfo { url: "b.md".to_string(), text: "Bee".to_string() },
    ];
    let texts: Vec<String> = link_lines(&ls, 0, 0, 10).iter().map(line_string).collect();
    assert_eq!(texts, vec!["\u{25b8} A  https://a", "  Bee  b.md"]);
    assert_eq!(links_content_width(&ls), 1 + 9 + 5);
    assert_eq!(links_content_width(&Vec::new()), 30);
}

#[test]
fn help_lists_every_binding_padded() {
    let bindings = help_bindings();
    assert_eq!(bindings.len(), 14);
    assert_eq!(bindings[6], ("Tab / Shift-Tab", "Next / prev heading"));
    let lines = help_lines();
    assert_eq!(lines.len(), 14);
    assert_eq!(line_string(&lines[0]), format!(" j / \u{2193}{}Scroll down ", " ".repeat(11)));
    assert_eq!(lines[0].spans[0].content.chars().count(), 17);
}
