use melo::app::{App, BuildError, Effect, Mode};
use melo::event::{mouse_scroll, AppEvent};
use melo::input::{KeyCode, KeyPress, NO_MODIFIERS, SHIFT};
use melo::markdown::renderer::ImageSet;

const VH: u16 = 10;

fn app_with(content: &str) -> App {
    App::builder()
        .content(content.to_string(), "(stdin)".to_string())
        .build(None, &ImageSet::empty())
        .unwrap()
}

fn file_app(path: &str, content: &str) -> App {
    App::builder().file(path.to_string()).build(Some(content.to_string()), &ImageSet::empty()).unwrap()
}

fn press(app: &mut App, code: KeyCode) -> Effect {
    app.handle_key(KeyPress { code, modifiers: NO_MODIFIERS }, VH)
}

fn ch(app: &mut App, c: char) -> Effect {
    press(app, KeyCode::Char(c))
}

fn long_doc(n: usize) -> String {
    (0..n).map(|i| format!("line {}", i)).collect::<Vec<_>>().join("\n\n")
}

#[test]
fn build_without_input_fails() {
    let r = App::builder().build(None, &ImageSet::empty());
    assert!(matches!(r, Err(BuildError::MissingInput)));
}

#[test]
fn build_with_unread_file_fails() {
    let r = App::builder().file("missing.md".to_string()).build(None, &ImageSet::empty());
    assert!(matches!(r, Err(BuildError::FileNotRead)));
}

#[test]
fn file_wins_over_content() {
    let app = App::builder()
        .content("# From content".to_string(), "(stdin)".to_string())
        .file("doc.md".to_string())
        .build(Some("# From file".to_string()), &ImageSet::empty())
        .unwrap();
    assert_eq!(app.display_title(), "doc.md \u{2014} From file");
    assert_eq!(app.file_path, Some("doc.md".to_string()));
}

#[test]
fn built_app_starts_in_normal_mode_at_the_top() {
    let app = app_with(&long_doc(5));
    assert_eq!(app.mode(), Mode::Normal);
    assert_eq!(app.viewport.scroll_offset(), 0);
    assert_eq!(app.viewport.content_height(), 9);
    assert!(!app.should_quit());
    assert_eq!(app.back_depth(), 0);
    assert_eq!(app.file_path, None);
}

#[test]
fn title_joins_name_and_first_heading() {
    assert_eq!(app_with("# Hello\n\nbody").display_title(), "(stdin) \u{2014} Hello");
    assert_eq!(app_with("no heading").display_title(), "(stdin)");
}

#[test]
fn q_quits() {
    let mut app = app_with("text");
    assert_eq!(ch(&mut app, 'q'), Effect::NoOp);
    assert!(app.should_quit());
}

#[test]
fn scrolling_keys_move_the_viewport() {
    let mut app = app_with(&long_doc(50));
    ch(&mut app, 'j');
    ch(&mut app, 'j');
    assert_eq!(app.viewport.scroll_offset(), 2);
    ch(&mut app, 'k');
    assert_eq!(app.viewport.scroll_offset(), 1);
    press(&mut app, KeyCode::PageDown);
    assert_eq!(app.viewport.scroll_offset(), 6);
    app.handle_key(KeyPress { code: KeyCode::Char('G'), modifiers: SHIFT }, VH);
    assert_eq!(app.viewport.scroll_offset() as usize, app.viewport.content_height() - VH as usize);
    ch(&mut app, 'g');
    assert_eq!(app.viewport.scroll_offset(), 0);
}

#[test]
fn unbound_key_changes_nothing() {
    let mut app = app_with(&long_doc(3));
    assert_eq!(ch(&mut app, 'x'), Effect::NoOp);
    assert_eq!(app.mode(), Mode::Normal);
    assert_eq!(app.viewport.scroll_offset(), 0);
}

#[test]
fn mouse_wheel_scrolls_three_lines() {
    let mut app = app_with(&long_doc(50));
    app.handle_event(mouse_scroll(false), VH);
    assert_eq!(app.viewport.scroll_offset(), 3);
    app.handle_event(mouse_scroll(true), VH);
    assert_eq!(app.viewport.scroll_offset(), 0);
}

#[test]
fn resize_changes_nothing() {
    let mut app = app_with(&long_doc(5));
    ch(&mut app, 'j');
    assert_eq!(app.handle_event(AppEvent::Resize(100, 40), VH), Effect::NoOp);
    assert_eq!(app.viewport.scroll_offset(), 1);
}

#[test]
fn prepare_frame_measures_and_clamps() {
    let mut app = app_with(&long_doc(5));
    app.viewport.scroll_to_line(40);
    let vh = app.prepare_frame(80, 7);
    assert_eq!(vh, 4);
    assert_eq!(app.viewport.content_height(), 9);
    assert_eq!(app.viewport.scroll_offset(), 5);
    assert_eq!(app.prepare_frame(1, 2), 0);
    assert_eq!(app.viewport.content_height(), 0);
    assert_eq!(app.viewport.scroll_offset(), 0);
}

#[test]
fn search_finds_lines_ignoring_case() {
    let mut app = app_with("Foo\n\nbar\n\nFOO");
    ch(&mut app, '/');
    assert!(app.is_searching());
    for c in "fox".chars() {
        ch(&mut app, c);
    }
    press(&mut app, KeyCode::Backspace);
    ch(&mut app, 'o');
    assert_eq!(app.search_query(), "foo");
    press(&mut app, KeyCode::Enter);
    assert!(!app.is_searching());
    assert_eq!(app.search_matches(), &vec![0usize, 4]);
    assert_eq!(app.search_index(), 0);
    assert_eq!(app.viewport.scroll_offset(), 0);
    ch(&mut app, 'n');
    assert_eq!(app.search_index(), 1);
    assert_eq!(app.viewport.scroll_offset(), 4);
    ch(&mut app, 'n');
    assert_eq!(app.search_index(), 0);
    assert_eq!(app.viewport.scroll_offset(), 0);
    app.handle_key(KeyPress { code: KeyCode::Char('N'), modifiers: SHIFT }, VH);
    assert_eq!(app.search_index(), 1);
    assert_eq!(app.viewport.scroll_offset(), 4);
}

#[test]
fn search_next_then_prev_returns_to_the_same_match() {
    let mut app = app_with("a\n\nb a\n\nc\n\na");
    ch(&mut app, '/');
    ch(&mut app, 'a');
    press(&mut app, KeyCode::Enter);
    assert_eq!(app.search_matches().len(), 3);
    ch(&mut app, 'n');
    let at = app.search_index();
    ch(&mut app, 'n');
    ch(&mut app, 'N');
    assert_eq!(app.search_index(), at);
}

#[test]
fn search_without_hits_keeps_position() {
    let mut app = app_with(&long_doc(20));
    ch(&mut app, 'j');
    ch(&mut app, '/');
    ch(&mut app, 'z');
    press(&mut app, KeyCode::Enter);
    assert!(app.search_matches().is_empty());
    assert_eq!(app.viewport.scroll_offset(), 1);
    ch(&mut app, 'n');
    assert_eq!(app.viewport.scroll_offset(), 1);
}

#[test]
fn escape_leaves_search_without_searching() {
    let mut app = app_with("abc");
    ch(&mut app, '/');
    ch(&mut app, 'a');
    press(&mut app, KeyCode::Esc);
    assert_eq!(app.mode(), Mode::Normal);
    assert!(app.search_matches().is_empty());
    assert!(!app.should_quit());
}

#[test]
fn empty_query_finds_nothing() {
    let mut app = app_with("abc");
    ch(&mut app, '/');
    press(&mut app, KeyCode::Enter);
    assert!(app.search_matches().is_empty());
}

#[test]
fn help_toggles_and_any_key_closes_it() {
    let mut app = app_with(&long_doc(5));
    ch(&mut app, '?');
    assert!(app.show_help());
    assert_eq!(ch(&mut app, 'j'), Effect::NoOp);
    assert!(!app.show_help());
    assert_eq!(app.viewport.scroll_offset(), 0);
    assert!(!app.should_quit());
}

#[test]
fn tab_moves_between_headings() {
    let mut app = app_with("# A\n\ntext\n\n# B\n\ntext\n\n# C");
    assert_eq!(app.document.headings.iter().map(|h| h.line).collect::<Vec<_>>(), vec![0, 4, 8]);
    press(&mut app, KeyCode::Tab);
    assert_eq!(app.viewport.scroll_offset(), 4);
    press(&mut app, KeyCode::Tab);
    assert_eq!(app.viewport.scroll_offset(), 8);
    press(&mut app, KeyCode::Tab);
    assert_eq!(app.viewport.scroll_offset(), 8);
    app.handle_key(KeyPress { code: KeyCode::BackTab, modifiers: SHIFT }, VH);
    assert_eq!(app.viewport.scroll_offset(), 4);
    app.handle_key(KeyPress { code: KeyCode::BackTab, modifiers: SHIFT }, VH);
    assert_eq!(app.viewport.scroll_offset(), 0);
    app.handle_key(KeyPress { code: KeyCode::BackTab, modifiers: SHIFT }, VH);
    assert_eq!(app.viewport.scroll_offset(), 0);
}

#[test]
fn table_of_contents_selects_and_jumps() {
    let mut app = app_with("# A\n\ntext\n\n# B\n\ntext\n\n# C");
    ch(&mut app, 't');
    assert!(app.show_toc());
    assert_eq!(app.toc_index, 0);
    ch(&mut app, 'j');
    assert_eq!(app.toc_index, 1);
    ch(&mut app, 'k');
    ch(&mut app, 'k');
    assert_eq!(app.toc_index, 2);
    ch(&mut app, 'j');
    assert_eq!(app.toc_index, 0);
    ch(&mut app, 'k');
    press(&mut app, KeyCode::Enter);
    assert!(!app.show_toc());
    assert_eq!(app.viewport.scroll_offset(), 8);
    ch(&mut app, 't');
    ch(&mut app, 't');
    assert_eq!(app.mode(), Mode::Normal);
}

#[test]
fn link_picker_opens_external_links() {
    let mut app = app_with("[web](https://x.org/a.md)\n\n[doc](other.md)");
    ch(&mut app, 'o');
    assert!(app.show_link_picker());
    let e = press(&mut app, KeyCode::Enter);
    assert_eq!(e, Effect::OpenExternal("https://x.org/a.md".to_string()));
    assert_eq!(app.mode(), Mode::Normal);
}

#[test]
fn link_picker_follows_local_markdown() {
    let mut app = app_with("[web](https://x.org)\n\n[doc](other.md)\n\n[notes](n.markdown)");
    ch(&mut app, 'o');
    ch(&mut app, 'j');
    assert_eq!(press(&mut app, KeyCode::Enter), Effect::FollowLink("other.md".to_string()));
    ch(&mut app, 'o');
    press(&mut app, KeyCode::Up);
    assert_eq!(app.link_index, 2);
    assert_eq!(press(&mut app, KeyCode::Enter), Effect::FollowLink("n.markdown".to_string()));
}

#[test]
fn link_picker_on_a_document_without_links_does_nothing() {
    let mut app = app_with("plain");
    ch(&mut app, 'o');
    ch(&mut app, 'j');
    assert_eq!(press(&mut app, KeyCode::Enter), Effect::NoOp);
    assert!(app.show_link_picker());
    press(&mut app, KeyCode::Esc);
    assert_eq!(app.mode(), Mode::Normal);
}

#[test]
fn following_a_link_then_going_back_restores_the_file() {
    let text = long_doc(30);
    let mut app = file_app("dir/a.md", &text);
    ch(&mut app, 'j');
    ch(&mut app, 'j');
    app.enter_document("dir/other.md".to_string(), "# Other", &ImageSet::empty());
    assert_eq!(app.back_depth(), 1);
    assert_eq!(app.viewport.scroll_offset(), 0);
    assert_eq!(app.display_title(), "dir/other.md \u{2014} Other");
    let e = press(&mut app, KeyCode::Backspace);
    assert_eq!(e, Effect::Reopen("dir/a.md".to_string(), 2));
    assert_eq!(app.back_depth(), 0);
    app.reopen("dir/a.md".to_string(), &text, 2, &ImageSet::empty());
    assert_eq!(app.viewport.scroll_offset(), 2);
    assert_eq!(app.file_path, Some("dir/a.md".to_string()));
    assert_eq!(app.display_title(), "dir/a.md");
}

#[test]
fn going_back_with_nothing_to_go_back_to_does_nothing() {
    let mut app = file_app("a.md", "text");
    assert_eq!(press(&mut app, KeyCode::Backspace), Effect::NoOp);
    assert_eq!(app.back_depth(), 0);
}

#[test]
fn content_from_stdin_leaves_nothing_to_go_back_to() {
    let mut app = app_with("text");
    app.enter_document("x.md".to_string(), "other", &ImageSet::empty());
    assert_eq!(app.back_depth(), 0);
    assert_eq!(app.file_path, Some("x.md".to_string()));
}

#[test]
fn reload_keeps_the_scroll_position() {
    let mut app = file_app("a.md", &long_doc(30));
    ch(&mut app, 'j');
    ch(&mut app, 'j');
    ch(&mut app, 'j');
    app.reload("# New\n\nbody", &ImageSet::empty());
    assert_eq!(app.viewport.scroll_offset(), 3);
    assert_eq!(app.viewport.content_height(), 3);
    assert_eq!(app.display_title(), "a.md \u{2014} New");
}

#[test]
fn link_target_lies_next_to_the_current_file() {
    assert_eq!(file_app("dir/a.md", "x").link_target("other.md"), "dir/other.md");
    assert_eq!(file_app("dir/a.md", "x").link_target("sub/b.md"), "dir/sub/b.md");
    assert_eq!(file_app("a.md", "x").link_target("other.md"), "other.md");
    assert_eq!(file_app("dir/a.md", "x").link_target("/abs/c.md"), "/abs/c.md");
}

#[test]
fn link_target_without_a_file_is_the_link() {
    assert_eq!(app_with("x").link_target("other.md"), "other.md");
}

#[test]
fn bottom_of_a_long_document_is_its_last_page() {
    let mut app = app_with("x");
    app.viewport = melo::ui::viewport::Viewport::new(70000);
    app.handle_key(KeyPress { code: KeyCode::End, modifiers: NO_MODIFIERS }, VH);
    assert_eq!(app.viewport.scroll_offset(), u16::MAX);
    app.viewport = melo::ui::viewport::Viewport::new(40000);
    app.handle_key(KeyPress { code: KeyCode::End, modifiers: NO_MODIFIERS }, VH);
    assert_eq!(app.viewport.scroll_offset(), 40000 - VH);
}
