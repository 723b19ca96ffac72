use melo::text::{StyledLine, StyledText};
use melo::ui::viewport::Viewport;

#[test]
fn new_viewport_starts_at_top() {
    let v = Viewport::new(42);
    assert_eq!(v.scroll_offset(), 0);
    assert_eq!(v.content_height(), 42);
}

#[test]
fn scroll_up_saturates_at_zero() {
    let mut v = Viewport::new(100);
    v.scroll_down(5);
    v.scroll_up(3);
    assert_eq!(v.scroll_offset(), 2);
    v.scroll_up(10);
    assert_eq!(v.scroll_offset(), 0);
}

#[test]
fn scroll_down_saturates_at_u16_max() {
    let mut v = Viewport::new(100);
    v.scroll_to_line(u16::MAX - 1);
    v.scroll_down(5);
    assert_eq!(v.scroll_offset(), u16::MAX);
}

#[test]
fn page_moves_by_half_the_viewport() {
    let mut v = Viewport::new(100);
    v.page_down(21);
    assert_eq!(v.scroll_offset(), 10);
    v.page_down(21);
    assert_eq!(v.scroll_offset(), 20);
    v.page_up(21);
    assert_eq!(v.scroll_offset(), 10);
}

#[test]
fn bottom_is_content_less_viewport() {
    let mut v = Viewport::new(100);
    v.scroll_to_bottom(30);
    assert_eq!(v.scroll_offset(), 70);
    v.scroll_to_top();
    assert_eq!(v.scroll_offset(), 0);
}

#[test]
fn bottom_of_short_content_is_top() {
    let mut v = Viewport::new(5);
    v.scroll_to_bottom(30);
    assert_eq!(v.scroll_offset(), 0);
}

#[test]
fn clamp_pulls_back_past_the_bottom() {
    let mut v = Viewport::new(50);
    v.scroll_to_line(45);
    v.clamp_scroll(20);
    assert_eq!(v.scroll_offset(), 30);
    // clamping again changes nothing
    v.clamp_scroll(20);
    assert_eq!(v.scroll_offset(), 30);
}

#[test]
fn clamp_keeps_a_position_in_range() {
    let mut v = Viewport::new(50);
    v.scroll_to_line(12);
    v.clamp_scroll(20);
    assert_eq!(v.scroll_offset(), 12);
}

#[test]
fn clamp_of_content_that_fits_goes_to_top() {
    let mut v = Viewport::new(10);
    v.scroll_to_line(7);
    v.clamp_scroll(24);
    assert_eq!(v.scroll_offset(), 0);
}

#[test]
fn down_then_up_returns() {
    let mut v = Viewport::new(1000);
    v.scroll_to_line(17);
    v.scroll_down(40);
    v.scroll_up(40);
    assert_eq!(v.scroll_offset(), 17);
}

#[test]
fn up_then_down_returns_when_not_at_top() {
    let mut v = Viewport::new(1000);
    v.scroll_to_line(60);
    v.scroll_up(40);
    v.scroll_down(40);
    assert_eq!(v.scroll_offset(), 60);
}

#[test]
fn bottom_is_already_clamped() {
    let mut v = Viewport::new(80);
    v.scroll_to_bottom(25);
    let at = v.scroll_offset();
    v.clamp_scroll(25);
    assert_eq!(v.scroll_offset(), at);
}

#[test]
fn wrapped_height_counts_wrapped_rows() {
    let text = StyledText::from_lines(vec![
        StyledLine::styled(&"aaaa bbbb cccc".chars().collect::<Vec<char>>(), melo::style::TextStyle::new()),
        StyledLine::empty(),
    ]);
    let mut v = Viewport::new(0);
    v.scroll_to_line(3);
    v.update_wrapped_height(&text, 80);
    assert_eq!(v.content_height(), 2);
    v.update_wrapped_height(&text, 5);
    assert_eq!(v.content_height(), 4);
    assert_eq!(v.scroll_offset(), 3);
    v.update_wrapped_height(&text, 0);
    assert_eq!(v.content_height(), 0);
}

#[test]
fn long_content_scrolls_to_its_end() {
    let mut v = Viewport::new(40000);
    v.scroll_to_bottom(10);
    assert_eq!(v.scroll_offset(), 39990);
    let mut v = Viewport::new(70000);
    v.scroll_to_bottom(10);
    assert_eq!(v.scroll_offset(), u16::MAX);
    v.scroll_to_line(1000);
    v.clamp_scroll(10);
    assert_eq!(v.scroll_offset(), 1000);
}

#[test]
fn scrolling_keeps_the_content_height() {
    let mut v = Viewport::new(123);
    v.scroll_down(50);
    v.page_down(20);
    v.scroll_to_bottom(20);
    v.clamp_scroll(20);
    v.page_up(20);
    v.scroll_up(7);
    v.scroll_to_line(500);
    v.scroll_to_top();
    assert_eq!(v.content_height(), 123);
}
