use melo::action::Action;
use melo::event::{mouse_scroll, AppEvent};
use melo::input::{InputMap, KeyCode, KeyPress, ALT, CONTROL, NO_MODIFIERS, SHIFT};

fn key(code: KeyCode, modifiers: u8) -> KeyPress {
    KeyPress { code, modifiers }
}

#[test]
fn vim_bindings_resolve() {
    let m = InputMap::vim();
    assert_eq!(m.resolve(&key(KeyCode::Char('q'), NO_MODIFIERS)), Some(Action::Quit));
    assert_eq!(m.resolve(&key(KeyCode::Esc, NO_MODIFIERS)), Some(Action::Quit));
    assert_eq!(m.resolve(&key(KeyCode::Char('c'), CONTROL)), Some(Action::Quit));
    assert_eq!(m.resolve(&key(KeyCode::Char('j'), NO_MODIFIERS)), Some(Action::ScrollDown(1)));
    assert_eq!(m.resolve(&key(KeyCode::Up, NO_MODIFIERS)), Some(Action::ScrollUp(1)));
    assert_eq!(m.resolve(&key(KeyCode::Char('d'), CONTROL)), Some(Action::PageDown));
    assert_eq!(m.resolve(&key(KeyCode::PageUp, NO_MODIFIERS)), Some(Action::PageUp));
    assert_eq!(m.resolve(&key(KeyCode::Char('g'), NO_MODIFIERS)), Some(Action::Top));
    assert_eq!(m.resolve(&key(KeyCode::Char('G'), SHIFT)), Some(Action::Bottom));
    assert_eq!(m.resolve(&key(KeyCode::End, NO_MODIFIERS)), Some(Action::Bottom));
    assert_eq!(m.resolve(&key(KeyCode::Char('?'), SHIFT)), Some(Action::ToggleHelp));
    assert_eq!(m.resolve(&key(KeyCode::Char('/'), NO_MODIFIERS)), Some(Action::EnterSearch));
    assert_eq!(m.resolve(&key(KeyCode::Char('n'), NO_MODIFIERS)), Some(Action::SearchNext));
    assert_eq!(m.resolve(&key(KeyCode::Char('N'), SHIFT)), Some(Action::SearchPrev));
}

#[test]
fn documented_navigation_keys_resolve() {
    let m = InputMap::vim();
    assert_eq!(m.resolve(&key(KeyCode::Tab, NO_MODIFIERS)), Some(Action::NextHeading));
    assert_eq!(m.resolve(&key(KeyCode::BackTab, SHIFT)), Some(Action::PrevHeading));
    assert_eq!(m.resolve(&key(KeyCode::Char('t'), NO_MODIFIERS)), Some(Action::ToggleToc));
    assert_eq!(m.resolve(&key(KeyCode::Char('o'), NO_MODIFIERS)), Some(Action::ToggleLinkPicker));
    assert_eq!(m.resolve(&key(KeyCode::Backspace, NO_MODIFIERS)), Some(Action::GoBack));
}

#[test]
fn unbound_keys_resolve_to_nothing() {
    let m = InputMap::vim();
    assert_eq!(m.resolve(&key(KeyCode::Char('x'), NO_MODIFIERS)), None);
    assert_eq!(m.resolve(&key(KeyCode::Char('q'), CONTROL)), None);
    assert_eq!(m.resolve(&key(KeyCode::Other, NO_MODIFIERS)), None);
}

#[test]
fn bind_then_resolve_gives_the_action() {
    let m = InputMap::builder().bind(KeyCode::Char('z'), ALT, Action::Top).build();
    assert_eq!(m.resolve(&key(KeyCode::Char('z'), ALT)), Some(Action::Top));
}

#[test]
fn later_binding_wins() {
    let m = InputMap::builder()
        .bind(KeyCode::Char('x'), NO_MODIFIERS, Action::Top)
        .bind(KeyCode::Char('x'), NO_MODIFIERS, Action::Bottom)
        .build();
    assert_eq!(m.resolve(&key(KeyCode::Char('x'), NO_MODIFIERS)), Some(Action::Bottom));
}

#[test]
fn bind_keeps_other_keys() {
    let m = InputMap::builder()
        .bind(KeyCode::Char('a'), NO_MODIFIERS, Action::Top)
        .bind(KeyCode::Char('b'), NO_MODIFIERS, Action::Bottom)
        .build();
    assert_eq!(m.resolve(&key(KeyCode::Char('a'), NO_MODIFIERS)), Some(Action::Top));
}

#[test]
fn unbind_removes_only_that_key() {
    let m = InputMap::builder()
        .bind(KeyCode::Char('a'), NO_MODIFIERS, Action::Top)
        .bind(KeyCode::Char('a'), NO_MODIFIERS, Action::Quit)
        .bind(KeyCode::Char('b'), NO_MODIFIERS, Action::Bottom)
        .unbind(KeyCode::Char('a'), NO_MODIFIERS)
        .build();
    assert_eq!(m.resolve(&key(KeyCode::Char('a'), NO_MODIFIERS)), None);
    assert_eq!(m.resolve(&key(KeyCode::Char('b'), NO_MODIFIERS)), Some(Action::Bottom));
}

#[test]
fn empty_builder_binds_nothing() {
    let m = InputMap::builder().build();
    assert_eq!(m.resolve(&key(KeyCode::Char('q'), NO_MODIFIERS)), None);
}

#[test]
fn mouse_wheel_gives_three_line_scrolls() {
    assert_eq!(mouse_scroll(true), AppEvent::Scroll(Action::ScrollUp(3)));
    assert_eq!(mouse_scroll(false), AppEvent::Scroll(Action::ScrollDown(3)));
}
