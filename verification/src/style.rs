use vstd::prelude::*;

verus! {

/// Terminal colors, as the terminal backend understands them.
#[derive(Debug, Clone, Copy, PartialEq, Eq, Structural)]
pub enum Color {
    Reset,
    Black,
    Red,
    Green,
    Yellow,
    Blue,
    Magenta,
    Cyan,
    Gray,
    DarkGray,
    LightRed,
    LightGreen,
    LightYellow,
    LightBlue,
    LightMagenta,
    LightCyan,
    White,
    Rgb(u8, u8, u8),
    Indexed(u8),
}

/// Text modifier bits.
pub const BOLD: u16 = 0x001;
pub const DIM: u16 = 0x002;
pub const ITALIC: u16 = 0x004;
pub const UNDERLINED: u16 = 0x008;
pub const SLOW_BLINK: u16 = 0x010;
pub const RAPID_BLINK: u16 = 0x020;
pub const REVERSED: u16 = 0x040;
pub const HIDDEN: u16 = 0x080;
pub const CROSSED_OUT: u16 = 0x100;

/// A text style: optional foreground and background colors, and the modifiers
/// to add and to remove when the style is applied on top of another.
#[derive(Debug, Clone, Copy, PartialEq, Eq, Structural)]
pub struct TextStyle {
    pub fg: Option<Color>,
    pub bg: Option<Color>,
    pub add_modifier: u16,
    pub sub_modifier: u16,
}

/// The style that changes nothing.
pub open spec fn plain_style() -> TextStyle {
    TextStyle { fg: None, bg: None, add_modifier: 0, sub_modifier: 0 }
}

/// `over` applied on top of `base`: colors that `over` sets win, its added
/// modifiers are added and its removed modifiers removed.
pub open spec fn patched(base: TextStyle, over: TextStyle) -> TextStyle {
    TextStyle {
        fg: if over.fg is Some { over.fg } else { base.fg },
        bg: if over.bg is Some { over.bg } else { base.bg },
        add_modifier: (base.add_modifier & !over.sub_modifier) | over.add_modifier,
        sub_modifier: (base.sub_modifier & !over.add_modifier) | over.sub_modifier,
    }
}

impl TextStyle {
    /// The style that changes nothing.
    pub fn new() -> (r: TextStyle)
        ensures
            r == plain_style(),
    {
        TextStyle { fg: None, bg: None, add_modifier: 0, sub_modifier: 0 }
    }

    /// Sets the foreground color.
    pub fn fg(self, c: Color) -> (r: TextStyle)
        ensures
            r == (TextStyle { fg: Some(c), ..self }),
    {
        TextStyle { fg: Some(c), ..self }
    }

    /// Sets the background color.
    pub fn bg(self, c: Color) -> (r: TextStyle)
        ensures
            r == (TextStyle { bg: Some(c), ..self }),
    {
        TextStyle { bg: Some(c), ..self }
    }

    /// Adds the modifiers `m`, and stops removing them.
    pub fn add_modifier(self, m: u16) -> (r: TextStyle)
        ensures
            r == (TextStyle {
                add_modifier: self.add_modifier | m,
                sub_modifier: self.sub_modifier & !m,
                ..self
            }),
    {
        TextStyle { add_modifier: self.add_modifier | m, sub_modifier: self.sub_modifier & !m, ..self }
    }

    /// `other` applied on top of this style.
    pub fn patch(self, other: TextStyle) -> (r: TextStyle)
        ensures
            r == patched(self, other),
    {
        TextStyle {
            fg: if other.fg.is_some() { other.fg } else { self.fg },
            bg: if other.bg.is_some() { other.bg } else { self.bg },
            add_modifier: (self.add_modifier & !other.sub_modifier) | other.add_modifier,
            sub_modifier: (self.sub_modifier & !other.add_modifier) | other.sub_modifier,
        }
    }
}

/// The plain style changes nothing, whether applied on top of a style or under it.
pub proof fn law_plain_style_is_identity(s: TextStyle)
    ensures
        patched(s, plain_style()) == s,
        patched(plain_style(), s) == s,
{
    let a = s.add_modifier;
    let b = s.sub_modifier;
    assert((a & !0u16) | 0u16 == a) by (bit_vector);
    assert((b & !0u16) | 0u16 == b) by (bit_vector);
    assert((0u16 & !b) | a == a) by (bit_vector);
    assert((0u16 & !a) | b == b) by (bit_vector);
}

} // verus!
