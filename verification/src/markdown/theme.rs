use vstd::prelude::*;
use crate::style::{Color, TextStyle, BOLD, UNDERLINED};

verus! {

/// Visual styles for each markdown element. The renderer reads these when it turns
/// markdown events into styled spans. Code blocks are highlighted with syntect's
/// "base16-ocean.dark" theme, which these fields do not control.
#[derive(Debug, Clone, Copy, PartialEq, Eq, Structural)]
pub struct Theme {
    pub h1: TextStyle,
    pub h2: TextStyle,
    pub h3: TextStyle,
    pub h4: TextStyle,
    pub h5: TextStyle,
    pub h6: TextStyle,
    /// Backtick-wrapped inline code, not fenced code blocks.
    pub code_inline: TextStyle,
    pub link: TextStyle,
    pub blockquote: TextStyle,
    pub table_header: TextStyle,
    pub table_border: TextStyle,
    pub hr: TextStyle,
}

pub open spec fn fg_style(c: Color, m: u16) -> TextStyle {
    TextStyle { fg: Some(c), bg: None, add_modifier: m, sub_modifier: 0 }
}

/// The default theme.
pub open spec fn default_theme() -> Theme {
    Theme {
        h1: TextStyle { fg: Some(Color::White), bg: Some(Color::Rgb(0, 135, 175)), add_modifier: BOLD, sub_modifier: 0 },
        h2: fg_style(Color::Yellow, BOLD),
        h3: fg_style(Color::Green, BOLD),
        h4: fg_style(Color::Blue, BOLD),
        h5: fg_style(Color::Magenta, BOLD),
        h6: fg_style(Color::DarkGray, BOLD),
        code_inline: TextStyle { fg: Some(Color::LightYellow), bg: Some(Color::Rgb(50, 50, 50)), add_modifier: 0, sub_modifier: 0 },
        link: fg_style(Color::Cyan, UNDERLINED),
        blockquote: fg_style(Color::Rgb(150, 150, 150), 0),
        table_header: fg_style(Color::Cyan, BOLD),
        table_border: fg_style(Color::DarkGray, 0),
        hr: fg_style(Color::DarkGray, 0),
    }
}

fn fg_bold(c: Color) -> (r: TextStyle)
    ensures
        r == fg_style(c, BOLD),
{
    TextStyle { fg: Some(c), bg: None, add_modifier: BOLD, sub_modifier: 0 }
}

impl Default for Theme {
    fn default() -> (r: Theme)
        ensures
            r == default_theme(),
    {
        Theme {
            h1: TextStyle { fg: Some(Color::White), bg: Some(Color::Rgb(0, 135, 175)), add_modifier: BOLD, sub_modifier: 0 },
            h2: fg_bold(Color::Yellow),
            h3: fg_bold(Color::Green),
            h4: fg_bold(Color::Blue),
            h5: fg_bold(Color::Magenta),
            h6: fg_bold(Color::DarkGray),
            code_inline: TextStyle { fg: Some(Color::LightYellow), bg: Some(Color::Rgb(50, 50, 50)), add_modifier: 0, sub_modifier: 0 },
            link: TextStyle { fg: Some(Color::Cyan), bg: None, add_modifier: UNDERLINED, sub_modifier: 0 },
            blockquote: TextStyle { fg: Some(Color::Rgb(150, 150, 150)), bg: None, add_modifier: 0, sub_modifier: 0 },
            table_header: fg_bold(Color::Cyan),
            table_border: TextStyle { fg: Some(Color::DarkGray), bg: None, add_modifier: 0, sub_modifier: 0 },
            hr: TextStyle { fg: Some(Color::DarkGray), bg: None, add_modifier: 0, sub_modifier: 0 },
        }
    }
}

} // verus!
