//! User configuration.
use vstd::prelude::*;

verus! {

/// User configuration, as read from `~/.config/melo/config.toml`. Every field is
/// optional; missing values fall back to defaults, and command-line flags take
/// precedence over them.
#[derive(Debug, Clone, PartialEq, Eq)]
pub struct Config {
    pub theme: Option<String>,
    pub mouse_scroll_lines: Option<u16>,
    pub watch: Option<bool>,
}

impl Default for Config {
    /// Nothing configured.
    fn default() -> (r: Config)
        ensures
            r.theme is None,
            r.mouse_scroll_lines is None,
            r.watch is None,
    {
        Config { theme: None, mouse_scroll_lines: None, watch: None }
    }
}

} // verus!
