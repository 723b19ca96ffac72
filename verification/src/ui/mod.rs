//! What the screen shows, computed: the scrolling viewport, the status bar and the popups.
pub mod layout;
pub mod viewport;
