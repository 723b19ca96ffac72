//! Markdown parsing and rendering.
//!
//! Flow: raw markdown text, then pulldown-cmark's events, then the renderer's
//! state machine, then styled lines with the headings and links found on the way.
pub mod blocks;
pub mod events;
pub mod images;
pub mod parser;
pub mod properties;
pub mod renderer;
pub mod theme;
