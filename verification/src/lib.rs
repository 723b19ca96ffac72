//! A mellow terminal markdown viewer: the verified core.
//!
//! The library turns markdown into styled lines, keeps the scroll state of the
//! viewport, maps keys to actions and decides how the viewer reacts to each
//! key and action. Drawing on the terminal, reading files and watching them
//! are left to the program around it.
pub mod action;
pub mod app;
pub mod config;
pub mod event;
pub mod input;
pub mod markdown;
pub mod style;
pub mod strings;
pub mod text;
pub mod ui;
