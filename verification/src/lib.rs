//! Core of a windowed, scrollable editor view: a line cache kept in sync
//! with an out-of-process text engine by incremental patches, integer
//! scroll geometry that maps screen pixels to document lines, and a
//! translator from key, mouse and menu events to abstract engine commands.

pub mod commands;
pub mod edit_view;
pub mod keymap;
pub mod linecache;
