//! Window-management and input-routing core of a small Wayland compositor.

pub mod config;
pub mod cursor;
pub mod geometry;
pub mod input;
pub mod json;
pub mod keybinding;
pub mod keysym;
pub mod output;
pub mod request;
pub mod server;
pub mod text;
pub mod view;
