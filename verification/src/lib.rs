//! Layout, focus routing and text editing for a small editor window.

pub mod canvas;
pub mod diagnostics;
pub mod editor;
pub mod engine;
pub mod geometry;
pub mod input;
pub mod interactive;
pub mod layout;
pub mod nav_bar;
pub mod scroll;
pub mod session;
pub mod shaping;
pub mod status_bar;
pub mod text_buffer;
