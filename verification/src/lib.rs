//! The decisions, settings file format, pixel blending and layouts of a
//! mouse-and-key highlighter overlay.
pub mod config;
pub mod effects;
pub mod keys;
pub mod layering;
pub mod layout;
pub mod panel;
pub mod pixel;
pub mod reload;
pub mod settings;
pub mod text;
pub mod window;
