//! Terminal Markdown rendering with themes: the verified core of `readmetoo`.

pub mod text;

pub mod theme;
pub mod markdown;
pub mod ansi;
pub mod render_model;
pub mod renderer;
pub mod config;
pub mod error;
pub mod cli;
pub mod pager;
pub mod laws;
