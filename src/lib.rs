//! A small terminal engine for DOS/BBS-era ANSI art: a CP437 cell screen, an
//! ANSI parser, a scrollback history with mouse and keyboard navigation, a
//! coordinator that saves to history what the parser is about to destroy,
//! and a rasterizer that turns the visible cells into an RGBA image.
pub mod cp437;
pub mod font;
pub mod options;
pub mod pacing;
pub mod parser;
pub mod render;
pub mod screen;
pub mod scrollback;
pub mod terminal;
