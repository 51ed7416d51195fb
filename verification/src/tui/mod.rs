//! The terminal interface: what it shows and how it answers keys and mouse.

pub mod app;
pub mod cropping;
pub mod dialogs;
pub mod draw;
pub mod duties;
pub mod editor;
pub mod input;
pub mod laws;
pub mod model;
pub mod overlays;
pub mod preview;
pub mod showing;
pub mod theme;
pub mod ui;
