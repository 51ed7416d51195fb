//! Flatbed scan to searchable PDF: the decision-making core of a terminal
//! scanning application, verified with Verus.

pub mod backend;
pub mod calls;
pub mod check;
pub mod cli;
pub mod config;
pub mod log;
pub mod meaning;
pub mod notation;
pub mod notify;
pub mod path;
pub mod probe;
pub mod session;
pub mod text;
pub mod tui;
