//! The core of a terminal audit viewer for a chat engine.
//!
//! The library holds everything the viewer decides or computes: how engine
//! messages are answered, how query replies become rows and log lines, how
//! keys move between tabs, and what the screen shows. Sockets, the clock tick
//! and the terminal itself belong to the program around it.
pub mod text;
pub mod json;
pub mod clock;
pub mod model;
pub mod engine;
pub mod refresh;
pub mod tui;
pub mod layout;
pub mod draw;
