//! Display, input and rendering core of a small text-mode kernel: a window
//! compositor over an 80x25 character grid, a line-editing terminal with a
//! command interpreter, the keyboard input path and a wireframe renderer.
pub mod screen;
pub mod window_manager;
pub mod command;
pub mod terminal;
pub mod config;
pub mod interrupts;
pub mod graphics;
pub mod keyboard;
pub mod session;
