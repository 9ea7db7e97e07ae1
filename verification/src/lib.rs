//! A prioritised to-do list for the terminal: the task store, its text file
//! format, the interactive session's state machine and the screen it draws.

pub mod app;
pub mod keybinds;
pub mod palette;
pub mod render;
pub mod screen;
pub mod storage;
pub mod target;
pub mod task;
pub mod text;
