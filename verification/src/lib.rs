//! A keyboard-driven launcher for saved shell commands: the verified core.
//!
//! The library holds the launcher's state and rules: which entries match the
//! search text, how the selection moves, what each key does, how theme colors
//! are read, where the configuration file lives, and what the table and the
//! notes popup show. Terminal drawing, files and processes are left to the
//! program that uses it.
pub mod text;
pub mod config;
pub mod theme;
pub mod app;
pub mod event;
pub mod cli;
pub mod ui;
