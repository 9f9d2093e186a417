//! An interactive, terminal-style shell over a fixed in-memory virtual
//! filesystem: path resolution, command dispatch, and the line-editor /
//! history / tab-completion state machine.

pub mod apps;
pub mod commands;
pub mod filesystem;
pub mod render;
pub mod shell;
pub mod text;
pub mod theme;
