//! The terminal interface of the interactive client.

pub mod commands;
pub mod input;
pub mod plan;
pub mod render;
pub mod state;
