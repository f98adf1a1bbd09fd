//! The terminal interface of the command-line client.

pub mod commands;
pub mod events;
pub mod input;
pub mod keys;
pub mod notification;
pub mod outcomes;
pub mod plan;
pub mod render;
pub mod replies;
pub mod session;
pub mod state;
