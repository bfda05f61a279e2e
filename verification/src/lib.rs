//! Card lookup: resolve a title query to one stored card, and render that
//! card through a per-game script into a structured document.

pub mod commands;
pub mod document;
pub mod error;
pub mod games;
pub mod record;
pub mod resolver;
pub mod scripting;
pub mod store;
pub mod text;
