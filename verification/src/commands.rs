//! What the chat surface can ask for.

pub mod lookup;
