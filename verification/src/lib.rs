//! Verified core of a terminal list/chat browser: the application state,
//! the key-press transition function that is the only place state changes,
//! and the pure state-to-frame rendering that a display loop draws.

pub mod laws;
pub mod render;
pub mod state;
pub mod text;
