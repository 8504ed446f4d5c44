//! Zero-trust sessions: what has to stand behind a privileged action.

pub mod engine;
pub mod events;
pub mod state;
