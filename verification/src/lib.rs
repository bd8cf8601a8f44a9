//! Verified core of a small desktop client for a chat-completion service:
//! the request that is sent, the reply that is read back, the stored
//! settings and prompt library, and the little decisions the window makes.

pub mod text;
pub mod json;
pub mod settings;
pub mod window;
pub mod chat;
pub mod clock;
