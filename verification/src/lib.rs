//! Realtime synchronisation core of the Streamline backend: the per-user
//! connection registry, change-event fan-out with self-echo suppression, the
//! connection handshake and the session lifecycle.

pub mod identity;
pub mod json;
pub mod message;
pub mod frames;
pub mod channel;
pub mod registry;
pub mod session;
pub mod lifecycle;
pub mod models;
pub mod errors;
pub mod auth;
