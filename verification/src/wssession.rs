//! The streaming session: its kind, its guard and its creation.

pub mod clock;
pub mod json;
pub mod request;
pub mod session;
pub mod session_manager;
pub mod stream;
