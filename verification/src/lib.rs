//! Session lifecycle for the Tradier streaming API.
//!
//! A caller must obtain a short-lived session before opening a market or
//! account event stream, and only one session may be live at a time. This
//! crate holds the rules of that lifecycle: the guard that admits one session,
//! the request that provisions it, the reading of the reply, and the expiry
//! check. Performing the HTTP exchange is left to the caller.

pub mod config;
pub mod constants;
pub mod error;
pub mod wssession;
