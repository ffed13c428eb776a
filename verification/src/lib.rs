//! A chat-platform automation bot core: event dispatch, authorization
//! policy, fenced code extraction, remote-execution request building,
//! result rendering, and idempotent button-menu reconciliation.
//!
//! All decision logic lives here as verified functions over plain values;
//! network and platform I/O is performed by the surrounding application.

pub mod config;
pub mod extract;
pub mod menu;
pub mod play;
pub mod policy;
pub mod render;
pub mod router;
pub mod text;
