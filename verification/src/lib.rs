//! Shared-task synchronization core: per-organization activity ordering,
//! broadcast fan-out, the WebSocket session state machine, and the
//! client-side mirror with exactly-once event application.

pub mod api;
pub mod auth;
pub mod broker;
pub mod client;
pub mod config;
pub mod entity;
pub mod errors;
pub mod event;
pub mod identity;
pub mod monitor;
pub mod project;
pub mod session;
pub mod store;
pub mod task;
pub mod token;
pub mod types;

pub use task::ensure_text_size;
