//! Core of a client for a live-streaming "open platform" push service:
//! the binary frame codec, the signed REST request construction, the
//! event dispatcher, the session state machine and the session manager.
//!
//! Network and file I/O live outside this crate; everything here is pure
//! logic over plain values, verified against the contracts on each item.

pub mod auth;
pub mod config;
pub mod digest;
pub mod errors;
pub mod events;
pub mod intent;
pub mod manager;
pub mod models;
pub mod outcome;
pub mod packet;
pub mod render;
pub mod rest;
pub mod session;
pub mod sign;
pub mod sse;
pub mod text;
pub mod zhipu;
