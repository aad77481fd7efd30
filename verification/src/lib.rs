//! Core logic of a Mastodon client: accounts and sessions, the status and
//! notification cache, timeline and feature state machines, on-disk cache
//! layout, and the application-level message handling.

pub mod app;
pub mod cache;
pub mod client;
pub mod config;
pub mod entities;
pub mod features;
pub mod persistence;
pub mod render;
pub mod store;
pub mod text;
