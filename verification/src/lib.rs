//! Sans-I/O core of a desktop client for a Gotify server.
//!
//! The crate holds the rules of the client: which messages count as missed
//! after a reconnect, how long to wait between connection attempts, how the
//! image of an application is looked up and cached, and what to do with each
//! frame and each failure of the stream. It performs no I/O itself: every
//! operation yields a description of the next thing to do, and is told what
//! came of it.

pub mod message;
pub mod delivery;
pub mod catch_up;
pub mod web;
pub mod text;
pub mod app_image;
pub mod backoff;
pub mod config;
pub mod stream;
pub mod client;
pub mod session;
pub mod notif;
pub mod dispatch;
