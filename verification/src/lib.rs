//! A forwarder between websocket clients and a speech recognition service.

pub mod basic_auth;
pub mod callback;
pub mod config;
pub mod content_type;
pub mod encoding;
pub mod error;
pub mod forwarder;
pub mod logging;
pub mod message;
pub mod session;
pub mod text;
