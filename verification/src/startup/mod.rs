//! What the client does once, when it has found its server.

pub mod auth;
