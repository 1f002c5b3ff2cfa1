//! Plain data that the client exchanges with the server.

pub mod agent;
pub mod models;
