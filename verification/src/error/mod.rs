//! The errors of the client's collaborators, each with the message that it
//! shows.

pub mod api;
pub mod discovery;
pub mod events;
pub mod spawn;
