//! What the client says to the server and to the providers, as plain
//! values. Sending it is the program's part.

pub mod api;
pub mod events;
pub mod providers;
