//! Client-side engine for a remote agent server: event reconciliation,
//! cancellation and permission routing over per-session transcripts.

pub mod json;
pub mod seqs;
pub mod text;
pub mod transcript;
pub mod event;
pub mod session;
pub mod reconciler;
pub mod clock;
pub mod cancellation;
pub mod permission;
pub mod registry;
pub mod decode;
pub mod laws;
pub mod audio;
pub mod error;
pub mod types;
pub mod config;
pub mod auth;
pub mod startup;
pub mod discovery;
pub mod client;
pub mod agents;
pub mod models_dev;
pub mod compose;
pub mod recording;
pub mod tabs;
pub mod presentation;
