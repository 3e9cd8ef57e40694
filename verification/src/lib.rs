//! The verified core of a local network media server: the settings it runs
//! with, the listing of the files under its media folder, and the decisions
//! taken when one of them is streamed to a client.

pub mod config;
pub mod state;
pub mod extension;
pub mod media;
pub mod paths;
pub mod sequences;
pub mod content;
pub mod stream;
pub mod api;
