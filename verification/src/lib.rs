//! Verified core of a client library for the Common Print Dialog Backends
//! (CPDB) D-Bus protocol: printer states, option and media catalogues,
//! discovery events, saved print-dialog preferences and the backend
//! selection rules of the client.

pub mod text;
pub mod search;
pub mod error;
pub mod types;
pub mod maps;
pub mod proxy;
pub mod options;
pub mod media;
pub mod events;
pub mod config;
pub mod client;
pub mod ffi;
