//! Registration, sign-in and administration logic of the symposium web client.
//!
//! The browser shell (rendering, HTTP transport, persistent storage) lives
//! outside this library and hands it plain values.
pub mod api;
pub mod auth;
pub mod display;
pub mod forms;
pub mod json;
pub mod routes;
pub mod types;
pub mod utils;
