//! Decisions of the HTTP routes, laid out like the routes themselves.
pub mod admin;
pub mod server;
