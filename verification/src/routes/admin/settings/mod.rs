//! Routes of the extension settings.
pub mod put;
