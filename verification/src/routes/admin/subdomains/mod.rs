//! Routes over every subdomain of the panel.
pub mod delete;
