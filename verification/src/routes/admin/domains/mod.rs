//! Routes of the configured domains.
pub mod _domain_;
pub mod post;
