//! Routes of a server's subdomains.
pub mod _subdomain_;
