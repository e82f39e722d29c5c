//! Routes under the admin API.
pub mod domains;
pub mod settings;
pub mod subdomains;
