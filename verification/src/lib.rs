//! DNS subdomain management for game servers: record templates, provider
//! request shapes and the decisions of the subdomain lifecycle.

pub mod text;
pub mod ipaddr;
pub mod ids;
pub mod providers;
pub mod settings;
pub mod records;
pub mod blacklist;
pub mod service;
pub mod model;
pub mod routes;
pub mod db;
pub mod extension;

pub use extension::ExtensionStruct;
