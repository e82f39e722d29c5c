//! The per-server subdomain limit the extension keeps on servers.
use vstd::prelude::*;
use crate::text::{chars_of, extend_chars, string_of};

verus! {

/// The extension's columns on `servers` - a per-server subdomain cap.
#[derive(Clone, Copy, PartialEq, Eq, Structural, Debug)]
pub struct ServerExtensionData {
    pub subdomain_limit: i32,
}

/// The extension's model extension on servers: its name, and the column it
/// adds to server queries.
#[derive(Clone, Copy, Debug, Default)]
pub struct ServerExtension;

impl ServerExtension {
    /// The name the extension data is registered under.
    pub fn extension_name(&self) -> (res: &'static str)
        ensures
            res@ == "dev.caloptreyx.subdomains"@,
    {
        "dev.caloptreyx.subdomains"
    }

    /// The selected column.
    pub fn column(&self) -> (res: &'static str)
        ensures
            res@ == "servers.subdomain_limit"@,
    {
        "servers.subdomain_limit"
    }

    /// The alias the column is selected under: `{prefix}subdomain_limit`.
    pub fn column_alias(&self, prefix: &str) -> (res: String)
        ensures
            res@ == prefix@ + "subdomain_limit"@,
    {
        let mut text = chars_of(prefix);
        extend_chars(&mut text, &chars_of("subdomain_limit"));
        string_of(&text)
    }

    /// The columns added to server queries: the limit column under its
    /// prefixed alias.
    pub fn extended_columns(&self, prefix: &str) -> (res: Vec<(&'static str, String)>)
        ensures
            res@.len() == 1,
            res@[0].0@ == "servers.subdomain_limit"@,
            res@[0].1@ == prefix@ + "subdomain_limit"@,
    {
        let mut columns: Vec<(&'static str, String)> = Vec::new();
        columns.push((self.column(), self.column_alias(prefix)));
        columns
    }
}

/// Extension fields on the server feature limits. `subdomains` is optional
/// so clients unaware of the extension don't reset the limit on updates.
#[derive(Clone, Copy, PartialEq, Eq, Structural, Debug)]
pub struct ExtendedApiServerFeatureLimits {
    pub subdomains: Option<i32>,
}

/// `max(v, 0)`.
pub open spec fn non_negative(v: i32) -> i32 {
    if v < 0 {
        0
    } else {
        v
    }
}

/// The limit stored for a new server: the payload's `subdomains`, else the
/// configured default limit, else 0 - never negative.
pub open spec fn spec_create_limit(requested: Option<i32>, default_limit: Option<i32>) -> i32 {
    match requested {
        Some(v) => non_negative(v),
        None => match default_limit {
            Some(d) => non_negative(d),
            None => 0,
        },
    }
}

/// The limit stored for a new server (the column is NOT NULL - a value is
/// always written).
pub fn create_limit(requested: Option<i32>, default_limit: Option<i32>) -> (res: i32)
    ensures
        res == spec_create_limit(requested, default_limit),
        res >= 0,
{
    let limit = match requested {
        Some(v) => v,
        None => match default_limit {
            Some(d) => d,
            None => 0,
        },
    };
    if limit < 0 {
        0
    } else {
        limit
    }
}

/// The limit written on a server update: only when the client sent
/// `subdomains` (absent stays distinct from 0), never negative.
pub fn update_limit(requested: Option<i32>) -> (res: Option<i32>)
    ensures
        match requested {
            Some(v) => res == Some(non_negative(v)),
            None => res is None,
        },
{
    match requested {
        Some(v) => Some(if v < 0 { 0 } else { v }),
        None => None,
    }
}

/// The feature limits exposed for a server with these extension columns.
pub fn feature_limits(data: &ServerExtensionData) -> (res: ExtendedApiServerFeatureLimits)
    ensures
        res.subdomains == Some(data.subdomain_limit),
{
    ExtendedApiServerFeatureLimits { subdomains: Some(data.subdomain_limit) }
}

/// Reads a server's configured subdomain limit from its extension data.
pub fn subdomain_limit(data: &ServerExtensionData) -> (res: i32)
    ensures
        res == data.subdomain_limit,
{
    data.subdomain_limit
}

/// Whether a server with `count` subdomains has reached `limit`.
pub fn limit_reached(count: i64, limit: i32) -> (res: bool)
    ensures
        res == (count >= limit),
{
    count >= limit as i64
}

} // verus!
