//! Routes of one of the server's subdomains, addressed by its UUID.
pub mod delete;

use vstd::prelude::*;
use crate::db::Subdomain;
use crate::ids::{segment_uuid, uuid_parse};

verus! {

/// The subdomain UUID of a request: the second path segment (after the
/// server), if it parses.
pub fn subdomain_uuid(segments: &[String]) -> (res: Option<u128>)
    ensures
        res == (if segments@.len() > 1 {
            uuid_parse(segments@[1]@)
        } else {
            None
        }),
{
    segment_uuid(segments, 1)
}

/// The subdomain a server route acts on: the row that was found, provided it
/// belongs to the server; another server's subdomain is not found.
pub fn owned_subdomain(found: Option<Subdomain>, server_uuid: u128) -> (res: Option<Subdomain>)
    ensures
        match found {
            Some(s) => if s.server_uuid == server_uuid {
                res == Some(s)
            } else {
                res is None
            },
            None => res is None,
        },
{
    match found {
        Some(s) => if s.server_uuid == server_uuid {
            Some(s)
        } else {
            None
        },
        None => None,
    }
}

} // verus!
