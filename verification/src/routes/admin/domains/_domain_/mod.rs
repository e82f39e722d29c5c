//! Routes of one domain, addressed by its UUID.
pub mod delete;
pub mod patch;

use vstd::prelude::*;
use crate::ids::{segment_uuid, uuid_parse};

verus! {

/// The domain UUID of a request: the first path segment, if it parses.
pub fn domain_uuid(segments: &[String]) -> (res: Option<u128>)
    ensures
        res == (if segments@.len() > 0 {
            uuid_parse(segments@[0]@)
        } else {
            None
        }),
{
    segment_uuid(segments, 0)
}

} // verus!
