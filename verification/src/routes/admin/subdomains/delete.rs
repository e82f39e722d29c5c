//! Deleting any subdomain as an admin.
use vstd::prelude::*;

verus! {

/// Query parameters of the subdomain deletion.
#[derive(Clone, Copy, Debug, Default, PartialEq, Eq, Structural)]
pub struct Params {
    /// Delete the row even if remote record deletion fails.
    pub force: bool,
}

} // verus!
