//! The published-file-service interface group.

use vstd::prelude::*;

pub mod get_details;

verus! {

/// Name of the remote interface that this group's endpoints belong to.
pub open spec fn spec_interface() -> Seq<char> {
    "IPublishedFileService"@
}

/// The remote interface name, as the URL path carries it.
pub fn interface() -> (r: &'static str)
    ensures
        r@ == spec_interface(),
{
    "IPublishedFileService"
}

} // verus!
