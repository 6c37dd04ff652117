use vstd::prelude::*;

verus! {

/// The number of route crates the API assembly merges: the app API and the backend API.
pub const ROUTE_CRATE_COUNT: usize = 2;

/// How many route crates the assembled API router is built from.
pub fn assembly_route_count() -> (res: usize)
    ensures
        res == ROUTE_CRATE_COUNT,
{
    ROUTE_CRATE_COUNT
}

} // verus!
