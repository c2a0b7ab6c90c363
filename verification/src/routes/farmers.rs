//! Farmer API: the search query and its default page. The acting farmer of
//! a farmer route is the address of its bearer session (`auth::extractor`).
use vstd::prelude::*;

verus! {

/// Query of `GET /api/v1/farmers`.
pub struct SearchFarmersQuery {
    pub q: Option<String>,
    pub page: i64,
    pub page_size: i64,
}

/// The page asked for when none is given.
pub fn default_page() -> (r: i64)
    ensures
        r == 1,
{
    1
}

/// The page size asked for when none is given.
pub fn default_page_size() -> (r: i64)
    ensures
        r == 20,
{
    20
}

} // verus!
