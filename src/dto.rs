//! Plain values exchanged with the HTTP layer.
use vstd::prelude::*;

verus! {

/// The identifier of a newly stored house, in hexadecimal.
pub struct HouseDTOInserted {
    pub id: String,
}

/// The fields of a stored house that a client may change.
pub struct UpdateHouseDTO {
    pub comment: Option<String>,
    pub vote: Option<i32>,
}

/// The query of a discovery request: the page to read.
pub struct DiscoverQueryParameter {
    pub url: String,
}

} // verus!
