//! The extraction pipeline and the discovery service built on it.
use vstd::prelude::*;
use crate::island::{MapConfig, extract_data, structured};
use crate::passes::{
    extract_legacy, extract_planimetry, extract_prices, find_island, island_text, legacy,
    planimetry, planimetry_fails, prices,
};
use crate::record::{DiscoveryResult, RecordView, empty_record};
use crate::text::{chars_of, lines, split_lines};

verus! {

/// Why a listing could not be discovered.
#[derive(Debug)]
pub enum DiscoveryError {
    /// The page could not be fetched, or the answer was not a success; carries the URL.
    NotFound(String),
    /// A planimetry value line does not read as a number.
    InvalidPlanimetry,
}

/// The record that the four passes produce from a document, in order:
/// planimetry, structured island, prices, legacy fallback. `None` when the
/// planimetry pass fails.
pub open spec fn pipeline(text: Seq<char>, island: Option<MapConfig>) -> Option<RecordView> {
    let ls = lines(text);
    if planimetry_fails(ls) {
        None
    } else {
        Some(legacy(ls, prices(ls, structured(island, planimetry(ls, empty_record())))))
    }
}

/// The island's JSON text in `body`, to be decoded into the `island` argument of
/// `extract_listing`.
pub fn island_of(body: &str) -> (r: Option<String>)
    ensures
        match r {
            Some(t) => island_text(lines(body@)) == Some(t@),
            None => island_text(lines(body@)) is None,
        },
{
    let cs = chars_of(body);
    let ls = split_lines(cs.as_slice());
    find_island(&ls)
}

/// Runs the extraction pipeline over `body`, with `island` the decoded island of `body`.
pub fn extract_listing(body: &str, island: Option<MapConfig>) -> (r: Result<
    DiscoveryResult,
    DiscoveryError,
>)
    ensures
        match pipeline(body@, island) {
            Some(v) => r matches Ok(x) && x@ == v,
            None => r matches Err(DiscoveryError::InvalidPlanimetry),
        },
{
    let cs = chars_of(body);
    let ls = split_lines(cs.as_slice());
    let mut r = DiscoveryResult::new();
    if !extract_planimetry(&ls, &mut r) {
        return Err(DiscoveryError::InvalidPlanimetry);
    }
    extract_data(island, &mut r);
    extract_prices(&ls, &mut r);
    extract_legacy(&ls, &mut r);
    Ok(r)
}

/// Discovers listings from fetched pages.
#[derive(Clone, Copy)]
pub struct DiscoveryService;

impl DiscoveryService {
    pub fn new() -> (r: DiscoveryService) {
        DiscoveryService
    }

    /// The island's JSON text in a fetched page.
    pub fn island(&self, body: &str) -> (r: Option<String>)
        ensures
            match r {
                Some(t) => island_text(lines(body@)) == Some(t@),
                None => island_text(lines(body@)) is None,
            },
    {
        island_of(body)
    }

    /// The listing at `url`, from the page fetched there: `success` tells whether the
    /// fetch answered with a success status, `body` is the page, `island` its decoded island.
    pub fn discover(&self, url: &str, success: bool, body: &str, island: Option<MapConfig>) -> (r:
        Result<DiscoveryResult, DiscoveryError>)
        ensures
            !success ==> (r matches Err(DiscoveryError::NotFound(u)) && u@ == url@),
            success ==> match pipeline(body@, island) {
                Some(v) => r matches Ok(x) && x@ == v,
                None => r matches Err(DiscoveryError::InvalidPlanimetry),
            },
    {
        if !success {
            return Err(DiscoveryError::NotFound(url.to_owned()));
        }
        extract_listing(body, island)
    }
}

} // verus!
