//! The listing record that the extraction passes fill in, and the merge rules
//! by which a pass's findings are folded into it.
use vstd::prelude::*;
use crate::numeric::Decimal;

verus! {

/// What was learned of a listing. Every field may independently be absent.
#[derive(Debug, PartialEq)]
pub struct DiscoveryResult {
    pub city: Option<String>,
    pub zone: Option<String>,
    pub street: Option<String>,
    pub lat: Option<Decimal>,
    pub lng: Option<Decimal>,
    pub rooms_number: Option<u8>,
    pub square_meters: Option<u32>,
    pub cost: Option<u32>,
}

/// The mathematical content of a `DiscoveryResult`.
pub struct RecordView {
    pub city: Option<Seq<char>>,
    pub zone: Option<Seq<char>>,
    pub street: Option<Seq<char>>,
    pub lat: Option<Decimal>,
    pub lng: Option<Decimal>,
    pub rooms_number: Option<u8>,
    pub square_meters: Option<u32>,
    pub cost: Option<u32>,
}

pub open spec fn text_view(o: Option<String>) -> Option<Seq<char>> {
    match o {
        Some(s) => Some(s@),
        None => None,
    }
}

impl View for DiscoveryResult {
    type V = RecordView;

    open spec fn view(&self) -> RecordView {
        RecordView {
            city: text_view(self.city),
            zone: text_view(self.zone),
            street: text_view(self.street),
            lat: self.lat,
            lng: self.lng,
            rooms_number: self.rooms_number,
            square_meters: self.square_meters,
            cost: self.cost,
        }
    }
}

/// The record with every field absent.
pub open spec fn empty_record() -> RecordView {
    RecordView {
        city: None,
        zone: None,
        street: None,
        lat: None,
        lng: None,
        rooms_number: None,
        square_meters: None,
        cost: None,
    }
}

/// Unconditional overwrite: a candidate, when there is one, replaces the current value.
pub open spec fn overwrite<T>(current: Option<T>, candidate: Option<T>) -> Option<T> {
    if candidate is Some {
        candidate
    } else {
        current
    }
}

/// Fill-if-absent: a candidate is taken only where the field holds no value yet.
pub open spec fn fill<T>(current: Option<T>, candidate: Option<T>) -> Option<T> {
    if current is Some {
        current
    } else {
        candidate
    }
}

impl DiscoveryResult {
    /// A record with every field absent.
    pub fn new() -> (r: DiscoveryResult)
        ensures
            r@ == empty_record(),
    {
        DiscoveryResult {
            city: None,
            zone: None,
            street: None,
            lat: None,
            lng: None,
            rooms_number: None,
            square_meters: None,
            cost: None,
        }
    }
}

/// `slot` takes `candidate` when there is one.
pub fn overwrite_text(slot: &mut Option<String>, candidate: Option<String>)
    ensures
        text_view(*final(slot)) == overwrite(text_view(*old(slot)), text_view(candidate)),
{
    if candidate.is_some() {
        *slot = candidate;
    }
}

/// `slot` takes `candidate` when it holds nothing yet.
pub fn fill_text(slot: &mut Option<String>, candidate: Option<String>)
    ensures
        text_view(*final(slot)) == fill(text_view(*old(slot)), text_view(candidate)),
{
    if slot.is_none() {
        *slot = candidate;
    }
}

/// `slot` takes `candidate` when it holds nothing yet.
pub fn fill_value<T>(slot: &mut Option<T>, candidate: Option<T>)
    ensures
        *final(slot) == fill(*old(slot), candidate),
{
    if slot.is_none() {
        *slot = candidate;
    }
}

/// `slot` takes `candidate` when there is one.
pub fn overwrite_value<T>(slot: &mut Option<T>, candidate: Option<T>)
    ensures
        *final(slot) == overwrite(*old(slot), candidate),
{
    if candidate.is_some() {
        *slot = candidate;
    }
}

} // verus!
