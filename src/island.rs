//! The structured island: a JSON fragment embedded in the page that carries
//! the listing's location. Its decoded shape is held here as plain values.
use vstd::prelude::*;
use crate::numeric::Decimal;
use crate::record::{DiscoveryResult, RecordView, fill, overwrite, text_view, overwrite_text, fill_value};
use crate::text::{chars_of, string_of};

verus! {

/// The decoded island: a listing and its properties.
pub struct MapConfig {
    pub listing: Listing,
}

pub struct Listing {
    pub properties: Vec<Property>,
}

pub struct Property {
    pub location: Option<Location>,
}

pub struct Location {
    pub latitude: Option<Decimal>,
    pub longitude: Option<Decimal>,
    pub address: Option<String>,
    pub street_number: Option<String>,
    pub microzone: Option<MicroZone>,
    pub city: Option<MicroZone>,
}

pub struct MicroZone {
    pub name: Option<String>,
}

/// The location of the last property of the island, where there is one.
pub open spec fn selected_location(island: Option<MapConfig>) -> Option<Location> {
    match island {
        Some(mc) => if mc.listing.properties@.len() > 0 {
            mc.listing.properties@.last().location
        } else {
            None
        },
        None => None,
    }
}

pub open spec fn name_of(z: Option<MicroZone>) -> Option<Seq<char>> {
    match z {
        Some(z) => text_view(z.name),
        None => None,
    }
}

/// `"{address}, {streetNumber}"`, when both parts are there.
pub open spec fn street_of(l: Location) -> Option<Seq<char>> {
    match (l.address, l.street_number) {
        (Some(a), Some(n)) => Some(a@ + seq![',', ' '] + n@),
        _ => None,
    }
}

/// The record after the island's findings are merged: city, zone and street
/// overwrite, the coordinates only fill what is absent.
pub open spec fn structured(island: Option<MapConfig>, r: RecordView) -> RecordView {
    match selected_location(island) {
        None => r,
        Some(l) => RecordView {
            city: overwrite(r.city, name_of(l.city)),
            zone: overwrite(r.zone, name_of(l.microzone)),
            street: overwrite(r.street, street_of(l)),
            lat: fill(r.lat, l.latitude),
            lng: fill(r.lng, l.longitude),
            ..r
        },
    }
}

fn take_name(z: Option<MicroZone>) -> (r: Option<String>)
    ensures
        text_view(r) == name_of(z),
{
    match z {
        Some(z) => z.name,
        None => None,
    }
}

fn join_street(address: Option<String>, number: Option<String>) -> (r: Option<String>)
    ensures
        text_view(r) == match (address, number) {
            (Some(a), Some(n)) => Some(a@ + seq![',', ' '] + n@),
            _ => None::<Seq<char>>,
        },
{
    match (address, number) {
        (Some(a), Some(n)) => {
            let mut cs = chars_of(a.as_str());
            cs.push(',');
            cs.push(' ');
            let mut tail = chars_of(n.as_str());
            cs.append(&mut tail);
            Some(string_of(cs.as_slice()))
        },
        _ => None,
    }
}

/// Merges the island's location into `r`.
pub fn extract_data(island: Option<MapConfig>, r: &mut DiscoveryResult)
    ensures
        final(r)@ == structured(island, old(r)@),
{
    let ghost whole = island;
    let mut mc = match island {
        None => return,
        Some(mc) => mc,
    };
    let p = match mc.listing.properties.pop() {
        None => return,
        Some(p) => p,
    };
    let location = match p.location {
        None => return,
        Some(location) => location,
    };
    assert(selected_location(whole) == Some(location));
    let street = join_street(location.address, location.street_number);
    overwrite_text(&mut r.city, take_name(location.city));
    fill_value(&mut r.lat, location.latitude);
    fill_value(&mut r.lng, location.longitude);
    overwrite_text(&mut r.street, street);
    overwrite_text(&mut r.zone, take_name(location.microzone));
}

} // verus!
