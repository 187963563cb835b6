//! Saved houses: the values stored for each, and the decisions the store's
//! answers lead to. The store itself is reached by the caller.
use vstd::prelude::*;
use crate::numeric::Decimal;
use crate::dto::HouseDTOInserted;

verus! {

/// A house as a client submits it for saving.
pub struct HouseDTOInsert {
    pub link: String,
    pub vote: Option<u8>,
    pub comment: Option<String>,
    pub city: Option<String>,
    pub zone: Option<String>,
    pub street: Option<String>,
    pub lat: Option<Decimal>,
    pub lng: Option<Decimal>,
    pub rooms_number: Option<u8>,
    pub square_meters: Option<u32>,
}

/// A house as it is stored; `id` is the store's identifier in hexadecimal.
pub struct HouseEntity {
    pub id: String,
    pub link: String,
    pub vote: Option<u8>,
    pub comment: Option<String>,
    pub removed: bool,
    pub city: Option<String>,
    pub zone: Option<String>,
    pub street: Option<String>,
    pub lat: Option<Decimal>,
    pub lng: Option<Decimal>,
    pub rooms_number: Option<u8>,
    pub square_meters: Option<u32>,
}

/// A stored house as a client sees it.
pub struct HouseDTO {
    pub id: String,
    pub link: String,
    pub vote: Option<u8>,
    pub comment: Option<String>,
    pub city: Option<String>,
    pub zone: Option<String>,
    pub street: Option<String>,
    pub lat: Option<Decimal>,
    pub lng: Option<Decimal>,
    pub rooms_number: Option<u8>,
    pub square_meters: Option<u32>,
}

/// Why a request on saved houses failed.
#[derive(Debug)]
pub enum HousesServiceError {
    /// No house has this identifier.
    HouseNotFound(String),
    /// The store did not answer an insertion with an object identifier.
    UnExpectedMongoDbType,
}

/// `d` shows every field of `e` but the removal flag.
pub open spec fn shows(d: HouseDTO, e: HouseEntity) -> bool {
    &&& d.id == e.id
    &&& d.link == e.link
    &&& d.vote == e.vote
    &&& d.comment == e.comment
    &&& d.city == e.city
    &&& d.zone == e.zone
    &&& d.street == e.street
    &&& d.lat == e.lat
    &&& d.lng == e.lng
    &&& d.rooms_number == e.rooms_number
    &&& d.square_meters == e.square_meters
}

impl HouseEntity {
    /// The entity to store for `h` under the fresh identifier `id`: not removed.
    pub fn from_insert(h: HouseDTOInsert, id: String) -> (e: HouseEntity)
        ensures
            e.id == id,
            e.link == h.link,
            e.vote == h.vote,
            e.comment == h.comment,
            !e.removed,
            e.city == h.city,
            e.zone == h.zone,
            e.street == h.street,
            e.lat == h.lat,
            e.lng == h.lng,
            e.rooms_number == h.rooms_number,
            e.square_meters == h.square_meters,
    {
        HouseEntity {
            id,
            link: h.link,
            vote: h.vote,
            comment: h.comment,
            removed: false,
            city: h.city,
            zone: h.zone,
            street: h.street,
            lat: h.lat,
            lng: h.lng,
            rooms_number: h.rooms_number,
            square_meters: h.square_meters,
        }
    }
}

impl HouseDTO {
    /// What a client sees of the stored `e`: everything but the removal flag.
    pub fn from_entity(e: HouseEntity) -> (d: HouseDTO)
        ensures
            shows(d, e),
    {
        HouseDTO {
            id: e.id,
            link: e.link,
            vote: e.vote,
            comment: e.comment,
            city: e.city,
            zone: e.zone,
            street: e.street,
            lat: e.lat,
            lng: e.lng,
            rooms_number: e.rooms_number,
            square_meters: e.square_meters,
        }
    }
}

/// The answer to an insertion, from the object identifier the store returned, if any.
pub fn inserted(object_id: Option<String>) -> (r: Result<HouseDTOInserted, HousesServiceError>)
    ensures
        match object_id {
            Some(id) => r matches Ok(d) && d.id == id,
            None => r matches Err(HousesServiceError::UnExpectedMongoDbType),
        },
{
    match object_id {
        Some(id) => Ok(HouseDTOInserted { id }),
        None => Err(HousesServiceError::UnExpectedMongoDbType),
    }
}

/// The answer to a removal of `house_id`, from how many houses the store marked removed.
pub fn removal_outcome(house_id: String, modified_count: u64) -> (r: Result<(), HousesServiceError>)
    ensures
        modified_count == 0 ==> (r matches Err(HousesServiceError::HouseNotFound(id)) && id
            == house_id),
        modified_count > 0 ==> r is Ok,
{
    if modified_count == 0 {
        return Err(HousesServiceError::HouseNotFound(house_id));
    }
    Ok(())
}

/// The answer to a lookup of `id`, from the house the store found, if any.
pub fn lookup_outcome(id: String, found: Option<HouseEntity>) -> (r: Result<
    HouseDTO,
    HousesServiceError,
>)
    ensures
        match found {
            Some(e) => r matches Ok(d) && shows(d, e),
            None => r matches Err(HousesServiceError::HouseNotFound(i)) && i == id,
        },
{
    match found {
        Some(e) => Ok(HouseDTO::from_entity(e)),
        None => Err(HousesServiceError::HouseNotFound(id)),
    }
}

/// The answer to an update of `id`, from whether the store found the house.
pub fn update_outcome(id: String, found: bool) -> (r: Result<(), HousesServiceError>)
    ensures
        !found ==> (r matches Err(HousesServiceError::HouseNotFound(i)) && i == id),
        found ==> r is Ok,
{
    if !found {
        return Err(HousesServiceError::HouseNotFound(id));
    }
    Ok(())
}

/// What clients see of the stored houses, in the store's order.
pub fn houses_view(houses: Vec<HouseEntity>) -> (r: Vec<HouseDTO>)
    ensures
        r@.len() == houses@.len(),
        forall|k: int| 0 <= k < r@.len() ==> shows(#[trigger] r@[k], houses@[k]),
{
    let ghost stored = houses@;
    let ghost n = stored.len();
    let mut rest = houses;
    let mut rev: Vec<HouseDTO> = Vec::new();
    while rest.len() > 0
        invariant
            rest@.len() + rev@.len() == n,
            n == stored.len(),
            forall|k: int| 0 <= k < rest@.len() ==> #[trigger] rest@[k] == stored[k],
            forall|k: int| 0 <= k < rev@.len() ==> shows(#[trigger] rev@[k], stored[n - 1 - k]),
        decreases rest@.len(),
    {
        let e = rest.pop().unwrap();
        rev.push(HouseDTO::from_entity(e));
    }
    let mut r: Vec<HouseDTO> = Vec::new();
    while rev.len() > 0
        invariant
            r@.len() + rev@.len() == n,
            n == stored.len(),
            forall|k: int| 0 <= k < rev@.len() ==> shows(#[trigger] rev@[k], stored[n - 1 - k]),
            forall|k: int| 0 <= k < r@.len() ==> shows(#[trigger] r@[k], stored[k]),
        decreases rev@.len(),
    {
        let d = rev.pop().unwrap();
        r.push(d);
    }
    r
}

} // verus!
